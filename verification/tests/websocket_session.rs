use punytunes::errors::PunyTunesError;
use punytunes::messaging::SerializableLevel;
use punytunes::streammagic_manager::websocket_client::{
    ClientEffect, ConnectOutcome, SocketMessage, WSClientRxChannelMsg, WSClientTxChannelMsg,
    WebSocketClient, WebSocketClientAction, WebSocketClientConnectedDetails,
    WebSocketClientDisconnectedDetails, WebSocketClientStatus,
};

const URL: &str = "ws://192.168.1.10:80/smoip";

fn log(level: SerializableLevel, message: &str) -> ClientEffect {
    ClientEffect::Log(level, String::from(message))
}

fn tell(status: WebSocketClientStatus) -> ClientEffect {
    ClientEffect::Tell(WSClientTxChannelMsg::WebSocketClientStatusMsg(status))
}

fn connected(existing: bool) -> WebSocketClientStatus {
    WebSocketClientStatus::Connected(WebSocketClientConnectedDetails {
        url: String::from(URL),
        existing,
    })
}

fn disconnected(reason: Option<&str>, consider_reconnecting: bool) -> WebSocketClientStatus {
    WebSocketClientStatus::Disconnected(WebSocketClientDisconnectedDetails {
        reason: reason.map(String::from),
        consider_reconnecting,
    })
}

fn action(action: WebSocketClientAction) -> WSClientRxChannelMsg {
    WSClientRxChannelMsg::WebSocketClientActionMsg(action)
}

fn connected_at(now: u64, stop_on_missing_pings: bool) -> WebSocketClient {
    let mut client = WebSocketClient::new(URL, stop_on_missing_pings);
    client.begin_connect();
    client.on_connect_outcome(ConnectOutcome::Connected, now);
    client
}

fn lost() -> ClientEffect {
    ClientEffect::Finish(Err(PunyTunesError::WebSocketClientLostConnection))
}

#[test]
fn a_new_websocket_session_is_disconnected() {
    let client = WebSocketClient::new(URL, false);
    assert_eq!(client.url, URL);
    assert_eq!(client.status, disconnected(None, false));
    assert_eq!(client.status, WebSocketClientStatus::Disconnected(Default::default()));
    assert_eq!(client.connection_timeout_ms, 2000);
    assert_eq!(client.test_connection_pong_timeout_ms, 1000);
    assert_eq!(client.ping_avg.len(), 0);
}

#[test]
fn connecting_is_announced_before_the_attempt() {
    let mut client = WebSocketClient::new(URL, false);
    let effects = client.begin_connect();
    assert_eq!(
        effects,
        vec![
            log(SerializableLevel::Info, "WebSocketClient connecting to ws://192.168.1.10:80/smoip"),
            tell(WebSocketClientStatus::Connecting(String::from(URL))),
            ClientEffect::Connect {
                url: String::from(URL),
                origin: String::from("punytunes"),
                timeout_ms: 2000,
            },
        ]
    );
    assert_eq!(client.status, WebSocketClientStatus::Connecting(String::from(URL)));
}

#[test]
fn a_url_without_a_host_ends_the_session_at_once() {
    let mut client = WebSocketClient::new("smoip", false);
    let effects = client.begin_connect();
    assert_eq!(
        effects,
        vec![
            log(SerializableLevel::Info, "WebSocketClient connecting to smoip"),
            tell(WebSocketClientStatus::Connecting(String::from("smoip"))),
            tell(disconnected(Some("URL parsing error: smoip"), false)),
            ClientEffect::Finish(Err(PunyTunesError::WebSocket(String::from(
                "URL parsing error: smoip"
            )))),
        ]
    );
    assert_eq!(client.status, disconnected(Some("URL parsing error: smoip"), false));
}

#[test]
fn a_fresh_connection_is_reported_as_not_existing() {
    let mut client = WebSocketClient::new(URL, false);
    client.begin_connect();
    let effects = client.on_connect_outcome(ConnectOutcome::Connected, 7_000);
    assert_eq!(effects, vec![tell(connected(false))]);
    assert_eq!(client.status, connected(false));
    assert_eq!(client.last_ping_time, 7_000);
}

#[test]
fn a_refused_websocket_ends_the_session_with_the_reason() {
    let mut client = WebSocketClient::new(URL, false);
    client.begin_connect();
    let effects =
        client.on_connect_outcome(ConnectOutcome::Failed(String::from("No route to host")), 7_000);
    assert_eq!(
        effects,
        vec![
            log(
                SerializableLevel::Warn,
                "WebSocketClient connection error: No route to host"
            ),
            tell(WebSocketClientStatus::disconnected(
                Some(String::from("WebSocketClient connection error: No route to host")),
                false
            )),
            ClientEffect::Finish(Err(PunyTunesError::WebSocket(String::from(
                "WebSocketClient connection error: No route to host"
            )))),
        ]
    );
    assert_eq!(
        client.status,
        WebSocketClientStatus::disconnected(
            Some(String::from("WebSocketClient connection error: No route to host")),
            false
        )
    );
}

#[test]
fn a_websocket_that_takes_too_long_to_open_ends_the_session() {
    let mut client = WebSocketClient::new(URL, false);
    client.begin_connect();
    let effects = client.on_connect_outcome(ConnectOutcome::TimedOut, 9_000);
    assert_eq!(
        effects,
        vec![
            log(SerializableLevel::Warn, "WebSocketClient connection timed out"),
            tell(WebSocketClientStatus::disconnected(
                Some(String::from("WebSocketClient connection timed out")),
                false
            )),
            ClientEffect::Finish(Err(PunyTunesError::WebSocketTimeout)),
        ]
    );
    assert_eq!(
        client.status,
        WebSocketClientStatus::disconnected(
            Some(String::from("WebSocketClient connection timed out")),
            false
        )
    );
}

#[test]
fn text_passes_in_both_directions() {
    let mut client = connected_at(0, false);
    let effects = client.on_command(WSClientRxChannelMsg::DataMsg(String::from("{\"a\":1}")), 10);
    assert_eq!(effects, vec![ClientEffect::SendText(String::from("{\"a\":1}"))]);
    let effects = client.on_socket_message(SocketMessage::Text(String::from("{\"b\":2}")), 20);
    assert_eq!(
        effects,
        vec![ClientEffect::Tell(WSClientTxChannelMsg::DataMsg(String::from("{\"b\":2}")))]
    );
    assert_eq!(client.status, connected(false));
}

#[test]
fn a_test_on_a_healthy_connection_ends_with_an_existing_connection() {
    let mut client = connected_at(0, false);
    let effects = client.on_command(action(WebSocketClientAction::TestConnection), 5_000);
    assert_eq!(
        effects,
        vec![
            ClientEffect::SendPing(String::from("PING")),
            tell(WebSocketClientStatus::TestingConnection),
        ]
    );
    assert_eq!(client.status, WebSocketClientStatus::TestingConnection);
    assert_eq!(client.test_connection_ping_time, 5_000);

    assert_eq!(client.on_tick(5_900), vec![]);
    let effects = client.on_socket_message(SocketMessage::Pong, 5_950);
    assert_eq!(effects, vec![tell(connected(true))]);
    assert_eq!(client.status, connected(true));
    assert_eq!(client.on_tick(9_000), vec![]);
}

#[test]
fn a_test_on_a_dead_connection_ends_the_session_after_one_second() {
    let mut client = connected_at(0, false);
    client.on_command(action(WebSocketClientAction::TestConnection), 5_000);
    assert_eq!(client.on_tick(6_000), vec![]);
    let effects = client.on_tick(6_001);
    assert_eq!(
        effects,
        vec![
            log(SerializableLevel::Warn, "WebSocketClient test failed (pong timeout)"),
            tell(disconnected(Some("pong timeout"), true)),
            ClientEffect::Close,
            lost(),
        ]
    );
    assert_eq!(client.status, disconnected(Some("pong timeout"), true));
}

#[test]
fn a_pong_outside_a_test_changes_nothing() {
    let mut client = connected_at(0, false);
    assert_eq!(client.on_socket_message(SocketMessage::Pong, 10), vec![]);
    assert_eq!(client.status, connected(false));
}

#[test]
fn a_test_without_a_connection_repeats_the_status() {
    let mut client = WebSocketClient::new(URL, false);
    client.begin_connect();
    let effects = client.on_command(action(WebSocketClientAction::TestConnection), 10);
    assert_eq!(effects, vec![tell(WebSocketClientStatus::Connecting(String::from(URL)))]);
    assert_eq!(client.status, WebSocketClientStatus::Connecting(String::from(URL)));
}

#[test]
fn a_shutdown_ends_the_session_without_a_reason() {
    let mut client = connected_at(0, false);
    let effects = client.on_command(action(WebSocketClientAction::ShutDown), 10);
    assert_eq!(
        effects,
        vec![
            log(SerializableLevel::Info, "WebSocketClient shutting down"),
            tell(disconnected(None, false)),
            ClientEffect::Close,
            ClientEffect::Finish(Ok(())),
        ]
    );
    assert_eq!(client.status, disconnected(None, false));
}

#[test]
fn a_close_by_the_streamer_ends_the_session_and_may_be_mended() {
    let mut client = connected_at(0, false);
    let effects = client.on_socket_message(SocketMessage::Close, 10);
    assert_eq!(
        effects,
        vec![
            log(SerializableLevel::Warn, "WebSocket connection closed by server"),
            tell(disconnected(Some("closed by server"), true)),
            ClientEffect::Close,
            ClientEffect::Finish(Err(PunyTunesError::WebSocketConnectionClosed)),
        ]
    );
}

#[test]
fn a_failed_websocket_read_ends_the_session_with_the_reason() {
    let mut client = connected_at(0, false);
    let effects = client.on_read_error("broken pipe");
    let reason = "Could not read next item from WebSocket server stream: broken pipe";
    assert_eq!(
        effects,
        vec![
            log(SerializableLevel::Warn, reason),
            tell(disconnected(Some(reason), true)),
            ClientEffect::Close,
            ClientEffect::Finish(Err(PunyTunesError::WebSocket(String::from(reason)))),
        ]
    );
}

#[test]
fn a_failed_read_during_a_test_is_a_lost_connection() {
    let mut client = connected_at(0, false);
    client.on_command(action(WebSocketClientAction::TestConnection), 10);
    let effects = client.on_read_error("broken pipe");
    let reason = "WebSocketClient test failed (message read error: broken pipe)";
    assert_eq!(
        effects,
        vec![
            log(SerializableLevel::Warn, reason),
            tell(disconnected(Some(reason), true)),
            ClientEffect::Close,
            lost(),
        ]
    );
}

#[test]
fn other_messages_are_logged_and_passed_over() {
    let mut client = connected_at(0, false);
    let effects = client.on_socket_message(SocketMessage::Other(String::from("Binary")), 10);
    assert_eq!(
        effects,
        vec![log(SerializableLevel::Warn, "Ignoring unexpected WebSocket message type: Binary")]
    );
}

#[test]
fn the_first_ping_is_not_counted() {
    let mut client = connected_at(0, true);
    assert_eq!(client.on_socket_message(SocketMessage::Ping, 4_000), vec![]);
    assert_eq!(client.ping_avg.len(), 0);
    assert!(client.have_ignored_first_ping);
    assert_eq!(client.last_ping_time, 4_000);
    client.on_socket_message(SocketMessage::Ping, 34_999);
    assert_eq!(client.ping_avg.len(), 1);
    assert_eq!(client.ping_avg.sum(), 30);
}

#[test]
fn the_average_looks_back_on_ten_intervals() {
    let mut client = connected_at(0, true);
    for ping in 0u64..=14 {
        client.on_socket_message(SocketMessage::Ping, ping * ping * 1_000);
    }
    // The intervals are 1, 3, 5, ... 27 seconds; the last ten of them are kept.
    assert_eq!(client.ping_avg.len(), 10);
    assert_eq!(client.ping_avg.sum(), 9 + 11 + 13 + 15 + 17 + 19 + 21 + 23 + 25 + 27);
}

#[test]
fn with_few_pings_the_session_waits_ten_minutes_for_the_next_one() {
    let mut client = connected_at(0, true);
    client.on_socket_message(SocketMessage::Ping, 1_000);
    client.on_socket_message(SocketMessage::Ping, 31_000);
    client.on_socket_message(SocketMessage::Ping, 61_000);
    assert_eq!(client.ping_avg.len(), 2);
    assert_eq!(client.on_tick(61_000 + 600_999), vec![]);
    let effects = client.on_tick(61_000 + 601_000);
    assert_eq!(
        effects,
        vec![
            log(SerializableLevel::Warn, "WebSocket ping not received in time; connection lost"),
            tell(WebSocketClientStatus::disconnected(
                Some(String::from("WebSocket ping not received in time; connection lost")),
                true
            )),
            ClientEffect::Close,
            lost(),
        ]
    );
    assert_eq!(
        client.status,
        WebSocketClientStatus::disconnected(
            Some(String::from("WebSocket ping not received in time; connection lost")),
            true
        )
    );
}

#[test]
fn with_three_intervals_the_session_waits_five_quarters_of_their_average() {
    let mut client = connected_at(0, true);
    for ping in 0u64..=3 {
        client.on_socket_message(SocketMessage::Ping, ping * 30_000);
    }
    assert_eq!(client.ping_avg.len(), 3);
    // The average is 30 seconds, so that 37 whole seconds are within the limit and 38 are not.
    assert_eq!(client.on_tick(90_000 + 37_999), vec![]);
    let effects = client.on_tick(90_000 + 38_000);
    assert_eq!(effects.last(), Some(&lost()));
}

#[test]
fn a_session_that_does_not_watch_the_pings_never_misses_them() {
    let mut client = connected_at(0, false);
    for ping in 0u64..=3 {
        client.on_socket_message(SocketMessage::Ping, ping * 30_000);
    }
    assert_eq!(client.on_tick(90_000_000), vec![]);
}

#[test]
fn a_clock_before_the_last_ping_ends_a_watching_session() {
    let mut client = connected_at(50_000, true);
    let effects = client.on_tick(49_999);
    assert_eq!(
        effects,
        vec![
            log(SerializableLevel::Error, "Could not determine last WebSocket ping duration"),
            tell(WebSocketClientStatus::disconnected(
                Some(String::from("Could not determine last WebSocket ping duration")),
                true
            )),
            ClientEffect::Close,
            ClientEffect::Finish(Err(PunyTunesError::WebSocket(String::from(
                "Could not determine last WebSocket ping duration"
            )))),
        ]
    );
}

#[test]
fn every_end_of_a_session_is_told_to_the_manager_first() {
    let told_before_the_end = |effects: &[ClientEffect]| {
        let end = effects.iter().position(|effect| matches!(effect, ClientEffect::Finish(_)));
        let told = effects.iter().position(|effect| {
            matches!(
                effect,
                ClientEffect::Tell(WSClientTxChannelMsg::WebSocketClientStatusMsg(
                    WebSocketClientStatus::Disconnected(_)
                ))
            )
        });
        matches!((told, end), (Some(told), Some(end)) if told < end)
    };
    let mut client = WebSocketClient::new("no url", false);
    assert!(told_before_the_end(&client.begin_connect()));
    let mut client = WebSocketClient::new(URL, false);
    client.begin_connect();
    assert!(told_before_the_end(&client.on_connect_outcome(ConnectOutcome::TimedOut, 10)));
    assert!(told_before_the_end(&connected_at(0, false).on_read_error("reset")));
    assert!(told_before_the_end(
        &connected_at(0, false).on_socket_message(SocketMessage::Close, 10)
    ));
    assert!(told_before_the_end(&connected_at(0, true).on_tick(700_000)));
    assert!(told_before_the_end(&connected_at(50_000, true).on_tick(10)));
    assert!(told_before_the_end(&connected_at(0, false).on_command(
        WSClientRxChannelMsg::WebSocketClientActionMsg(WebSocketClientAction::ShutDown),
        10
    )));
}
