use punytunes::messaging::{AppLog, AppMessageType, SerializableLevel};
use punytunes::streammagic_manager::discovery::StreamMagicDevice;
use punytunes::streammagic_manager::payloads::{
    QueueInfo, StreamerPayload, StreamerPayloadCache, StreamerQueueInfo, StreamerSystemPower,
    StreamerZonePosition, SystemPower, WithZone, WithoutZone, ZonePosition,
};
use punytunes::streammagic_manager::websocket_client::{
    ClientEffect, ConnectOutcome, WSClientRxChannelMsg, WSClientTxChannelMsg, WebSocketClient,
    WebSocketClientAction, WebSocketClientConnectedDetails, WebSocketClientDisconnectedDetails,
    WebSocketClientStatus,
};
use punytunes::streammagic_manager::{
    backoff_delay, Decoding, RetryBudget, StreamMagicManager, StreamMagicManagerAction,
    StreamMagicManagerChannelMsg, StreamMagicManagerStateMsg, StreamerAction,
    StreamerManagerEffect,
};

const URL: &str = "ws://192.168.1.10:80/smoip";

fn streamer(name: &str, udn: &str, url: &str) -> StreamMagicDevice {
    StreamMagicDevice {
        friendly_name: String::from(name),
        model: String::from("CXN"),
        model_number: None,
        serial_number: None,
        url: String::from(url),
        udn: String::from(udn),
        is_activating: false,
        is_active: false,
    }
}

fn cxn() -> StreamMagicDevice {
    streamer("Study", "uuid:cxn-1", "http://192.168.1.10:49152/description.xml")
}

fn connected(existing: bool) -> WebSocketClientStatus {
    WebSocketClientStatus::Connected(WebSocketClientConnectedDetails {
        url: String::from(URL),
        existing,
    })
}

fn disconnected(reason: Option<&str>, consider_reconnecting: bool) -> WebSocketClientStatus {
    WebSocketClientStatus::Disconnected(WebSocketClientDisconnectedDetails {
        reason: reason.map(String::from),
        consider_reconnecting,
    })
}

fn log(level: SerializableLevel, message: &str, when: u64) -> StreamerManagerEffect {
    StreamerManagerEffect::EmitAppLog(AppLog::at(level, message, when as u128))
}

fn send(text: &str) -> StreamerManagerEffect {
    StreamerManagerEffect::SendToSession(WSClientRxChannelMsg::DataMsg(String::from(text)))
}

fn update(path: &str) -> StreamerManagerEffect {
    send(&format!(r#"{{"path": "{path}", "params": {{"update": 1}}}}"#))
}

/// The effects that are neither log entries nor states.
fn commands(effects: &[StreamerManagerEffect]) -> Vec<StreamerManagerEffect> {
    effects
        .iter()
        .filter(|effect| {
            !matches!(
                effect,
                StreamerManagerEffect::EmitAppLog(_) | StreamerManagerEffect::EmitManagerState(_)
            )
        })
        .cloned()
        .collect()
}

fn sleeps(effects: &[StreamerManagerEffect]) -> Vec<u64> {
    effects
        .iter()
        .filter_map(|effect| match effect {
            StreamerManagerEffect::Sleep(millis) => Some(*millis),
            _ => None,
        })
        .collect()
}

fn states(effects: &[StreamerManagerEffect]) -> Vec<StreamMagicManagerStateMsg> {
    effects
        .iter()
        .filter_map(|effect| match effect {
            StreamerManagerEffect::EmitManagerState(state) => Some(state.clone()),
            _ => None,
        })
        .collect()
}

fn active(manager: &StreamMagicManager) -> Vec<String> {
    manager
        .devices
        .iter()
        .filter(|device| device.is_active)
        .map(|device| device.udn.clone())
        .collect()
}

/// A manager whose user interface is ready, so that log entries appear among the effects.
fn ready() -> StreamMagicManager {
    let mut manager = StreamMagicManager::new();
    manager.on_manager_action(StreamMagicManagerAction::OnUIReady, 0);
    manager
}

/// A manager that has found one streamer and holds a fresh connection to it.
fn connected_manager() -> StreamMagicManager {
    let mut manager = ready();
    manager.on_manager_action(StreamMagicManagerAction::ProcessDiscoveredDevice(cxn()), 10);
    manager.on_manager_action(StreamMagicManagerAction::ActivateUdn(String::from("uuid:cxn-1")), 20);
    manager.on_session_status(WebSocketClientStatus::Connecting(String::from(URL)), 30);
    manager.on_session_status(connected(false), 40);
    manager
}

#[test]
fn a_new_manager_knows_nothing() {
    let manager = StreamMagicManager::new();
    assert!(manager.devices.is_empty() && manager.buffered_app_logs.is_empty());
    assert_eq!(manager.last_active_device, None);
    assert!(!manager.is_activating && !manager.is_discovering && !manager.is_testing_connection);
    assert_eq!(manager.activation_timeout, 15_000);
    assert_eq!(manager.ws_client_status, disconnected(None, false));
    assert_eq!(manager.cache, StreamerPayloadCache::new());
}

#[test]
fn the_pauses_double_from_a_tenth_of_a_second_up_to_one_and_a_half_seconds() {
    let pauses: Vec<u64> = (0usize..9).map(backoff_delay).collect();
    assert_eq!(pauses, vec![0, 100, 200, 400, 800, 1500, 1500, 1500, 1500]);
    assert_eq!(backoff_delay(64), 1500);
    assert_eq!(backoff_delay(usize::MAX), 1500);
}

#[test]
fn a_cold_start_with_a_persisted_host_connects_and_subscribes() {
    let mut manager = StreamMagicManager::new();
    let effects = manager.start(Some(String::from("192.168.1.10")), 1_000);
    assert_eq!(
        commands(&effects),
        vec![
            StreamerManagerEffect::StartSession(String::from(URL)),
            StreamerManagerEffect::Discover(false),
        ]
    );
    assert!(manager.is_activating && manager.is_discovering);
    assert_eq!(manager.activation_start, Some(1_000));

    let mut session = WebSocketClient::new(URL, false);
    let announced = session.begin_connect();
    assert_eq!(
        announced[1],
        ClientEffect::Tell(WSClientTxChannelMsg::WebSocketClientStatusMsg(
            WebSocketClientStatus::Connecting(String::from("ws://192.168.1.10:80/smoip"))
        ))
    );
    manager.on_session_status(WebSocketClientStatus::Connecting(String::from(URL)), 1_010);

    let opened = session.on_connect_outcome(ConnectOutcome::Connected, 1_200);
    let status = match &opened[0] {
        ClientEffect::Tell(WSClientTxChannelMsg::WebSocketClientStatusMsg(status)) => {
            status.clone()
        }
        other => panic!("{other:?}"),
    };
    let effects = manager.on_session_status(status, 1_210);
    assert_eq!(
        commands(&effects),
        vec![
            StreamerManagerEffect::PersistHost(String::from("192.168.1.10")),
            update("/presets/list"),
            update("/queue/info"),
            update("/system/info"),
            update("/system/power"),
            update("/system/sources"),
            update("/zone/now_playing"),
            update("/zone/play_state"),
            update("/zone/play_state/position"),
            update("/zone/state"),
            send(r#"{"path": "/queue/list"}"#),
        ]
    );
    assert!(!manager.is_activating);
    assert_eq!(manager.activation_start, None);
    assert_eq!(manager.ws_client_status, connected(false));
}

#[test]
fn a_cold_start_without_a_persisted_host_discovers_and_activates() {
    let mut manager = StreamMagicManager::new();
    let effects = manager.start(None, 1_000);
    assert_eq!(commands(&effects), vec![StreamerManagerEffect::Discover(true)]);
    assert!(!manager.is_activating && manager.is_discovering);
}

#[test]
fn log_entries_wait_for_the_user_interface() {
    let mut manager = StreamMagicManager::new();
    manager.on_manager_action(StreamMagicManagerAction::Discover(false), 5);
    let entry = AppLog::at(SerializableLevel::Warn, "from elsewhere", 7);
    let effects = manager.on_manager_action(StreamMagicManagerAction::EmitAppLog(entry.clone()), 8);
    assert_eq!(effects, vec![]);
    assert_eq!(
        manager.buffered_app_logs,
        vec![AppLog::at(SerializableLevel::Info, "Initiating discovery", 5), entry.clone()]
    );

    let effects = manager.on_manager_action(StreamMagicManagerAction::OnUIReady, 9);
    assert_eq!(
        effects,
        vec![
            StreamerManagerEffect::EmitManagerState(manager.state_msg()),
            StreamerManagerEffect::EmitPayload(AppMessageType::StreamerQueueList),
            StreamerManagerEffect::EmitPayload(AppMessageType::StreamerPresets),
            StreamerManagerEffect::EmitPayload(AppMessageType::StreamerSystemInfo),
            StreamerManagerEffect::EmitPayload(AppMessageType::StreamerSystemPower),
            StreamerManagerEffect::EmitPayload(AppMessageType::StreamerSystemSources),
            StreamerManagerEffect::EmitPayload(AppMessageType::StreamerZoneNowPlaying),
            StreamerManagerEffect::EmitPayload(AppMessageType::StreamerZonePlayState),
            StreamerManagerEffect::EmitPayload(AppMessageType::StreamerZonePosition),
            StreamerManagerEffect::EmitPayload(AppMessageType::StreamerZoneState),
            log(SerializableLevel::Info, "Initiating discovery", 5),
            StreamerManagerEffect::EmitAppLog(entry.clone()),
        ]
    );
    assert!(manager.ui_ready && manager.buffered_app_logs.is_empty());

    let effects = manager.on_manager_action(StreamMagicManagerAction::EmitAppLog(entry.clone()), 10);
    assert_eq!(effects, vec![StreamerManagerEffect::EmitAppLog(entry)]);
    assert!(manager.buffered_app_logs.is_empty());
}

#[test]
fn a_discovery_empties_the_list_of_devices() {
    let mut manager = connected_manager();
    let effects = manager.on_manager_action(StreamMagicManagerAction::Discover(true), 100);
    assert_eq!(
        effects,
        vec![
            log(SerializableLevel::Info, "Initiating discovery", 100),
            StreamerManagerEffect::EmitManagerState(manager.state_msg()),
            StreamerManagerEffect::Discover(true),
        ]
    );
    assert!(manager.devices.is_empty() && manager.is_discovering);
    assert_eq!(manager.last_active_device.clone().map(|device| device.udn), Some(String::from("uuid:cxn-1")));
    manager.on_manager_action(StreamMagicManagerAction::SetIsDiscovering(false), 110);
    assert!(!manager.is_discovering);
}

#[test]
fn a_device_is_listed_once_for_each_udn() {
    let mut manager = ready();
    let effects = manager.on_manager_action(StreamMagicManagerAction::ProcessDiscoveredDevice(cxn()), 10);
    assert_eq!(
        effects,
        vec![
            log(
                SerializableLevel::Info,
                "Processing discovered device: 'Study' (CXN) [uuid:cxn-1]",
                10
            ),
            StreamerManagerEffect::EmitManagerState(manager.state_msg()),
        ]
    );
    let renamed = streamer("Study again", "uuid:cxn-1", "http://192.168.1.99/description.xml");
    manager.on_manager_action(StreamMagicManagerAction::ProcessDiscoveredDevice(renamed), 20);
    let other = streamer("Kitchen", "uuid:cxn-2", "http://192.168.1.11/description.xml");
    manager.on_manager_action(StreamMagicManagerAction::ProcessDiscoveredDevice(other.clone()), 30);
    assert_eq!(manager.devices, vec![cxn(), other]);
}

#[test]
fn a_device_found_while_connected_is_matched_against_the_connection() {
    let mut manager = ready();
    manager.on_manager_action(StreamMagicManagerAction::ConnectToStreamer(String::from("192.168.1.10")), 5);
    manager.on_session_status(connected(false), 6);
    assert_eq!(active(&manager), Vec::<String>::new());
    let other = streamer("Kitchen", "uuid:cxn-2", "http://192.168.1.11/description.xml");
    manager.on_manager_action(StreamMagicManagerAction::ProcessDiscoveredDevice(other), 10);
    assert_eq!(active(&manager), Vec::<String>::new());
    manager.on_manager_action(StreamMagicManagerAction::ProcessDiscoveredDevice(cxn()), 20);
    assert_eq!(active(&manager), vec![String::from("uuid:cxn-1")]);
    assert_eq!(manager.last_active_device.clone().map(|device| device.udn), Some(String::from("uuid:cxn-1")));
}

#[test]
fn an_activation_opens_a_session_to_the_device() {
    let mut manager = ready();
    manager.on_manager_action(StreamMagicManagerAction::ProcessDiscoveredDevice(cxn()), 10);
    let effects = manager.on_message(
        StreamMagicManagerChannelMsg::StreamMagicManagerActionMsg(
            StreamMagicManagerAction::ActivateUdn(String::from("uuid:cxn-1")),
        ),
        20,
    );
    let waiting = StreamMagicManagerStateMsg {
        devices: vec![cxn()],
        is_activating: true,
        is_discovering: false,
        is_testing_connection: false,
        websocket_client_status: disconnected(None, false),
    };
    let opening = StreamMagicManagerStateMsg {
        devices: vec![StreamMagicDevice { is_activating: true, ..cxn() }],
        ..waiting.clone()
    };
    assert_eq!(
        effects,
        vec![
            log(
                SerializableLevel::Info,
                "Activating device (attempt 1 after 0ms delay), with UDN: uuid:cxn-1",
                20
            ),
            StreamerManagerEffect::EmitManagerState(waiting),
            StreamerManagerEffect::Sleep(0),
            log(
                SerializableLevel::Info,
                "Initiating a new WebSocketClient connection to: 192.168.1.10",
                20
            ),
            StreamerManagerEffect::StartSession(String::from(URL)),
            StreamerManagerEffect::EmitManagerState(opening),
        ]
    );
    assert!(manager.is_activating && manager.has_session && manager.has_session_channel);
    assert_eq!(manager.activation_start, Some(20));
    assert_eq!(manager.activation_attempts, 1);
}

#[test]
fn a_connection_ends_the_activation_and_makes_the_device_active() {
    let manager = connected_manager();
    assert!(!manager.is_activating);
    assert_eq!(manager.activation_start, None);
    assert_eq!(manager.activation_attempts, 0);
    assert_eq!(manager.devices, vec![StreamMagicDevice { is_active: true, ..cxn() }]);
    assert_eq!(manager.last_active_device, Some(StreamMagicDevice { is_active: true, ..cxn() }));
    assert_eq!(manager.ws_client_status, connected(false));
}

#[test]
fn among_devices_on_one_host_the_first_becomes_active() {
    let mut manager = ready();
    let twin = streamer("Twin", "uuid:cxn-9", "http://192.168.1.10:8080/other.xml");
    let other = streamer("Kitchen", "uuid:cxn-2", "http://192.168.1.11/description.xml");
    for device in [other, cxn(), twin] {
        manager.on_manager_action(StreamMagicManagerAction::ProcessDiscoveredDevice(device), 10);
    }
    manager.on_manager_action(StreamMagicManagerAction::ActivateUdn(String::from("uuid:cxn-9")), 20);
    assert_eq!(active(&manager), Vec::<String>::new());
    manager.on_session_status(connected(false), 40);
    assert_eq!(active(&manager), vec![String::from("uuid:cxn-1")]);
    assert!(manager.devices.iter().all(|device| !device.is_activating));
}

#[test]
fn an_unknown_udn_ends_the_activation() {
    let mut manager = ready();
    manager.on_manager_action(StreamMagicManagerAction::ProcessDiscoveredDevice(cxn()), 10);
    let effects =
        manager.on_manager_action(StreamMagicManagerAction::ActivateUdn(String::from("uuid:none")), 20);
    assert_eq!(
        effects[effects.len() - 2],
        log(
            SerializableLevel::Error,
            "The device with UDN 'uuid:none' is not in the list of discovered devices",
            20
        )
    );
    assert_eq!(commands(&effects), vec![StreamerManagerEffect::Sleep(0)]);
    assert!(!manager.is_activating);
    assert_eq!(manager.activation_start, None);
}

#[test]
fn a_device_without_a_host_ends_the_activation() {
    let mut manager = ready();
    let lost = streamer("Lost", "uuid:lost", "description.xml");
    manager.on_manager_action(StreamMagicManagerAction::ProcessDiscoveredDevice(lost), 10);
    let effects =
        manager.on_manager_action(StreamMagicManagerAction::ActivateUdn(String::from("uuid:lost")), 20);
    assert_eq!(
        effects[effects.len() - 2],
        log(SerializableLevel::Error, "Could not determine device URL; not activating", 20)
    );
    assert_eq!(commands(&effects), vec![StreamerManagerEffect::Sleep(0)]);
    assert!(!manager.is_activating);
}

#[test]
fn an_activation_that_keeps_failing_is_given_up_after_fifteen_seconds() {
    let mut manager = connected_manager();
    let start: u64 = 10_000;
    let effects = manager.on_session_status(disconnected(Some("closed by server"), true), start);
    assert!(manager.is_activating);
    assert_eq!(manager.activation_start, Some(start));
    let mut pauses = sleeps(&effects);
    assert_eq!(pauses, vec![0]);
    assert!(commands(&effects).contains(&StreamerManagerEffect::StartSession(String::from(URL))));

    // Every attempt waits for its pause and fails after the two seconds that a connection
    // attempt may take.
    let mut now = start + 2_000;
    let mut last = Vec::new();
    for _ in 0..20 {
        manager.on_session_status(WebSocketClientStatus::Connecting(String::from(URL)), now - 2_000);
        // The session tells of its failure before its task ends with the error.
        let told = manager.on_session_status(
            disconnected(Some("WebSocketClient connection timed out"), false),
            now,
        );
        // The failure ends the activation; what is left of it waits for the next attempt.
        assert!(!manager.is_activating);
        assert_eq!(manager.activation_start, None);
        assert_eq!(manager.activation_attempts, 0);
        assert_eq!(
            manager.interrupted,
            Some(RetryBudget { start, attempts: pauses.len() })
        );
        assert!(!manager.has_session && !manager.has_session_channel);
        assert_eq!(sleeps(&told), Vec::<u64>::new());
        assert_eq!(states(&told).len(), 1);
        assert!(!states(&told)[0].is_activating);
        last = manager.on_manager_action(StreamMagicManagerAction::HandleClientError, now);
        let pause = sleeps(&last);
        if pause.is_empty() {
            break;
        }
        assert_eq!(pause.len(), 1);
        assert!(manager.is_activating);
        assert!(commands(&last).contains(&StreamerManagerEffect::StartSession(String::from(URL))));
        now += pause[0] + 2_000;
        pauses.push(pause[0]);
    }
    assert_eq!(pauses, vec![0, 100, 200, 400, 800, 1500, 1500]);
    assert_eq!(now, 28_500);
    assert!(now - start > 15_000);
    assert_eq!(
        last,
        vec![
            log(SerializableLevel::Info, "Client error; retrying last-active device", now),
            log(
                SerializableLevel::Error,
                "Giving up attempting re-activation after 15000ms (made 7 attempts)",
                now
            ),
            StreamerManagerEffect::EmitManagerState(manager.state_msg()),
        ]
    );
    assert!(!manager.is_activating);
    assert_eq!(manager.activation_start, None);
    assert_eq!(manager.activation_attempts, 0);
}

#[test]
fn an_attempt_at_the_end_of_the_budget_is_still_made() {
    let mut manager = connected_manager();
    manager.on_session_status(disconnected(None, true), 10_000);
    let effects = manager.on_manager_action(StreamMagicManagerAction::HandleClientError, 25_000);
    assert_eq!(sleeps(&effects), vec![100]);
    assert!(manager.is_activating);
    let effects = manager.on_manager_action(StreamMagicManagerAction::HandleClientError, 25_001);
    assert_eq!(sleeps(&effects), Vec::<u64>::new());
    assert!(!manager.is_activating);
}

#[test]
fn a_client_error_without_a_last_device_is_not_retried() {
    let mut manager = ready();
    manager.start(Some(String::from("192.168.1.10")), 1_000);
    assert!(manager.is_activating);
    manager.on_session_status(WebSocketClientStatus::Connecting(String::from(URL)), 1_010);
    let failure = disconnected(Some("WebSocketClient connection error: refused"), false);
    manager.on_session_status(failure.clone(), 2_990);
    assert!(!manager.is_activating);
    assert_eq!(manager.interrupted, Some(RetryBudget { start: 1_000, attempts: 0 }));
    let effects = manager.on_manager_action(StreamMagicManagerAction::HandleClientError, 3_000);
    assert_eq!(
        effects,
        vec![
            log(
                SerializableLevel::Info,
                "Client error; not trying again (no last-active device)",
                3_000
            ),
            StreamerManagerEffect::EmitManagerState(StreamMagicManagerStateMsg {
                devices: vec![],
                is_activating: false,
                is_discovering: true,
                is_testing_connection: false,
                websocket_client_status: failure,
            }),
        ]
    );
    assert!(!manager.is_activating);
    assert_eq!(manager.activation_start, None);
    assert_eq!(manager.activation_attempts, 0);
    assert_eq!(manager.interrupted, None);
}

#[test]
fn a_failed_attempt_ends_the_activation_and_keeps_its_budget() {
    let mut manager = ready();
    manager.on_manager_action(StreamMagicManagerAction::ProcessDiscoveredDevice(cxn()), 10);
    manager.on_manager_action(StreamMagicManagerAction::ActivateUdn(String::from("uuid:cxn-1")), 20);
    manager.on_session_status(WebSocketClientStatus::Connecting(String::from(URL)), 30);
    let effects = manager.on_session_status(
        disconnected(Some("WebSocketClient connection error: refused"), false),
        40,
    );
    assert_eq!(commands(&effects), vec![]);
    assert!(!manager.is_activating);
    assert_eq!(manager.activation_start, None);
    assert_eq!(manager.activation_attempts, 0);
    assert_eq!(manager.interrupted, Some(RetryBudget { start: 20, attempts: 1 }));
    assert!(!manager.has_session);
    assert_eq!(states(&effects).len(), 1);
    assert!(!states(&effects)[0].is_activating);

    // Without a device that was active before, the error of the task is not answered by
    // another attempt, and nothing waits any more.
    let effects = manager.on_manager_action(StreamMagicManagerAction::HandleClientError, 50);
    assert_eq!(commands(&effects), vec![]);
    assert!(!manager.is_activating);
    assert_eq!(manager.interrupted, None);

    // With such a device the next attempt goes on where the activation stood.
    let mut manager = connected_manager();
    manager.on_session_status(disconnected(Some("closed by server"), true), 1_000);
    assert!(manager.is_activating);
    assert_eq!((manager.activation_start, manager.activation_attempts), (Some(1_000), 1));
    manager.on_session_status(WebSocketClientStatus::Connecting(String::from(URL)), 1_010);
    manager.on_session_status(disconnected(Some("refused"), false), 1_020);
    assert!(!manager.is_activating);
    assert_eq!(manager.interrupted, Some(RetryBudget { start: 1_000, attempts: 1 }));
    let effects = manager.on_manager_action(StreamMagicManagerAction::HandleClientError, 1_030);
    assert_eq!(sleeps(&effects), vec![100]);
    assert!(manager.is_activating);
    assert_eq!((manager.activation_start, manager.activation_attempts), (Some(1_000), 2));
    assert_eq!(manager.interrupted, None);

    // The same status from a session that had a connection leaves nothing waiting.
    let mut manager = connected_manager();
    manager.on_session_status(disconnected(Some("closed"), false), 80);
    assert!(!manager.is_activating);
    assert_eq!(manager.activation_start, None);
    assert_eq!(manager.interrupted, None);

    // An activation that a user asks for begins anew.
    let mut manager = connected_manager();
    manager.on_session_status(disconnected(Some("closed by server"), true), 1_000);
    manager.on_session_status(WebSocketClientStatus::Connecting(String::from(URL)), 1_010);
    manager.on_session_status(disconnected(Some("refused"), false), 1_020);
    let effects = manager
        .on_manager_action(StreamMagicManagerAction::ActivateUdn(String::from("uuid:cxn-1")), 5_000);
    assert_eq!(sleeps(&effects), vec![0]);
    assert_eq!((manager.activation_start, manager.activation_attempts), (Some(5_000), 1));
    assert_eq!(manager.interrupted, None);
}

#[test]
fn an_activation_that_begins_on_a_connection_never_shows_the_connection() {
    let shows_both = |state: &StreamMagicManagerStateMsg| {
        state.is_activating
            && matches!(state.websocket_client_status, WebSocketClientStatus::Connected(_))
    };
    let mut manager = connected_manager();
    assert!(manager.has_session);
    let effects = manager
        .on_manager_action(StreamMagicManagerAction::ActivateUdn(String::from("uuid:cxn-1")), 100);
    assert!(!states(&effects).is_empty());
    assert!(!states(&effects).iter().any(shows_both));
    assert!(manager.is_activating);
    assert_eq!(manager.ws_client_status, disconnected(None, false));
    assert_eq!(
        commands(&effects),
        vec![
            StreamerManagerEffect::StopSession,
            StreamerManagerEffect::Sleep(0),
            StreamerManagerEffect::StartSession(String::from(URL)),
        ]
    );

    let mut manager = connected_manager();
    let effects = manager.on_manager_action(StreamMagicManagerAction::HandleClientError, 100);
    assert!(!states(&effects).iter().any(shows_both));
    assert!(manager.is_activating);
    assert_eq!(manager.ws_client_status, disconnected(None, false));

    let mut manager = connected_manager();
    let effects = manager.start(Some(String::from("192.168.1.10")), 100);
    assert!(!states(&effects).iter().any(shows_both));
}

#[test]
fn a_session_that_is_stopped_takes_its_connection_and_its_test_with_it() {
    let mut manager = connected_manager();
    manager.on_manager_action(StreamMagicManagerAction::TestConnection, 100);
    assert!(manager.is_testing_connection);
    let effects = manager.on_manager_action(StreamMagicManagerAction::StopWebSocketClient(false), 200);
    assert!(commands(&effects).contains(&StreamerManagerEffect::StopSession));
    assert!(!manager.has_session && !manager.has_session_channel);
    assert!(!manager.is_testing_connection);
    assert_eq!(manager.ws_client_status, disconnected(None, false));
}

#[test]
fn a_discovered_device_is_taken_in_without_a_connection() {
    let mut manager = ready();
    let claimed = StreamMagicDevice { is_active: true, is_activating: true, ..cxn() };
    manager.on_manager_action(StreamMagicManagerAction::ProcessDiscoveredDevice(claimed), 10);
    assert_eq!(manager.devices, vec![cxn()]);
    let other = StreamMagicDevice {
        is_active: true,
        ..streamer("Kitchen", "uuid:cxn-2", "http://192.168.1.11/description.xml")
    };
    manager.on_manager_action(StreamMagicManagerAction::ProcessDiscoveredDevice(other), 20);
    assert_eq!(active(&manager), Vec::<String>::new());
}

#[test]
fn a_test_on_a_healthy_connection_changes_the_status_alone() {
    let mut manager = connected_manager();
    let effects = manager.on_manager_action(StreamMagicManagerAction::TestConnection, 5_000);
    assert_eq!(
        effects,
        vec![
            log(
                SerializableLevel::Debug,
                "Sending TestConnection request to WebSocketClient",
                5_000
            ),
            StreamerManagerEffect::SendToSession(WSClientRxChannelMsg::WebSocketClientActionMsg(
                WebSocketClientAction::TestConnection
            )),
            StreamerManagerEffect::EmitManagerState(manager.state_msg()),
        ]
    );
    assert!(manager.is_testing_connection);

    let effects = manager.on_session_status(WebSocketClientStatus::TestingConnection, 5_010);
    assert_eq!(commands(&effects), vec![]);
    assert!(manager.is_testing_connection);

    let effects = manager.on_session_status(connected(true), 5_100);
    assert_eq!(
        effects,
        vec![
            log(SerializableLevel::Info, "Streamer connection OK", 5_100),
            StreamerManagerEffect::EmitManagerState(manager.state_msg()),
        ]
    );
    assert!(!manager.is_testing_connection && !manager.is_activating);
    assert_eq!(manager.ws_client_status, connected(true));
    assert_eq!(active(&manager), vec![String::from("uuid:cxn-1")]);
}

#[test]
fn a_test_on_a_dead_connection_turns_into_an_activation() {
    let mut manager = connected_manager();
    manager.on_manager_action(StreamMagicManagerAction::TestConnection, 5_000);
    manager.on_session_status(WebSocketClientStatus::TestingConnection, 5_010);
    let effects = manager.on_session_status(disconnected(Some("pong timeout"), true), 6_010);
    assert_eq!(
        commands(&effects),
        vec![
            StreamerManagerEffect::Sleep(0),
            StreamerManagerEffect::StartSession(String::from(URL)),
        ]
    );
    assert!(!manager.is_testing_connection);
    assert!(manager.is_activating);
    assert_eq!(manager.activation_start, Some(6_010));
    assert_eq!(active(&manager), Vec::<String>::new());
    assert_eq!(manager.ws_client_status, disconnected(Some("pong timeout"), true));
    assert_eq!(states(&effects).last(), Some(&manager.state_msg()));
}

#[test]
fn a_test_without_a_connection_activates_the_last_device() {
    let mut manager = connected_manager();
    manager.on_session_status(disconnected(None, false), 50);
    assert!(!manager.is_activating);
    let effects = manager.on_manager_action(StreamMagicManagerAction::TestConnection, 60);
    assert!(commands(&effects).contains(&StreamerManagerEffect::StartSession(String::from(URL))));
    assert!(manager.is_activating && !manager.is_testing_connection);

    let mut fresh = ready();
    let effects = fresh.on_manager_action(StreamMagicManagerAction::TestConnection, 60);
    assert_eq!(
        effects,
        vec![log(
            SerializableLevel::Warn,
            "Cannot perform test; no active WebSocketClient connection, and no known last-seen device to re-activate",
            60
        )]
    );
}

#[test]
fn a_disconnect_that_cannot_be_mended_ends_the_activation() {
    let mut manager = connected_manager();
    let effects = manager.on_session_status(disconnected(None, false), 50);
    assert_eq!(
        effects,
        vec![
            log(
                SerializableLevel::Info,
                "WebSocketClient status: Disconnected",
                50
            ),
            log(SerializableLevel::Info, "WebSocketClient has disconnected with no message", 50),
            StreamerManagerEffect::EmitManagerState(manager.state_msg()),
        ]
    );
    assert!(!manager.is_activating && !manager.has_session && !manager.has_session_channel);
    assert_eq!(active(&manager), Vec::<String>::new());
    assert_eq!(manager.last_active_device.clone().map(|device| device.udn), Some(String::from("uuid:cxn-1")));
}

#[test]
fn actions_reach_the_streamer_only_while_a_connection_stands() {
    let pause = r#"{"path": "/zone/play_control", "params": {"action": "pause"}}"#;
    let manager = ready();
    assert_eq!(manager.on_streamer_action(StreamerAction::Pause), vec![]);

    let mut manager = ready();
    manager.on_manager_action(StreamMagicManagerAction::ProcessDiscoveredDevice(cxn()), 10);
    manager.on_manager_action(StreamMagicManagerAction::ActivateUdn(String::from("uuid:cxn-1")), 20);
    assert!(manager.has_session_channel);
    assert_eq!(manager.on_streamer_action(StreamerAction::Pause), vec![]);
    manager.on_session_status(WebSocketClientStatus::Connecting(String::from(URL)), 30);
    assert_eq!(manager.on_streamer_action(StreamerAction::Pause), vec![]);

    manager.on_session_status(connected(false), 40);
    let effects =
        manager.on_message(StreamMagicManagerChannelMsg::StreamerActionMsg(StreamerAction::Pause), 90);
    assert_eq!(effects, vec![send(pause)]);

    manager.on_manager_action(StreamMagicManagerAction::TestConnection, 100);
    manager.on_session_status(WebSocketClientStatus::TestingConnection, 110);
    assert_eq!(manager.on_streamer_action(StreamerAction::Pause), vec![send(pause)]);

    manager.on_session_status(disconnected(None, false), 120);
    assert_eq!(manager.on_streamer_action(StreamerAction::Pause), vec![]);
}

#[test]
fn deactivating_ends_the_session_and_remembers_the_device() {
    let mut manager = connected_manager();
    let effects = manager.on_manager_action(StreamMagicManagerAction::Deactivate, 100);
    assert_eq!(
        effects,
        vec![
            log(SerializableLevel::Info, "Deactivating currently-active device", 100),
            log(SerializableLevel::Info, "Stopping existing WebSocketClient task", 100),
            StreamerManagerEffect::StopSession,
            log(SerializableLevel::Info, "Deactivation complete", 100),
            StreamerManagerEffect::EmitManagerState(manager.state_msg()),
        ]
    );
    assert_eq!(active(&manager), Vec::<String>::new());
    assert!(!manager.has_session);
    assert_eq!(manager.last_active_device.clone().map(|device| device.udn), Some(String::from("uuid:cxn-1")));
}

#[test]
fn stopping_the_session_can_forget_the_persisted_host() {
    let mut manager = connected_manager();
    let effects = manager.on_manager_action(StreamMagicManagerAction::StopWebSocketClient(true), 100);
    assert_eq!(
        commands(&effects),
        vec![StreamerManagerEffect::StopSession, StreamerManagerEffect::ForgetHost]
    );
    assert_eq!(manager.ws_client_status, disconnected(None, false));
    assert!(!manager.is_activating && !manager.is_testing_connection);

    let mut manager = connected_manager();
    let effects = manager.on_manager_action(StreamMagicManagerAction::StopWebSocketClient(false), 100);
    assert_eq!(commands(&effects), vec![StreamerManagerEffect::StopSession]);
}

#[test]
fn a_shutdown_ends_the_session_and_the_manager() {
    let mut manager = connected_manager();
    let effects = manager.on_manager_action(StreamMagicManagerAction::ShutDown, 100);
    assert_eq!(
        effects,
        vec![
            log(SerializableLevel::Info, "StreamMagicManager shutdown requested", 100),
            log(SerializableLevel::Info, "Stopping existing WebSocketClient task", 100),
            StreamerManagerEffect::StopSession,
            log(SerializableLevel::Info, "StreamMagicManager has ended", 100),
            StreamerManagerEffect::Stop,
        ]
    );
    let effects = manager.on_manager_action(StreamMagicManagerAction::DisconnectFromStreamer, 110);
    assert_eq!(effects, vec![]);
}

// The payloads that the streamer sends

fn power(state: &str) -> StreamerPayload {
    StreamerPayload::SystemPower(StreamerSystemPower(WithoutZone {
        data: SystemPower { power: String::from(state) },
    }))
}

fn position(seconds: i32) -> StreamerPayload {
    StreamerPayload::ZonePosition(StreamerZonePosition(WithZone {
        zone: String::from("ZONE1"),
        data: ZonePosition { position: seconds },
    }))
}

#[test]
fn a_payload_is_kept_and_published() {
    let mut manager = connected_manager();
    let effects =
        manager.process_streammagic_message("/system/power", Decoding::Payload(power("ON")), 100);
    assert_eq!(effects, vec![StreamerManagerEffect::EmitPayload(AppMessageType::StreamerSystemPower)]);
    let mut expected = StreamerPayloadCache::new();
    expected.store(power("ON"));
    assert_eq!(manager.cache, expected);

    let effects = manager.process_streammagic_message(
        "/zone/play_state/position",
        Decoding::Payload(position(12)),
        110,
    );
    assert_eq!(
        effects,
        vec![StreamerManagerEffect::EmitPayload(AppMessageType::StreamerZonePosition)]
    );
    expected.store(position(12));
    assert_eq!(manager.cache, expected);
}

#[test]
fn parameters_that_could_not_be_read_never_replace_a_payload() {
    let mut manager = connected_manager();
    manager.process_streammagic_message("/system/power", Decoding::Payload(power("ON")), 100);
    manager.process_streammagic_message(
        "/zone/play_state/position",
        Decoding::Payload(position(12)),
        100,
    );
    let before = manager.cache.clone();

    let effects = manager.process_streammagic_message(
        "/system/power",
        Decoding::Failed(String::from("missing field `power`")),
        110,
    );
    assert_eq!(
        effects,
        vec![log(
            SerializableLevel::Warn,
            "Could not decode /system/power payload: missing field `power`",
            110
        )]
    );
    let effects = manager.process_streammagic_message(
        "/system/power",
        Decoding::Failed(String::from("Error(\"missing field `data`\", line: 0, column: 0)")),
        120,
    );
    assert_eq!(effects.len(), 1);
    let effects = manager.process_streammagic_message(
        "/zone/play_state/position",
        Decoding::Failed(String::from("invalid type: string \"x\", expected i32")),
        130,
    );
    assert_eq!(
        effects,
        vec![log(
            SerializableLevel::Warn,
            "Could not decode /zone/play_state/position payload: invalid type: string \"x\", expected i32",
            130
        )]
    );
    let effects = manager.process_streammagic_message(
        "/system/power",
        Decoding::Payload(position(1)),
        140,
    );
    assert_eq!(
        effects,
        vec![log(
            SerializableLevel::Warn,
            "Could not decode /system/power payload: payload of another kind",
            140
        )]
    );
    assert_eq!(manager.cache, before);
}

#[test]
fn a_position_without_data_is_passed_over_in_silence() {
    let mut manager = connected_manager();
    manager.process_streammagic_message(
        "/zone/play_state/position",
        Decoding::Payload(position(12)),
        100,
    );
    let before = manager.cache.clone();
    let effects = manager.process_streammagic_message(
        "/zone/play_state/position",
        Decoding::Failed(String::from("Error(\"missing field `data`\", line: 0, column: 0)")),
        110,
    );
    assert_eq!(effects, vec![]);
    assert_eq!(manager.cache, before);
}

#[test]
fn news_of_the_queue_is_answered_by_asking_for_the_queue() {
    let mut manager = connected_manager();
    let info = StreamerQueueInfo(WithoutZone {
        data: QueueInfo {
            ids: Some(vec![4, 5]),
            total: Some(2),
            id_array_token: None,
            play_postition: Some(0),
            play_id: Some(4),
        },
    });
    let effects = manager.process_streammagic_message(
        "/queue/info",
        Decoding::Payload(StreamerPayload::QueueInfo(info.clone())),
        100,
    );
    assert_eq!(effects, vec![send(r#"{"path": "/queue/list"}"#)]);
    assert_eq!(manager.cache.queue_info, Some(info));
}

#[test]
fn answers_to_the_managers_own_messages_are_passed_over() {
    let mut manager = connected_manager();
    let before = manager.cache.clone();
    for path in ["/zone/play_control", "/zone/recall_preset"] {
        let effects = manager.process_streammagic_message(path, Decoding::Payload(power("ON")), 100);
        assert_eq!(effects, vec![]);
        let effects =
            manager.process_streammagic_message(path, Decoding::Failed(String::from("x")), 100);
        assert_eq!(effects, vec![]);
    }
    assert_eq!(manager.cache, before);
}

#[test]
fn an_unknown_path_is_logged() {
    let mut manager = connected_manager();
    let effects =
        manager.process_streammagic_message("/zone/audio", Decoding::Payload(power("ON")), 100);
    assert_eq!(
        effects,
        vec![log(
            SerializableLevel::Warn,
            "Received unhandled StreamMagic message path: /zone/audio",
            100
        )]
    );
    assert_eq!(manager.cache, StreamerPayloadCache::new());
}

#[test]
fn a_message_that_cannot_be_read_is_logged() {
    let mut manager = connected_manager();
    let effects = manager.on_malformed_message("{", "EOF while parsing an object", 100);
    assert_eq!(
        effects,
        vec![log(
            SerializableLevel::Warn,
            "Could not deserialize StreamMagic message; error: EOF while parsing an object :: message: {",
            100
        )]
    );
}

#[test]
fn the_cache_outlives_the_connection() {
    let mut manager = connected_manager();
    manager.process_streammagic_message("/system/power", Decoding::Payload(power("ON")), 100);
    let before = manager.cache.clone();
    manager.on_session_status(disconnected(None, false), 110);
    manager.on_manager_action(StreamMagicManagerAction::Discover(false), 120);
    assert_eq!(manager.cache, before);
}

#[test]
fn whatever_happens_at_most_one_device_is_active() {
    let mut manager = ready();
    let twin = streamer("Twin", "uuid:cxn-9", "http://192.168.1.10:8080/other.xml");
    let other = streamer("Kitchen", "uuid:cxn-2", "http://192.168.1.11/description.xml");
    let mut now: u64 = 0;
    let check = |manager: &StreamMagicManager| {
        assert!(active(manager).len() <= 1);
        if matches!(manager.ws_client_status, WebSocketClientStatus::Connected(_)) {
            assert!(!manager.is_activating);
        }
    };
    let twin = StreamMagicDevice { is_active: true, ..twin };
    let other = StreamMagicDevice { is_active: true, ..other };
    for device in [cxn(), twin, other] {
        now += 10;
        manager.on_manager_action(StreamMagicManagerAction::ProcessDiscoveredDevice(device), now);
        check(&manager);
    }
    let statuses = [
        WebSocketClientStatus::Connecting(String::from(URL)),
        connected(false),
        WebSocketClientStatus::TestingConnection,
        connected(true),
        disconnected(Some("closed by server"), true),
        WebSocketClientStatus::Connecting(String::from(URL)),
        connected(false),
        disconnected(None, false),
        WebSocketClientStatus::Connected(WebSocketClientConnectedDetails {
            url: String::from("ws://192.168.1.11:80/smoip"),
            existing: false,
        }),
    ];
    for status in statuses {
        now += 10;
        manager.on_session_status(status, now);
        check(&manager);
        now += 10;
        manager.on_manager_action(StreamMagicManagerAction::TestConnection, now);
        check(&manager);
        now += 10;
        manager.on_manager_action(StreamMagicManagerAction::HandleClientError, now);
        check(&manager);
        now += 10;
        manager.on_manager_action(
            StreamMagicManagerAction::ActivateUdn(String::from("uuid:cxn-2")),
            now,
        );
        check(&manager);
        now += 10;
        manager.on_manager_action(StreamMagicManagerAction::Deactivate, now);
        check(&manager);
    }
    assert_eq!(active(&manager), Vec::<String>::new());
}
