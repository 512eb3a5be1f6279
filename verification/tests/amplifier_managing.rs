use punytunes::amplifier_manager::amplifier_handler::{
    AmplifierHandlerAction, AmplifierHandlerConnectionStatus, AmplifierHandlerRxChannelMsg,
    AmplifierHandlerTxChannelMsg, AmplifierState,
};
use punytunes::amplifier_manager::discovery::AmplifierDevice;
use punytunes::amplifier_manager::{
    AmplifierAction, AmplifierManager, AmplifierManagerAction, AmplifierManagerChannelMsg,
    AmplifierManagerEffect, AmplifierManagerStateMsg,
};
use punytunes::messaging::SerializableLevel;

fn device(manufacturer: &str) -> AmplifierDevice {
    AmplifierDevice {
        friendly_name: String::from("Living room"),
        manufacturer: String::from(manufacturer),
        model: String::from("H120"),
        model_number: None,
        serial_number: None,
        url: String::from("http://192.168.1.20:8080/description.xml"),
        udn: String::from("uuid:amp-1"),
    }
}

fn log(level: SerializableLevel, message: &str) -> AmplifierManagerEffect {
    AmplifierManagerEffect::Log(level, String::from(message))
}

fn state(
    is_discovering: bool,
    is_handling_amplifier: bool,
    managed_device: Option<AmplifierDevice>,
) -> AmplifierManagerEffect {
    AmplifierManagerEffect::EmitManagerState(AmplifierManagerStateMsg {
        is_discovering,
        is_handling_amplifier,
        managed_device,
    })
}

fn status(status: AmplifierHandlerConnectionStatus) -> AmplifierHandlerTxChannelMsg {
    AmplifierHandlerTxChannelMsg::AmplifierHandlerConnectionStatusMsg(status)
}

fn shut_down() -> AmplifierManagerEffect {
    AmplifierManagerEffect::TellHandler(AmplifierHandlerRxChannelMsg::AmplifierHandlerActionMsg(
        AmplifierHandlerAction::ShutDown,
    ))
}

const UNKNOWN: AmplifierState =
    AmplifierState { is_muted: None, is_powered_on: None, source: None, volume: None };

fn handling() -> AmplifierManager {
    let mut manager = AmplifierManager::new();
    manager.on_manager_action(AmplifierManagerAction::ProcessDiscoveredDevice(device("Hegel")));
    manager.on_handler_message(status(AmplifierHandlerConnectionStatus::Connected));
    manager
}

fn starts(effects: &[AmplifierManagerEffect]) -> usize {
    effects
        .iter()
        .filter(|effect| matches!(effect, AmplifierManagerEffect::StartHandler(_)))
        .count()
}

#[test]
fn a_new_manager_handles_nothing() {
    let manager = AmplifierManager::new();
    assert_eq!(manager.amp_state, UNKNOWN);
    assert_eq!(manager.max_reconnect_attempts, 3);
    assert_eq!(manager.reconnect_attempts, 0);
    assert_eq!(manager.reconnect_delay, 1000);
    assert!(!manager.is_handling_amplifier && !manager.has_handler);
    assert_eq!(manager.managed_device, None);
}

#[test]
fn the_manager_starts_with_a_discovery() {
    let mut manager = AmplifierManager::new();
    let effects = manager.start();
    assert_eq!(
        effects,
        vec![
            log(SerializableLevel::Info, "Initiating amplifier discovery"),
            state(true, false, None),
            AmplifierManagerEffect::Discover,
            AmplifierManagerEffect::EmitAmplifierState(UNKNOWN),
        ]
    );
    assert!(manager.is_discovering);
    let effects = manager.on_manager_action(AmplifierManagerAction::SetIsDiscovering(false));
    assert_eq!(effects, vec![state(false, false, None)]);
}

#[test]
fn a_supported_amplifier_gets_a_session() {
    let mut manager = AmplifierManager::new();
    manager.reconnect_attempts = 2;
    let effects =
        manager.on_manager_action(AmplifierManagerAction::ProcessDiscoveredDevice(device("Hegel")));
    assert_eq!(
        effects,
        vec![
            log(
                SerializableLevel::Info,
                "Processing discovered amplifier: 'Living room' (H120) [uuid:amp-1]"
            ),
            AmplifierManagerEffect::EmitAmplifierState(UNKNOWN),
            state(false, false, Some(device("Hegel"))),
            AmplifierManagerEffect::StartHandler(device("Hegel")),
            state(false, false, Some(device("Hegel"))),
        ]
    );
    assert_eq!(manager.managed_device, Some(device("Hegel")));
    assert_eq!(manager.reconnect_attempts, 0);
    assert_eq!(manager.handler_start_count, 1);
    assert!(manager.has_handler && manager.has_handler_channel);
}

#[test]
fn an_amplifier_of_another_manufacturer_is_ignored() {
    let mut manager = handling();
    let effects =
        manager.on_manager_action(AmplifierManagerAction::ProcessDiscoveredDevice(device("Acme")));
    assert_eq!(
        effects,
        vec![
            log(
                SerializableLevel::Info,
                "Processing discovered amplifier: 'Living room' (H120) [uuid:amp-1]"
            ),
            log(SerializableLevel::Info, "Stopping existing AmplifierHandler"),
            shut_down(),
            AmplifierManagerEffect::AwaitHandler,
            AmplifierManagerEffect::EmitAmplifierState(UNKNOWN),
            log(SerializableLevel::Info, "Ignoring unsupported amplifier manufacturer: Acme"),
            state(false, false, None),
        ]
    );
    assert_eq!(manager.managed_device, None);
    assert!(!manager.has_handler && !manager.is_handling_amplifier);
}

#[test]
fn a_connected_session_makes_the_manager_handle_its_amplifier() {
    let mut manager = AmplifierManager::new();
    manager.on_manager_action(AmplifierManagerAction::ProcessDiscoveredDevice(device("Hegel")));
    manager.reconnect_attempts = 2;
    let effects = manager.on_handler_message(status(AmplifierHandlerConnectionStatus::Connected));
    assert_eq!(effects, vec![state(false, true, Some(device("Hegel")))]);
    assert!(manager.is_handling_amplifier);
    assert_eq!(manager.reconnect_attempts, 0);
}

#[test]
fn the_state_of_the_amplifier_is_kept_and_published_once() {
    let mut manager = handling();
    let muted = AmplifierState { is_muted: Some(true), ..UNKNOWN };
    let effects = manager.on_handler_message(AmplifierHandlerTxChannelMsg::AmplifierStateMsg(muted));
    assert_eq!(effects, vec![AmplifierManagerEffect::EmitAmplifierState(muted)]);
    assert_eq!(manager.amp_state, muted);
}

#[test]
fn a_lost_session_is_started_again_three_times_and_no_more() {
    let mut manager = handling();
    for attempt in 1u8..=3 {
        let effects =
            manager.on_handler_message(status(AmplifierHandlerConnectionStatus::Disconnected));
        assert_eq!(starts(&effects), 1, "attempt {attempt}");
        assert!(effects.contains(&AmplifierManagerEffect::Sleep(1000)));
        assert!(effects.contains(&log(
            SerializableLevel::Warn,
            &format!("AmplifierManager is attempting an amplifier reconnect (#{attempt})")
        )));
        assert_eq!(manager.reconnect_attempts, attempt);
        assert!(!manager.is_handling_amplifier);
    }
    let effects = manager.on_handler_message(status(AmplifierHandlerConnectionStatus::Disconnected));
    assert_eq!(
        effects,
        vec![
            state(false, false, Some(device("Hegel"))),
            log(SerializableLevel::Info, "Stopping existing AmplifierHandler"),
            shut_down(),
            AmplifierManagerEffect::AwaitHandler,
            log(SerializableLevel::Warn, "AmplifierManager is giving up on amplifier reconnects"),
        ]
    );
    assert_eq!(manager.reconnect_attempts, 0);
    assert!(!manager.has_handler);
}

#[test]
fn the_first_reconnect_in_full() {
    let mut manager = handling();
    let effects = manager.on_handler_message(status(AmplifierHandlerConnectionStatus::Disconnected));
    assert_eq!(
        effects,
        vec![
            state(false, false, Some(device("Hegel"))),
            log(SerializableLevel::Info, "Stopping existing AmplifierHandler"),
            shut_down(),
            AmplifierManagerEffect::AwaitHandler,
            log(
                SerializableLevel::Warn,
                "AmplifierManager is attempting an amplifier reconnect (#1)"
            ),
            AmplifierManagerEffect::Sleep(1000),
            log(SerializableLevel::Info, "No existing AmplifierHandler to stop"),
            AmplifierManagerEffect::EmitAmplifierState(UNKNOWN),
            state(false, false, Some(device("Hegel"))),
            AmplifierManagerEffect::StartHandler(device("Hegel")),
            state(false, false, Some(device("Hegel"))),
        ]
    );
    assert_eq!(manager.handler_start_count, 2);
}

#[test]
fn a_connection_in_between_lets_the_count_begin_again() {
    let mut manager = handling();
    manager.on_handler_message(status(AmplifierHandlerConnectionStatus::Disconnected));
    manager.on_handler_message(status(AmplifierHandlerConnectionStatus::Disconnected));
    assert_eq!(manager.reconnect_attempts, 2);
    manager.on_handler_message(status(AmplifierHandlerConnectionStatus::Connected));
    assert_eq!(manager.reconnect_attempts, 0);
    for _ in 0..3 {
        let effects =
            manager.on_handler_message(status(AmplifierHandlerConnectionStatus::Disconnected));
        assert_eq!(starts(&effects), 1);
    }
}

#[test]
fn a_manager_that_shuts_down_does_not_reconnect() {
    let mut manager = handling();
    let effects = manager.on_manager_action(AmplifierManagerAction::ShutDown);
    assert_eq!(
        effects,
        vec![
            log(SerializableLevel::Info, "AmplifierManager shutdown requested"),
            log(SerializableLevel::Info, "Stopping existing AmplifierHandler"),
            shut_down(),
            AmplifierManagerEffect::AwaitHandler,
            log(SerializableLevel::Info, "AmplifierManager has ended"),
            AmplifierManagerEffect::Stop,
        ]
    );
    assert!(manager.is_shutting_down);
    let effects = manager.on_handler_message(status(AmplifierHandlerConnectionStatus::Disconnected));
    assert_eq!(starts(&effects), 0);
    assert_eq!(manager.reconnect_attempts, 0);
}

#[test]
fn a_manager_without_a_device_does_not_reconnect() {
    let mut manager = AmplifierManager::new();
    let effects = manager.on_handler_message(status(AmplifierHandlerConnectionStatus::Disconnected));
    assert_eq!(effects, vec![state(false, false, None)]);
}

#[test]
fn actions_reach_the_session_only_while_an_amplifier_is_handled() {
    let mut manager = AmplifierManager::new();
    let effects =
        manager.on_message(AmplifierManagerChannelMsg::AmplifierActionMsg(AmplifierAction::VolumeUp));
    assert_eq!(
        effects,
        vec![log(
            SerializableLevel::Warn,
            "AmplifierManager is not handling an amplifier connection"
        )]
    );
    let mut manager = handling();
    let effects =
        manager.on_message(AmplifierManagerChannelMsg::AmplifierActionMsg(AmplifierAction::VolumeUp));
    assert_eq!(
        effects,
        vec![AmplifierManagerEffect::TellHandler(
            AmplifierHandlerRxChannelMsg::AmplifierActionMsg(AmplifierAction::VolumeUp)
        )]
    );
}

#[test]
fn a_test_is_passed_on_only_while_an_amplifier_is_handled() {
    let mut manager = AmplifierManager::new();
    let effects = manager.on_message(AmplifierManagerChannelMsg::AmplifierManagerActionMsg(
        AmplifierManagerAction::TestConnection,
    ));
    assert_eq!(
        effects,
        vec![log(
            SerializableLevel::Warn,
            "Ignoring request to test connection (not currently handling an amplifier)"
        )]
    );
    assert!(!manager.is_testing_connection);

    let mut manager = handling();
    let effects = manager.on_manager_action(AmplifierManagerAction::TestConnection);
    assert_eq!(
        effects,
        vec![AmplifierManagerEffect::TellHandler(
            AmplifierHandlerRxChannelMsg::AmplifierHandlerActionMsg(
                AmplifierHandlerAction::TestConnection
            )
        )]
    );
    assert!(manager.is_testing_connection);
}

#[test]
fn a_status_of_the_session_ends_a_test_and_so_does_its_stop() {
    let test = |manager: &mut AmplifierManager| {
        manager.on_manager_action(AmplifierManagerAction::TestConnection);
        assert!(manager.is_testing_connection);
    };
    let status = AmplifierHandlerTxChannelMsg::AmplifierHandlerConnectionStatusMsg;

    let mut manager = handling();
    test(&mut manager);
    manager.on_handler_message(status(AmplifierHandlerConnectionStatus::Connected));
    assert!(!manager.is_testing_connection);
    assert!(manager.is_handling_amplifier);

    let mut manager = handling();
    test(&mut manager);
    manager.on_handler_message(status(AmplifierHandlerConnectionStatus::Disconnected));
    assert!(!manager.is_testing_connection);

    let mut manager = handling();
    test(&mut manager);
    manager.on_manager_action(AmplifierManagerAction::DisconnectFromAmplifier);
    assert!(!manager.is_testing_connection);

    let mut manager = handling();
    manager.has_handler_channel = false;
    manager.on_manager_action(AmplifierManagerAction::TestConnection);
    assert!(!manager.is_testing_connection);
}

#[test]
fn a_ready_user_interface_is_shown_both_states() {
    let mut manager = handling();
    let effects = manager.on_manager_action(AmplifierManagerAction::OnUIReady);
    assert_eq!(
        effects,
        vec![
            state(false, true, Some(device("Hegel"))),
            AmplifierManagerEffect::EmitAmplifierState(UNKNOWN),
        ]
    );
}

#[test]
fn a_disconnect_on_request_stops_the_session() {
    let mut manager = handling();
    let effects = manager.on_manager_action(AmplifierManagerAction::DisconnectFromAmplifier);
    assert_eq!(
        effects,
        vec![
            log(SerializableLevel::Info, "Stopping existing AmplifierHandler"),
            shut_down(),
            AmplifierManagerEffect::AwaitHandler,
            state(false, false, Some(device("Hegel"))),
        ]
    );
    assert!(!manager.is_handling_amplifier && !manager.has_handler);
    let effects = manager.on_manager_action(AmplifierManagerAction::DisconnectFromAmplifier);
    assert_eq!(
        effects,
        vec![
            log(SerializableLevel::Info, "No existing AmplifierHandler to stop"),
            state(false, false, Some(device("Hegel"))),
        ]
    );
}

#[test]
fn an_amplifier_is_handled_only_while_there_is_a_session() {
    let mut manager = AmplifierManager::new();
    let effects = manager.on_handler_message(status(AmplifierHandlerConnectionStatus::Connected));
    assert_eq!(effects, vec![state(false, false, None)]);
    assert!(!manager.is_handling_amplifier);

    let mut manager = handling();
    assert!(manager.is_handling_amplifier && manager.has_handler);
    manager.on_manager_action(AmplifierManagerAction::ProcessDiscoveredDevice(device("Acme")));
    assert!(!manager.is_handling_amplifier && !manager.has_handler);

    let mut manager = handling();
    manager.on_manager_action(AmplifierManagerAction::ShutDown);
    assert!(!manager.is_handling_amplifier && !manager.has_handler);
}
