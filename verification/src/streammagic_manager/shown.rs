//! What the manager shows of itself: no state that it publishes shows it activating while
//! a connection stands.

use vstd::prelude::*;

use crate::discovery::counted_up;
use crate::errors::unknown_device_text;
use crate::messaging::{LogView, SerializableLevel};
use crate::streammagic_manager::discovery::StreamMagicDevice;
use crate::streammagic_manager::laws::{step, Event};
use crate::streammagic_manager::payloads::{update_request, StreamerPath};
use crate::streammagic_manager::websocket_client::{
    RxView, StatusView, WebSocketClientAction, WebSocketClientStatus,
};
use crate::streammagic_manager::{
    action_text, backoff_delay_ms, begin, deactivated, no_connection, queue_list_request,
    status_name, udn_place, Decoding, EffectView, ManagerView, Run, StateMsgView,
    StreamMagicManagerAction,
};
use crate::utils::url_host;

verus! {

/// Whether a published state shows a manager that is not activating while a connection
/// stands.
pub open spec fn shown_settled(state: StateMsgView) -> bool {
    state.websocket_client_status@ is Connected ==> !state.is_activating
}

/// Whether every state that is published among `effects` is settled.
pub open spec fn shows_settled(effects: Seq<EffectView>) -> bool {
    forall|i: int|
        0 <= i < effects.len() ==> (#[trigger] effects[i] matches EffectView::EmitManagerState(
            state,
        ) ==> shown_settled(state))
}

/// Whether the manager in the middle of a step is settled and has shown itself settled so
/// far.
pub open spec fn calm(run: Run) -> bool {
    run.manager.settled() && shows_settled(run.effects)
}

/// An effect that publishes no state keeps the manager calm.
proof fn lemma_push(run: Run, effect: EffectView)
    requires
        calm(run),
        !(effect is EmitManagerState),
    ensures
        calm(run.push(effect)),
{
}

/// Publishing the state of a calm manager keeps it calm.
proof fn lemma_emit(run: Run)
    requires
        calm(run),
    ensures
        calm(run.emit_state()),
{
}

/// Taking in a log entry keeps the manager calm.
proof fn lemma_take_log(run: Run, entry: LogView)
    requires
        calm(run),
    ensures
        calm(run.take_log(entry)),
{
}

/// Writing a log entry keeps the manager calm.
proof fn lemma_log(run: Run, level: SerializableLevel, message: Seq<char>, now: u64)
    requires
        calm(run),
    ensures
        calm(run.log(level, message, now)),
{
}

/// Sending to the session keeps the manager calm.
proof fn lemma_send(run: Run, text: Seq<char>)
    requires
        calm(run),
    ensures
        calm(run.send(text)),
{
}

/// Entering an activation makes the manager settled whatever it was; leaving one keeps it
/// settled.
proof fn lemma_set_activating(run: Run, activating: bool, now: u64)
    requires
        shows_settled(run.effects),
        activating || run.manager.settled(),
    ensures
        calm(run.set_activating(activating, now)),
{
}

/// Ending the session keeps the manager calm.
proof fn lemma_stop_session(run: Run, now: u64)
    requires
        calm(run),
    ensures
        calm(run.stop_session(now)),
{
    lemma_log(run, SerializableLevel::Info, "Stopping existing WebSocketClient task"@, now);
}

/// Opening a session keeps the manager calm.
proof fn lemma_start_session(run: Run, host: Seq<char>, now: u64)
    requires
        calm(run),
    ensures
        calm(run.start_session(host, now)),
{
    let logged = run.log(
        SerializableLevel::Info,
        "Initiating a new WebSocketClient connection to: "@ + host,
        now,
    );
    lemma_log(
        run,
        SerializableLevel::Info,
        "Initiating a new WebSocketClient connection to: "@ + host,
        now,
    );
    lemma_stop_session(logged, now);
}

/// Marking the devices as having no connection keeps the manager calm.
proof fn lemma_deactivate_all(run: Run)
    requires
        calm(run),
    ensures
        calm(run.deactivate_all()),
{
}

/// Giving an activation up keeps the manager calm.
proof fn lemma_abandon(run: Run, reason: Seq<char>, now: u64)
    requires
        calm(run),
    ensures
        calm(run.abandon(reason, now)),
{
    lemma_log(run, SerializableLevel::Error, reason, now);
    let logged = run.log(SerializableLevel::Error, reason, now);
    lemma_set_activating(logged, false, now);
    lemma_emit(logged.set_activating(false, now));
}

/// What an attempt does before it connects keeps the manager calm and without a connection.
proof fn lemma_prepare_attempt(run: Run, udn: Seq<char>, now: u64)
    requires
        calm(run),
        !(run.manager.ws_client_status@ is Connected),
    ensures
        calm(run.prepare_attempt(udn, now)),
        !(run.prepare_attempt(udn, now).manager.ws_client_status@ is Connected),
{
    let delay = backoff_delay_ms(
        run.manager.activation_attempts as nat,
    ) as u64;
    let attempts = counted_up(run.manager.activation_attempts);
    let counted = Run {
        manager: ManagerView { activation_attempts: attempts, ..run.manager },
        ..run
    };
    assert(calm(counted));
    let text = Run::attempt_text(attempts, delay, udn);
    lemma_log(counted, SerializableLevel::Info, text, now);
    let logged = counted.log(SerializableLevel::Info, text, now);
    lemma_stop_session(logged, now);
    let stopped = logged.stop_session(now);
    lemma_emit(stopped);
    lemma_push(stopped.emit_state(), EffectView::Sleep(delay));
    lemma_deactivate_all(stopped.emit_state().push(EffectView::Sleep(delay)));
}

/// Connecting to a device keeps a manager without a connection calm.
proof fn lemma_connect_to(run: Run, udn: Seq<char>, now: u64)
    requires
        calm(run),
        !(run.manager.ws_client_status@ is Connected),
    ensures
        calm(run.connect_to(udn, now)),
{
    match udn_place(run.manager.devices, udn) {
        None => {
            lemma_abandon(run, unknown_device_text(udn), now);
        },
        Some(at) => {
            match url_host(run.manager.devices[at].url@) {
                None => {
                    lemma_abandon(run, "Could not determine device URL; not activating"@, now);
                },
                Some(host) => {
                    let marked = Run {
                        manager: ManagerView {
                            devices: run.manager.devices.update(
                                at,
                                StreamMagicDevice { is_activating: true, ..run.manager.devices[at] },
                            ),
                            ..run.manager
                        },
                        ..run
                    };
                    assert(calm(marked));
                    lemma_start_session(marked, host, now);
                    lemma_emit(marked.start_session(host, now));
                },
            }
        },
    }
}

/// An attempt to activate a device leaves the manager calm, whatever it was before.
proof fn lemma_activate(run: Run, udn: Seq<char>, now: u64)
    requires
        shows_settled(run.effects),
    ensures
        calm(run.activate(udn, now)),
{
    lemma_set_activating(run, true, now);
    let begun = run.set_activating(true, now);
    if begun.out_of_time(now) {
        lemma_abandon(begun, begun.out_of_time_text(), now);
    } else {
        lemma_prepare_attempt(begun, udn, now);
        lemma_connect_to(begun.prepare_attempt(udn, now), udn, now);
    }
}

/// Activating the device that was active last keeps the manager calm.
proof fn lemma_reactivate(
    run: Run,
    with: (SerializableLevel, Seq<char>),
    without: (SerializableLevel, Seq<char>),
    now: u64,
)
    requires
        calm(run),
    ensures
        calm(run.reactivate(with, without, now)),
{
    match run.manager.last_active_device {
        Some(device) => {
            lemma_log(run, with.0, with.1, now);
            lemma_activate(run.log(with.0, with.1, now), device.udn@, now);
        },
        None => {
            lemma_log(run, without.0, without.1, now);
        },
    }
}

/// Marking the device of a connection changes neither the status nor the activation.
proof fn lemma_mark_active(run: Run, url: Seq<char>, now: u64)
    requires
        calm(run),
    ensures
        calm(run.mark_active(url, now)),
        run.mark_active(url, now).manager.ws_client_status == run.manager.ws_client_status,
        run.mark_active(url, now).manager.is_activating == run.manager.is_activating,
{
}

/// Asking for the streamer's updates keeps the manager calm and as it is.
proof fn lemma_subscribe(run: Run)
    requires
        calm(run),
    ensures
        calm(run.subscribe()),
        run.subscribe().manager == run.manager,
{
    let a = run.send(update_request(StreamerPath::PresetsList.text()));
    lemma_send(run, update_request(StreamerPath::PresetsList.text()));
    let b = a.send(update_request(StreamerPath::QueueInfo.text()));
    lemma_send(a, update_request(StreamerPath::QueueInfo.text()));
    let c = b.send(update_request(StreamerPath::SystemInfo.text()));
    lemma_send(b, update_request(StreamerPath::SystemInfo.text()));
    let d = c.send(update_request(StreamerPath::SystemPower.text()));
    lemma_send(c, update_request(StreamerPath::SystemPower.text()));
    let e = d.send(update_request(StreamerPath::SystemSources.text()));
    lemma_send(d, update_request(StreamerPath::SystemSources.text()));
    let f = e.send(update_request(StreamerPath::ZoneNowPlaying.text()));
    lemma_send(e, update_request(StreamerPath::ZoneNowPlaying.text()));
    let g = f.send(update_request(StreamerPath::ZonePlayState.text()));
    lemma_send(f, update_request(StreamerPath::ZonePlayState.text()));
    let h = g.send(update_request(StreamerPath::ZonePosition.text()));
    lemma_send(g, update_request(StreamerPath::ZonePosition.text()));
    lemma_send(h, update_request(StreamerPath::ZoneState.text()));
}

/// Starting a discovery keeps the manager calm.
proof fn lemma_discover(run: Run, activate: bool, now: u64)
    requires
        calm(run),
    ensures
        calm(run.discover(activate, now)),
{
    lemma_log(run, SerializableLevel::Info, "Initiating discovery"@, now);
    let logged = run.log(SerializableLevel::Info, "Initiating discovery"@, now);
    let emptied = Run {
        manager: ManagerView { is_discovering: true, devices: Seq::empty(), ..logged.manager },
        ..logged
    };
    assert(calm(emptied));
    lemma_emit(emptied);
    lemma_push(emptied.emit_state(), EffectView::Discover(activate));
}

/// Taking in a device keeps the manager calm.
proof fn lemma_add_device(run: Run, device: StreamMagicDevice, now: u64)
    requires
        calm(run),
    ensures
        calm(run.add_device(device, now)),
{
    let added = if udn_place(run.manager.devices, device.udn@)
        is Some {
        run
    } else {
        Run {
            manager: ManagerView {
                devices: run.manager.devices.push(deactivated(device)),
                ..run.manager
            },
            ..run
        }
    };
    assert(calm(added));
    match added.manager.ws_client_status@ {
        StatusView::Connected { url, .. } => {
            lemma_mark_active(added, url, now);
        },
        _ => {},
    }
}

/// Showing everything to a user interface that has become ready keeps the manager calm.
proof fn lemma_ui_ready(run: Run)
    requires
        calm(run),
    ensures
        calm(run.ui_ready()),
{
    let ready = Run { manager: ManagerView { ui_ready: true, ..run.manager }, ..run };
    assert(calm(ready));
    lemma_emit(ready);
    let shown = ready.emit_state().emit_payloads();
    assert(calm(shown)) by {
        let before = ready.emit_state().effects;
        assert forall|i: int| 0 <= i < shown.effects.len() implies (
        #[trigger] shown.effects[i] matches EffectView::EmitManagerState(state) ==> shown_settled(
            state,
        )) by {
            if i < before.len() {
                assert(shown.effects[i] == before[i]);
            }
        }
    }
    let flushed = shown.flush_logs();
    assert forall|i: int| 0 <= i < flushed.effects.len() implies (
    #[trigger] flushed.effects[i] matches EffectView::EmitManagerState(state) ==> shown_settled(
        state,
    )) by {
        if i < shown.effects.len() {
            assert(flushed.effects[i] == shown.effects[i]);
        }
    }
}

/// Asking the session for a test keeps the manager calm.
proof fn lemma_request_test(run: Run, now: u64)
    requires
        calm(run),
    ensures
        calm(run.request_test(now)),
{
    lemma_log(run, SerializableLevel::Debug, "Sending TestConnection request to WebSocketClient"@, now);
    let asked = run.log(
        SerializableLevel::Debug,
        "Sending TestConnection request to WebSocketClient"@,
        now,
    );
    if asked.manager.has_session_channel {
        let testing = Run {
            manager: ManagerView { is_testing_connection: true, ..asked.manager },
            ..asked
        };
        assert(calm(testing));
        let sent = testing.push(
            EffectView::SendToSession(
                RxView::Action(
                    WebSocketClientAction::TestConnection,
                ),
            ),
        );
        lemma_push(
            testing,
            EffectView::SendToSession(
                RxView::Action(
                    WebSocketClientAction::TestConnection,
                ),
            ),
        );
        lemma_emit(sent);
    } else {
        lemma_log(asked, SerializableLevel::Warn, "No WebSocketClient send channel found"@, now);
        let warned = asked.log(
            SerializableLevel::Warn,
            "No WebSocketClient send channel found"@,
            now,
        );
        let untested = Run {
            manager: ManagerView { is_testing_connection: false, ..warned.manager },
            ..warned
        };
        assert(calm(untested));
        lemma_emit(untested);
    }
}

/// Testing the connection keeps the manager calm.
proof fn lemma_test_connection(run: Run, now: u64)
    requires
        calm(run),
    ensures
        calm(run.test_connection(now)),
{
    if run.manager.ws_client_status@ is Connected {
        lemma_request_test(run, now);
    } else {
        lemma_reactivate(
            run,
            (
                SerializableLevel::Info,
                "No active WebSocketClient connection to test; attempting to re-activate last-seen device"@,
            ),
            (
                SerializableLevel::Warn,
                "Cannot perform test; no active WebSocketClient connection, and no known last-seen device to re-activate"@,
            ),
            now,
        );
    }
}

/// Taking in the end of the session's task keeps the manager calm.
proof fn lemma_client_error(run: Run, now: u64)
    requires
        calm(run),
    ensures
        calm(run.client_error(now)),
{
    let tested = if run.manager.is_testing_connection {
        let warned = run.log(SerializableLevel::Warn, "Test resulted in client error"@, now);
        Run { manager: ManagerView { is_testing_connection: false, ..warned.manager }, ..warned }
    } else {
        run
    };
    lemma_log(run, SerializableLevel::Warn, "Test resulted in client error"@, now);
    assert(calm(tested));
    match tested.manager.last_active_device {
        Some(device) => {
            lemma_log(
                tested,
                SerializableLevel::Info,
                "Client error; retrying last-active device"@,
                now,
            );
            lemma_activate(
                tested.log(
                    SerializableLevel::Info,
                    "Client error; retrying last-active device"@,
                    now,
                ).resume(),
                device.udn@,
                now,
            );
        },
        None => {
            lemma_log(
                tested,
                SerializableLevel::Info,
                "Client error; not trying again (no last-active device)"@,
                now,
            );
            let told = tested.log(
                SerializableLevel::Info,
                "Client error; not trying again (no last-active device)"@,
                now,
            );
            lemma_set_activating(told, false, now);
            lemma_emit(told.set_activating(false, now));
        },
    }
}

/// Ending the session and forgetting it keeps the manager calm.
proof fn lemma_halt_session(run: Run, forget_host: bool, now: u64)
    requires
        calm(run),
    ensures
        calm(run.halt_session(forget_host, now)),
{
    lemma_log(run, SerializableLevel::Info, "StreamMagicManager WebSocket halt requested"@, now);
    let logged = run.log(
        SerializableLevel::Info,
        "StreamMagicManager WebSocket halt requested"@,
        now,
    );
    lemma_stop_session(logged, now);
    let stopped = logged.stop_session(now);
    let cleared = Run {
        manager: ManagerView {
            ws_client_status: no_connection(),
            is_testing_connection: false,
            ..stopped.manager
        },
        ..stopped
    };
    assert(calm(cleared));
    lemma_set_activating(cleared, false, now);
    lemma_emit(cleared.set_activating(false, now));
    lemma_push(cleared.set_activating(false, now).emit_state(), EffectView::ForgetHost);
}

/// Every action keeps the manager calm.
proof fn lemma_on_action(run: Run, action: StreamMagicManagerAction, now: u64)
    requires
        calm(run),
    ensures
        calm(run.on_action(action, now)),
{
    match action {
        StreamMagicManagerAction::ActivateUdn(udn) => {
            lemma_activate(run, udn@, now);
        },
        StreamMagicManagerAction::ConnectToStreamer(host) => {
            lemma_start_session(run, host@, now);
            lemma_emit(run.start_session(host@, now));
        },
        StreamMagicManagerAction::Deactivate => {
            lemma_log(run, SerializableLevel::Info, "Deactivating currently-active device"@, now);
            let logged = run.log(
                SerializableLevel::Info,
                "Deactivating currently-active device"@,
                now,
            );
            lemma_deactivate_all(logged);
            lemma_stop_session(logged.deactivate_all(), now);
            let stopped = logged.deactivate_all().stop_session(now);
            lemma_log(stopped, SerializableLevel::Info, "Deactivation complete"@, now);
            lemma_emit(stopped.log(SerializableLevel::Info, "Deactivation complete"@, now));
        },
        StreamMagicManagerAction::DisconnectFromStreamer => {
            lemma_stop_session(run, now);
        },
        StreamMagicManagerAction::Discover(activate) => {
            lemma_discover(run, activate, now);
        },
        StreamMagicManagerAction::EmitAppLog(entry) => {
            lemma_take_log(run, entry@);
        },
        StreamMagicManagerAction::HandleClientError => {
            lemma_client_error(run, now);
        },
        StreamMagicManagerAction::OnUIReady => {
            lemma_ui_ready(run);
        },
        StreamMagicManagerAction::ProcessDiscoveredDevice(device) => {
            lemma_log(
                run,
                SerializableLevel::Info,
                "Processing discovered device: "@ + device.label_text(),
                now,
            );
            let logged = run.log(
                SerializableLevel::Info,
                "Processing discovered device: "@ + device.label_text(),
                now,
            );
            lemma_add_device(logged, device, now);
            lemma_emit(logged.add_device(device, now));
        },
        StreamMagicManagerAction::SetIsDiscovering(is_discovering) => {
            let set = Run { manager: ManagerView { is_discovering, ..run.manager }, ..run };
            assert(calm(set));
            lemma_emit(set);
        },
        StreamMagicManagerAction::ShutDown => {
            lemma_log(run, SerializableLevel::Info, "StreamMagicManager shutdown requested"@, now);
            let logged = run.log(
                SerializableLevel::Info,
                "StreamMagicManager shutdown requested"@,
                now,
            );
            lemma_stop_session(logged, now);
            let stopped = logged.stop_session(now);
            lemma_log(stopped, SerializableLevel::Info, "StreamMagicManager has ended"@, now);
            lemma_push(
                stopped.log(SerializableLevel::Info, "StreamMagicManager has ended"@, now),
                EffectView::Stop,
            );
        },
        StreamMagicManagerAction::StopWebSocketClient(forget_host) => {
            lemma_halt_session(run, forget_host, now);
        },
        StreamMagicManagerAction::TestConnection => {
            lemma_test_connection(run, now);
        },
    }
}

/// Greeting a connection shows nothing unsettled and ends the activation.
proof fn lemma_on_connected(run: Run, url: Seq<char>, existing: bool, now: u64)
    requires
        calm(run),
    ensures
        shows_settled(run.on_connected(url, existing, now).effects),
        !run.on_connected(url, existing, now).manager.is_activating,
{
    let tested = if run.manager.is_testing_connection {
        let told = run.log(SerializableLevel::Info, "Streamer connection OK"@, now);
        Run { manager: ManagerView { is_testing_connection: false, ..told.manager }, ..told }
    } else {
        run
    };
    lemma_log(run, SerializableLevel::Info, "Streamer connection OK"@, now);
    assert(calm(tested));
    if !existing {
        let persisted = match url_host(url) {
            Some(host) => tested.log(
                SerializableLevel::Info,
                "Persisting last connected host: "@ + host,
                now,
            ).push(EffectView::PersistHost(host)),
            None => tested,
        };
        match url_host(url) {
            Some(host) => {
                lemma_log(
                    tested,
                    SerializableLevel::Info,
                    "Persisting last connected host: "@ + host,
                    now,
                );
                lemma_push(
                    tested.log(
                        SerializableLevel::Info,
                        "Persisting last connected host: "@ + host,
                        now,
                    ),
                    EffectView::PersistHost(host),
                );
            },
            None => {},
        }
        lemma_subscribe(persisted);
        lemma_send(persisted.subscribe(), queue_list_request());
        lemma_mark_active(persisted.subscribe().send(queue_list_request()), url, now);
    }
}

/// Taking in the loss of the connection keeps the manager calm.
proof fn lemma_on_disconnected(
    run: Run,
    reason: Option<Seq<char>>,
    consider_reconnecting: bool,
    attempt_failed: bool,
    now: u64,
)
    requires
        calm(run),
        !(run.manager.ws_client_status@ is Connected),
    ensures
        calm(run.on_disconnected(reason, consider_reconnecting, attempt_failed, now)),
{
    let logged = match reason {
        Some(text) => run.log(
            SerializableLevel::Info,
            "WebSocketClient has disconnected with reason: "@ + text,
            now,
        ),
        None => run.log(
            SerializableLevel::Info,
            "WebSocketClient has disconnected with no message"@,
            now,
        ),
    };
    match reason {
        Some(text) => {
            lemma_log(
                run,
                SerializableLevel::Info,
                "WebSocketClient has disconnected with reason: "@ + text,
                now,
            );
        },
        None => {
            lemma_log(
                run,
                SerializableLevel::Info,
                "WebSocketClient has disconnected with no message"@,
                now,
            );
        },
    }
    lemma_deactivate_all(logged);
    let cleared = logged.deactivate_all();
    let dropped = Run {
        manager: ManagerView { has_session: false, has_session_channel: false, ..cleared.manager },
        ..cleared
    };
    assert(calm(dropped));
    let with = (SerializableLevel::Info, "Attempting re-activation of last-active device"@);
    if dropped.manager.is_testing_connection {
        lemma_log(dropped, SerializableLevel::Warn, "Test resulted in Disconnect"@, now);
        let warned = dropped.log(SerializableLevel::Warn, "Test resulted in Disconnect"@, now);
        let tested = Run {
            manager: ManagerView { is_testing_connection: false, ..warned.manager },
            ..warned
        };
        assert(calm(tested));
        lemma_reactivate(
            tested,
            with,
            (
                SerializableLevel::Info,
                "Giving up on connection test (no last-active device to reactivate)"@,
            ),
            now,
        );
    } else if consider_reconnecting {
        lemma_log(dropped, SerializableLevel::Info, "Potentially-recoverable disconnect"@, now);
        let hoped = dropped.log(
            SerializableLevel::Info,
            "Potentially-recoverable disconnect"@,
            now,
        );
        if hoped.manager.last_active_device is Some {
            lemma_reactivate(hoped, with, with, now);
        } else {
            lemma_log(
                hoped,
                SerializableLevel::Warn,
                "Unable to determine last active UDN; not attempting reconnect"@,
                now,
            );
            lemma_set_activating(
                hoped.log(
                    SerializableLevel::Warn,
                    "Unable to determine last active UDN; not attempting reconnect"@,
                    now,
                ),
                false,
                now,
            );
        }
    } else if !attempt_failed {
        lemma_set_activating(dropped, false, now);
    }
}

/// Every status keeps the manager calm.
proof fn lemma_on_status(run: Run, status: WebSocketClientStatus, now: u64)
    requires
        calm(run),
    ensures
        calm(run.on_status(status, now)),
{
    let announced = if run.manager.is_testing_connection {
        run
    } else {
        run.log(SerializableLevel::Info, "WebSocketClient status: "@ + status_name(status@), now)
    };
    lemma_log(run, SerializableLevel::Info, "WebSocketClient status: "@ + status_name(status@), now);
    assert(calm(announced));
    match status@ {
        StatusView::Connected { url, existing } => {
            lemma_on_connected(announced, url, existing, now);
            let placed = announced.on_connected(url, existing, now).with_status(status);
            assert(calm(placed));
            lemma_emit(placed);
        },
        StatusView::Disconnected { reason, consider_reconnecting } => {
            let placed = announced.with_status(status);
            assert(calm(placed));
            lemma_on_disconnected(
                placed,
                reason,
                consider_reconnecting,
                run.manager.ws_client_status@ is Connecting,
                now,
            );
            lemma_emit(
                placed.on_disconnected(
                    reason,
                    consider_reconnecting,
                    run.manager.ws_client_status@ is Connecting,
                    now,
                ),
            );
        },
        StatusView::TestingConnection => {
            let placed = announced.with_status(status);
            assert(calm(placed));
            lemma_log(
                placed,
                SerializableLevel::Debug,
                "WebSocketClient is testing its connection"@,
                now,
            );
            lemma_emit(
                placed.log(
                    SerializableLevel::Debug,
                    "WebSocketClient is testing its connection"@,
                    now,
                ),
            );
        },
        StatusView::Connecting(_) => {
            let placed = announced.with_status(status);
            assert(calm(placed));
            lemma_emit(placed);
        },
    }
}

/// Every update keeps the manager calm.
proof fn lemma_on_update(run: Run, path: Seq<char>, decoding: Decoding, now: u64)
    requires
        calm(run),
    ensures
        calm(run.on_update(path, decoding, now)),
{
}

/// Whatever reaches a manager that is not activating while a connection stands, every
/// state that it publishes in answer shows it so, and so it is afterwards: an activation
/// that begins while a connection stands, and a session that is stopped, take the
/// connection out of what the manager shows before anything is published.
pub proof fn lemma_step_shows_settled(manager: ManagerView, event: Event, now: u64)
    requires
        manager.settled(),
    ensures
        shows_settled(step(manager, event, now).effects),
        step(manager, event, now).manager.settled(),
{
    let run = begin(manager);
    assert(calm(run));
    match event {
        Event::Action(action) => {
            lemma_on_action(run, action, now);
        },
        Event::Streamer(action) => {
            lemma_send(run, action_text(action));
        },
        Event::Status(status) => {
            lemma_on_status(run, status, now);
        },
        Event::Update(path, decoding) => {
            lemma_on_update(run, path, decoding, now);
        },
        Event::Malformed(text, error) => {
            lemma_log(
                run,
                SerializableLevel::Warn,
                "Could not deserialize StreamMagic message; error: "@ + error + " :: message: "@
                    + text,
                now,
            );
        },
    }
}

/// A manager's life begins settled, and shows it: whether a host was persisted or not.
pub proof fn lemma_start_shows_settled(
    manager: ManagerView,
    persisted_host: Option<Seq<char>>,
    now: u64,
)
    requires
        manager.settled(),
    ensures
        shows_settled(begin(manager).start(persisted_host, now).effects),
        begin(manager).start(persisted_host, now).manager.settled(),
{
    let run = begin(manager);
    assert(calm(run));
    match persisted_host {
        Some(host) => {
            lemma_log(
                run,
                SerializableLevel::Info,
                "Using stored streamer host to initialize connection: "@ + host,
                now,
            );
            let logged = run.log(
                SerializableLevel::Info,
                "Using stored streamer host to initialize connection: "@ + host,
                now,
            );
            lemma_set_activating(logged, true, now);
            let begun = logged.set_activating(true, now);
            lemma_emit(begun);
            lemma_start_session(begun.emit_state(), host, now);
            lemma_discover(begun.emit_state().start_session(host, now), false, now);
        },
        None => {
            lemma_discover(run, true, now);
        },
    }
}

} // verus!
