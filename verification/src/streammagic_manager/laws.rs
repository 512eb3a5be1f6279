//! What holds of the streamer's manager whatever reaches it: at most one device is active,
//! the manager is not activating while a connection stands, an activation stays inside its
//! budget of time, and the cache of payloads changes only by a payload that was read. And
//! what holds of one attempt to activate a device: when it gives up, when it opens no
//! session, and how long it waits before it opens one.

use vstd::prelude::*;

use crate::clock::has_exceeded;
use crate::discovery::counted_up;
use crate::messaging::{LogView, SerializableLevel};
use crate::streammagic_manager::discovery::StreamMagicDevice;
use crate::streammagic_manager::payloads::StreamerPath;
use crate::streammagic_manager::websocket_client::{StatusView, WebSocketClientStatus};
use crate::streammagic_manager::{
    action_text, all_deactivated, at_most_one_active, backoff_delay_ms, begin, deactivated,
    host_place, lemma_backoff_is_capped, lemma_deactivated_places, lemma_udn_place, none_active,
    queue_list_request, status_name, udn_place, ws_url, Decoding, EffectView, ManagerView, Run,
    RetryBudget, StreamMagicManagerAction, StreamerAction, MAX_BACKOFF_MS,
};
use crate::utils::url_host;

verus! {

/// An event as it reaches the manager.
pub enum Event {
    /// An action that is asked of the manager.
    Action(StreamMagicManagerAction),
    /// An action that a user asks of the streamer.
    Streamer(StreamerAction),
    /// A status that the session reports.
    Status(WebSocketClientStatus),
    /// An update of the streamer on a path, with what the driver made of its parameters.
    Update(Seq<char>, Decoding),
    /// A message of the streamer that the driver could not read, with the driver's reason.
    Malformed(Seq<char>, Seq<char>),
}

/// The step that the manager `manager` takes when `event` reaches it at the time `now`.
pub open spec fn step(manager: ManagerView, event: Event, now: u64) -> Run {
    match event {
        Event::Action(action) => begin(manager).on_action(action, now),
        Event::Streamer(action) => begin(manager).forward(action_text(action)),
        Event::Status(status) => begin(manager).on_status(status, now),
        Event::Update(path, decoding) => begin(manager).on_update(path, decoding, now),
        Event::Malformed(text, error) => begin(manager).log(
            SerializableLevel::Warn,
            "Could not deserialize StreamMagic message; error: "@ + error + " :: message: "@ + text,
            now,
        ),
    }
}

/// The manager after the events `events` have reached it, one after the other, each at its
/// time.
pub open spec fn after_events(manager: ManagerView, events: Seq<(Event, u64)>) -> ManagerView
    decreases events.len(),
{
    if events.len() == 0 {
        manager
    } else {
        step(after_events(manager, events.drop_last()), events.last().0, events.last().1).manager
    }
}

/// Where no device is active, at most one is.
proof fn lemma_none_active_is_one(devices: Seq<StreamMagicDevice>)
    requires
        none_active(devices),
    ensures
        at_most_one_active(devices),
{
}

/// Devices that have been marked as having no connection are not active.
proof fn lemma_deactivated_none_active(devices: Seq<StreamMagicDevice>)
    ensures
        none_active(all_deactivated(devices)),
{
}

/// An attempt to activate a device leaves the devices as they are, or leaves none of them
/// active.
proof fn lemma_activate_devices(run: Run, udn: Seq<char>, now: u64)
    ensures
        run.activate(udn, now).manager.devices == run.manager.devices || none_active(
            run.activate(udn, now).manager.devices,
        ),
        run.activate(udn, now).manager.cache == run.manager.cache,
        run.manager.logs_flushed() ==> run.activate(udn, now).manager.logs_flushed(),
        run.activate(udn, now).manager.settled(),
        !run.manager.has_session && !(run.manager.ws_client_status@ is Connected) ==> run.activate(
            udn,
            now,
        ).manager.ws_client_status == run.manager.ws_client_status,
        run.manager.timed() ==> run.activate(udn, now).manager.timed(),
{
    let begun = run.set_activating(true, now);
    if !begun.out_of_time(now) {
        let waited = begun.prepare_attempt(udn, now);
        lemma_deactivated_none_active(begun.manager.devices);
        assert(none_active(waited.manager.devices));
        match udn_place(waited.manager.devices, udn) {
            None => {},
            Some(at) => {
                match url_host(waited.manager.devices[at].url@) {
                    None => {},
                    Some(host) => {
                        let marked = waited.manager.devices.update(
                            at,
                            StreamMagicDevice { is_activating: true, ..waited.manager.devices[at] },
                        );
                        assert(none_active(marked)) by {
                            assert forall|i: int| 0 <= i < marked.len() implies !marked[i].is_active by {
                                if i != at {
                                    assert(marked[i] == waited.manager.devices[i]);
                                }
                            }
                        }
                    },
                }
            },
        }
    }
}

/// Activating the device that was active last leaves the devices as they are, or leaves
/// none of them active.
proof fn lemma_reactivate_devices(
    run: Run,
    with: (SerializableLevel, Seq<char>),
    without: (SerializableLevel, Seq<char>),
    now: u64,
)
    ensures
        run.reactivate(with, without, now).manager.devices == run.manager.devices || none_active(
            run.reactivate(with, without, now).manager.devices,
        ),
        run.reactivate(with, without, now).manager.cache == run.manager.cache,
        run.manager.logs_flushed() ==> run.reactivate(with, without, now).manager.logs_flushed(),
        run.manager.settled() ==> run.reactivate(with, without, now).manager.settled(),
        !run.manager.has_session && !(run.manager.ws_client_status@ is Connected)
            ==> run.reactivate(with, without, now).manager.ws_client_status
            == run.manager.ws_client_status,
        run.manager.timed() ==> run.reactivate(with, without, now).manager.timed(),
{
    match run.manager.last_active_device {
        Some(device) => {
            lemma_activate_devices(run.log(with.0, with.1, now), device.udn@, now);
        },
        None => {},
    }
}

/// Marking the device of a connection leaves at most one device active.
proof fn lemma_mark_active_devices(run: Run, url: Seq<char>, now: u64)
    ensures
        at_most_one_active(run.mark_active(url, now).manager.devices),
        run.mark_active(url, now).manager.cache == run.manager.cache,
        run.manager.logs_flushed() ==> run.mark_active(url, now).manager.logs_flushed(),
        run.mark_active(url, now).manager.ws_client_status == run.manager.ws_client_status,
        run.mark_active(url, now).manager.is_activating == run.manager.is_activating,
        run.mark_active(url, now).manager.activation_start == run.manager.activation_start,
{
    let cleared = run.deactivate_all();
    lemma_deactivated_none_active(run.manager.devices);
    match url_host(url) {
        None => {},
        Some(host) => {
            match host_place(cleared.manager.devices, host) {
                None => {},
                Some(at) => {
                    let device = StreamMagicDevice { is_active: true, ..cleared.manager.devices[at] };
                    let marked = cleared.manager.devices.update(at, device);
                    assert(at_most_one_active(marked)) by {
                        assert forall|i: int, j: int| 0 <= i < j < marked.len() implies !(
                        marked[i].is_active && marked[j].is_active) by {
                            if i != at {
                                assert(marked[i] == cleared.manager.devices[i]);
                            }
                            if j != at {
                                assert(marked[j] == cleared.manager.devices[j]);
                            }
                        }
                    }
                },
            }
        },
    }
}

/// Sending to the streamer changes nothing of the manager.
proof fn lemma_subscribe_manager(run: Run)
    ensures
        run.subscribe().manager == run.manager,
        run.subscribe().send(queue_list_request()).manager == run.manager,
{
}

/// What every action keeps: the cache, that no log entry waits once the user interface is
/// ready, that at most one device is active, that the manager is not activating while a
/// connection stands, and that the activation's clock runs exactly while it is activating.
#[verifier::rlimit(40)]
pub proof fn lemma_action_keeps(manager: ManagerView, action: StreamMagicManagerAction, now: u64)
    ensures
        begin(manager).on_action(action, now).manager.cache == manager.cache,
        manager.logs_flushed() ==> begin(manager).on_action(action, now).manager.logs_flushed(),
        manager.one_active() ==> begin(manager).on_action(action, now).manager.one_active(),
        manager.settled() ==> begin(manager).on_action(action, now).manager.settled(),
        manager.timed() ==> begin(manager).on_action(action, now).manager.timed(),
{
    let run = begin(manager);
    match action {
        StreamMagicManagerAction::ActivateUdn(udn) => {
            lemma_activate_devices(run, udn@, now);
            if none_active(run.activate(udn@, now).manager.devices) {
                lemma_none_active_is_one(run.activate(udn@, now).manager.devices);
            }
        },
        StreamMagicManagerAction::Deactivate => {
            let cleared = run.log(
                SerializableLevel::Info,
                "Deactivating currently-active device"@,
                now,
            ).deactivate_all();
            lemma_deactivated_none_active(manager.devices);
            lemma_none_active_is_one(cleared.manager.devices);
        },
        StreamMagicManagerAction::Discover(activate) => {
            assert(run.discover(activate, now).manager.devices =~= Seq::<
                StreamMagicDevice,
            >::empty());
        },
        StreamMagicManagerAction::HandleClientError => {
            let tested = if manager.is_testing_connection {
                let warned = run.log(SerializableLevel::Warn, "Test resulted in client error"@, now);
                Run {
                    manager: ManagerView { is_testing_connection: false, ..warned.manager },
                    ..warned
                }
            } else {
                run
            };
            match tested.manager.last_active_device {
                Some(device) => {
                    let told = tested.log(
                        SerializableLevel::Info,
                        "Client error; retrying last-active device"@,
                        now,
                    ).resume();
                    lemma_activate_devices(told, device.udn@, now);
                    if none_active(told.activate(device.udn@, now).manager.devices) {
                        lemma_none_active_is_one(told.activate(device.udn@, now).manager.devices);
                    }
                },
                None => {},
            }
        },
        StreamMagicManagerAction::OnUIReady => {
            let shown = (Run {
                manager: ManagerView { ui_ready: true, ..manager },
                ..run
            }).emit_state().emit_payloads();
            assert(shown.flush_logs().manager.buffered_app_logs.len() == 0);
        },
        StreamMagicManagerAction::ProcessDiscoveredDevice(device) => {
            let logged = run.log(
                SerializableLevel::Info,
                "Processing discovered device: "@ + device.label_text(),
                now,
            );
            let added = if udn_place(logged.manager.devices, device.udn@) is Some {
                logged
            } else {
                Run {
                    manager: ManagerView {
                        devices: logged.manager.devices.push(deactivated(device)),
                        ..logged.manager
                    },
                    ..logged
                }
            };
            match added.manager.ws_client_status@ {
                StatusView::Connected { url, .. } => {
                    lemma_mark_active_devices(added, url, now);
                },
                _ => {
                    if manager.one_active() {
                        assert(at_most_one_active(added.manager.devices)) by {
                            let devices = added.manager.devices;
                            assert forall|i: int, j: int| 0 <= i < j < devices.len() implies !(
                            devices[i].is_active && devices[j].is_active) by {
                                if j < manager.devices.len() {
                                    assert(devices[i] == manager.devices[i]);
                                    assert(devices[j] == manager.devices[j]);
                                }
                            }
                        }
                    }
                },
            }
        },
        StreamMagicManagerAction::TestConnection => {
            if !(manager.ws_client_status@ is Connected) {
                let with = (
                    SerializableLevel::Info,
                    "No active WebSocketClient connection to test; attempting to re-activate last-seen device"@,
                );
                let without = (
                    SerializableLevel::Warn,
                    "Cannot perform test; no active WebSocketClient connection, and no known last-seen device to re-activate"@,
                );
                lemma_reactivate_devices(run, with, without, now);
                if none_active(run.reactivate(with, without, now).manager.devices) {
                    lemma_none_active_is_one(run.reactivate(with, without, now).manager.devices);
                }
            }
        },
        _ => {},
    }
}

/// What every status keeps, and what it brings about: whatever the manager was before, a
/// status leaves at most one device active, and leaves the manager at rest where it says
/// that a connection stands.
pub proof fn lemma_status_keeps(manager: ManagerView, status: WebSocketClientStatus, now: u64)
    ensures
        begin(manager).on_status(status, now).manager.cache == manager.cache,
        manager.logs_flushed() ==> begin(manager).on_status(status, now).manager.logs_flushed(),
        manager.one_active() ==> begin(manager).on_status(status, now).manager.one_active(),
        begin(manager).on_status(status, now).manager.settled(),
        begin(manager).on_status(status, now).manager.ws_client_status == status,
        manager.timed() ==> begin(manager).on_status(status, now).manager.timed(),
{
    let run = begin(manager);
    let announced = if manager.is_testing_connection {
        run
    } else {
        run.log(SerializableLevel::Info, "WebSocketClient status: "@ + status_name(status@), now)
    };
    let observed = announced.with_status(status);
    match status@ {
        StatusView::Connected { url, existing } => {
            let tested = if announced.manager.is_testing_connection {
                let told = announced.log(SerializableLevel::Info, "Streamer connection OK"@, now);
                Run {
                    manager: ManagerView { is_testing_connection: false, ..told.manager },
                    ..told
                }
            } else {
                announced
            };
            if !existing {
                let persisted = match url_host(url) {
                    Some(host) => tested.log(
                        SerializableLevel::Info,
                        "Persisting last connected host: "@ + host,
                        now,
                    ).push(EffectView::PersistHost(host)),
                    None => tested,
                };
                lemma_subscribe_manager(persisted);
                let asked = persisted.subscribe().send(queue_list_request());
                lemma_mark_active_devices(asked, url, now);
            }
        },
        StatusView::Disconnected { reason, consider_reconnecting } => {
            let logged = match reason {
                Some(text) => observed.log(
                    SerializableLevel::Info,
                    "WebSocketClient has disconnected with reason: "@ + text,
                    now,
                ),
                None => observed.log(
                    SerializableLevel::Info,
                    "WebSocketClient has disconnected with no message"@,
                    now,
                ),
            };
            let cleared = logged.deactivate_all();
            lemma_deactivated_none_active(logged.manager.devices);
            lemma_none_active_is_one(cleared.manager.devices);
            let dropped = Run {
                manager: ManagerView {
                    has_session: false,
                    has_session_channel: false,
                    ..cleared.manager
                },
                ..cleared
            };
            let with = (SerializableLevel::Info, "Attempting re-activation of last-active device"@);
            if dropped.manager.is_testing_connection {
                let warned = dropped.log(
                    SerializableLevel::Warn,
                    "Test resulted in Disconnect"@,
                    now,
                );
                let tested = Run {
                    manager: ManagerView { is_testing_connection: false, ..warned.manager },
                    ..warned
                };
                let without = (
                    SerializableLevel::Info,
                    "Giving up on connection test (no last-active device to reactivate)"@,
                );
                lemma_reactivate_devices(tested, with, without, now);
                if none_active(tested.reactivate(with, without, now).manager.devices) {
                    lemma_none_active_is_one(tested.reactivate(with, without, now).manager.devices);
                }
            } else if consider_reconnecting {
                let hoped = dropped.log(
                    SerializableLevel::Info,
                    "Potentially-recoverable disconnect"@,
                    now,
                );
                lemma_reactivate_devices(hoped, with, with, now);
                if none_active(hoped.reactivate(with, with, now).manager.devices) {
                    lemma_none_active_is_one(hoped.reactivate(with, with, now).manager.devices);
                }
            }
        },
        _ => {},
    }
}

/// An update changes the cache only where its parameters were read as a payload of the
/// kind that its path carries, and changes the slot of that kind alone: parameters that
/// could not be read never replace what a slot holds.
pub proof fn lemma_update_keeps(manager: ManagerView, path: Seq<char>, decoding: Decoding, now: u64)
    ensures
        begin(manager).on_update(path, decoding, now).manager.cache == match decoding {
            Decoding::Payload(payload) => if StreamerPath::of_text(path) == Some(payload.path()) {
                manager.cache.with(payload)
            } else {
                manager.cache
            },
            Decoding::Failed(_) => manager.cache,
        },
        decoding is Failed ==> begin(manager).on_update(path, decoding, now).manager.cache
            == manager.cache,
        begin(manager).on_update(path, decoding, now).manager.devices == manager.devices,
        begin(manager).on_update(path, decoding, now).manager.is_activating
            == manager.is_activating,
        begin(manager).on_update(path, decoding, now).manager.ws_client_status
            == manager.ws_client_status,
        manager.logs_flushed() ==> begin(manager).on_update(
            path,
            decoding,
            now,
        ).manager.logs_flushed(),
        begin(manager).on_update(path, decoding, now).manager.activation_start
            == manager.activation_start,
{
}

/// What every event keeps: the device list has at most one active device; no log entry
/// waits once the user interface is ready; the manager is not activating while a
/// connection stands, and never after a status; the activation's clock runs exactly while
/// the manager is activating; and the cache changes only by an update.
pub proof fn lemma_step_keeps(manager: ManagerView, event: Event, now: u64)
    ensures
        manager.one_active() ==> step(manager, event, now).manager.one_active(),
        manager.logs_flushed() ==> step(manager, event, now).manager.logs_flushed(),
        manager.settled() ==> step(manager, event, now).manager.settled(),
        event is Status ==> step(manager, event, now).manager.settled(),
        !(event is Update) ==> step(manager, event, now).manager.cache == manager.cache,
        manager.timed() ==> step(manager, event, now).manager.timed(),
{
    match event {
        Event::Action(action) => {
            lemma_action_keeps(manager, action, now);
        },
        Event::Streamer(action) => {},
        Event::Status(status) => {
            lemma_status_keeps(manager, status, now);
        },
        Event::Update(path, decoding) => {
            lemma_update_keeps(manager, path, decoding, now);
        },
        Event::Malformed(text, error) => {},
    }
}

/// What the beginning of the manager's life keeps: the cache, that no log entry waits once
/// the user interface is ready, and that the activation's clock runs exactly while the
/// manager is activating. No device is known after it.
pub proof fn lemma_start_keeps(manager: ManagerView, persisted_host: Option<Seq<char>>, now: u64)
    ensures
        begin(manager).start(persisted_host, now).manager.devices.len() == 0,
        begin(manager).start(persisted_host, now).manager.one_active(),
        begin(manager).start(persisted_host, now).manager.cache == manager.cache,
        manager.logs_flushed() ==> begin(manager).start(persisted_host, now).manager.logs_flushed(),
        manager.timed() ==> begin(manager).start(persisted_host, now).manager.timed(),
{
}

/// Whatever events reach the manager, in whatever order, at most one device is active
/// after each of them.
pub proof fn lemma_at_most_one_device_is_active(manager: ManagerView, events: Seq<(Event, u64)>)
    requires
        manager.one_active(),
    ensures
        after_events(manager, events).one_active(),
    decreases events.len(),
{
    if events.len() > 0 {
        let earlier = events.drop_last();
        lemma_at_most_one_device_is_active(manager, earlier);
        lemma_step_keeps(after_events(manager, earlier), events.last().0, events.last().1);
    }
}

/// Whatever events reach the manager, in whatever order, it is never activating while it
/// holds a connection to be standing.
pub proof fn lemma_never_activating_while_connected(
    manager: ManagerView,
    events: Seq<(Event, u64)>,
)
    requires
        manager.settled(),
    ensures
        after_events(manager, events).settled(),
    decreases events.len(),
{
    if events.len() > 0 {
        let earlier = events.drop_last();
        lemma_never_activating_while_connected(manager, earlier);
        lemma_step_keeps(after_events(manager, earlier), events.last().0, events.last().1);
    }
}

/// Whatever events reach the manager, in whatever order, no log entry waits after any of
/// them once the user interface is ready.
pub proof fn lemma_logs_are_flushed(manager: ManagerView, events: Seq<(Event, u64)>)
    requires
        manager.logs_flushed(),
    ensures
        after_events(manager, events).logs_flushed(),
    decreases events.len(),
{
    if events.len() > 0 {
        lemma_logs_are_flushed(manager, events.drop_last());
        lemma_step_keeps(after_events(manager, events.drop_last()), events.last().0, events.last().1);
    }
}

/// Whatever events reach the manager, if the last of them is a status that says that a
/// connection stands, the manager is not activating after it.
pub proof fn lemma_connected_is_not_activating(
    manager: ManagerView,
    events: Seq<(Event, u64)>,
    status: WebSocketClientStatus,
    now: u64,
)
    requires
        status@ is Connected,
    ensures
        !after_events(manager, events.push((Event::Status(status), now))).is_activating,
        after_events(manager, events.push((Event::Status(status), now))).ws_client_status
            == status,
{
    let all = events.push((Event::Status(status), now));
    assert(all.drop_last() =~= events);
    lemma_status_keeps(after_events(manager, events), status, now);
}

/// An activation stays inside its budget of time: whenever the manager is still activating
/// after an attempt, no more than the budget has passed since the activation began. No
/// pause is longer than the longest pause.
pub proof fn lemma_activation_is_bounded(run: Run, udn: Seq<char>, now: u64)
    requires
        run.manager.timed(),
    ensures
        run.activate(udn, now).manager.timed(),
        run.activate(udn, now).manager.is_activating ==> {
            &&& run.activate(udn, now).manager.activation_start matches Some(start)
            &&& !has_exceeded(now, start, run.manager.activation_timeout)
        },
        backoff_delay_ms(run.manager.activation_attempts as nat) <= MAX_BACKOFF_MS,
{
    lemma_backoff_is_capped(run.manager.activation_attempts as nat);
    let begun = run.set_activating(true, now);
    if !begun.out_of_time(now) {
        let waited = begun.prepare_attempt(udn, now);
        assert(waited.manager.activation_start == begun.manager.activation_start);
        assert(waited.manager.activation_timeout == run.manager.activation_timeout);
    }
}

// ================================================================================================
// One attempt
// ================================================================================================

/// Whether one of `effects` opens a session.
pub open spec fn opens_session(effects: Seq<EffectView>) -> bool {
    exists|i: int| 0 <= i < effects.len() && effects[i] is StartSession
}

/// Whether one of `effects` ends a session.
pub open spec fn ends_session(effects: Seq<EffectView>) -> bool {
    exists|i: int| 0 <= i < effects.len() && effects[i] is StopSession
}

/// Whether one of `effects` asks for a pause.
pub open spec fn pauses(effects: Seq<EffectView>) -> bool {
    exists|i: int| 0 <= i < effects.len() && effects[i] is Sleep
}

/// Whether `effects` ask for exactly one pause, of `delay` milliseconds, and open exactly
/// one session, to `url`, after that pause.
pub open spec fn pauses_then_opens(effects: Seq<EffectView>, delay: u64, url: Seq<char>) -> bool {
    exists|i: int, j: int|
        {
            &&& 0 <= i < j < effects.len()
            &&& #[trigger] effects[i] == EffectView::Sleep(delay)
            &&& #[trigger] effects[j] == EffectView::StartSession(url)
            &&& forall|k: int| 0 <= k < effects.len() && k != i ==> !(#[trigger] effects[k] is Sleep)
            &&& forall|k: int|
                0 <= k < effects.len() && k != j ==> !(#[trigger] effects[k] is StartSession)
        }
}

/// An attempt that comes when the activation has used up its time gives the activation
/// up: one entry is logged as an error, the state is published, and nothing else is asked
/// for. No pause is waited for, no session is opened or ended, and the devices stay as
/// they are.
pub proof fn lemma_late_attempt_gives_up(manager: ManagerView, udn: Seq<char>, now: u64)
    requires
        manager.is_activating,
        begin(manager).out_of_time(now),
    ensures
        ({
            let after = begin(manager).activate(udn, now);
            let entry = LogView {
                level: SerializableLevel::Error,
                message: begin(manager).out_of_time_text(),
                when: now as u128,
            };
            &&& !after.manager.is_activating
            &&& after.manager.activation_start is None
            &&& after.manager.activation_attempts == 0
            &&& after.manager.devices == manager.devices
            &&& after.manager.has_session == manager.has_session
            &&& !pauses(after.effects)
            &&& !opens_session(after.effects)
            &&& !ends_session(after.effects)
            &&& if manager.ui_ready {
                after.effects == seq![
                    EffectView::EmitAppLog(entry),
                    EffectView::EmitManagerState(after.manager.state_msg()),
                ]
            } else {
                &&& after.effects == seq![EffectView::EmitManagerState(after.manager.state_msg())]
                &&& after.manager.buffered_app_logs == manager.buffered_app_logs.push(entry)
            }
        }),
{
    let after = begin(manager).activate(udn, now);
    if manager.ui_ready {
        assert(after.effects.len() == 2);
    } else {
        assert(after.effects.len() == 1);
    }
    assert(after.effects =~= if manager.ui_ready {
        seq![
            EffectView::EmitAppLog(
                LogView {
                    level: SerializableLevel::Error,
                    message: begin(manager).out_of_time_text(),
                    when: now as u128,
                },
            ),
            EffectView::EmitManagerState(after.manager.state_msg()),
        ]
    } else {
        seq![EffectView::EmitManagerState(after.manager.state_msg())]
    });
}

/// An attempt to activate a device that is not among the devices, made while no
/// activation is running, opens no session and leaves no activation behind: the manager
/// is not activating after it, and no device has a connection.
pub proof fn lemma_unknown_device_is_not_activated(manager: ManagerView, udn: Seq<char>, now: u64)
    requires
        !manager.is_activating,
        udn_place(manager.devices, udn) is None,
    ensures
        ({
            let after = begin(manager).activate(udn, now);
            &&& !after.manager.is_activating
            &&& after.manager.activation_start is None
            &&& after.manager.activation_attempts == 0
            &&& after.manager.devices == all_deactivated(manager.devices)
            &&& !opens_session(after.effects)
        }),
{
    lemma_deactivated_places(manager.devices, udn);
    let begun = begin(manager).set_activating(true, now);
    assert(!begun.out_of_time(now));
    let waited = begun.prepare_attempt(udn, now);
    assert(waited.manager.devices == all_deactivated(manager.devices));
    let after = waited.connect_to(udn, now);
    assert forall|i: int| 0 <= i < after.effects.len() implies !(after.effects[i]
        is StartSession) by {}
}

/// An attempt that comes in time, for a device that is among the devices and whose URL
/// names a host, waits and then connects, wherever in a step it is made: it is the attempt
/// number `k + 1` where `k` attempts were made before, it waits for the pause that belongs
/// to `k`, and only then opens its session, the only one, to that host.
pub proof fn lemma_attempt_in_a_step(run: Run, udn: Seq<char>, now: u64)
    requires
        !pauses(run.effects),
        !opens_session(run.effects),
        !run.set_activating(true, now).out_of_time(now),
        udn_place(run.manager.devices, udn) is Some,
        url_host(run.manager.devices[udn_place(run.manager.devices, udn)->Some_0].url@) is Some,
    ensures
        ({
            let made = if run.manager.is_activating {
                run.manager.activation_attempts
            } else {
                0
            };
            let place = udn_place(run.manager.devices, udn)->Some_0;
            let host = url_host(run.manager.devices[place].url@)->Some_0;
            let after = run.activate(udn, now);
            &&& after.manager.is_activating
            &&& after.manager.activation_start == run.set_activating(
                true,
                now,
            ).manager.activation_start
            &&& after.manager.activation_attempts == counted_up(made)
            &&& after.manager.has_session
            &&& pauses_then_opens(
                after.effects,
                backoff_delay_ms(made as nat) as u64,
                ws_url(host),
            )
        }),
{
    lemma_deactivated_places(run.manager.devices, udn);
    let made = if run.manager.is_activating {
        run.manager.activation_attempts
    } else {
        0
    };
    let at = udn_place(run.manager.devices, udn)->Some_0;
    let host = url_host(run.manager.devices[at].url@)->Some_0;
    let begun = run.set_activating(true, now);
    let waited = begun.prepare_attempt(udn, now);
    assert(waited.manager.devices == all_deactivated(run.manager.devices));
    assert(waited.manager.devices[at].url == run.manager.devices[at].url);
    assert(waited.effects.last() == EffectView::Sleep(backoff_delay_ms(made as nat) as u64));
    let after = waited.connect_to(udn, now);
    let i = waited.effects.len() - 1;
    let j = after.effects.len() - 2;
    assert(after.effects[j] == EffectView::StartSession(ws_url(host)));
    assert(after.effects[i] == EffectView::Sleep(backoff_delay_ms(made as nat) as u64));
    assert forall|k: int| 0 <= k < after.effects.len() && k != i implies !(
    #[trigger] after.effects[k] is Sleep) by {
        if k < run.effects.len() {
            assert(after.effects[k] == run.effects[k]);
        }
    }
    assert forall|k: int| 0 <= k < after.effects.len() && k != j implies !(
    #[trigger] after.effects[k] is StartSession) by {
        if k < run.effects.len() {
            assert(after.effects[k] == run.effects[k]);
        }
    }
}

/// An attempt that begins a step, in time and for a device that is among the devices and
/// whose URL names a host, waits and then connects.
pub proof fn lemma_attempt_pauses_then_connects(manager: ManagerView, udn: Seq<char>, now: u64)
    requires
        !begin(manager).set_activating(true, now).out_of_time(now),
        udn_place(manager.devices, udn) is Some,
        url_host(manager.devices[udn_place(manager.devices, udn)->Some_0].url@) is Some,
    ensures
        ({
            let made = if manager.is_activating {
                manager.activation_attempts
            } else {
                0
            };
            let host = url_host(manager.devices[udn_place(manager.devices, udn)->Some_0].url@)->Some_0;
            let after = begin(manager).activate(udn, now);
            &&& after.manager.is_activating
            &&& after.manager.activation_attempts == counted_up(made)
            &&& after.manager.has_session
            &&& pauses_then_opens(
                after.effects,
                backoff_delay_ms(made as nat) as u64,
                ws_url(host),
            )
        }),
{
    lemma_attempt_in_a_step(begin(manager), udn, now);
}

/// An attempt that comes when the activation has used up its time gives the activation
/// up, wherever in a step it is made: no pause is waited for and no session is opened.
pub proof fn lemma_late_attempt_in_a_step(run: Run, udn: Seq<char>, now: u64)
    requires
        !pauses(run.effects),
        !opens_session(run.effects),
        run.manager.is_activating,
        run.out_of_time(now),
    ensures
        !run.activate(udn, now).manager.is_activating,
        run.activate(udn, now).manager.activation_start is None,
        run.activate(udn, now).manager.activation_attempts == 0,
        run.activate(udn, now).manager.devices == run.manager.devices,
        !pauses(run.activate(udn, now).effects),
        !opens_session(run.activate(udn, now).effects),
{
    let after = run.activate(udn, now);
    assert forall|k: int| 0 <= k < after.effects.len() implies !(#[trigger] after.effects[k]
        is Sleep) && !(after.effects[k] is StartSession) by {
        if k < run.effects.len() {
            assert(after.effects[k] == run.effects[k]);
        }
    }
}

// ================================================================================================
// The end of a connection
// ================================================================================================

/// Whether `status` tells of a connection that is lost or given up and that nothing is to
/// be gained from opening again.
pub open spec fn is_final_loss(status: WebSocketClientStatus) -> bool {
    status@ matches StatusView::Disconnected { consider_reconnecting, .. } && !consider_reconnecting
}

/// Whether `status` tells of a connection that is lost or given up.
pub open spec fn is_loss(status: WebSocketClientStatus) -> bool {
    status@ is Disconnected
}

/// A loss that is not followed by an activation ends whatever activation was running.
/// Outside a test, when the session says that nothing is to be gained from trying again,
/// or when no device was active before: the manager is not activating afterwards,
/// whatever it had observed before, it has no session, no device has a connection, the
/// status is the one that the session reported, and the cache is as it was.
pub proof fn lemma_loss_ends_the_activation(
    manager: ManagerView,
    status: WebSocketClientStatus,
    now: u64,
)
    requires
        is_loss(status),
        !manager.is_testing_connection,
        is_final_loss(status) || manager.last_active_device is None,
    ensures
        ({
            let after = step(manager, Event::Status(status), now);
            &&& !after.manager.is_activating
            &&& after.manager.activation_start is None
            &&& after.manager.activation_attempts == 0
            &&& !after.manager.has_session
            &&& !after.manager.has_session_channel
            &&& after.manager.devices == all_deactivated(manager.devices)
            &&& after.manager.ws_client_status == status
            &&& after.manager.cache == manager.cache
            &&& !opens_session(after.effects)
            &&& !pauses(after.effects)
        }),
{
    let after = step(manager, Event::Status(status), now);
    assert forall|k: int| 0 <= k < after.effects.len() implies !(#[trigger] after.effects[k]
        is Sleep) && !(after.effects[k] is StartSession) by {}
}

/// A failed attempt to connect ends the activation and keeps its budget: after the loss
/// that the session reports the manager is not activating, and what was left of the
/// activation waits. When the error of the session's task is answered, the attempt that
/// is made goes on where the activation stood: it gives up where the time of the
/// activation is used up, and otherwise it counts on from the attempts that were made,
/// waits for the pause that belongs to them, and only then opens its session.
pub proof fn lemma_failed_attempt_keeps_the_budget(
    manager: ManagerView,
    status: WebSocketClientStatus,
    now: u64,
    later: u64,
)
    requires
        manager.timed(),
        manager.is_activating,
        manager.ws_client_status@ is Connecting,
        !manager.is_testing_connection,
        is_final_loss(status),
        manager.last_active_device is Some,
    ensures
        ({
            let start = manager.activation_start->Some_0;
            let made = manager.activation_attempts;
            let udn = manager.last_active_device->Some_0.udn@;
            let lost = step(manager, Event::Status(status), now).manager;
            let retried = step(lost, Event::Action(StreamMagicManagerAction::HandleClientError), later);
            &&& !lost.is_activating
            &&& lost.timed()
            &&& lost.interrupted == Some(RetryBudget { start, attempts: made })
            &&& has_exceeded(later, start, manager.activation_timeout) ==> {
                &&& !retried.manager.is_activating
                &&& !pauses(retried.effects)
                &&& !opens_session(retried.effects)
            }
            &&& !has_exceeded(later, start, manager.activation_timeout) && udn_place(
                manager.devices,
                udn,
            ) is Some && url_host(
                manager.devices[udn_place(manager.devices, udn)->Some_0].url@,
            ) is Some ==> {
                &&& retried.manager.is_activating
                &&& retried.manager.activation_start == Some(start)
                &&& retried.manager.activation_attempts == counted_up(made)
                &&& pauses_then_opens(
                    retried.effects,
                    backoff_delay_ms(made as nat) as u64,
                    ws_url(
                        url_host(
                            manager.devices[udn_place(manager.devices, udn)->Some_0].url@,
                        )->Some_0,
                    ),
                )
            }
        }),
{
    let start = manager.activation_start->Some_0;
    let udn = manager.last_active_device->Some_0.udn@;
    lemma_loss_ends_the_activation(manager, status, now);
    let lost = step(manager, Event::Status(status), now).manager;
    assert(lost.interrupted == Some(
        RetryBudget { start, attempts: manager.activation_attempts },
    ));
    assert(lost.last_active_device == manager.last_active_device);
    assert(lost.activation_timeout == manager.activation_timeout);
    let told = begin(lost).log(
        SerializableLevel::Info,
        "Client error; retrying last-active device"@,
        later,
    );
    let resumed = told.resume();
    assert(!pauses(resumed.effects) && !opens_session(resumed.effects)) by {
        assert forall|k: int| 0 <= k < resumed.effects.len() implies !(
        #[trigger] resumed.effects[k] is Sleep) && !(resumed.effects[k] is StartSession) by {}
    }
    assert(resumed.manager.is_activating);
    assert(resumed.manager.activation_start == Some(start));
    assert(resumed.set_activating(true, later).manager.activation_start == Some(start));
    if has_exceeded(later, start, manager.activation_timeout) {
        lemma_late_attempt_in_a_step(resumed, udn, later);
    } else if udn_place(manager.devices, udn) is Some && url_host(
        manager.devices[udn_place(manager.devices, udn)->Some_0].url@,
    ) is Some {
        lemma_deactivated_places(manager.devices, udn);
        let at = udn_place(manager.devices, udn)->Some_0;
        lemma_udn_place(manager.devices, udn);
        assert(resumed.manager.devices == all_deactivated(manager.devices));
        assert(resumed.manager.devices[at].url == manager.devices[at].url);
        lemma_attempt_in_a_step(resumed, udn, later);
    }
}

} // verus!
