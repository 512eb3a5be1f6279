//! Everything that concerns the streamer: the actions a user can ask for, the messages of the
//! device, and the state machines of the manager and of its session.
//!
//! The manager lives as long as the application. It keeps the list of discovered streamers,
//! activates one of them (that is, has a session opened to it), retries a failing activation
//! with growing pauses inside a fixed budget of time, keeps the last payload of every kind
//! that the streamer sends, and turns the user's actions into messages for the streamer.
//!
//! The driver owns the inbox, the session's task, the persisted store, the event bus and the
//! clock. It hands every event to the manager together with the time, and carries out the
//! effects that the manager answers with, in their order.

use vstd::prelude::*;
use vstd::string::*;

use crate::clock::{exceeded, has_exceeded};
use crate::discovery::counted_up;
use crate::errors::{unknown_device_text, PunyTunesError};
use crate::messaging::{AppLog, AppMessageType, LogView, SerializableLevel};
use crate::streammagic_manager::discovery::{duplicate_devices, StreamMagicDevice};
use crate::streammagic_manager::laws::{
    is_final_loss, is_loss, lemma_loss_ends_the_activation, lemma_start_keeps, lemma_step_keeps,
    Event,
};
use crate::streammagic_manager::payloads::{
    bool_text, padded_message, plain_message, update_request, PlayControl, Presets, QueueInfo,
    QueueList, RecallPreset, RequestUpdates, StreamerPath, StreamerPayload, StreamerPayloadCache,
    SystemInfo, SystemPower, SystemSources, TransportToggleState, ZoneNowPlaying, ZonePlayState,
    ZonePosition, ZoneState,
};
use crate::streammagic_manager::shown::{
    lemma_start_shows_settled, lemma_step_shows_settled, shows_settled,
};
use crate::streammagic_manager::websocket_client::{
    RxView, StatusView, WSClientRxChannelMsg, WebSocketClientAction,
    WebSocketClientDisconnectedDetails, WebSocketClientStatus,
};
use crate::text::{
    contains, contains_text, decimal_string, decimal_text, duplicate_text, joined, json_escape,
    str_eq,
};
use crate::utils::{host_from_url, url_host};

pub mod discovery;
pub mod laws;
pub mod payloads;
pub mod shown;
pub mod websocket_client;

verus! {

/// How long an activation may take with all its attempts, in milliseconds.
pub const ACTIVATION_TIMEOUT_MS: u64 = 15000;

/// The pause before the second attempt of an activation, in milliseconds.
pub const BASE_BACKOFF_MS: u64 = 100;

/// The longest pause between two attempts of an activation, in milliseconds.
pub const MAX_BACKOFF_MS: u64 = 1500;

/// The key under which the host of the last connection is persisted.
pub const KEY_LAST_CONNECTED_HOST: &'static str = "last_connected_host";

/// What marks a position update whose position is not known at the moment.
pub const MISSING_DATA: &'static str = "missing field `data`";

// ================================================================================================
// Messages
// ================================================================================================

/// What can be asked of the manager itself.
#[derive(Clone, Debug, PartialEq, Eq)]
pub enum StreamMagicManagerAction {
    /// Activate the device with this UDN.
    ActivateUdn(String),
    /// Open a session to this host, whatever the list of devices says.
    ConnectToStreamer(String),
    /// Deactivate the active device.
    Deactivate,
    /// End the session.
    DisconnectFromStreamer,
    /// Discover streamers; the flag says whether the first one found is to be activated.
    Discover(bool),
    EmitAppLog(AppLog),
    /// The session's task has ended with an error.
    HandleClientError,
    OnUIReady,
    ProcessDiscoveredDevice(StreamMagicDevice),
    SetIsDiscovering(bool),
    ShutDown,
    /// End the session; the flag says whether the persisted host is to be forgotten.
    StopWebSocketClient(bool),
    TestConnection,
}

/// What a user can ask of the streamer.
#[derive(Clone, Debug, PartialEq, Eq)]
pub enum StreamerAction {
    MuteSet(bool),
    NextTrack,
    Pause,
    Play,
    PlayPresetId(i32),
    PlayQueueId(i32),
    PowerOn,
    PowerStandby,
    PowerToggle,
    PreviousTrack,
    Seek(i32),
    SetRepeat(TransportToggleState),
    SetShuffle(TransportToggleState),
    SetSourceId(String),
    Stop,
    TogglePlayback,
    VolumePercentSet(u8),
    VolumeStepChange(i8),
    VolumeStepSet(u8),
}

/// What the manager shows of itself to the user interface.
#[derive(Clone, Debug, PartialEq, Eq)]
pub struct StreamMagicManagerStateMsg {
    pub devices: Vec<StreamMagicDevice>,
    pub is_activating: bool,
    pub is_discovering: bool,
    pub is_testing_connection: bool,
    pub websocket_client_status: WebSocketClientStatus,
}

/// What the manager shows of itself, as mathematics sees it.
pub struct StateMsgView {
    pub devices: Seq<StreamMagicDevice>,
    pub is_activating: bool,
    pub is_discovering: bool,
    pub is_testing_connection: bool,
    pub websocket_client_status: WebSocketClientStatus,
}

impl View for StreamMagicManagerStateMsg {
    type V = StateMsgView;

    open spec fn view(&self) -> StateMsgView {
        StateMsgView {
            devices: self.devices@,
            is_activating: self.is_activating,
            is_discovering: self.is_discovering,
            is_testing_connection: self.is_testing_connection,
            websocket_client_status: self.websocket_client_status,
        }
    }
}

/// A message in the manager's inbox.
#[derive(Clone, Debug, PartialEq, Eq)]
pub enum StreamMagicManagerChannelMsg {
    StreamerActionMsg(StreamerAction),
    StreamMagicManagerActionMsg(StreamMagicManagerAction),
}

/// What the driver made of the parameters of an update.
#[derive(Clone, Debug, PartialEq, Eq)]
pub enum Decoding {
    /// The parameters were read as this payload.
    Payload(StreamerPayload),
    /// The parameters could not be read; the text says why.
    Failed(String),
}

// ================================================================================================
// Effects
// ================================================================================================

/// What the manager asks its driver to do.
#[derive(Clone, Debug, PartialEq, Eq)]
pub enum StreamerManagerEffect {
    /// Publish a log entry on the event bus, and write it to the log.
    EmitAppLog(AppLog),
    /// Publish the manager's state on the event bus.
    EmitManagerState(StreamMagicManagerStateMsg),
    /// Publish what the cache holds in the slot of this kind of message.
    EmitPayload(AppMessageType),
    /// Start a discovery; the flag says whether the first streamer found is to be
    /// activated. Its findings come back through the inbox.
    Discover(bool),
    /// Tell the session to shut down, and wait until its task has ended.
    StopSession,
    /// Start a session for the WebSocket at this URL, with channels of its own.
    StartSession(String),
    /// Send this message to the session.
    SendToSession(WSClientRxChannelMsg),
    /// Wait this many milliseconds before the next effect.
    Sleep(u64),
    /// Persist this host as the host of the last connection.
    PersistHost(String),
    /// Forget the persisted host of the last connection.
    ForgetHost,
    /// Leave the run loop: the manager has ended.
    Stop,
}

/// An effect as mathematics sees it.
pub enum EffectView {
    EmitAppLog(LogView),
    EmitManagerState(StateMsgView),
    EmitPayload(AppMessageType),
    Discover(bool),
    StopSession,
    StartSession(Seq<char>),
    SendToSession(RxView),
    Sleep(u64),
    PersistHost(Seq<char>),
    ForgetHost,
    Stop,
}

impl View for StreamerManagerEffect {
    type V = EffectView;

    open spec fn view(&self) -> EffectView {
        match *self {
            StreamerManagerEffect::EmitAppLog(entry) => EffectView::EmitAppLog(entry@),
            StreamerManagerEffect::EmitManagerState(state) => EffectView::EmitManagerState(state@),
            StreamerManagerEffect::EmitPayload(kind) => EffectView::EmitPayload(kind),
            StreamerManagerEffect::Discover(activate) => EffectView::Discover(activate),
            StreamerManagerEffect::StopSession => EffectView::StopSession,
            StreamerManagerEffect::StartSession(url) => EffectView::StartSession(url@),
            StreamerManagerEffect::SendToSession(message) => EffectView::SendToSession(message@),
            StreamerManagerEffect::Sleep(millis) => EffectView::Sleep(millis),
            StreamerManagerEffect::PersistHost(host) => EffectView::PersistHost(host@),
            StreamerManagerEffect::ForgetHost => EffectView::ForgetHost,
            StreamerManagerEffect::Stop => EffectView::Stop,
        }
    }
}

/// A list of effects as mathematics sees it.
pub open spec fn effect_views(effects: Seq<StreamerManagerEffect>) -> Seq<EffectView> {
    Seq::new(effects.len(), |i: int| effects[i]@)
}

/// A list of log entries as mathematics sees it.
pub open spec fn log_views(entries: Seq<AppLog>) -> Seq<LogView> {
    Seq::new(entries.len(), |i: int| entries[i]@)
}

/// Adds one effect behind the others.
fn push_effect(effects: &mut Vec<StreamerManagerEffect>, effect: StreamerManagerEffect)
    ensures
        effect_views(final(effects)@) == effect_views(old(effects)@).push(effect@),
{
    effects.push(effect);
    assert(effect_views(effects@) =~= effect_views(old(effects)@).push(effect@));
}

/// No effects.
fn no_effects() -> (effects: Vec<StreamerManagerEffect>)
    ensures
        effect_views(effects@) == Seq::<EffectView>::empty(),
{
    let effects: Vec<StreamerManagerEffect> = Vec::new();
    assert(effect_views(effects@) =~= Seq::<EffectView>::empty());
    effects
}

// ================================================================================================
// Devices
// ================================================================================================

/// `device` with no connection to it, standing or being opened.
pub open spec fn deactivated(device: StreamMagicDevice) -> StreamMagicDevice {
    StreamMagicDevice { is_active: false, is_activating: false, ..device }
}

/// `devices` with no connection to any of them.
pub open spec fn all_deactivated(devices: Seq<StreamMagicDevice>) -> Seq<StreamMagicDevice> {
    Seq::new(devices.len(), |i: int| deactivated(devices[i]))
}

/// Whether at most one of `devices` is active.
pub open spec fn at_most_one_active(devices: Seq<StreamMagicDevice>) -> bool {
    forall|i: int, j: int|
        0 <= i < j < devices.len() ==> !(devices[i].is_active && devices[j].is_active)
}

/// Whether none of `devices` is active.
pub open spec fn none_active(devices: Seq<StreamMagicDevice>) -> bool {
    forall|i: int| 0 <= i < devices.len() ==> !devices[i].is_active
}

/// Whether `at` is the first place among `count` places at which `wanted` holds.
pub open spec fn is_first(at: int, count: int, wanted: spec_fn(int) -> bool) -> bool {
    &&& 0 <= at < count
    &&& wanted(at)
    &&& forall|before: int| 0 <= before < at ==> !#[trigger] wanted(before)
}

/// The first place among `count` places at which `wanted` holds, if there is one.
pub open spec fn first_place(count: int, wanted: spec_fn(int) -> bool) -> Option<int> {
    if exists|at: int| is_first(at, count, wanted) {
        Some(choose|at: int| is_first(at, count, wanted))
    } else {
        None
    }
}

/// The first place is the only first place.
pub proof fn lemma_first_place(at: int, count: int, wanted: spec_fn(int) -> bool)
    requires
        is_first(at, count, wanted),
    ensures
        first_place(count, wanted) == Some(at),
{
    let chosen = choose|other: int| is_first(other, count, wanted);
    assert(is_first(chosen, count, wanted));
    if chosen < at {
        assert(!wanted(chosen));
    } else if at < chosen {
        assert(!wanted(at));
    }
}

/// Where `wanted` holds nowhere, there is no first place.
pub proof fn lemma_no_place(count: int, wanted: spec_fn(int) -> bool)
    requires
        forall|at: int| 0 <= at < count ==> !#[trigger] wanted(at),
    ensures
        first_place(count, wanted) is None,
{
}

/// Whether the device at a place among `devices` has the UDN `udn`.
pub open spec fn has_udn(devices: Seq<StreamMagicDevice>, udn: Seq<char>) -> spec_fn(int) -> bool {
    |at: int| devices[at].udn@ == udn
}

/// Whether the URL of the device at a place among `devices` names the host `host`.
pub open spec fn names_host(devices: Seq<StreamMagicDevice>, host: Seq<char>) -> spec_fn(
    int,
) -> bool {
    |at: int| url_host(devices[at].url@) == Some(host)
}

/// The place of the first of `devices` that has the UDN `udn`.
pub open spec fn udn_place(devices: Seq<StreamMagicDevice>, udn: Seq<char>) -> Option<int> {
    first_place(devices.len() as int, has_udn(devices, udn))
}

/// The place of the first of `devices` whose URL names the host `host`.
pub open spec fn host_place(devices: Seq<StreamMagicDevice>, host: Seq<char>) -> Option<int> {
    first_place(devices.len() as int, names_host(devices, host))
}

/// What the first place of a UDN is: the device there has the UDN, and no device before
/// it has.
pub proof fn lemma_udn_place(devices: Seq<StreamMagicDevice>, udn: Seq<char>)
    ensures
        match udn_place(devices, udn) {
            Some(at) => {
                &&& 0 <= at < devices.len()
                &&& devices[at].udn@ == udn
                &&& forall|before: int| 0 <= before < at ==> (#[trigger] devices[before]).udn@ != udn
            },
            None => forall|at: int| 0 <= at < devices.len() ==> (#[trigger] devices[at]).udn@ != udn,
        },
{
    let wanted = has_udn(devices, udn);
    let count = devices.len() as int;
    match first_place(count, wanted) {
        Some(at) => {
            assert(is_first(at, count, wanted));
            assert forall|before: int| 0 <= before < at implies (#[trigger] devices[before]).udn@
                != udn by {
                assert(!wanted(before));
            }
        },
        None => {
            assert forall|at: int| 0 <= at < count implies !#[trigger] wanted(at) by {
                lemma_some_place(at, count, wanted);
            }
            assert forall|at: int| 0 <= at < devices.len() implies (#[trigger] devices[at]).udn@
                != udn by {
                assert(!wanted(at));
            }
        },
    }
}

/// Where `wanted` holds at a place, there is a first place at which it holds.
pub proof fn lemma_some_place(at: int, count: int, wanted: spec_fn(int) -> bool)
    requires
        0 <= at < count,
        first_place(count, wanted) is None,
    ensures
        !wanted(at),
    decreases at,
{
    if wanted(at) {
        if forall|before: int| 0 <= before < at ==> !#[trigger] wanted(before) {
            assert(is_first(at, count, wanted));
        } else {
            let before = choose|before: int| 0 <= before < at && #[trigger] wanted(before);
            lemma_some_place(before, count, wanted);
        }
    }
}

/// Marking devices as having no connection moves none of them and changes no UDN.
pub proof fn lemma_deactivated_places(devices: Seq<StreamMagicDevice>, udn: Seq<char>)
    ensures
        udn_place(all_deactivated(devices), udn) == udn_place(devices, udn),
{
    let cleared = all_deactivated(devices);
    lemma_udn_place(devices, udn);
    let wanted = has_udn(cleared, udn);
    match udn_place(devices, udn) {
        Some(at) => {
            assert(wanted(at));
            assert forall|before: int| 0 <= before < at implies !#[trigger] wanted(before) by {
                assert(devices[before].udn@ != udn);
            }
            lemma_first_place(at, cleared.len() as int, wanted);
        },
        None => {
            assert forall|at: int| 0 <= at < cleared.len() implies !#[trigger] wanted(at) by {
                assert(devices[at].udn@ != udn);
            }
            lemma_no_place(cleared.len() as int, wanted);
        },
    }
}

// ================================================================================================
// Retrying an activation
// ================================================================================================

/// The pause before attempt number `attempt` of an activation, attempts being counted from
/// zero: none before the first attempt, the base pause before the second, and twice the pause
/// before for every further attempt, up to the longest pause.
pub open spec fn backoff_delay_ms(attempt: nat) -> nat
    decreases attempt,
{
    if attempt == 0 {
        0
    } else if attempt == 1 {
        BASE_BACKOFF_MS as nat
    } else {
        let doubled = 2 * backoff_delay_ms((attempt - 1) as nat);
        if doubled > MAX_BACKOFF_MS {
            MAX_BACKOFF_MS as nat
        } else {
            doubled
        }
    }
}

/// From the sixth attempt on, the pause is the longest pause; and no pause is longer.
pub proof fn lemma_backoff_is_capped(attempt: nat)
    ensures
        backoff_delay_ms(attempt) <= MAX_BACKOFF_MS,
        attempt >= 5 ==> backoff_delay_ms(attempt) == MAX_BACKOFF_MS,
        attempt >= 1 ==> backoff_delay_ms(attempt) >= BASE_BACKOFF_MS,
    decreases attempt,
{
    reveal_with_fuel(backoff_delay_ms, 6);
    if attempt > 5 {
        lemma_backoff_is_capped((attempt - 1) as nat);
    }
}

/// Two to the power of `exponent`.
pub open spec fn two_to(exponent: nat) -> nat
    decreases exponent,
{
    if exponent == 0 {
        1
    } else {
        2 * two_to((exponent - 1) as nat)
    }
}

/// The pause before attempt number `attempt`, for every attempt but the first, is the base
/// pause doubled once for every attempt before it, or the longest pause where that is
/// shorter.
pub proof fn lemma_backoff_formula(attempt: nat)
    requires
        attempt >= 1,
    ensures
        backoff_delay_ms(attempt) == if BASE_BACKOFF_MS * two_to((attempt - 1) as nat)
            < MAX_BACKOFF_MS {
            BASE_BACKOFF_MS * two_to((attempt - 1) as nat)
        } else {
            MAX_BACKOFF_MS as int
        },
    decreases attempt,
{
    reveal_with_fuel(backoff_delay_ms, 3);
    reveal_with_fuel(two_to, 3);
    if attempt > 1 {
        lemma_backoff_formula((attempt - 1) as nat);
        lemma_backoff_is_capped((attempt - 1) as nat);
        lemma_two_to_grows((attempt - 2) as nat);
    }
}

/// Powers of two are positive and grow.
pub proof fn lemma_two_to_grows(exponent: nat)
    ensures
        two_to(exponent) >= 1,
        two_to(exponent + 1) == 2 * two_to(exponent),
    decreases exponent,
{
    reveal_with_fuel(two_to, 2);
    if exponent > 0 {
        lemma_two_to_grows((exponent - 1) as nat);
    }
}

/// The pause before attempt number `attempt` of an activation.
pub fn backoff_delay(attempt: usize) -> (delay: u64)
    ensures
        delay == backoff_delay_ms(attempt as nat),
{
    if attempt == 0 {
        return 0;
    }
    let mut delay: u64 = BASE_BACKOFF_MS;
    let mut reached: usize = 1;
    while reached < attempt && delay < MAX_BACKOFF_MS
        invariant
            1 <= reached <= attempt,
            delay == backoff_delay_ms(reached as nat),
            delay <= MAX_BACKOFF_MS,
        decreases attempt - reached,
    {
        reached = reached + 1;
        delay = if 2 * delay > MAX_BACKOFF_MS {
            MAX_BACKOFF_MS
        } else {
            2 * delay
        };
    }
    proof {
        if reached < attempt {
            lemma_backoff_stays(reached as nat, attempt as nat);
        }
    }
    delay
}

/// Once the pause is the longest pause, it stays so.
pub proof fn lemma_backoff_stays(reached: nat, later: nat)
    requires
        reached >= 1,
        reached <= later,
        backoff_delay_ms(reached) == MAX_BACKOFF_MS,
    ensures
        backoff_delay_ms(later) == MAX_BACKOFF_MS,
    decreases later,
{
    if reached < later {
        lemma_backoff_stays(reached, (later - 1) as nat);
    }
}

// ================================================================================================
// The manager
// ================================================================================================

/// What is left of an activation whose attempt to connect has failed: when the activation
/// began, and how many attempts it has made.
#[derive(Clone, Copy, Debug, PartialEq, Eq)]
pub struct RetryBudget {
    pub start: u64,
    pub attempts: usize,
}

/// The manager of the streamer.
pub struct StreamMagicManager {
    /// The log entries that wait for the user interface.
    pub buffered_app_logs: Vec<AppLog>,
    /// The streamers that discovery has found, in the order in which they were found.
    pub devices: Vec<StreamMagicDevice>,
    /// The device that was active last. It outlives the connection, so that the device can be
    /// activated again.
    pub last_active_device: Option<StreamMagicDevice>,
    pub is_activating: bool,
    pub is_discovering: bool,
    pub is_testing_connection: bool,
    /// When the running activation began.
    pub activation_start: Option<u64>,
    /// How many attempts the running activation has made.
    pub activation_attempts: usize,
    pub activation_timeout: u64,
    /// The activation that a failed attempt to connect has ended, until the error of the
    /// session's task is answered: the next attempt goes on with its time and its count.
    pub interrupted: Option<RetryBudget>,
    pub ui_ready: bool,
    /// Whether a session's task is running, as far as the manager knows.
    pub has_session: bool,
    /// Whether a channel to a session exists.
    pub has_session_channel: bool,
    /// The last status that a session reported.
    pub ws_client_status: WebSocketClientStatus,
    pub cache: StreamerPayloadCache,
}

/// The manager as mathematics sees it.
pub struct ManagerView {
    pub buffered_app_logs: Seq<LogView>,
    pub devices: Seq<StreamMagicDevice>,
    pub last_active_device: Option<StreamMagicDevice>,
    pub is_activating: bool,
    pub is_discovering: bool,
    pub is_testing_connection: bool,
    pub activation_start: Option<u64>,
    pub activation_attempts: usize,
    pub activation_timeout: u64,
    pub interrupted: Option<RetryBudget>,
    pub ui_ready: bool,
    pub has_session: bool,
    pub has_session_channel: bool,
    pub ws_client_status: WebSocketClientStatus,
    pub cache: StreamerPayloadCache,
}

impl View for StreamMagicManager {
    type V = ManagerView;

    open spec fn view(&self) -> ManagerView {
        ManagerView {
            buffered_app_logs: log_views(self.buffered_app_logs@),
            devices: self.devices@,
            last_active_device: self.last_active_device,
            is_activating: self.is_activating,
            is_discovering: self.is_discovering,
            is_testing_connection: self.is_testing_connection,
            activation_start: self.activation_start,
            activation_attempts: self.activation_attempts,
            activation_timeout: self.activation_timeout,
            interrupted: self.interrupted,
            ui_ready: self.ui_ready,
            has_session: self.has_session,
            has_session_channel: self.has_session_channel,
            ws_client_status: self.ws_client_status,
            cache: self.cache,
        }
    }
}

impl ManagerView {
    /// What the manager shows of itself.
    pub open spec fn state_msg(self) -> StateMsgView {
        StateMsgView {
            devices: self.devices,
            is_activating: self.is_activating,
            is_discovering: self.is_discovering,
            is_testing_connection: self.is_testing_connection,
            websocket_client_status: self.ws_client_status,
        }
    }

    /// Whether at most one device is active.
    pub open spec fn one_active(self) -> bool {
        at_most_one_active(self.devices)
    }

    /// Whether the manager is at rest while a connection stands: it is not activating.
    pub open spec fn settled(self) -> bool {
        self.ws_client_status@ is Connected ==> !self.is_activating
    }

    /// Whether the activation's clock runs, and its attempts are counted, exactly while the
    /// manager is activating; and whether an activation that a failed attempt has ended
    /// waits for its next attempt only while no activation is running.
    pub open spec fn timed(self) -> bool {
        &&& self.is_activating <==> self.activation_start is Some
        &&& !self.is_activating ==> self.activation_attempts == 0
        &&& self.interrupted is Some ==> !self.is_activating
    }

    /// Whether the log entries are where they belong: none waits once the user interface is
    /// ready.
    pub open spec fn logs_flushed(self) -> bool {
        self.ui_ready ==> self.buffered_app_logs.len() == 0
    }

    /// What holds of a manager throughout its life: at most one device is active, the
    /// manager is not activating while a connection stands, the activation's clock runs
    /// and its attempts are counted exactly while it is activating, and no log entry waits
    /// once the user interface is ready.
    pub open spec fn is_sound(self) -> bool {
        self.one_active() && self.settled() && self.timed() && self.logs_flushed()
    }
}

/// The status of a manager that has no session.
pub open spec fn no_connection() -> WebSocketClientStatus {
    WebSocketClientStatus::Disconnected(
        WebSocketClientDisconnectedDetails { reason: None, consider_reconnecting: false },
    )
}

/// The URL of the WebSocket of the streamer at `host`.
pub open spec fn ws_url(host: Seq<char>) -> Seq<char> {
    "ws://"@ + host + ":80/smoip"@
}

/// The message that asks the streamer for the whole queue.
pub open spec fn queue_list_request() -> Seq<char> {
    "{\"path\": \"/queue/list\"}"@
}

/// The kind of message under which the payloads of `path` are published.
pub open spec fn message_type_of(path: StreamerPath) -> AppMessageType {
    match path {
        StreamerPath::QueueList => AppMessageType::StreamerQueueList,
        StreamerPath::PresetsList => AppMessageType::StreamerPresets,
        StreamerPath::SystemInfo => AppMessageType::StreamerSystemInfo,
        StreamerPath::SystemPower => AppMessageType::StreamerSystemPower,
        StreamerPath::SystemSources => AppMessageType::StreamerSystemSources,
        StreamerPath::ZoneNowPlaying => AppMessageType::StreamerZoneNowPlaying,
        StreamerPath::ZonePlayState => AppMessageType::StreamerZonePlayState,
        StreamerPath::ZonePosition => AppMessageType::StreamerZonePosition,
        _ => AppMessageType::StreamerZoneState,
    }
}

/// The name of a status.
pub open spec fn status_name(status: StatusView) -> Seq<char> {
    match status {
        StatusView::Disconnected { .. } => "Disconnected"@,
        StatusView::Connecting(_) => "Connecting"@,
        StatusView::Connected { .. } => "Connected"@,
        StatusView::TestingConnection => "TestingConnection"@,
    }
}

/// The message that carries out `action`.
pub open spec fn action_text(action: StreamerAction) -> Seq<char> {
    match action {
        StreamerAction::MuteSet(muted) => plain_message(
            "{\"path\": \"/zone/state\", \"params\": {\"mute\": "@,
            bool_text(muted),
        ),
        StreamerAction::NextTrack =>
            "{\"path\": \"/zone/play_control\", \"params\": {\"skip_track\": 1}}"@,
        StreamerAction::Pause =>
            "{\"path\": \"/zone/play_control\", \"params\": {\"action\": \"pause\"}}"@,
        StreamerAction::Play =>
            "{\"path\": \"/zone/play_control\", \"params\": {\"action\": \"play\"}}"@,
        StreamerAction::PlayPresetId(preset) => padded_message(
            "{\"path\": \"/zone/recall_preset\", \"params\": {\"preset\": "@,
            decimal_text(preset as int),
        ),
        StreamerAction::PlayQueueId(entry) => padded_message(
            "{\"path\": \"/zone/play_control\", \"params\": {\"queue_id\": "@,
            decimal_text(entry as int),
        ),
        StreamerAction::PowerOn =>
            "{\"path\": \"/system/power\", \"params\": {\"power\": \"ON\"}}"@,
        StreamerAction::PowerStandby =>
            "{\"path\": \"/system/power\", \"params\": {\"power\": \"NETWORK\"}}"@,
        StreamerAction::PowerToggle =>
            "{\"path\": \"/system/power\", \"params\": {\"power\": \"toggle\"}}"@,
        StreamerAction::PreviousTrack =>
            "{\"path\": \"/zone/play_control\", \"params\": {\"skip_track\": -1}}"@,
        StreamerAction::Seek(position) => padded_message(
            "{\"path\": \"/zone/play_control\", \"params\": {\"position\": "@,
            decimal_text(position as int),
        ),
        StreamerAction::SetRepeat(state) => padded_message(
            "{\"path\": \"/zone/play_control\", \"params\": {\"mode_repeat\": \""@,
            state.label_text() + "\""@,
        ),
        StreamerAction::SetShuffle(state) => padded_message(
            "{\"path\": \"/zone/play_control\", \"params\": {\"mode_shuffle\": \""@,
            state.label_text() + "\""@,
        ),
        StreamerAction::SetSourceId(source) => plain_message(
            "{\"path\": \"/zone/state\", \"params\": {\"source\": \""@,
            json_escape(source@) + "\""@,
        ),
        StreamerAction::Stop =>
            "{\"path\": \"/zone/play_control\", \"params\": {\"action\": \"stop\"}}"@,
        StreamerAction::TogglePlayback =>
            "{\"path\": \"/zone/play_control\", \"params\": {\"action\": \"toggle\"}}"@,
        StreamerAction::VolumePercentSet(percent) => plain_message(
            "{\"path\": \"/zone/state\", \"params\": {\"volume_percent\": "@,
            decimal_text(percent as int),
        ),
        StreamerAction::VolumeStepChange(degree) => plain_message(
            "{\"path\": \"/zone/state\", \"params\": {\"volume_step_change\": "@,
            decimal_text(degree as int),
        ),
        StreamerAction::VolumeStepSet(step) => plain_message(
            "{\"path\": \"/zone/state\", \"params\": {\"volume_step\": "@,
            decimal_text(step as int),
        ),
    }
}

/// The message that carries out `action`.
pub fn action_message(action: StreamerAction) -> (message: String)
    ensures
        message@ == action_text(action),
{
    match action {
        StreamerAction::MuteSet(muted) => ZoneState::set_mute_msg(muted),
        StreamerAction::NextTrack => PlayControl::next_track_msg(),
        StreamerAction::Pause => PlayControl::pause_msg(),
        StreamerAction::Play => PlayControl::play_msg(),
        StreamerAction::PlayPresetId(preset) => RecallPreset::play_preset_id_msg(preset),
        StreamerAction::PlayQueueId(entry) => PlayControl::play_queue_id_msg(entry),
        StreamerAction::PowerOn => SystemPower::on_msg(),
        StreamerAction::PowerStandby => SystemPower::standby_msg(),
        StreamerAction::PowerToggle => SystemPower::toggle_msg(),
        StreamerAction::PreviousTrack => PlayControl::previous_track_msg(),
        StreamerAction::Seek(position) => PlayControl::seek_msg(position),
        StreamerAction::SetRepeat(state) => PlayControl::set_repeat_msg(state),
        StreamerAction::SetShuffle(state) => PlayControl::set_shuffle_msg(state),
        StreamerAction::SetSourceId(source) => ZoneState::set_source_id_msg(source),
        StreamerAction::Stop => PlayControl::stop_msg(),
        StreamerAction::TogglePlayback => PlayControl::toggle_playback_msg(),
        StreamerAction::VolumePercentSet(percent) => ZoneState::set_volume_percent_msg(percent),
        StreamerAction::VolumeStepChange(degree) => ZoneState::change_volume_step_msg(degree),
        StreamerAction::VolumeStepSet(step) => ZoneState::set_volume_step_msg(step),
    }
}

// ================================================================================================
// Steps
// ================================================================================================

/// The manager in the middle of a step: what it has become and what it has asked for so far.
pub struct Run {
    pub manager: ManagerView,
    pub effects: Seq<EffectView>,
}

/// The step that begins with the manager `manager` and the effects `effects`.
pub open spec fn run_of(manager: StreamMagicManager, effects: Seq<StreamerManagerEffect>) -> Run {
    Run { manager: manager@, effects: effect_views(effects) }
}

/// The step that begins with the manager `manager` and no effects.
pub open spec fn begin(manager: ManagerView) -> Run {
    Run { manager, effects: Seq::empty() }
}

impl Run {
    /// Asks for `effect`.
    pub open spec fn push(self, effect: EffectView) -> Run {
        Run { effects: self.effects.push(effect), ..self }
    }

    /// Takes in a log entry: it is published where the user interface is ready, and waits
    /// for it where it is not.
    pub open spec fn take_log(self, entry: LogView) -> Run {
        if self.manager.ui_ready {
            self.push(EffectView::EmitAppLog(entry))
        } else {
            Run {
                manager: ManagerView {
                    buffered_app_logs: self.manager.buffered_app_logs.push(entry),
                    ..self.manager
                },
                ..self
            }
        }
    }

    /// Writes a log entry at the time `now`.
    pub open spec fn log(self, level: SerializableLevel, message: Seq<char>, now: u64) -> Run {
        self.take_log(LogView { level, message, when: now as u128 })
    }

    /// Publishes the manager's state.
    pub open spec fn emit_state(self) -> Run {
        self.push(EffectView::EmitManagerState(self.manager.state_msg()))
    }

    /// Sends `text` to the streamer through the session; without a channel to a session
    /// the text is dropped.
    pub open spec fn send(self, text: Seq<char>) -> Run {
        if self.manager.has_session_channel {
            self.push(EffectView::SendToSession(RxView::Data(text)))
        } else {
            self
        }
    }

    /// Whether a connection to the streamer stands, as far as the manager knows: the
    /// session has reported one, be it under test or not.
    pub open spec fn is_connected(self) -> bool {
        self.manager.ws_client_status@ is Connected || self.manager.ws_client_status@
            is TestingConnection
    }

    /// Passes a user's action on to the streamer, as the message `text`, while a
    /// connection stands; the action is dropped while none does.
    pub open spec fn forward(self, text: Seq<char>) -> Run {
        if self.is_connected() {
            self.send(text)
        } else {
            self
        }
    }

    /// Enters or leaves activation. Entering records the time and begins to count
    /// attempts, unless an activation is running, and a connection that was held to be
    /// standing is held so no longer; leaving forgets the time and the count. Either way
    /// an activation that a failed attempt had ended waits no longer.
    pub open spec fn set_activating(self, activating: bool, now: u64) -> Run {
        if activating {
            let status = if self.manager.ws_client_status@ is Connected {
                no_connection()
            } else {
                self.manager.ws_client_status
            };
            if self.manager.is_activating {
                Run {
                    manager: ManagerView {
                        ws_client_status: status,
                        interrupted: None,
                        ..self.manager
                    },
                    ..self
                }
            } else {
                Run {
                    manager: ManagerView {
                        ws_client_status: status,
                        activation_start: Some(now),
                        activation_attempts: 0,
                        is_activating: true,
                        interrupted: None,
                        ..self.manager
                    },
                    ..self
                }
            }
        } else {
            Run {
                manager: ManagerView {
                    activation_start: None,
                    activation_attempts: 0,
                    is_activating: false,
                    interrupted: None,
                    ..self.manager
                },
                ..self
            }
        }
    }

    /// What is left of the running activation, if one is running.
    pub open spec fn budget(self) -> Option<RetryBudget> {
        match self.manager.activation_start {
            Some(start) => if self.manager.is_activating {
                Some(RetryBudget { start, attempts: self.manager.activation_attempts })
            } else {
                None
            },
            None => None,
        }
    }

    /// Ends the activation because its attempt to connect has failed: the manager is not
    /// activating any more, and what is left of the activation waits for the next attempt.
    pub open spec fn interrupt(self, now: u64) -> Run {
        let ended = self.set_activating(false, now);
        Run { manager: ManagerView { interrupted: self.budget(), ..ended.manager }, ..ended }
    }

    /// Goes on with the activation that a failed attempt has ended, if one waits and none
    /// is running: the manager is activating again, since the time at which that
    /// activation began and with the attempts that it has made.
    pub open spec fn resume(self) -> Run {
        match self.manager.interrupted {
            Some(left) => if self.manager.is_activating {
                self
            } else {
                Run {
                    manager: ManagerView {
                        ws_client_status: if self.manager.ws_client_status@ is Connected {
                            no_connection()
                        } else {
                            self.manager.ws_client_status
                        },
                        activation_start: Some(left.start),
                        activation_attempts: left.attempts,
                        is_activating: true,
                        interrupted: None,
                        ..self.manager
                    },
                    ..self
                }
            },
            None => self,
        }
    }

    /// Ends the session, if there is one: with it go its channel, a test that was running
    /// on it, and the connection that it was held to have.
    pub open spec fn stop_session(self, now: u64) -> Run {
        if self.manager.has_session {
            let told = self.log(
                SerializableLevel::Info,
                "Stopping existing WebSocketClient task"@,
                now,
            ).push(EffectView::StopSession);
            Run {
                manager: ManagerView {
                    has_session: false,
                    has_session_channel: false,
                    is_testing_connection: false,
                    ws_client_status: no_connection(),
                    ..told.manager
                },
                ..told
            }
        } else {
            self
        }
    }

    /// Opens a session to the streamer at `host`, in place of the session that there is.
    pub open spec fn start_session(self, host: Seq<char>, now: u64) -> Run {
        let stopped = self.log(
            SerializableLevel::Info,
            "Initiating a new WebSocketClient connection to: "@ + host,
            now,
        ).stop_session(now);
        Run {
            manager: ManagerView { has_session: true, has_session_channel: true, ..stopped.manager },
            effects: stopped.effects.push(EffectView::StartSession(ws_url(host))),
        }
    }

    /// Marks every device as having no connection.
    pub open spec fn deactivate_all(self) -> Run {
        Run {
            manager: ManagerView { devices: all_deactivated(self.manager.devices), ..self.manager },
            ..self
        }
    }

    /// Gives up the running activation, for the reason `reason`.
    pub open spec fn abandon(self, reason: Seq<char>, now: u64) -> Run {
        self.log(SerializableLevel::Error, reason, now).set_activating(false, now).emit_state()
    }

    /// Whether the running activation has used up its time at the time `now`.
    pub open spec fn out_of_time(self, now: u64) -> bool {
        self.manager.activation_start matches Some(start) && has_exceeded(
            now,
            start,
            self.manager.activation_timeout,
        )
    }

    /// Why an activation that has used up its time is given up.
    pub open spec fn out_of_time_text(self) -> Seq<char> {
        "Giving up attempting re-activation after "@ + decimal_text(
            self.manager.activation_timeout as int,
        ) + "ms (made "@ + decimal_text(self.manager.activation_attempts as int) + " attempts)"@
    }

    /// What is logged of an attempt.
    pub open spec fn attempt_text(attempts: usize, delay: u64, udn: Seq<char>) -> Seq<char> {
        "Activating device (attempt "@ + decimal_text(attempts as int) + " after "@ + decimal_text(
            delay as int,
        ) + "ms delay), with UDN: "@ + udn
    }

    /// What an attempt does before it connects: it is counted and logged, the session that
    /// there is is ended, the state is published, the attempt's pause is waited for, and
    /// every device is marked as having no connection.
    pub open spec fn prepare_attempt(self, udn: Seq<char>, now: u64) -> Run {
        let delay = backoff_delay_ms(self.manager.activation_attempts as nat) as u64;
        let attempts = counted_up(self.manager.activation_attempts);
        (Run {
            manager: ManagerView { activation_attempts: attempts, ..self.manager },
            ..self
        }).log(SerializableLevel::Info, Self::attempt_text(attempts, delay, udn), now).stop_session(
            now,
        ).emit_state().push(EffectView::Sleep(delay)).deactivate_all()
    }

    /// Opens a session to the first device with the UDN `udn`, which is marked as being
    /// connected to. Where no device has that UDN, or the device's URL names no host, the
    /// activation ends.
    pub open spec fn connect_to(self, udn: Seq<char>, now: u64) -> Run {
        match udn_place(self.manager.devices, udn) {
            None => self.abandon(unknown_device_text(udn), now),
            Some(at) => match url_host(self.manager.devices[at].url@) {
                None => self.abandon("Could not determine device URL; not activating"@, now),
                Some(host) => (Run {
                    manager: ManagerView {
                        devices: self.manager.devices.update(
                            at,
                            StreamMagicDevice { is_activating: true, ..self.manager.devices[at] },
                        ),
                        ..self.manager
                    },
                    ..self
                }).start_session(host, now).emit_state(),
            },
        }
    }

    /// Makes one attempt to activate the device with the UDN `udn` at the time `now`.
    ///
    /// The first attempt begins the activation. An attempt that comes when the activation
    /// has used up its time ends it. Every other attempt waits for its pause, marks every
    /// device as having no connection, and opens a session to the first device with that
    /// UDN.
    pub open spec fn activate(self, udn: Seq<char>, now: u64) -> Run {
        let begun = self.set_activating(true, now);
        if begun.out_of_time(now) {
            begun.abandon(begun.out_of_time_text(), now)
        } else {
            begun.prepare_attempt(udn, now).connect_to(udn, now)
        }
    }

    /// Activates the device that was active last, if there is one: `with` is logged before
    /// the attempt, `without` where there is no such device.
    pub open spec fn reactivate(
        self,
        with: (SerializableLevel, Seq<char>),
        without: (SerializableLevel, Seq<char>),
        now: u64,
    ) -> Run {
        match self.manager.last_active_device {
            Some(device) => self.log(with.0, with.1, now).activate(device.udn@, now),
            None => self.log(without.0, without.1, now),
        }
    }

    /// Marks the first device whose URL names the host of `url` as the active one, and
    /// every other device as having no connection.
    pub open spec fn mark_active(self, url: Seq<char>, now: u64) -> Run {
        let cleared = self.deactivate_all();
        match url_host(url) {
            None => cleared,
            Some(host) => match host_place(cleared.manager.devices, host) {
                None => cleared,
                Some(at) => {
                    let device = StreamMagicDevice { is_active: true, ..cleared.manager.devices[at] };
                    (Run {
                        manager: ManagerView {
                            devices: cleared.manager.devices.update(at, device),
                            last_active_device: Some(device),
                            ..cleared.manager
                        },
                        ..cleared
                    }).log(
                        SerializableLevel::Info,
                        "Marked device "@ + device.label_text() + " as active"@,
                        now,
                    )
                },
            },
        }
    }

    /// Asks the streamer to send every change of the nine payloads that it sends changes
    /// of.
    pub open spec fn subscribe(self) -> Run {
        self.send(update_request(StreamerPath::PresetsList.text())).send(
            update_request(StreamerPath::QueueInfo.text()),
        ).send(update_request(StreamerPath::SystemInfo.text())).send(
            update_request(StreamerPath::SystemPower.text()),
        ).send(update_request(StreamerPath::SystemSources.text())).send(
            update_request(StreamerPath::ZoneNowPlaying.text()),
        ).send(update_request(StreamerPath::ZonePlayState.text())).send(
            update_request(StreamerPath::ZonePosition.text()),
        ).send(update_request(StreamerPath::ZoneState.text()))
    }

    /// Starts a discovery: the list of devices is emptied first.
    pub open spec fn discover(self, activate: bool, now: u64) -> Run {
        let logged = self.log(SerializableLevel::Info, "Initiating discovery"@, now);
        (Run {
            manager: ManagerView { is_discovering: true, devices: Seq::empty(), ..logged.manager },
            ..logged
        }).emit_state().push(EffectView::Discover(activate))
    }
}

impl StreamMagicManager {
    /// A manager that knows no device and has no session.
    pub fn new() -> (manager: StreamMagicManager)
        ensures
            manager@ == (ManagerView {
                buffered_app_logs: Seq::empty(),
                devices: Seq::empty(),
                last_active_device: None,
                is_activating: false,
                is_discovering: false,
                is_testing_connection: false,
                activation_start: None,
                activation_attempts: 0,
                activation_timeout: ACTIVATION_TIMEOUT_MS,
                interrupted: None,
                ui_ready: false,
                has_session: false,
                has_session_channel: false,
                ws_client_status: no_connection(),
                cache: StreamerPayloadCache::empty_cache(),
            }),
            manager@.is_sound(),
    {
        let manager = StreamMagicManager {
            buffered_app_logs: Vec::new(),
            devices: Vec::new(),
            last_active_device: None,
            is_activating: false,
            is_discovering: false,
            is_testing_connection: false,
            activation_start: None,
            activation_attempts: 0,
            activation_timeout: ACTIVATION_TIMEOUT_MS,
            interrupted: None,
            ui_ready: false,
            has_session: false,
            has_session_channel: false,
            ws_client_status: WebSocketClientStatus::Disconnected(
                WebSocketClientDisconnectedDetails { reason: None, consider_reconnecting: false },
            ),
            cache: StreamerPayloadCache::new(),
        };
        assert(manager@.buffered_app_logs =~= Seq::<LogView>::empty());
        manager
    }

    /// What the manager shows of itself.
    pub fn state_msg(&self) -> (message: StreamMagicManagerStateMsg)
        ensures
            message@ == self@.state_msg(),
    {
        StreamMagicManagerStateMsg {
            devices: duplicate_devices(&self.devices),
            is_activating: self.is_activating,
            is_discovering: self.is_discovering,
            is_testing_connection: self.is_testing_connection,
            websocket_client_status: self.ws_client_status.duplicate(),
        }
    }

    /// Takes in a log entry, as `Run::take_log` says.
    fn take_log(&mut self, entry: AppLog, effects: &mut Vec<StreamerManagerEffect>)
        ensures
            run_of(*final(self), final(effects)@) == run_of(*old(self), old(effects)@).take_log(
                entry@,
            ),
    {
        if self.ui_ready {
            push_effect(effects, StreamerManagerEffect::EmitAppLog(entry));
        } else {
            self.buffered_app_logs.push(entry);
            assert(log_views(self.buffered_app_logs@) =~= log_views(
                old(self).buffered_app_logs@,
            ).push(entry@));
        }
    }

    /// Writes a log entry at the time `now`.
    fn log(
        &mut self,
        level: SerializableLevel,
        message: String,
        now: u64,
        effects: &mut Vec<StreamerManagerEffect>,
    )
        ensures
            run_of(*final(self), final(effects)@) == run_of(*old(self), old(effects)@).log(
                level,
                message@,
                now,
            ),
    {
        self.take_log(AppLog { level, message, when: now as u128 }, effects);
    }

    /// Writes a log entry with a fixed message at the time `now`.
    fn note(
        &mut self,
        level: SerializableLevel,
        message: &str,
        now: u64,
        effects: &mut Vec<StreamerManagerEffect>,
    )
        ensures
            run_of(*final(self), final(effects)@) == run_of(*old(self), old(effects)@).log(
                level,
                message@,
                now,
            ),
    {
        self.log(level, String::from_str(message), now, effects);
    }

    /// Publishes the manager's state.
    fn emit_state(&self, effects: &mut Vec<StreamerManagerEffect>)
        ensures
            run_of(*self, final(effects)@) == run_of(*self, old(effects)@).emit_state(),
    {
        push_effect(effects, StreamerManagerEffect::EmitManagerState(self.state_msg()));
    }

    /// Sends `text` to the streamer through the session, if there is a channel to one.
    fn send(&self, text: String, effects: &mut Vec<StreamerManagerEffect>)
        ensures
            run_of(*self, final(effects)@) == run_of(*self, old(effects)@).send(text@),
    {
        if self.has_session_channel {
            push_effect(
                effects,
                StreamerManagerEffect::SendToSession(WSClientRxChannelMsg::DataMsg(text)),
            );
        }
    }

    /// Enters or leaves activation, as `Run::set_activating` says.
    fn set_activating(&mut self, activating: bool, now: u64)
        ensures
            forall|effects: Seq<StreamerManagerEffect>|
                #[trigger] run_of(*final(self), effects) == run_of(
                    *old(self),
                    effects,
                ).set_activating(activating, now),
    {
        if activating {
            let connected: bool = match &self.ws_client_status {
                WebSocketClientStatus::Connected(_) => true,
                _ => false,
            };
            if connected {
                self.ws_client_status = WebSocketClientStatus::Disconnected(
                    WebSocketClientDisconnectedDetails { reason: None, consider_reconnecting: false },
                );
            }
            if !self.is_activating {
                self.activation_start = Some(now);
                self.activation_attempts = 0;
                self.is_activating = true;
            }
        } else {
            self.activation_start = None;
            self.activation_attempts = 0;
            self.is_activating = false;
        }
        self.interrupted = None;
    }

    /// Ends the activation because its attempt to connect has failed, as `Run::interrupt`
    /// says.
    fn interrupt(&mut self, now: u64)
        ensures
            forall|effects: Seq<StreamerManagerEffect>|
                #[trigger] run_of(*final(self), effects) == run_of(*old(self), effects).interrupt(
                    now,
                ),
    {
        let left: Option<RetryBudget> = match self.activation_start {
            Some(start) => if self.is_activating {
                Some(RetryBudget { start, attempts: self.activation_attempts })
            } else {
                None
            },
            None => None,
        };
        self.set_activating(false, now);
        let ghost ended = *self;
        self.interrupted = left;
        assert forall|effects: Seq<StreamerManagerEffect>| #[trigger]
            run_of(*self, effects) == run_of(*old(self), effects).interrupt(now) by {
            assert(run_of(ended, effects) == run_of(*old(self), effects).set_activating(
                false,
                now,
            ));
            assert(left == run_of(*old(self), effects).budget());
        }
    }

    /// Goes on with the activation that a failed attempt has ended, as `Run::resume` says.
    fn resume(&mut self)
        ensures
            forall|effects: Seq<StreamerManagerEffect>|
                #[trigger] run_of(*final(self), effects) == run_of(*old(self), effects).resume(),
    {
        match self.interrupted {
            Some(left) => {
                if !self.is_activating {
                    let connected: bool = match &self.ws_client_status {
                        WebSocketClientStatus::Connected(_) => true,
                        _ => false,
                    };
                    if connected {
                        self.ws_client_status = WebSocketClientStatus::Disconnected(
                            WebSocketClientDisconnectedDetails {
                                reason: None,
                                consider_reconnecting: false,
                            },
                        );
                    }
                    self.activation_start = Some(left.start);
                    self.activation_attempts = left.attempts;
                    self.is_activating = true;
                    self.interrupted = None;
                }
            },
            None => {},
        }
    }

    /// Ends the session, if there is one.
    fn stop_session(&mut self, now: u64, effects: &mut Vec<StreamerManagerEffect>)
        ensures
            run_of(*final(self), final(effects)@) == run_of(*old(self), old(effects)@).stop_session(
                now,
            ),
    {
        if self.has_session {
            self.note(SerializableLevel::Info, "Stopping existing WebSocketClient task", now, effects);
            push_effect(effects, StreamerManagerEffect::StopSession);
            self.has_session = false;
            self.has_session_channel = false;
            self.is_testing_connection = false;
            self.ws_client_status = WebSocketClientStatus::Disconnected(
                WebSocketClientDisconnectedDetails { reason: None, consider_reconnecting: false },
            );
        }
    }

    /// Opens a session to the streamer at `host`, in place of the session that there is.
    fn start_session(&mut self, host: &str, now: u64, effects: &mut Vec<StreamerManagerEffect>)
        ensures
            run_of(*final(self), final(effects)@) == run_of(
                *old(self),
                old(effects)@,
            ).start_session(host@, now),
    {
        self.log(
            SerializableLevel::Info,
            joined("Initiating a new WebSocketClient connection to: ", host),
            now,
            effects,
        );
        self.stop_session(now, effects);
        self.has_session = true;
        self.has_session_channel = true;
        push_effect(
            effects,
            StreamerManagerEffect::StartSession(
                String::from_str("ws://").concat(host).concat(":80/smoip"),
            ),
        );
    }

    /// Marks every device as having no connection.
    fn deactivate_all(&mut self)
        ensures
            forall|effects: Seq<StreamerManagerEffect>|
                #[trigger] run_of(*final(self), effects) == run_of(
                    *old(self),
                    effects,
                ).deactivate_all(),
    {
        let n: usize = self.devices.len();
        let mut i: usize = 0;
        while i < n
            invariant
                n == self.devices@.len(),
                n == old(self).devices@.len(),
                i <= n,
                forall|k: int| 0 <= k < i ==> self.devices@[k] == deactivated(old(self).devices@[k]),
                forall|k: int| i <= k < n ==> self.devices@[k] == old(self).devices@[k],
                *self == (StreamMagicManager { devices: self.devices, ..*old(self) }),
            decreases n - i,
        {
            self.devices[i].is_active = false;
            self.devices[i].is_activating = false;
            i = i + 1;
        }
        assert(self.devices@ =~= all_deactivated(old(self).devices@));
    }

    /// Gives up the running activation, for the reason `reason`.
    fn abandon(&mut self, reason: String, now: u64, effects: &mut Vec<StreamerManagerEffect>)
        ensures
            run_of(*final(self), final(effects)@) == run_of(*old(self), old(effects)@).abandon(
                reason@,
                now,
            ),
    {
        self.log(SerializableLevel::Error, reason, now, effects);
        self.set_activating(false, now);
        self.emit_state(effects);
    }

    /// The place of the first device with the UDN `udn`.
    fn find_udn(&self, udn: &str) -> (place: Option<usize>)
        ensures
            match place {
                Some(at) => udn_place(self.devices@, udn@) == Some(at as int) && at
                    < self.devices@.len(),
                None => udn_place(self.devices@, udn@) is None,
            },
    {
        let ghost wanted = has_udn(self.devices@, udn@);
        let n: usize = self.devices.len();
        let mut i: usize = 0;
        while i < n
            invariant
                n == self.devices@.len(),
                i <= n,
                wanted == has_udn(self.devices@, udn@),
                forall|k: int| 0 <= k < i ==> !#[trigger] wanted(k),
            decreases n - i,
        {
            if str_eq(self.devices[i].udn.as_str(), udn) {
                proof {
                    assert(wanted(i as int));
                    lemma_first_place(i as int, n as int, wanted);
                }
                return Some(i);
            }
            assert(!wanted(i as int));
            i = i + 1;
        }
        proof {
            lemma_no_place(n as int, wanted);
        }
        None
    }

    /// The place of the first device whose URL names the host `host`.
    fn find_host(&self, host: &str) -> (place: Option<usize>)
        ensures
            match place {
                Some(at) => host_place(self.devices@, host@) == Some(at as int) && at
                    < self.devices@.len(),
                None => host_place(self.devices@, host@) is None,
            },
    {
        let ghost wanted = names_host(self.devices@, host@);
        let n: usize = self.devices.len();
        let mut i: usize = 0;
        while i < n
            invariant
                n == self.devices@.len(),
                i <= n,
                wanted == names_host(self.devices@, host@),
                forall|k: int| 0 <= k < i ==> !#[trigger] wanted(k),
            decreases n - i,
        {
            let same: bool = match host_from_url(self.devices[i].url.as_str()) {
                Some(found) => str_eq(found.as_str(), host),
                None => false,
            };
            if same {
                proof {
                    assert(wanted(i as int));
                    lemma_first_place(i as int, n as int, wanted);
                }
                return Some(i);
            }
            assert(!wanted(i as int));
            i = i + 1;
        }
        proof {
            lemma_no_place(n as int, wanted);
        }
        None
    }

    /// Counts and logs an attempt, asks for its pause and marks every device as having no
    /// connection.
    fn prepare_attempt(&mut self, udn: &str, now: u64, effects: &mut Vec<StreamerManagerEffect>)
        ensures
            run_of(*final(self), final(effects)@) == run_of(
                *old(self),
                old(effects)@,
            ).prepare_attempt(udn@, now),
    {
        proof {
            lemma_backoff_is_capped(self.activation_attempts as nat);
        }
        let delay: u64 = backoff_delay(self.activation_attempts);
        if self.activation_attempts < usize::MAX {
            self.activation_attempts = self.activation_attempts + 1;
        }
        let message = String::from_str("Activating device (attempt ").concat(
            decimal_string(self.activation_attempts as i128).as_str(),
        ).concat(" after ").concat(decimal_string(delay as i128).as_str()).concat(
            "ms delay), with UDN: ",
        ).concat(udn);
        assert(message@ == Run::attempt_text(self.activation_attempts, delay, udn@));
        self.log(SerializableLevel::Info, message, now, effects);
        self.stop_session(now, effects);
        self.emit_state(effects);
        push_effect(effects, StreamerManagerEffect::Sleep(delay));
        let ghost slept = run_of(*self, effects@);
        self.deactivate_all();
        assert(run_of(*self, effects@) == slept.deactivate_all());
    }

    /// Opens a session to the first device with the UDN `udn`, or ends the activation where
    /// that cannot be done.
    fn connect_to(&mut self, udn: &str, now: u64, effects: &mut Vec<StreamerManagerEffect>)
        ensures
            run_of(*final(self), final(effects)@) == run_of(*old(self), old(effects)@).connect_to(
                udn@,
                now,
            ),
    {
        let ghost start = run_of(*old(self), old(effects)@);
        match self.find_udn(udn) {
            None => {
                let unknown = PunyTunesError::UnknownDevice(String::from_str(udn));
                self.abandon(unknown.message(), now, effects);
            },
            Some(at) => {
                match host_from_url(self.devices[at].url.as_str()) {
                    None => {
                        self.abandon(
                            String::from_str("Could not determine device URL; not activating"),
                            now,
                            effects,
                        );
                    },
                    Some(host) => {
                        let ghost before = self.devices@;
                        self.devices[at].is_activating = true;
                        assert(self.devices@ =~= before.update(
                            at as int,
                            StreamMagicDevice { is_activating: true, ..before[at as int] },
                        ));
                        assert(run_of(*self, effects@) == Run {
                            manager: ManagerView {
                                devices: start.manager.devices.update(
                                    at as int,
                                    StreamMagicDevice {
                                        is_activating: true,
                                        ..start.manager.devices[at as int]
                                    },
                                ),
                                ..start.manager
                            },
                            ..start
                        });
                        self.start_session(host.as_str(), now, effects);
                        self.emit_state(effects);
                    },
                }
            },
        }
    }

    /// Makes one attempt to activate the device with the UDN `udn`, as `Run::activate` says.
    pub fn activate_device(
        &mut self,
        udn: &str,
        now: u64,
        effects: &mut Vec<StreamerManagerEffect>,
    )
        ensures
            run_of(*final(self), final(effects)@) == run_of(*old(self), old(effects)@).activate(
                udn@,
                now,
            ),
    {
        let ghost start = run_of(*old(self), old(effects)@);
        self.set_activating(true, now);
        let ghost begun = run_of(*self, effects@);
        assert(begun == start.set_activating(true, now));
        let out_of_time: bool = match self.activation_start {
            Some(start) => exceeded(now, start, self.activation_timeout),
            None => false,
        };
        if out_of_time {
            let reason = String::from_str("Giving up attempting re-activation after ").concat(
                decimal_string(self.activation_timeout as i128).as_str(),
            ).concat("ms (made ").concat(
                decimal_string(self.activation_attempts as i128).as_str(),
            ).concat(" attempts)");
            assert(reason@ == begun.out_of_time_text());
            self.abandon(reason, now, effects);
        } else {
            self.prepare_attempt(udn, now, effects);
            self.connect_to(udn, now, effects);
        }
    }

    /// Activates the device that was active last, if there is one.
    fn reactivate(
        &mut self,
        with: (SerializableLevel, &str),
        without: (SerializableLevel, &str),
        now: u64,
        effects: &mut Vec<StreamerManagerEffect>,
    )
        ensures
            run_of(*final(self), final(effects)@) == run_of(*old(self), old(effects)@).reactivate(
                (with.0, with.1@),
                (without.0, without.1@),
                now,
            ),
    {
        let udn: Option<String> = match &self.last_active_device {
            Some(device) => Some(device.udn.clone()),
            None => None,
        };
        match udn {
            Some(udn) => {
                self.note(with.0, with.1, now, effects);
                self.activate_device(udn.as_str(), now, effects);
            },
            None => {
                self.note(without.0, without.1, now, effects);
            },
        }
    }

    /// Marks the first device whose URL names the host of `url` as the active one.
    fn mark_active(&mut self, url: &str, now: u64, effects: &mut Vec<StreamerManagerEffect>)
        ensures
            run_of(*final(self), final(effects)@) == run_of(*old(self), old(effects)@).mark_active(
                url@,
                now,
            ),
    {
        let ghost start = run_of(*old(self), old(effects)@);
        self.deactivate_all();
        let ghost cleared = run_of(*self, effects@);
        assert(cleared == start.deactivate_all());
        match host_from_url(url) {
            None => {},
            Some(host) => {
                match self.find_host(host.as_str()) {
                    None => {},
                    Some(at) => {
                        let ghost before = self.devices@;
                        self.devices[at].is_active = true;
                        assert(self.devices@ =~= before.update(
                            at as int,
                            StreamMagicDevice { is_active: true, ..before[at as int] },
                        ));
                        let device = self.devices[at].duplicate();
                        let message = String::from_str("Marked device ").concat(
                            device.label().as_str(),
                        ).concat(" as active");
                        self.last_active_device = Some(device);
                        assert(run_of(*self, effects@) == Run {
                            manager: ManagerView {
                                devices: cleared.manager.devices.update(at as int, device),
                                last_active_device: Some(device),
                                ..cleared.manager
                            },
                            ..cleared
                        });
                        self.log(SerializableLevel::Info, message, now, effects);
                    },
                }
            },
        }
    }

    /// Asks the streamer to send every change of the payloads that it sends changes of.
    fn subscribe(&self, effects: &mut Vec<StreamerManagerEffect>)
        ensures
            run_of(*self, final(effects)@) == run_of(*self, old(effects)@).subscribe(),
    {
        self.send(Presets::request_updates_msg(), effects);
        self.send(QueueInfo::request_updates_msg(), effects);
        self.send(SystemInfo::request_updates_msg(), effects);
        self.send(SystemPower::request_updates_msg(), effects);
        self.send(SystemSources::request_updates_msg(), effects);
        self.send(ZoneNowPlaying::request_updates_msg(), effects);
        self.send(ZonePlayState::request_updates_msg(), effects);
        self.send(ZonePosition::request_updates_msg(), effects);
        self.send(ZoneState::request_updates_msg(), effects);
    }

    /// Starts a discovery.
    fn discover(&mut self, activate: bool, now: u64, effects: &mut Vec<StreamerManagerEffect>)
        ensures
            run_of(*final(self), final(effects)@) == run_of(*old(self), old(effects)@).discover(
                activate,
                now,
            ),
    {
        self.note(SerializableLevel::Info, "Initiating discovery", now, effects);
        self.is_discovering = true;
        self.devices = Vec::new();
        self.emit_state(effects);
        push_effect(effects, StreamerManagerEffect::Discover(activate));
    }
}

// ================================================================================================
// Events
// ================================================================================================

impl Run {
    /// Takes a discovered device into the list, as a device without a connection, unless a
    /// device with its UDN is in the list already. While a connection stands, the device
    /// whose URL names the connection's host is marked as the active one.
    pub open spec fn add_device(self, device: StreamMagicDevice, now: u64) -> Run {
        let added = if udn_place(self.manager.devices, device.udn@) is Some {
            self
        } else {
            Run {
                manager: ManagerView {
                    devices: self.manager.devices.push(deactivated(device)),
                    ..self.manager
                },
                ..self
            }
        };
        match added.manager.ws_client_status@ {
            StatusView::Connected { url, .. } => added.mark_active(url, now),
            _ => added,
        }
    }

    /// Publishes what the cache holds in every slot that is shown to the user interface.
    pub open spec fn emit_payloads(self) -> Run {
        self.push(EffectView::EmitPayload(AppMessageType::StreamerQueueList)).push(
            EffectView::EmitPayload(AppMessageType::StreamerPresets),
        ).push(EffectView::EmitPayload(AppMessageType::StreamerSystemInfo)).push(
            EffectView::EmitPayload(AppMessageType::StreamerSystemPower),
        ).push(EffectView::EmitPayload(AppMessageType::StreamerSystemSources)).push(
            EffectView::EmitPayload(AppMessageType::StreamerZoneNowPlaying),
        ).push(EffectView::EmitPayload(AppMessageType::StreamerZonePlayState)).push(
            EffectView::EmitPayload(AppMessageType::StreamerZonePosition),
        ).push(EffectView::EmitPayload(AppMessageType::StreamerZoneState))
    }

    /// Publishes the log entries that have waited for the user interface, oldest first.
    pub open spec fn flush_logs(self) -> Run {
        Run {
            manager: ManagerView { buffered_app_logs: Seq::empty(), ..self.manager },
            effects: self.effects + Seq::new(
                self.manager.buffered_app_logs.len(),
                |i: int| EffectView::EmitAppLog(self.manager.buffered_app_logs[i]),
            ),
        }
    }

    /// Takes in that the user interface is ready: it is shown the manager's state and the
    /// payloads, and the log entries that have waited for it.
    pub open spec fn ui_ready(self) -> Run {
        (Run {
            manager: ManagerView { ui_ready: true, ..self.manager },
            ..self
        }).emit_state().emit_payloads().flush_logs()
    }

    /// Asks the session to test the connection.
    pub open spec fn request_test(self, now: u64) -> Run {
        let asked = self.log(
            SerializableLevel::Debug,
            "Sending TestConnection request to WebSocketClient"@,
            now,
        );
        if asked.manager.has_session_channel {
            (Run {
                manager: ManagerView { is_testing_connection: true, ..asked.manager },
                ..asked
            }).push(
                EffectView::SendToSession(RxView::Action(WebSocketClientAction::TestConnection)),
            ).emit_state()
        } else {
            let warned = asked.log(
                SerializableLevel::Warn,
                "No WebSocketClient send channel found"@,
                now,
            );
            (Run {
                manager: ManagerView { is_testing_connection: false, ..warned.manager },
                ..warned
            }).emit_state()
        }
    }

    /// Tests the connection: a connection that stands is tested by the session; without
    /// one, the device that was active last is activated again.
    pub open spec fn test_connection(self, now: u64) -> Run {
        if self.manager.ws_client_status@ is Connected {
            self.request_test(now)
        } else {
            self.reactivate(
                (
                    SerializableLevel::Info,
                    "No active WebSocketClient connection to test; attempting to re-activate last-seen device"@,
                ),
                (
                    SerializableLevel::Warn,
                    "Cannot perform test; no active WebSocketClient connection, and no known last-seen device to re-activate"@,
                ),
                now,
            )
        }
    }

    /// Takes in that the session's task has ended with an error: a running test is over, and
    /// the device that was active last is activated again. Where the error is that of a
    /// failed attempt to connect, the attempt that is made now is the next one of the
    /// activation that the failure has ended. Where there is no such device, the
    /// activation is over.
    pub open spec fn client_error(self, now: u64) -> Run {
        let tested = if self.manager.is_testing_connection {
            let warned = self.log(SerializableLevel::Warn, "Test resulted in client error"@, now);
            Run {
                manager: ManagerView { is_testing_connection: false, ..warned.manager },
                ..warned
            }
        } else {
            self
        };
        match tested.manager.last_active_device {
            Some(device) => tested.log(
                SerializableLevel::Info,
                "Client error; retrying last-active device"@,
                now,
            ).resume().activate(device.udn@, now),
            None => tested.log(
                SerializableLevel::Info,
                "Client error; not trying again (no last-active device)"@,
                now,
            ).set_activating(false, now).emit_state(),
        }
    }

    /// Ends the session and forgets what was known of it.
    pub open spec fn halt_session(self, forget_host: bool, now: u64) -> Run {
        let stopped = self.log(
            SerializableLevel::Info,
            "StreamMagicManager WebSocket halt requested"@,
            now,
        ).stop_session(now);
        let reset = (Run {
            manager: ManagerView {
                ws_client_status: no_connection(),
                is_testing_connection: false,
                ..stopped.manager
            },
            ..stopped
        }).set_activating(false, now).emit_state();
        if forget_host {
            reset.push(EffectView::ForgetHost)
        } else {
            reset
        }
    }

    /// Carries out an action that was asked of the manager, at the time `now`.
    pub open spec fn on_action(self, action: StreamMagicManagerAction, now: u64) -> Run {
        match action {
            StreamMagicManagerAction::ActivateUdn(udn) => self.activate(udn@, now),
            StreamMagicManagerAction::ConnectToStreamer(host) => self.start_session(
                host@,
                now,
            ).emit_state(),
            StreamMagicManagerAction::Deactivate => self.log(
                SerializableLevel::Info,
                "Deactivating currently-active device"@,
                now,
            ).deactivate_all().stop_session(now).log(
                SerializableLevel::Info,
                "Deactivation complete"@,
                now,
            ).emit_state(),
            StreamMagicManagerAction::DisconnectFromStreamer => self.stop_session(now),
            StreamMagicManagerAction::Discover(activate) => self.discover(activate, now),
            StreamMagicManagerAction::EmitAppLog(entry) => self.take_log(entry@),
            StreamMagicManagerAction::HandleClientError => self.client_error(now),
            StreamMagicManagerAction::OnUIReady => self.ui_ready(),
            StreamMagicManagerAction::ProcessDiscoveredDevice(device) => self.log(
                SerializableLevel::Info,
                "Processing discovered device: "@ + device.label_text(),
                now,
            ).add_device(device, now).emit_state(),
            StreamMagicManagerAction::SetIsDiscovering(is_discovering) => (Run {
                manager: ManagerView { is_discovering, ..self.manager },
                ..self
            }).emit_state(),
            StreamMagicManagerAction::ShutDown => self.log(
                SerializableLevel::Info,
                "StreamMagicManager shutdown requested"@,
                now,
            ).stop_session(now).log(
                SerializableLevel::Info,
                "StreamMagicManager has ended"@,
                now,
            ).push(EffectView::Stop),
            StreamMagicManagerAction::StopWebSocketClient(forget_host) => self.halt_session(
                forget_host,
                now,
            ),
            StreamMagicManagerAction::TestConnection => self.test_connection(now),
        }
    }

    /// Takes in that a connection stands. A running test is over. A connection that was
    /// opened just now has its host persisted, is asked for the streamer's updates and for
    /// the whole queue, and makes its device the active one. The activation is over.
    pub open spec fn on_connected(self, url: Seq<char>, existing: bool, now: u64) -> Run {
        let tested = if self.manager.is_testing_connection {
            let told = self.log(SerializableLevel::Info, "Streamer connection OK"@, now);
            Run { manager: ManagerView { is_testing_connection: false, ..told.manager }, ..told }
        } else {
            self
        };
        let greeted = if existing {
            tested
        } else {
            let persisted = match url_host(url) {
                Some(host) => tested.log(
                    SerializableLevel::Info,
                    "Persisting last connected host: "@ + host,
                    now,
                ).push(EffectView::PersistHost(host)),
                None => tested,
            };
            persisted.subscribe().send(queue_list_request()).mark_active(url, now)
        };
        greeted.set_activating(false, now)
    }

    /// Takes in that the session has lost or given up its connection. No device is active
    /// any more and the session is gone. After a test, and after a loss that may be mended,
    /// the device that was active last is activated again. Otherwise the activation is
    /// over, and the manager is not activating; where it is over because an attempt to
    /// connect has failed (`attempt_failed`), its time and its count wait for the attempt
    /// that answers the error with which the session's task ends.
    pub open spec fn on_disconnected(
        self,
        reason: Option<Seq<char>>,
        consider_reconnecting: bool,
        attempt_failed: bool,
        now: u64,
    ) -> Run {
        let logged = match reason {
            Some(text) => self.log(
                SerializableLevel::Info,
                "WebSocketClient has disconnected with reason: "@ + text,
                now,
            ),
            None => self.log(
                SerializableLevel::Info,
                "WebSocketClient has disconnected with no message"@,
                now,
            ),
        };
        let cleared = logged.deactivate_all();
        let dropped = Run {
            manager: ManagerView {
                has_session: false,
                has_session_channel: false,
                ..cleared.manager
            },
            ..cleared
        };
        if dropped.manager.is_testing_connection {
            let warned = dropped.log(SerializableLevel::Warn, "Test resulted in Disconnect"@, now);
            (Run {
                manager: ManagerView { is_testing_connection: false, ..warned.manager },
                ..warned
            }).reactivate(
                (SerializableLevel::Info, "Attempting re-activation of last-active device"@),
                (
                    SerializableLevel::Info,
                    "Giving up on connection test (no last-active device to reactivate)"@,
                ),
                now,
            )
        } else if consider_reconnecting {
            let hoped = dropped.log(
                SerializableLevel::Info,
                "Potentially-recoverable disconnect"@,
                now,
            );
            if hoped.manager.last_active_device is Some {
                hoped.reactivate(
                    (SerializableLevel::Info, "Attempting re-activation of last-active device"@),
                    (SerializableLevel::Info, "Attempting re-activation of last-active device"@),
                    now,
                )
            } else {
                hoped.log(
                    SerializableLevel::Warn,
                    "Unable to determine last active UDN; not attempting reconnect"@,
                    now,
                ).set_activating(false, now)
            }
        } else if attempt_failed {
            dropped.interrupt(now)
        } else {
            dropped.set_activating(false, now)
        }
    }

    /// The manager with `status` as the status that it has observed.
    pub open spec fn with_status(self, status: WebSocketClientStatus) -> Run {
        Run { manager: ManagerView { ws_client_status: status, ..self.manager }, ..self }
    }

    /// Takes in a status that the session reports, at the time `now`.
    ///
    /// A connection that stands is greeted before it is observed, so that the activation
    /// is over by then; every other status is observed first.
    pub open spec fn on_status(self, status: WebSocketClientStatus, now: u64) -> Run {
        let announced = if self.manager.is_testing_connection {
            self
        } else {
            self.log(
                SerializableLevel::Info,
                "WebSocketClient status: "@ + status_name(status@),
                now,
            )
        };
        let handled = match status@ {
            StatusView::Connected { url, existing } => announced.on_connected(
                url,
                existing,
                now,
            ).with_status(status),
            StatusView::Disconnected { reason, consider_reconnecting } => announced.with_status(
                status,
            ).on_disconnected(
                reason,
                consider_reconnecting,
                self.manager.ws_client_status@ is Connecting,
                now,
            ),
            StatusView::TestingConnection => announced.with_status(status).log(
                SerializableLevel::Debug,
                "WebSocketClient is testing its connection"@,
                now,
            ),
            StatusView::Connecting(_) => announced.with_status(status),
        };
        handled.emit_state()
    }

    /// Why the parameters of an update on `path` were not taken in.
    pub open spec fn undecoded_text(path: Seq<char>, detail: Seq<char>) -> Seq<char> {
        "Could not decode "@ + path + " payload: "@ + detail
    }

    /// Takes in an update of the streamer: a message on `path` whose parameters the driver
    /// has read as `decoding`.
    ///
    /// A payload of the kind that `path` carries is kept in its slot and published; a
    /// payload of the queue in short is kept and answered by asking for the whole queue.
    /// Parameters that could not be read leave the cache as it is and are logged, unless
    /// they are a position without data. The streamer's answers to the manager's own
    /// messages are passed over, and a path that the manager does not know is logged.
    pub open spec fn on_update(self, path: Seq<char>, decoding: Decoding, now: u64) -> Run {
        match StreamerPath::of_text(path) {
            None => self.log(
                SerializableLevel::Warn,
                "Received unhandled StreamMagic message path: "@ + path,
                now,
            ),
            Some(known) => if !known.has_slot() {
                self
            } else {
                match decoding {
                    Decoding::Payload(payload) => if payload.path() == known {
                        let kept = Run {
                            manager: ManagerView {
                                cache: self.manager.cache.with(payload),
                                ..self.manager
                            },
                            ..self
                        };
                        if known is QueueInfo {
                            kept.send(queue_list_request())
                        } else {
                            kept.push(EffectView::EmitPayload(message_type_of(known)))
                        }
                    } else {
                        self.log(
                            SerializableLevel::Warn,
                            Self::undecoded_text(path, "payload of another kind"@),
                            now,
                        )
                    },
                    Decoding::Failed(detail) => if known is ZonePosition && contains_text(
                        detail@,
                        MISSING_DATA@,
                    ) {
                        self
                    } else {
                        self.log(
                            SerializableLevel::Warn,
                            Self::undecoded_text(path, detail@),
                            now,
                        )
                    },
                }
            },
        }
    }

    /// Begins the manager's life at the time `now`: a session is opened to the persisted
    /// host, if there is one, and a discovery is started, which activates the first
    /// streamer that it finds where no host was persisted.
    pub open spec fn start(self, persisted_host: Option<Seq<char>>, now: u64) -> Run {
        match persisted_host {
            Some(host) => self.log(
                SerializableLevel::Info,
                "Using stored streamer host to initialize connection: "@ + host,
                now,
            ).set_activating(true, now).emit_state().start_session(host, now).discover(false, now),
            None => self.discover(true, now),
        }
    }
}

impl StreamMagicManager {
    /// Takes a discovered device into the list, as `Run::add_device` says.
    fn add_device(
        &mut self,
        device: StreamMagicDevice,
        now: u64,
        effects: &mut Vec<StreamerManagerEffect>,
    )
        ensures
            run_of(*final(self), final(effects)@) == run_of(*old(self), old(effects)@).add_device(
                device,
                now,
            ),
    {
        match self.find_udn(device.udn.as_str()) {
            Some(_) => {},
            None => {
                let mut device = device;
                device.is_active = false;
                device.is_activating = false;
                self.devices.push(device);
            },
        }
        let url: Option<String> = match &self.ws_client_status {
            WebSocketClientStatus::Connected(details) => Some(details.url.clone()),
            _ => None,
        };
        match url {
            Some(url) => {
                self.mark_active(url.as_str(), now, effects);
            },
            None => {},
        }
    }

    /// Publishes what the cache holds in every slot that is shown to the user interface.
    fn emit_payloads(&self, effects: &mut Vec<StreamerManagerEffect>)
        ensures
            run_of(*self, final(effects)@) == run_of(*self, old(effects)@).emit_payloads(),
    {
        push_effect(effects, StreamerManagerEffect::EmitPayload(AppMessageType::StreamerQueueList));
        push_effect(effects, StreamerManagerEffect::EmitPayload(AppMessageType::StreamerPresets));
        push_effect(effects, StreamerManagerEffect::EmitPayload(AppMessageType::StreamerSystemInfo));
        push_effect(effects, StreamerManagerEffect::EmitPayload(AppMessageType::StreamerSystemPower));
        push_effect(
            effects,
            StreamerManagerEffect::EmitPayload(AppMessageType::StreamerSystemSources),
        );
        push_effect(
            effects,
            StreamerManagerEffect::EmitPayload(AppMessageType::StreamerZoneNowPlaying),
        );
        push_effect(
            effects,
            StreamerManagerEffect::EmitPayload(AppMessageType::StreamerZonePlayState),
        );
        push_effect(
            effects,
            StreamerManagerEffect::EmitPayload(AppMessageType::StreamerZonePosition),
        );
        push_effect(effects, StreamerManagerEffect::EmitPayload(AppMessageType::StreamerZoneState));
    }

    /// Publishes the log entries that have waited for the user interface, oldest first.
    fn flush_logs(&mut self, effects: &mut Vec<StreamerManagerEffect>)
        ensures
            run_of(*final(self), final(effects)@) == run_of(*old(self), old(effects)@).flush_logs(),
    {
        let ghost start = run_of(*old(self), old(effects)@);
        let mut waiting: Vec<AppLog> = Vec::new();
        core::mem::swap(&mut self.buffered_app_logs, &mut waiting);
        assert(log_views(self.buffered_app_logs@) =~= Seq::<LogView>::empty());
        let n: usize = waiting.len();
        let mut i: usize = 0;
        while i < n
            invariant
                n == waiting@.len(),
                i <= n,
                log_views(waiting@) == start.manager.buffered_app_logs,
                effect_views(effects@) == start.effects + Seq::new(
                    i as nat,
                    |k: int| EffectView::EmitAppLog(start.manager.buffered_app_logs[k]),
                ),
            decreases n - i,
        {
            let ghost before = effect_views(effects@);
            push_effect(effects, StreamerManagerEffect::EmitAppLog(waiting[i].duplicate()));
            i = i + 1;
            assert(effect_views(effects@) =~= start.effects + Seq::new(
                i as nat,
                |k: int| EffectView::EmitAppLog(start.manager.buffered_app_logs[k]),
            ));
        }
    }

    /// Asks the session to test the connection.
    fn request_test(&mut self, now: u64, effects: &mut Vec<StreamerManagerEffect>)
        ensures
            run_of(*final(self), final(effects)@) == run_of(*old(self), old(effects)@).request_test(
                now,
            ),
    {
        self.note(
            SerializableLevel::Debug,
            "Sending TestConnection request to WebSocketClient",
            now,
            effects,
        );
        if self.has_session_channel {
            self.is_testing_connection = true;
            push_effect(
                effects,
                StreamerManagerEffect::SendToSession(
                    WSClientRxChannelMsg::WebSocketClientActionMsg(
                        WebSocketClientAction::TestConnection,
                    ),
                ),
            );
        } else {
            self.note(
                SerializableLevel::Warn,
                "No WebSocketClient send channel found",
                now,
                effects,
            );
            self.is_testing_connection = false;
        }
        self.emit_state(effects);
    }

    /// Tests the connection, or activates the device that was active last where none stands.
    fn test_connection(&mut self, now: u64, effects: &mut Vec<StreamerManagerEffect>)
        ensures
            run_of(*final(self), final(effects)@) == run_of(
                *old(self),
                old(effects)@,
            ).test_connection(now),
    {
        let connected: bool = match &self.ws_client_status {
            WebSocketClientStatus::Connected(_) => true,
            _ => false,
        };
        if connected {
            self.request_test(now, effects);
        } else {
            self.reactivate(
                (
                    SerializableLevel::Info,
                    "No active WebSocketClient connection to test; attempting to re-activate last-seen device",
                ),
                (
                    SerializableLevel::Warn,
                    "Cannot perform test; no active WebSocketClient connection, and no known last-seen device to re-activate",
                ),
                now,
                effects,
            );
        }
    }

    /// Takes in that the session's task has ended with an error.
    fn client_error(&mut self, now: u64, effects: &mut Vec<StreamerManagerEffect>)
        ensures
            run_of(*final(self), final(effects)@) == run_of(*old(self), old(effects)@).client_error(
                now,
            ),
    {
        if self.is_testing_connection {
            self.note(SerializableLevel::Warn, "Test resulted in client error", now, effects);
            self.is_testing_connection = false;
        }
        let udn: Option<String> = match &self.last_active_device {
            Some(device) => Some(device.udn.clone()),
            None => None,
        };
        if let Some(udn) = udn {
            self.note(
                SerializableLevel::Info,
                "Client error; retrying last-active device",
                now,
                effects,
            );
            let ghost told = run_of(*self, effects@);
            self.resume();
            assert(run_of(*self, effects@) == told.resume());
            self.activate_device(udn.as_str(), now, effects);
        } else {
            self.note(
                SerializableLevel::Info,
                "Client error; not trying again (no last-active device)",
                now,
                effects,
            );
            let ghost told = run_of(*self, effects@);
            self.set_activating(false, now);
            assert(run_of(*self, effects@) == told.set_activating(false, now));
            self.emit_state(effects);
        }
    }

    /// Ends the session and forgets what was known of it.
    fn halt_session(
        &mut self,
        forget_host: bool,
        now: u64,
        effects: &mut Vec<StreamerManagerEffect>,
    )
        ensures
            run_of(*final(self), final(effects)@) == run_of(*old(self), old(effects)@).halt_session(
                forget_host,
                now,
            ),
    {
        self.note(
            SerializableLevel::Info,
            "StreamMagicManager WebSocket halt requested",
            now,
            effects,
        );
        self.stop_session(now, effects);
        self.ws_client_status = WebSocketClientStatus::Disconnected(
            WebSocketClientDisconnectedDetails { reason: None, consider_reconnecting: false },
        );
        self.is_testing_connection = false;
        let ghost reset = run_of(*self, effects@);
        self.set_activating(false, now);
        assert(run_of(*self, effects@) == reset.set_activating(false, now));
        self.emit_state(effects);
        if forget_host {
            push_effect(effects, StreamerManagerEffect::ForgetHost);
        }
    }

    /// Carries out an action that was asked of the manager, at the time `now`. A manager
    /// that was sound stays so, and shows itself settled in every state that it publishes.
    pub fn on_manager_action(&mut self, action: StreamMagicManagerAction, now: u64) -> (effects:
        Vec<StreamerManagerEffect>)
        ensures
            run_of(*final(self), effects@) == begin(old(self)@).on_action(action, now),
            old(self)@.is_sound() ==> final(self)@.is_sound() && shows_settled(
                effect_views(effects@),
            ),
    {
        proof {
            lemma_step_keeps(old(self)@, Event::Action(action), now);
            if old(self)@.settled() {
                lemma_step_shows_settled(old(self)@, Event::Action(action), now);
            }
        }
        self.take_action(action, now)
    }

    /// Carries out an action that was asked of the manager, as `Run::on_action` says.
    fn take_action(&mut self, action: StreamMagicManagerAction, now: u64) -> (effects: Vec<
        StreamerManagerEffect,
    >)
        ensures
            run_of(*final(self), effects@) == begin(old(self)@).on_action(action, now),
    {
        let mut effects = no_effects();
        match action {
            StreamMagicManagerAction::ActivateUdn(udn) => {
                self.activate_device(udn.as_str(), now, &mut effects);
            },
            StreamMagicManagerAction::ConnectToStreamer(host) => {
                self.start_session(host.as_str(), now, &mut effects);
                self.emit_state(&mut effects);
            },
            StreamMagicManagerAction::Deactivate => {
                self.note(
                    SerializableLevel::Info,
                    "Deactivating currently-active device",
                    now,
                    &mut effects,
                );
                let ghost logged = run_of(*self, effects@);
                self.deactivate_all();
                assert(run_of(*self, effects@) == logged.deactivate_all());
                self.stop_session(now, &mut effects);
                self.note(SerializableLevel::Info, "Deactivation complete", now, &mut effects);
                self.emit_state(&mut effects);
            },
            StreamMagicManagerAction::DisconnectFromStreamer => {
                self.stop_session(now, &mut effects);
            },
            StreamMagicManagerAction::Discover(activate) => {
                self.discover(activate, now, &mut effects);
            },
            StreamMagicManagerAction::EmitAppLog(entry) => {
                self.take_log(entry, &mut effects);
            },
            StreamMagicManagerAction::HandleClientError => {
                self.client_error(now, &mut effects);
            },
            StreamMagicManagerAction::OnUIReady => {
                self.ui_ready = true;
                self.emit_state(&mut effects);
                self.emit_payloads(&mut effects);
                self.flush_logs(&mut effects);
            },
            StreamMagicManagerAction::ProcessDiscoveredDevice(device) => {
                self.log(
                    SerializableLevel::Info,
                    joined("Processing discovered device: ", device.label().as_str()),
                    now,
                    &mut effects,
                );
                self.add_device(device, now, &mut effects);
                self.emit_state(&mut effects);
            },
            StreamMagicManagerAction::SetIsDiscovering(is_discovering) => {
                self.is_discovering = is_discovering;
                self.emit_state(&mut effects);
            },
            StreamMagicManagerAction::ShutDown => {
                self.note(
                    SerializableLevel::Info,
                    "StreamMagicManager shutdown requested",
                    now,
                    &mut effects,
                );
                self.stop_session(now, &mut effects);
                self.note(SerializableLevel::Info, "StreamMagicManager has ended", now, &mut effects);
                push_effect(&mut effects, StreamerManagerEffect::Stop);
            },
            StreamMagicManagerAction::StopWebSocketClient(forget_host) => {
                self.halt_session(forget_host, now, &mut effects);
            },
            StreamMagicManagerAction::TestConnection => {
                self.test_connection(now, &mut effects);
            },
        }
        effects
    }

    /// Passes a user's action on to the streamer, as the message that carries it out,
    /// while a connection stands. While none does, the action is dropped.
    pub fn on_streamer_action(&self, action: StreamerAction) -> (effects: Vec<
        StreamerManagerEffect,
    >)
        ensures
            run_of(*self, effects@) == begin(self@).forward(action_text(action)),
            shows_settled(effect_views(effects@)),
    {
        let mut effects = no_effects();
        let connected: bool = match &self.ws_client_status {
            WebSocketClientStatus::Connected(_) => true,
            WebSocketClientStatus::TestingConnection => true,
            _ => false,
        };
        if connected {
            self.send(action_message(action), &mut effects);
        }
        effects
    }

    /// Takes in a message from the inbox, at the time `now`.
    pub fn on_message(&mut self, message: StreamMagicManagerChannelMsg, now: u64) -> (effects: Vec<
        StreamerManagerEffect,
    >)
        ensures
            match message {
                StreamMagicManagerChannelMsg::StreamerActionMsg(action) => run_of(
                    *final(self),
                    effects@,
                ) == begin(old(self)@).forward(action_text(action)),
                StreamMagicManagerChannelMsg::StreamMagicManagerActionMsg(action) => run_of(
                    *final(self),
                    effects@,
                ) == begin(old(self)@).on_action(action, now),
            },
            old(self)@.is_sound() ==> final(self)@.is_sound() && shows_settled(
                effect_views(effects@),
            ),
    {
        match message {
            StreamMagicManagerChannelMsg::StreamerActionMsg(action) => self.on_streamer_action(
                action,
            ),
            StreamMagicManagerChannelMsg::StreamMagicManagerActionMsg(action) =>
                self.on_manager_action(action, now),
        }
    }

    /// Takes in that a connection stands, as `Run::on_connected` says.
    fn on_connected(
        &mut self,
        url: &str,
        existing: bool,
        now: u64,
        effects: &mut Vec<StreamerManagerEffect>,
    )
        ensures
            run_of(*final(self), final(effects)@) == run_of(*old(self), old(effects)@).on_connected(
                url@,
                existing,
                now,
            ),
    {
        if self.is_testing_connection {
            self.note(SerializableLevel::Info, "Streamer connection OK", now, effects);
            self.is_testing_connection = false;
        }
        if !existing {
            match host_from_url(url) {
                Some(host) => {
                    self.log(
                        SerializableLevel::Info,
                        joined("Persisting last connected host: ", host.as_str()),
                        now,
                        effects,
                    );
                    push_effect(effects, StreamerManagerEffect::PersistHost(host));
                },
                None => {},
            }
            self.subscribe(effects);
            self.send(QueueList::request_state_msg(), effects);
            self.mark_active(url, now, effects);
        }
        let ghost greeted = run_of(*self, effects@);
        self.set_activating(false, now);
        assert(run_of(*self, effects@) == greeted.set_activating(false, now));
    }

    /// Takes in that the session has lost or given up its connection, as
    /// `Run::on_disconnected` says.
    fn on_disconnected(
        &mut self,
        reason: &Option<String>,
        consider_reconnecting: bool,
        attempt_failed: bool,
        now: u64,
        effects: &mut Vec<StreamerManagerEffect>,
    )
        ensures
            run_of(*final(self), final(effects)@) == run_of(
                *old(self),
                old(effects)@,
            ).on_disconnected(
                crate::streammagic_manager::websocket_client::text_view(*reason),
                consider_reconnecting,
                attempt_failed,
                now,
            ),
    {
        match reason {
            Some(text) => {
                self.log(
                    SerializableLevel::Info,
                    joined("WebSocketClient has disconnected with reason: ", text.as_str()),
                    now,
                    effects,
                );
            },
            None => {
                self.note(
                    SerializableLevel::Info,
                    "WebSocketClient has disconnected with no message",
                    now,
                    effects,
                );
            },
        }
        let ghost logged = run_of(*self, effects@);
        self.deactivate_all();
        assert(run_of(*self, effects@) == logged.deactivate_all());
        self.has_session = false;
        self.has_session_channel = false;
        if self.is_testing_connection {
            self.note(SerializableLevel::Warn, "Test resulted in Disconnect", now, effects);
            self.is_testing_connection = false;
            self.reactivate(
                (SerializableLevel::Info, "Attempting re-activation of last-active device"),
                (
                    SerializableLevel::Info,
                    "Giving up on connection test (no last-active device to reactivate)",
                ),
                now,
                effects,
            );
        } else if consider_reconnecting {
            self.note(SerializableLevel::Info, "Potentially-recoverable disconnect", now, effects);
            if self.last_active_device.is_some() {
                self.reactivate(
                    (SerializableLevel::Info, "Attempting re-activation of last-active device"),
                    (SerializableLevel::Info, "Attempting re-activation of last-active device"),
                    now,
                    effects,
                );
            } else {
                self.note(
                    SerializableLevel::Warn,
                    "Unable to determine last active UDN; not attempting reconnect",
                    now,
                    effects,
                );
                let ghost warned = run_of(*self, effects@);
                self.set_activating(false, now);
                assert(run_of(*self, effects@) == warned.set_activating(false, now));
            }
        } else if attempt_failed {
            let ghost dropped = run_of(*self, effects@);
            self.interrupt(now);
            assert(run_of(*self, effects@) == dropped.interrupt(now));
        } else {
            let ghost dropped = run_of(*self, effects@);
            self.set_activating(false, now);
            assert(run_of(*self, effects@) == dropped.set_activating(false, now));
        }
    }

    /// The name of a status.
    fn name_of(status: &WebSocketClientStatus) -> (name: &'static str)
        ensures
            name@ == status_name(status@),
    {
        match status {
            WebSocketClientStatus::Disconnected(_) => "Disconnected",
            WebSocketClientStatus::Connecting(_) => "Connecting",
            WebSocketClientStatus::Connected(_) => "Connected",
            WebSocketClientStatus::TestingConnection => "TestingConnection",
        }
    }

    /// Takes in a status that the session reports, at the time `now`. A manager that was
    /// sound stays so, and shows itself settled in every state that it publishes. A loss
    /// outside a test that is not answered by an activation (nothing is to be gained from
    /// trying again, or no device was active before) leaves the manager not activating,
    /// whatever it had observed before.
    pub fn on_session_status(&mut self, status: WebSocketClientStatus, now: u64) -> (effects: Vec<
        StreamerManagerEffect,
    >)
        ensures
            run_of(*final(self), effects@) == begin(old(self)@).on_status(status, now),
            old(self)@.is_sound() ==> final(self)@.is_sound() && shows_settled(
                effect_views(effects@),
            ),
            is_loss(status) && !old(self).is_testing_connection && (is_final_loss(status) || old(
                self,
            ).last_active_device is None) ==> {
                &&& !final(self).is_activating
                &&& final(self).activation_start is None
                &&& final(self).activation_attempts == 0
                &&& !final(self).has_session
                &&& final(self).ws_client_status == status
            },
    {
        proof {
            if is_loss(status) && !old(self).is_testing_connection && (is_final_loss(status)
                || old(self).last_active_device is None) {
                lemma_loss_ends_the_activation(old(self)@, status, now);
            }
            lemma_step_keeps(old(self)@, Event::Status(status), now);
            if old(self)@.settled() {
                lemma_step_shows_settled(old(self)@, Event::Status(status), now);
            }
        }
        self.take_status(status, now)
    }

    /// Takes in a status that the session reports, as `Run::on_status` says.
    #[verifier::rlimit(40)]
    fn take_status(&mut self, status: WebSocketClientStatus, now: u64) -> (effects: Vec<
        StreamerManagerEffect,
    >)
        ensures
            run_of(*final(self), effects@) == begin(old(self)@).on_status(status, now),
    {
        let mut effects = no_effects();
        if !self.is_testing_connection {
            self.log(
                SerializableLevel::Info,
                joined("WebSocketClient status: ", Self::name_of(&status)),
                now,
                &mut effects,
            );
        }
        let attempt_failed: bool = match &self.ws_client_status {
            WebSocketClientStatus::Connecting(_) => true,
            _ => false,
        };
        match status {
            WebSocketClientStatus::Connected(details) => {
                self.on_connected(details.url.as_str(), details.existing, now, &mut effects);
                self.ws_client_status = WebSocketClientStatus::Connected(details);
            },
            WebSocketClientStatus::Disconnected(details) => {
                let reason: Option<String> = duplicate_text(&details.reason);
                let consider_reconnecting: bool = details.consider_reconnecting;
                self.ws_client_status = WebSocketClientStatus::Disconnected(details);
                self.on_disconnected(
                    &reason,
                    consider_reconnecting,
                    attempt_failed,
                    now,
                    &mut effects,
                );
            },
            WebSocketClientStatus::TestingConnection => {
                self.ws_client_status = WebSocketClientStatus::TestingConnection;
                self.note(
                    SerializableLevel::Debug,
                    "WebSocketClient is testing its connection",
                    now,
                    &mut effects,
                );
            },
            WebSocketClientStatus::Connecting(url) => {
                self.ws_client_status = WebSocketClientStatus::Connecting(url);
            },
        }
        self.emit_state(&mut effects);
        effects
    }

    /// Logs that the parameters of an update on `path` were not taken in.
    fn undecoded(
        &mut self,
        path: &str,
        detail: &str,
        now: u64,
        effects: &mut Vec<StreamerManagerEffect>,
    )
        ensures
            run_of(*final(self), final(effects)@) == run_of(*old(self), old(effects)@).log(
                SerializableLevel::Warn,
                Run::undecoded_text(path@, detail@),
                now,
            ),
    {
        self.log(
            SerializableLevel::Warn,
            String::from_str("Could not decode ").concat(path).concat(" payload: ").concat(detail),
            now,
            effects,
        );
    }

    /// Takes in an update of the streamer: a message on `path` whose parameters the driver
    /// has read as `decoding`. Only a payload of the kind that `path` carries changes the
    /// cache, and it changes the slot of its kind alone.
    pub fn process_streammagic_message(&mut self, path: &str, decoding: Decoding, now: u64) -> (effects:
        Vec<StreamerManagerEffect>)
        ensures
            run_of(*final(self), effects@) == begin(old(self)@).on_update(path@, decoding, now),
            old(self)@.is_sound() ==> final(self)@.is_sound() && shows_settled(
                effect_views(effects@),
            ),
    {
        proof {
            lemma_step_keeps(old(self)@, Event::Update(path@, decoding), now);
            if old(self)@.settled() {
                lemma_step_shows_settled(old(self)@, Event::Update(path@, decoding), now);
            }
        }
        self.take_update(path, decoding, now)
    }

    /// Takes in an update of the streamer, as `Run::on_update` says.
    fn take_update(&mut self, path: &str, decoding: Decoding, now: u64) -> (effects: Vec<
        StreamerManagerEffect,
    >)
        ensures
            run_of(*final(self), effects@) == begin(old(self)@).on_update(path@, decoding, now),
    {
        let mut effects = no_effects();
        match StreamerPath::parse(path) {
            None => {
                self.log(
                    SerializableLevel::Warn,
                    joined("Received unhandled StreamMagic message path: ", path),
                    now,
                    &mut effects,
                );
            },
            Some(StreamerPath::PlayControl) | Some(StreamerPath::RecallPreset) => {},
            Some(known) => {
                match decoding {
                    Decoding::Payload(payload) => {
                        if payload.kind() == known {
                            self.cache.store(payload);
                            if known == StreamerPath::QueueInfo {
                                self.send(QueueList::request_state_msg(), &mut effects);
                            } else {
                                push_effect(
                                    &mut effects,
                                    StreamerManagerEffect::EmitPayload(Self::message_type(known)),
                                );
                            }
                        } else {
                            self.undecoded(path, "payload of another kind", now, &mut effects);
                        }
                    },
                    Decoding::Failed(detail) => {
                        if known == StreamerPath::ZonePosition && contains(
                            detail.as_str(),
                            MISSING_DATA,
                        ) {
                        } else {
                            self.undecoded(path, detail.as_str(), now, &mut effects);
                        }
                    },
                }
            },
        }
        effects
    }

    /// The kind of message under which the payloads of `path` are published.
    fn message_type(path: StreamerPath) -> (kind: AppMessageType)
        ensures
            kind == message_type_of(path),
    {
        match path {
            StreamerPath::QueueList => AppMessageType::StreamerQueueList,
            StreamerPath::PresetsList => AppMessageType::StreamerPresets,
            StreamerPath::SystemInfo => AppMessageType::StreamerSystemInfo,
            StreamerPath::SystemPower => AppMessageType::StreamerSystemPower,
            StreamerPath::SystemSources => AppMessageType::StreamerSystemSources,
            StreamerPath::ZoneNowPlaying => AppMessageType::StreamerZoneNowPlaying,
            StreamerPath::ZonePlayState => AppMessageType::StreamerZonePlayState,
            StreamerPath::ZonePosition => AppMessageType::StreamerZonePosition,
            _ => AppMessageType::StreamerZoneState,
        }
    }

    /// Takes in a message of the streamer that the driver could not read at all: it is
    /// logged with the driver's reason, and nothing changes.
    pub fn on_malformed_message(&mut self, text: &str, error: &str, now: u64) -> (effects: Vec<
        StreamerManagerEffect,
    >)
        ensures
            run_of(*final(self), effects@) == begin(old(self)@).log(
                SerializableLevel::Warn,
                "Could not deserialize StreamMagic message; error: "@ + error@ + " :: message: "@
                    + text@,
                now,
            ),
            old(self)@.is_sound() ==> final(self)@.is_sound() && shows_settled(
                effect_views(effects@),
            ),
    {
        proof {
            lemma_step_keeps(old(self)@, Event::Malformed(text@, error@), now);
            if old(self)@.settled() {
                lemma_step_shows_settled(old(self)@, Event::Malformed(text@, error@), now);
            }
        }
        let mut effects = no_effects();
        self.log(
            SerializableLevel::Warn,
            String::from_str("Could not deserialize StreamMagic message; error: ").concat(
                error,
            ).concat(" :: message: ").concat(text),
            now,
            &mut effects,
        );
        effects
    }

    /// Begins the manager's life at the time `now`, with the host that was persisted, if
    /// one was.
    pub fn start(&mut self, persisted_host: Option<String>, now: u64) -> (effects: Vec<
        StreamerManagerEffect,
    >)
        ensures
            run_of(*final(self), effects@) == begin(old(self)@).start(
                crate::streammagic_manager::websocket_client::text_view(persisted_host),
                now,
            ),
            old(self)@.is_sound() ==> final(self)@.is_sound() && shows_settled(
                effect_views(effects@),
            ),
    {
        proof {
            let host = crate::streammagic_manager::websocket_client::text_view(persisted_host);
            lemma_start_keeps(old(self)@, host, now);
            if old(self)@.settled() {
                lemma_start_shows_settled(old(self)@, host, now);
            }
        }
        let mut effects = no_effects();
        match persisted_host {
            Some(host) => {
                self.log(
                    SerializableLevel::Info,
                    joined("Using stored streamer host to initialize connection: ", host.as_str()),
                    now,
                    &mut effects,
                );
                let ghost logged = run_of(*self, effects@);
                self.set_activating(true, now);
                assert(run_of(*self, effects@) == logged.set_activating(true, now));
                self.emit_state(&mut effects);
                self.start_session(host.as_str(), now, &mut effects);
                self.discover(false, now, &mut effects);
            },
            None => {
                self.discover(true, now, &mut effects);
            },
        }
        effects
    }
}

} // verus!
