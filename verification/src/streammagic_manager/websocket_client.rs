//! The session that holds one WebSocket connection to a streamer, as a state machine.
//!
//! The session knows nothing of what the streamer says: it passes text in both directions and
//! looks after the connection. The driver owns the socket and the clock, hands every event to
//! the session together with the time, and carries out the effects that the session answers
//! with, in their order.

use vstd::prelude::*;
use vstd::string::*;

use crate::average::{outruns, window_after, RunningAverage};
use crate::clock::{exceeded, has_exceeded};
use crate::errors::{ErrorView, PunyTunesError};
use crate::messaging::SerializableLevel;
use crate::text::{duplicate_text, joined};
use crate::utils::{host_from_url, url_host};

verus! {

/// How long a connection attempt may take, in milliseconds.
pub const CONNECTION_TIMEOUT_MS: u64 = 2000;

/// How long the answer to a test ping may take, in milliseconds.
pub const TEST_PONG_TIMEOUT_MS: u64 = 1000;

/// How many intervals between pings the running average looks back on.
pub const PING_WINDOW: u16 = 10;

/// How long the streamer may go without a ping while fewer than three intervals between
/// pings are known, in seconds.
pub const START_PING_THRESHOLD_SECS: u64 = 600;

/// How often the driver sends a tick, in milliseconds.
pub const TICK_MS: u64 = 1000;

/// The value of the `Origin` header that the streamer asks for.
pub const ORIGIN: &'static str = "punytunes";

/// What a test ping carries.
pub const TEST_PING_PAYLOAD: &'static str = "PING";

// ================================================================================================
// Messages and statuses
// ================================================================================================

/// Messages sent to a session by the manager.
#[derive(Clone, Debug, PartialEq, Eq)]
pub enum WSClientRxChannelMsg {
    /// Text to send to the streamer.
    DataMsg(String),
    WebSocketClientActionMsg(WebSocketClientAction),
}

/// Messages sent by a session to the manager.
#[derive(Clone, Debug, PartialEq, Eq)]
pub enum WSClientTxChannelMsg {
    /// Text received from the streamer.
    DataMsg(String),
    WebSocketClientStatusMsg(WebSocketClientStatus),
}

/// What the manager can ask of the session itself.
#[derive(Clone, Copy, Debug, PartialEq, Eq, Structural)]
pub enum WebSocketClientAction {
    ShutDown,
    TestConnection,
}

/// What is known of a connection that stands.
#[derive(Clone, Debug, PartialEq, Eq)]
pub struct WebSocketClientConnectedDetails {
    /// The URL of the streamer's WebSocket.
    pub url: String,
    /// Whether the connection stood before and has been found in good health, as opposed to
    /// having been opened just now.
    pub existing: bool,
}

/// What is known of a connection that does not stand.
#[derive(Clone, Debug, PartialEq, Eq)]
pub struct WebSocketClientDisconnectedDetails {
    pub reason: Option<String>,
    /// Whether connecting again may help.
    pub consider_reconnecting: bool,
}

impl Default for WebSocketClientDisconnectedDetails {
    fn default() -> (details: WebSocketClientDisconnectedDetails)
        ensures
            details.reason is None,
            !details.consider_reconnecting,
    {
        WebSocketClientDisconnectedDetails { reason: None, consider_reconnecting: false }
    }
}

/// Where a session stands.
#[derive(Clone, Debug, PartialEq, Eq)]
pub enum WebSocketClientStatus {
    Disconnected(WebSocketClientDisconnectedDetails),
    /// A connection to this URL is being opened.
    Connecting(String),
    Connected(WebSocketClientConnectedDetails),
    TestingConnection,
}

/// A status as mathematics sees it.
pub enum StatusView {
    Disconnected { reason: Option<Seq<char>>, consider_reconnecting: bool },
    Connecting(Seq<char>),
    Connected { url: Seq<char>, existing: bool },
    TestingConnection,
}

/// A text that may be absent, as mathematics sees it.
pub open spec fn text_view(text: Option<String>) -> Option<Seq<char>> {
    match text {
        Some(t) => Some(t@),
        None => None,
    }
}

impl View for WebSocketClientStatus {
    type V = StatusView;

    open spec fn view(&self) -> StatusView {
        match *self {
            WebSocketClientStatus::Disconnected(details) => StatusView::Disconnected {
                reason: text_view(details.reason),
                consider_reconnecting: details.consider_reconnecting,
            },
            WebSocketClientStatus::Connecting(url) => StatusView::Connecting(url@),
            WebSocketClientStatus::Connected(details) => StatusView::Connected {
                url: details.url@,
                existing: details.existing,
            },
            WebSocketClientStatus::TestingConnection => StatusView::TestingConnection,
        }
    }
}

impl WebSocketClientStatus {
    /// A copy of this status.
    pub fn duplicate(&self) -> (status: WebSocketClientStatus)
        ensures
            status == *self,
    {
        match self {
            WebSocketClientStatus::Disconnected(details) => WebSocketClientStatus::Disconnected(
                WebSocketClientDisconnectedDetails {
                    reason: duplicate_text(&details.reason),
                    consider_reconnecting: details.consider_reconnecting,
                },
            ),
            WebSocketClientStatus::Connecting(url) => WebSocketClientStatus::Connecting(url.clone()),
            WebSocketClientStatus::Connected(details) => WebSocketClientStatus::Connected(
                WebSocketClientConnectedDetails {
                    url: details.url.clone(),
                    existing: details.existing,
                },
            ),
            WebSocketClientStatus::TestingConnection => WebSocketClientStatus::TestingConnection,
        }
    }

    /// The status of a session that has lost or given up its connection.
    pub fn disconnected(reason: Option<String>, consider_reconnecting: bool) -> (status:
        WebSocketClientStatus)
        ensures
            status@ == (StatusView::Disconnected {
                reason: text_view(reason),
                consider_reconnecting,
            }),
    {
        WebSocketClientStatus::Disconnected(
            WebSocketClientDisconnectedDetails { reason, consider_reconnecting },
        )
    }
}

/// A message to the manager as mathematics sees it.
pub enum TxView {
    Data(Seq<char>),
    Status(StatusView),
}

impl View for WSClientTxChannelMsg {
    type V = TxView;

    open spec fn view(&self) -> TxView {
        match *self {
            WSClientTxChannelMsg::DataMsg(text) => TxView::Data(text@),
            WSClientTxChannelMsg::WebSocketClientStatusMsg(status) => TxView::Status(status@),
        }
    }
}

/// A message from the manager as mathematics sees it.
pub enum RxView {
    Data(Seq<char>),
    Action(WebSocketClientAction),
}

impl View for WSClientRxChannelMsg {
    type V = RxView;

    open spec fn view(&self) -> RxView {
        match *self {
            WSClientRxChannelMsg::DataMsg(text) => RxView::Data(text@),
            WSClientRxChannelMsg::WebSocketClientActionMsg(action) => RxView::Action(action),
        }
    }
}

/// How a connection attempt ended.
#[derive(Clone, Debug, PartialEq, Eq)]
pub enum ConnectOutcome {
    /// The WebSocket is open.
    Connected,
    /// The transport refused, with its reason.
    Failed(String),
    /// Nothing happened within the connection timeout.
    TimedOut,
}

/// A connection attempt's end as mathematics sees it.
pub enum ConnectOutcomeView {
    Connected,
    Failed(Seq<char>),
    TimedOut,
}

impl View for ConnectOutcome {
    type V = ConnectOutcomeView;

    open spec fn view(&self) -> ConnectOutcomeView {
        match *self {
            ConnectOutcome::Connected => ConnectOutcomeView::Connected,
            ConnectOutcome::Failed(detail) => ConnectOutcomeView::Failed(detail@),
            ConnectOutcome::TimedOut => ConnectOutcomeView::TimedOut,
        }
    }
}

/// What arrives on the socket.
#[derive(Clone, Debug, PartialEq, Eq)]
pub enum SocketMessage {
    Text(String),
    Ping,
    Pong,
    Close,
    /// A message of another kind, with its description.
    Other(String),
}

/// What arrives on the socket, as mathematics sees it.
pub enum SocketMessageView {
    Text(Seq<char>),
    Ping,
    Pong,
    Close,
    Other(Seq<char>),
}

impl View for SocketMessage {
    type V = SocketMessageView;

    open spec fn view(&self) -> SocketMessageView {
        match *self {
            SocketMessage::Text(text) => SocketMessageView::Text(text@),
            SocketMessage::Ping => SocketMessageView::Ping,
            SocketMessage::Pong => SocketMessageView::Pong,
            SocketMessage::Close => SocketMessageView::Close,
            SocketMessage::Other(description) => SocketMessageView::Other(description@),
        }
    }
}

// ================================================================================================
// Effects
// ================================================================================================

/// What a session asks its driver to do.
#[derive(Debug, PartialEq, Eq)]
pub enum ClientEffect {
    /// Write an entry to the application log.
    Log(SerializableLevel, String),
    /// Send this message to the manager.
    Tell(WSClientTxChannelMsg),
    /// Open a WebSocket to `url` with this `Origin` header, and give up after `timeout_ms`.
    Connect { url: String, origin: String, timeout_ms: u64 },
    /// Send this text to the streamer.
    SendText(String),
    /// Send a ping with this payload to the streamer.
    SendPing(String),
    /// Close the socket.
    Close,
    /// Leave the run loop with this result: the session has ended.
    Finish(Result<(), PunyTunesError>),
}

/// An effect as mathematics sees it.
pub enum ClientEffectView {
    Log(SerializableLevel, Seq<char>),
    Tell(TxView),
    Connect { url: Seq<char>, origin: Seq<char>, timeout_ms: u64 },
    SendText(Seq<char>),
    SendPing(Seq<char>),
    Close,
    Finish(Result<(), ErrorView>),
}

impl View for ClientEffect {
    type V = ClientEffectView;

    open spec fn view(&self) -> ClientEffectView {
        match *self {
            ClientEffect::Log(level, message) => ClientEffectView::Log(level, message@),
            ClientEffect::Tell(message) => ClientEffectView::Tell(message@),
            ClientEffect::Connect { url, origin, timeout_ms } => ClientEffectView::Connect {
                url: url@,
                origin: origin@,
                timeout_ms,
            },
            ClientEffect::SendText(text) => ClientEffectView::SendText(text@),
            ClientEffect::SendPing(payload) => ClientEffectView::SendPing(payload@),
            ClientEffect::Close => ClientEffectView::Close,
            ClientEffect::Finish(result) => ClientEffectView::Finish(
                match result {
                    Ok(_) => Ok(()),
                    Err(error) => Err(error@),
                },
            ),
        }
    }
}

/// A list of effects as mathematics sees it.
pub open spec fn effect_views(effects: Seq<ClientEffect>) -> Seq<ClientEffectView> {
    Seq::new(effects.len(), |i: int| effects[i]@)
}

/// The effect that tells the manager of a status.
pub open spec fn tell_status(status: StatusView) -> ClientEffectView {
    ClientEffectView::Tell(TxView::Status(status))
}

/// The status of a session that has lost or given up its connection.
pub open spec fn disconnected(reason: Option<Seq<char>>, consider_reconnecting: bool) -> StatusView {
    StatusView::Disconnected { reason, consider_reconnecting }
}

/// The effects with which a session ends: the reason is logged, the manager is told that
/// the session is disconnected, the socket is closed and the loop is left.
pub open spec fn end_effects(
    level: SerializableLevel,
    message: Seq<char>,
    reason: Option<Seq<char>>,
    consider_reconnecting: bool,
    result: Result<(), ErrorView>,
) -> Seq<ClientEffectView> {
    seq![
        ClientEffectView::Log(level, message),
        tell_status(disconnected(reason, consider_reconnecting)),
        ClientEffectView::Close,
        ClientEffectView::Finish(result),
    ]
}

/// Adds one effect behind the others.
fn push_effect(effects: &mut Vec<ClientEffect>, effect: ClientEffect)
    ensures
        effect_views(final(effects)@) == effect_views(old(effects)@).push(effect@),
{
    effects.push(effect);
    assert(effect_views(effects@) =~= effect_views(old(effects)@).push(effect@));
}

/// No effects.
fn no_effects() -> (effects: Vec<ClientEffect>)
    ensures
        effect_views(effects@) == Seq::<ClientEffectView>::empty(),
{
    let effects: Vec<ClientEffect> = Vec::new();
    assert(effect_views(effects@) =~= Seq::<ClientEffectView>::empty());
    effects
}

// ================================================================================================
// The session
// ================================================================================================

/// One session with one streamer.
pub struct WebSocketClient {
    pub url: String,
    pub status: WebSocketClientStatus,
    pub connection_timeout_ms: u64,
    pub test_connection_pong_timeout_ms: u64,
    /// Whether the session ends when the streamer's pings stay away.
    pub stop_on_missing_pings: bool,
    /// The intervals between the streamer's pings, in seconds.
    pub ping_avg: RunningAverage,
    /// When the streamer's last ping arrived.
    pub last_ping_time: u64,
    pub have_ignored_first_ping: bool,
    /// When the running test's ping was sent.
    pub test_connection_ping_time: u64,
}

/// A session as mathematics sees it.
pub struct ClientView {
    pub url: Seq<char>,
    pub status: StatusView,
    pub connection_timeout_ms: u64,
    pub test_connection_pong_timeout_ms: u64,
    pub stop_on_missing_pings: bool,
    pub ping_intervals: Seq<u64>,
    pub ping_window: nat,
    pub last_ping_time: u64,
    pub have_ignored_first_ping: bool,
    pub test_connection_ping_time: u64,
}

impl View for WebSocketClient {
    type V = ClientView;

    open spec fn view(&self) -> ClientView {
        ClientView {
            url: self.url@,
            status: self.status@,
            connection_timeout_ms: self.connection_timeout_ms,
            test_connection_pong_timeout_ms: self.test_connection_pong_timeout_ms,
            stop_on_missing_pings: self.stop_on_missing_pings,
            ping_intervals: self.ping_avg@,
            ping_window: self.ping_avg.capacity(),
            last_ping_time: self.last_ping_time,
            have_ignored_first_ping: self.have_ignored_first_ping,
            test_connection_ping_time: self.test_connection_ping_time,
        }
    }
}

impl ClientView {
    // --------------------------------------------------------------------------------------------
    // Connecting

    /// What is logged when the session sets out to connect.
    pub open spec fn connecting_log(self) -> ClientEffectView {
        ClientEffectView::Log(SerializableLevel::Info, "WebSocketClient connecting to "@ + self.url)
    }

    /// Why a URL without a host cannot be connected to.
    pub open spec fn url_error(self) -> Seq<char> {
        "URL parsing error: "@ + self.url
    }

    /// The session after it has set out to connect.
    pub open spec fn after_begin(self) -> ClientView {
        if url_host(self.url) is Some {
            ClientView { status: StatusView::Connecting(self.url), ..self }
        } else {
            ClientView { status: disconnected(Some(self.url_error()), false), ..self }
        }
    }

    /// What setting out to connect asks for.
    pub open spec fn begin_effects(self) -> Seq<ClientEffectView> {
        if url_host(self.url) is Some {
            seq![
                self.connecting_log(),
                tell_status(StatusView::Connecting(self.url)),
                ClientEffectView::Connect {
                    url: self.url,
                    origin: ORIGIN@,
                    timeout_ms: self.connection_timeout_ms,
                },
            ]
        } else {
            seq![
                self.connecting_log(),
                tell_status(StatusView::Connecting(self.url)),
                tell_status(disconnected(Some(self.url_error()), false)),
                ClientEffectView::Finish(Err(ErrorView::WebSocket(self.url_error()))),
            ]
        }
    }

    /// Why the connection attempt failed, in words.
    pub open spec fn failure_reason(outcome: ConnectOutcomeView) -> Seq<char> {
        match outcome {
            ConnectOutcomeView::Failed(detail) => "WebSocketClient connection error: "@ + detail,
            _ => "WebSocketClient connection timed out"@,
        }
    }

    /// The session after its connection attempt ended with `outcome` at the time `now`: it
    /// is connected, or disconnected for the reason of the failure, with nothing to be
    /// gained from trying the same connection again.
    pub open spec fn after_connect(self, outcome: ConnectOutcomeView, now: u64) -> ClientView {
        match outcome {
            ConnectOutcomeView::Connected => ClientView {
                status: StatusView::Connected { url: self.url, existing: false },
                last_ping_time: now,
                test_connection_ping_time: now,
                ..self
            },
            _ => ClientView {
                status: disconnected(Some(Self::failure_reason(outcome)), false),
                ..self
            },
        }
    }

    /// What the end of the connection attempt asks for.
    pub open spec fn connect_effects(self, outcome: ConnectOutcomeView) -> Seq<ClientEffectView> {
        match outcome {
            ConnectOutcomeView::Connected => seq![
                tell_status(StatusView::Connected { url: self.url, existing: false }),
            ],
            ConnectOutcomeView::Failed(_) => seq![
                ClientEffectView::Log(SerializableLevel::Warn, Self::failure_reason(outcome)),
                tell_status(disconnected(Some(Self::failure_reason(outcome)), false)),
                ClientEffectView::Finish(
                    Err(ErrorView::WebSocket(Self::failure_reason(outcome))),
                ),
            ],
            ConnectOutcomeView::TimedOut => seq![
                ClientEffectView::Log(SerializableLevel::Warn, Self::failure_reason(outcome)),
                tell_status(disconnected(Some(Self::failure_reason(outcome)), false)),
                ClientEffectView::Finish(Err(ErrorView::WebSocketTimeout)),
            ],
        }
    }

    // --------------------------------------------------------------------------------------------
    // Messages from the manager

    /// The session after the manager's message `message` arrived at the time `now`.
    pub open spec fn after_command(self, message: RxView, now: u64) -> ClientView {
        match message {
            RxView::Data(_) => self,
            RxView::Action(WebSocketClientAction::ShutDown) => ClientView {
                status: disconnected(None, false),
                ..self
            },
            RxView::Action(WebSocketClientAction::TestConnection) => if self.status is Connected {
                ClientView {
                    status: StatusView::TestingConnection,
                    test_connection_ping_time: now,
                    ..self
                }
            } else {
                self
            },
        }
    }

    /// What the manager's message `message` asks for.
    pub open spec fn command_effects(self, message: RxView) -> Seq<ClientEffectView> {
        match message {
            RxView::Data(text) => seq![ClientEffectView::SendText(text)],
            RxView::Action(WebSocketClientAction::ShutDown) => end_effects(
                SerializableLevel::Info,
                "WebSocketClient shutting down"@,
                None,
                false,
                Ok(()),
            ),
            RxView::Action(WebSocketClientAction::TestConnection) => if self.status is Connected {
                seq![
                    ClientEffectView::SendPing(TEST_PING_PAYLOAD@),
                    tell_status(StatusView::TestingConnection),
                ]
            } else {
                seq![tell_status(self.status)]
            },
        }
    }

    // --------------------------------------------------------------------------------------------
    // Messages from the streamer

    /// The whole seconds between the last ping and `now`.
    pub open spec fn ping_gap_secs(self, now: u64) -> u64 {
        ((now - self.last_ping_time) / 1000) as u64
    }

    /// The session after `message` arrived from the streamer at the time `now`.
    pub open spec fn after_socket_message(self, message: SocketMessageView, now: u64) -> ClientView {
        match message {
            SocketMessageView::Ping => ClientView {
                ping_intervals: if self.have_ignored_first_ping && now >= self.last_ping_time {
                    window_after(self.ping_intervals, self.ping_window, self.ping_gap_secs(now))
                } else {
                    self.ping_intervals
                },
                have_ignored_first_ping: true,
                last_ping_time: now,
                ..self
            },
            SocketMessageView::Pong => if self.status is TestingConnection {
                ClientView {
                    status: StatusView::Connected { url: self.url, existing: true },
                    ..self
                }
            } else {
                self
            },
            SocketMessageView::Close => ClientView {
                status: disconnected(Some("closed by server"@), true),
                ..self
            },
            _ => self,
        }
    }

    /// What `message` from the streamer asks for.
    pub open spec fn socket_message_effects(self, message: SocketMessageView) -> Seq<
        ClientEffectView,
    > {
        match message {
            SocketMessageView::Text(text) => seq![ClientEffectView::Tell(TxView::Data(text))],
            SocketMessageView::Ping => Seq::empty(),
            SocketMessageView::Pong => if self.status is TestingConnection {
                seq![tell_status(StatusView::Connected { url: self.url, existing: true })]
            } else {
                Seq::empty()
            },
            SocketMessageView::Close => end_effects(
                SerializableLevel::Warn,
                "WebSocket connection closed by server"@,
                Some("closed by server"@),
                true,
                Err(ErrorView::WebSocketConnectionClosed),
            ),
            SocketMessageView::Other(description) => seq![
                ClientEffectView::Log(
                    SerializableLevel::Warn,
                    "Ignoring unexpected WebSocket message type: "@ + description,
                ),
            ],
        }
    }

    /// Why the session ends on a failed read, in words.
    pub open spec fn read_error_reason(self, detail: Seq<char>) -> Seq<char> {
        if self.status is TestingConnection {
            "WebSocketClient test failed (message read error: "@ + detail + ")"@
        } else {
            "Could not read next item from WebSocket server stream: "@ + detail
        }
    }

    /// What a failed read asks for.
    pub open spec fn read_error_effects(self, detail: Seq<char>) -> Seq<ClientEffectView> {
        end_effects(
            SerializableLevel::Warn,
            self.read_error_reason(detail),
            Some(self.read_error_reason(detail)),
            true,
            if self.status is TestingConnection {
                Err(ErrorView::WebSocketClientLostConnection)
            } else {
                Err(ErrorView::WebSocket(self.read_error_reason(detail)))
            },
        )
    }

    // --------------------------------------------------------------------------------------------
    // Ticks

    /// Whether a test is running and its pong has been waited for too long at the time `now`.
    pub open spec fn pong_timed_out(self, now: u64) -> bool {
        self.status is TestingConnection && has_exceeded(
            now,
            self.test_connection_ping_time,
            self.test_connection_pong_timeout_ms,
        )
    }

    /// Whether the clock stands before the last ping at the time `now`, so that the time
    /// without a ping cannot be told.
    pub open spec fn clock_went_back(self, now: u64) -> bool {
        self.stop_on_missing_pings && now < self.last_ping_time
    }

    /// Whether the streamer's pings have stayed away for too long at the time `now`: for
    /// longer than five quarters of their average interval, or, while fewer than three
    /// intervals are known, for longer than the starting threshold.
    pub open spec fn pings_missing(self, now: u64) -> bool {
        &&& self.stop_on_missing_pings
        &&& now >= self.last_ping_time
        &&& if self.ping_intervals.len() > 2 {
            outruns(self.ping_gap_secs(now), self.ping_intervals)
        } else {
            self.ping_gap_secs(now) > START_PING_THRESHOLD_SECS
        }
    }

    /// What is said of a clock that stands before the last ping.
    pub open spec fn clock_text() -> Seq<char> {
        "Could not determine last WebSocket ping duration"@
    }

    /// What is said of pings that stay away.
    pub open spec fn pings_text() -> Seq<char> {
        "WebSocket ping not received in time; connection lost"@
    }

    /// The session after a tick at the time `now`.
    pub open spec fn after_tick(self, now: u64) -> ClientView {
        if self.pong_timed_out(now) {
            ClientView { status: disconnected(Some("pong timeout"@), true), ..self }
        } else if self.clock_went_back(now) {
            ClientView { status: disconnected(Some(Self::clock_text()), true), ..self }
        } else if self.pings_missing(now) {
            ClientView { status: disconnected(Some(Self::pings_text()), true), ..self }
        } else {
            self
        }
    }

    /// What a tick at the time `now` asks for.
    pub open spec fn tick_effects(self, now: u64) -> Seq<ClientEffectView> {
        if self.pong_timed_out(now) {
            end_effects(
                SerializableLevel::Warn,
                "WebSocketClient test failed (pong timeout)"@,
                Some("pong timeout"@),
                true,
                Err(ErrorView::WebSocketClientLostConnection),
            )
        } else if self.clock_went_back(now) {
            end_effects(
                SerializableLevel::Error,
                Self::clock_text(),
                Some(Self::clock_text()),
                true,
                Err(ErrorView::WebSocket(Self::clock_text())),
            )
        } else if self.pings_missing(now) {
            end_effects(
                SerializableLevel::Warn,
                Self::pings_text(),
                Some(Self::pings_text()),
                true,
                Err(ErrorView::WebSocketClientLostConnection),
            )
        } else {
            Seq::empty()
        }
    }
}

impl WebSocketClient {
    /// A session for the streamer at `url` that has not connected yet.
    pub fn new(url: &str, stop_on_missing_pings: bool) -> (client: WebSocketClient)
        ensures
            client@ == (ClientView {
                url: url@,
                status: disconnected(None, false),
                connection_timeout_ms: CONNECTION_TIMEOUT_MS,
                test_connection_pong_timeout_ms: TEST_PONG_TIMEOUT_MS,
                stop_on_missing_pings,
                ping_intervals: Seq::empty(),
                ping_window: PING_WINDOW as nat,
                last_ping_time: 0,
                have_ignored_first_ping: false,
                test_connection_ping_time: 0,
            }),
    {
        WebSocketClient {
            url: String::from_str(url),
            status: WebSocketClientStatus::disconnected(None, false),
            connection_timeout_ms: CONNECTION_TIMEOUT_MS,
            test_connection_pong_timeout_ms: TEST_PONG_TIMEOUT_MS,
            stop_on_missing_pings,
            ping_avg: RunningAverage::new(PING_WINDOW),
            last_ping_time: 0,
            have_ignored_first_ping: false,
            test_connection_ping_time: 0,
        }
    }

    /// Sets the session's status and adds the effect that tells the manager of it.
    fn set_status(&mut self, status: WebSocketClientStatus, effects: &mut Vec<ClientEffect>)
        ensures
            final(self)@ == (ClientView { status: status@, ..old(self)@ }),
            effect_views(final(effects)@) == effect_views(old(effects)@).push(tell_status(status@)),
    {
        let told = status.duplicate();
        self.status = status;
        push_effect(effects, ClientEffect::Tell(WSClientTxChannelMsg::WebSocketClientStatusMsg(told)));
    }

    /// Ends the session.
    fn end(
        &mut self,
        effects: &mut Vec<ClientEffect>,
        level: SerializableLevel,
        message: String,
        reason: Option<String>,
        consider_reconnecting: bool,
        result: Result<(), PunyTunesError>,
    )
        ensures
            final(self)@ == (ClientView {
                status: disconnected(text_view(reason), consider_reconnecting),
                ..old(self)@
            }),
            effect_views(final(effects)@) == effect_views(old(effects)@) + end_effects(
                level,
                message@,
                text_view(reason),
                consider_reconnecting,
                (ClientEffect::Finish(result))@->Finish_0,
            ),
    {
        push_effect(effects, ClientEffect::Log(level, message));
        self.set_status(WebSocketClientStatus::disconnected(reason, consider_reconnecting), effects);
        push_effect(effects, ClientEffect::Close);
        push_effect(effects, ClientEffect::Finish(result));
        assert(effect_views(effects@) =~= effect_views(old(effects)@) + end_effects(
            level,
            message@,
            text_view(reason),
            consider_reconnecting,
            (ClientEffect::Finish(result))@->Finish_0,
        ));
    }

    /// Sets out to connect. The manager is told that the session is connecting; a URL
    /// without a host ends the session at once.
    pub fn begin_connect(&mut self) -> (effects: Vec<ClientEffect>)
        ensures
            final(self)@ == old(self)@.after_begin(),
            effect_views(effects@) == old(self)@.begin_effects(),
    {
        let mut effects = no_effects();
        push_effect(
            &mut effects,
            ClientEffect::Log(
                SerializableLevel::Info,
                joined("WebSocketClient connecting to ", self.url.as_str()),
            ),
        );
        match host_from_url(self.url.as_str()) {
            Some(_) => {
                self.set_status(WebSocketClientStatus::Connecting(self.url.clone()), &mut effects);
                push_effect(
                    &mut effects,
                    ClientEffect::Connect {
                        url: self.url.clone(),
                        origin: String::from_str(ORIGIN),
                        timeout_ms: self.connection_timeout_ms,
                    },
                );
            },
            None => {
                push_effect(
                    &mut effects,
                    ClientEffect::Tell(
                        WSClientTxChannelMsg::WebSocketClientStatusMsg(
                            WebSocketClientStatus::Connecting(self.url.clone()),
                        ),
                    ),
                );
                let error = joined("URL parsing error: ", self.url.as_str());
                self.set_status(
                    WebSocketClientStatus::disconnected(Some(error.clone()), false),
                    &mut effects,
                );
                push_effect(
                    &mut effects,
                    ClientEffect::Finish(Err(PunyTunesError::WebSocket(error))),
                );
            },
        }
        assert(effect_views(effects@) =~= old(self)@.begin_effects());
        effects
    }

    /// Takes in how the connection attempt ended. On success the manager is told that a
    /// fresh connection stands; on failure it is told that the session is disconnected, with
    /// the reason, and the session ends with the error.
    pub fn on_connect_outcome(&mut self, outcome: ConnectOutcome, now: u64) -> (effects: Vec<
        ClientEffect,
    >)
        ensures
            final(self)@ == old(self)@.after_connect(outcome@, now),
            effect_views(effects@) == old(self)@.connect_effects(outcome@),
    {
        let mut effects = no_effects();
        match outcome {
            ConnectOutcome::Connected => {
                self.last_ping_time = now;
                self.test_connection_ping_time = now;
                self.set_status(
                    WebSocketClientStatus::Connected(
                        WebSocketClientConnectedDetails { url: self.url.clone(), existing: false },
                    ),
                    &mut effects,
                );
            },
            ConnectOutcome::Failed(detail) => {
                let reason = joined("WebSocketClient connection error: ", detail.as_str());
                push_effect(
                    &mut effects,
                    ClientEffect::Log(SerializableLevel::Warn, reason.clone()),
                );
                self.set_status(
                    WebSocketClientStatus::disconnected(Some(reason.clone()), false),
                    &mut effects,
                );
                push_effect(
                    &mut effects,
                    ClientEffect::Finish(Err(PunyTunesError::WebSocket(reason))),
                );
            },
            ConnectOutcome::TimedOut => {
                let reason = String::from_str("WebSocketClient connection timed out");
                push_effect(
                    &mut effects,
                    ClientEffect::Log(SerializableLevel::Warn, reason.clone()),
                );
                self.set_status(WebSocketClientStatus::disconnected(Some(reason), false), &mut effects);
                push_effect(
                    &mut effects,
                    ClientEffect::Finish(Err(PunyTunesError::WebSocketTimeout)),
                );
            },
        }
        assert(effect_views(effects@) =~= old(self)@.connect_effects(outcome@));
        effects
    }

    /// Takes in a message from the manager. Text is sent to the streamer. `ShutDown` ends
    /// the session. `TestConnection` sends a ping and waits for its pong where the
    /// connection stands, and tells the manager the session's status again where it does
    /// not.
    pub fn on_command(&mut self, message: WSClientRxChannelMsg, now: u64) -> (effects: Vec<
        ClientEffect,
    >)
        ensures
            final(self)@ == old(self)@.after_command(message@, now),
            effect_views(effects@) == old(self)@.command_effects(message@),
    {
        let mut effects = no_effects();
        match message {
            WSClientRxChannelMsg::DataMsg(text) => {
                push_effect(&mut effects, ClientEffect::SendText(text));
            },
            WSClientRxChannelMsg::WebSocketClientActionMsg(WebSocketClientAction::ShutDown) => {
                self.end(
                    &mut effects,
                    SerializableLevel::Info,
                    String::from_str("WebSocketClient shutting down"),
                    None,
                    false,
                    Ok(()),
                );
            },
            WSClientRxChannelMsg::WebSocketClientActionMsg(
                WebSocketClientAction::TestConnection,
            ) => {
                let connected: bool = match &self.status {
                    WebSocketClientStatus::Connected(_) => true,
                    _ => false,
                };
                if connected {
                    push_effect(
                        &mut effects,
                        ClientEffect::SendPing(String::from_str(TEST_PING_PAYLOAD)),
                    );
                    self.test_connection_ping_time = now;
                    self.set_status(WebSocketClientStatus::TestingConnection, &mut effects);
                } else {
                    let status = self.status.duplicate();
                    self.set_status(status, &mut effects);
                }
            },
        }
        assert(effect_views(effects@) =~= old(self)@.command_effects(message@));
        effects
    }

    /// Whether a test of the connection is running.
    fn is_testing(&self) -> (testing: bool)
        ensures
            testing == (self@.status is TestingConnection),
    {
        match &self.status {
            WebSocketClientStatus::TestingConnection => true,
            _ => false,
        }
    }

    /// Takes in a message from the streamer. Text is passed on to the manager. A ping is
    /// timed: from the second ping on, the interval since the ping before enters the
    /// running average. A pong answers a running test: the manager is told that the
    /// connection that stood still stands. A close ends the session.
    pub fn on_socket_message(&mut self, message: SocketMessage, now: u64) -> (effects: Vec<
        ClientEffect,
    >)
        ensures
            final(self)@ == old(self)@.after_socket_message(message@, now),
            effect_views(effects@) == old(self)@.socket_message_effects(message@),
    {
        let mut effects = no_effects();
        match message {
            SocketMessage::Text(text) => {
                push_effect(&mut effects, ClientEffect::Tell(WSClientTxChannelMsg::DataMsg(text)));
            },
            SocketMessage::Ping => {
                if self.have_ignored_first_ping {
                    if now >= self.last_ping_time {
                        self.ping_avg.add((now - self.last_ping_time) / 1000);
                    }
                } else {
                    self.have_ignored_first_ping = true;
                }
                self.last_ping_time = now;
            },
            SocketMessage::Pong => {
                if self.is_testing() {
                    self.set_status(
                        WebSocketClientStatus::Connected(
                            WebSocketClientConnectedDetails {
                                url: self.url.clone(),
                                existing: true,
                            },
                        ),
                        &mut effects,
                    );
                }
            },
            SocketMessage::Close => {
                self.end(
                    &mut effects,
                    SerializableLevel::Warn,
                    String::from_str("WebSocket connection closed by server"),
                    Some(String::from_str("closed by server")),
                    true,
                    Err(PunyTunesError::WebSocketConnectionClosed),
                );
            },
            SocketMessage::Other(description) => {
                push_effect(
                    &mut effects,
                    ClientEffect::Log(
                        SerializableLevel::Warn,
                        joined("Ignoring unexpected WebSocket message type: ", description.as_str()),
                    ),
                );
            },
        }
        assert(effect_views(effects@) =~= old(self)@.socket_message_effects(message@));
        effects
    }

    /// Takes in that reading from the socket failed, with the transport's reason: the
    /// manager is told that the session is disconnected and may be tried again, and the
    /// session ends.
    pub fn on_read_error(&mut self, detail: &str) -> (effects: Vec<ClientEffect>)
        ensures
            final(self)@ == (ClientView {
                status: disconnected(Some(old(self)@.read_error_reason(detail@)), true),
                ..old(self)@
            }),
            effect_views(effects@) == old(self)@.read_error_effects(detail@),
    {
        let mut effects = no_effects();
        if self.is_testing() {
            let reason = String::from_str(
                "WebSocketClient test failed (message read error: ",
            ).concat(detail).concat(")");
            self.end(
                &mut effects,
                SerializableLevel::Warn,
                reason.clone(),
                Some(reason),
                true,
                Err(PunyTunesError::WebSocketClientLostConnection),
            );
        } else {
            let reason = joined("Could not read next item from WebSocket server stream: ", detail);
            self.end(
                &mut effects,
                SerializableLevel::Warn,
                reason.clone(),
                Some(reason.clone()),
                true,
                Err(PunyTunesError::WebSocket(reason)),
            );
        }
        assert(effect_views(effects@) =~= old(self)@.read_error_effects(detail@));
        effects
    }

    /// Takes in a tick. A test whose pong has been waited for too long ends the session:
    /// the manager is told that the session is disconnected and may be tried again. Where
    /// the session watches the streamer's pings, pings that stay away for too long end it
    /// in the same way.
    pub fn on_tick(&mut self, now: u64) -> (effects: Vec<ClientEffect>)
        ensures
            final(self)@ == old(self)@.after_tick(now),
            effect_views(effects@) == old(self)@.tick_effects(now),
    {
        let mut effects = no_effects();
        if self.is_testing() && exceeded(
            now,
            self.test_connection_ping_time,
            self.test_connection_pong_timeout_ms,
        ) {
            self.end(
                &mut effects,
                SerializableLevel::Warn,
                String::from_str("WebSocketClient test failed (pong timeout)"),
                Some(String::from_str("pong timeout")),
                true,
                Err(PunyTunesError::WebSocketClientLostConnection),
            );
        } else if self.stop_on_missing_pings {
            if now < self.last_ping_time {
                let error = String::from_str("Could not determine last WebSocket ping duration");
                self.end(
                    &mut effects,
                    SerializableLevel::Error,
                    error.clone(),
                    Some(error.clone()),
                    true,
                    Err(PunyTunesError::WebSocket(error)),
                );
            } else {
                let gap: u64 = (now - self.last_ping_time) / 1000;
                let missing: bool = if self.ping_avg.len() > 2 {
                    self.ping_avg.is_outrun_by(gap)
                } else {
                    gap > START_PING_THRESHOLD_SECS
                };
                if missing {
                    let reason = String::from_str(
                        "WebSocket ping not received in time; connection lost",
                    );
                    self.end(
                        &mut effects,
                        SerializableLevel::Warn,
                        reason.clone(),
                        Some(reason),
                        true,
                        Err(PunyTunesError::WebSocketClientLostConnection),
                    );
                }
            }
        }
        assert(effect_views(effects@) =~= old(self)@.tick_effects(now));
        effects
    }
}

// ================================================================================================
// What holds of every session
// ================================================================================================

/// Whether `effect` tells the manager that the session is disconnected.
pub open spec fn tells_disconnected(effect: ClientEffectView) -> bool {
    effect matches ClientEffectView::Tell(TxView::Status(status)) && status is Disconnected
}

/// Whether every end of the session among `effects` comes after the manager was told that
/// the session is disconnected.
pub open spec fn ends_are_reported(effects: Seq<ClientEffectView>) -> bool {
    forall|i: int|
        0 <= i < effects.len() && #[trigger] effects[i] is Finish ==> exists|j: int|
            0 <= j < i && tells_disconnected(effects[j])
}

/// Whether every end of the session among `effects` is an end with an error.
pub open spec fn ends_are_errors(effects: Seq<ClientEffectView>) -> bool {
    forall|i: int|
        0 <= i < effects.len() ==> (#[trigger] effects[i] matches ClientEffectView::Finish(result)
            ==> result is Err)
}

/// Whether one of `effects` ends the session.
pub open spec fn ends(effects: Seq<ClientEffectView>) -> bool {
    exists|i: int| 0 <= i < effects.len() && effects[i] is Finish
}

/// The effects with which a session ends tell the manager that the session is
/// disconnected before the loop is left.
pub proof fn lemma_end_effects_report(
    level: SerializableLevel,
    message: Seq<char>,
    reason: Option<Seq<char>>,
    consider_reconnecting: bool,
    result: Result<(), ErrorView>,
)
    ensures
        ends_are_reported(end_effects(level, message, reason, consider_reconnecting, result)),
        ends(end_effects(level, message, reason, consider_reconnecting, result)),
        result is Err ==> ends_are_errors(
            end_effects(level, message, reason, consider_reconnecting, result),
        ),
{
    let effects = end_effects(level, message, reason, consider_reconnecting, result);
    assert(effects[1] == tell_status(disconnected(reason, consider_reconnecting)));
    assert(effects[3] is Finish);
}

/// However a session ends, the manager is told before that it is disconnected; and a
/// session ends without an error only when the manager tells it to shut down.
pub proof fn lemma_sessions_end_reported(
    client: ClientView,
    outcome: ConnectOutcomeView,
    command: RxView,
    message: SocketMessageView,
    detail: Seq<char>,
    now: u64,
)
    ensures
        ends_are_reported(client.begin_effects()),
        ends_are_errors(client.begin_effects()),
        ends_are_reported(client.connect_effects(outcome)),
        ends_are_errors(client.connect_effects(outcome)),
        ends(client.connect_effects(outcome)) <==> !(outcome is Connected),
        ends_are_reported(client.command_effects(command)),
        ends(client.command_effects(command)) <==> command == RxView::Action(
            WebSocketClientAction::ShutDown,
        ),
        ends_are_reported(client.socket_message_effects(message)),
        ends_are_errors(client.socket_message_effects(message)),
        ends_are_reported(client.read_error_effects(detail)),
        ends_are_errors(client.read_error_effects(detail)),
        ends(client.read_error_effects(detail)),
        ends_are_reported(client.tick_effects(now)),
        ends_are_errors(client.tick_effects(now)),
{
    let begun = client.begin_effects();
    if url_host(client.url) is None {
        assert(begun[2] == tell_status(disconnected(Some(client.url_error()), false)));
    }
    let connected = client.connect_effects(outcome);
    if !(outcome is Connected) {
        assert(connected[1] == tell_status(
            disconnected(Some(ClientView::failure_reason(outcome)), false),
        ));
        assert(connected[2] is Finish);
    } else {
        assert forall|i: int| 0 <= i < connected.len() implies !(#[trigger] connected[i]
            is Finish) by {}
    }
    let told = client.command_effects(command);
    match command {
        RxView::Action(WebSocketClientAction::ShutDown) => {
            lemma_end_effects_report(
                SerializableLevel::Info,
                "WebSocketClient shutting down"@,
                None,
                false,
                Ok(()),
            );
        },
        _ => {
            assert forall|i: int| 0 <= i < told.len() implies !(#[trigger] told[i] is Finish) by {}
        },
    }
    match message {
        SocketMessageView::Close => {
            lemma_end_effects_report(
                SerializableLevel::Warn,
                "WebSocket connection closed by server"@,
                Some("closed by server"@),
                true,
                Err(ErrorView::WebSocketConnectionClosed),
            );
        },
        _ => {},
    }
    lemma_end_effects_report(
        SerializableLevel::Warn,
        client.read_error_reason(detail),
        Some(client.read_error_reason(detail)),
        true,
        if client.status is TestingConnection {
            Err(ErrorView::WebSocketClientLostConnection)
        } else {
            Err(ErrorView::WebSocket(client.read_error_reason(detail)))
        },
    );
    lemma_end_effects_report(
        SerializableLevel::Warn,
        "WebSocketClient test failed (pong timeout)"@,
        Some("pong timeout"@),
        true,
        Err(ErrorView::WebSocketClientLostConnection),
    );
    lemma_end_effects_report(
        SerializableLevel::Error,
        ClientView::clock_text(),
        Some(ClientView::clock_text()),
        true,
        Err(ErrorView::WebSocket(ClientView::clock_text())),
    );
    lemma_end_effects_report(
        SerializableLevel::Warn,
        ClientView::pings_text(),
        Some(ClientView::pings_text()),
        true,
        Err(ErrorView::WebSocketClientLostConnection),
    );
}

} // verus!
