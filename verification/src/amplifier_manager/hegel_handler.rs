//! The session that holds one connection to a Hegel amplifier, as a state machine.
//!
//! The driver owns the socket and the clock. It hands every event to the session (the outcome
//! of the connection attempt, a message from the manager, a frame from the amplifier, the end
//! of the stream, a tick) together with the time, and carries out the effects that the session
//! answers with, in their order.

use vstd::prelude::*;
use vstd::string::*;

use crate::amplifier_manager::amplifier_handler::{
    AmplifierHandlerAction, AmplifierHandlerConnectionStatus, AmplifierHandlerRxChannelMsg,
    AmplifierHandlerTxChannelMsg, AmplifierState,
};
use crate::amplifier_manager::discovery::AmplifierDevice;
use crate::amplifier_manager::hegel::{
    command_of_line, frame_for_action, frame_of_action, request_line, CommandView, Frame,
    HegelCommand, MAX_SOURCE, MAX_VOLUME, MIN_SOURCE,
};
use crate::clock::{exceeded, has_exceeded};
use crate::errors::{ErrorView, PunyTunesError};
use crate::messaging::SerializableLevel;
use crate::text::{decimal_string, decimal_text, joined};
use crate::utils::{host_from_url, url_host};

verus! {

/// How long an answer to a connection test may take, in milliseconds.
pub const CONNECTION_TEST_TIMEOUT_MS: u64 = 1500;

/// How long a connection attempt may take, in milliseconds.
pub const CONNECTION_TIMEOUT_MS: u64 = 1500;

/// How long the amplifier may stay silent about its power, in milliseconds.
pub const MAX_HEARTBEAT_TIMEOUT_MS: u64 = 10000;

/// The pause between two requests for state, in milliseconds: the amplifier drops requests
/// that follow each other too closely.
pub const REQUEST_GAP_MS: u64 = 100;

/// How often the driver sends a tick, in milliseconds.
pub const TICK_MS: u64 = 500;

// ================================================================================================
// Effects
// ================================================================================================

/// What a session asks its driver to do.
#[derive(Debug, PartialEq, Eq)]
pub enum HandlerEffect {
    /// Write an entry to the application log.
    Log(SerializableLevel, String),
    /// Write this frame to the socket and flush.
    Send(Frame),
    /// Wait this many milliseconds before the next effect.
    Sleep(u64),
    /// Send this message to the manager.
    Tell(AmplifierHandlerTxChannelMsg),
    /// Open a connection to `address`, and give up after `timeout_ms`.
    Connect { address: String, timeout_ms: u64 },
    /// Shut the socket down.
    Disconnect,
    /// Leave the run loop with this result: the session has ended.
    Finish(Result<(), PunyTunesError>),
}

/// An effect as mathematics sees it.
pub enum HandlerEffectView {
    Log(SerializableLevel, Seq<char>),
    Send(Seq<char>),
    Sleep(u64),
    Tell(AmplifierHandlerTxChannelMsg),
    Connect { address: Seq<char>, timeout_ms: u64 },
    Disconnect,
    Finish(Result<(), ErrorView>),
}

/// The result of a session as mathematics sees it.
pub open spec fn result_view(result: Result<(), PunyTunesError>) -> Result<(), ErrorView> {
    match result {
        Ok(_) => Ok(()),
        Err(error) => Err(error@),
    }
}

impl View for HandlerEffect {
    type V = HandlerEffectView;

    open spec fn view(&self) -> HandlerEffectView {
        match *self {
            HandlerEffect::Log(level, message) => HandlerEffectView::Log(level, message@),
            HandlerEffect::Send(frame) => HandlerEffectView::Send(frame@),
            HandlerEffect::Sleep(millis) => HandlerEffectView::Sleep(millis),
            HandlerEffect::Tell(message) => HandlerEffectView::Tell(message),
            HandlerEffect::Connect { address, timeout_ms } => HandlerEffectView::Connect {
                address: address@,
                timeout_ms,
            },
            HandlerEffect::Disconnect => HandlerEffectView::Disconnect,
            HandlerEffect::Finish(result) => HandlerEffectView::Finish(result_view(result)),
        }
    }
}

/// A list of effects as mathematics sees it.
pub open spec fn effect_views(effects: Seq<HandlerEffect>) -> Seq<HandlerEffectView> {
    Seq::new(effects.len(), |i: int| effects[i]@)
}

/// Adds one effect behind the others.
fn push_effect(effects: &mut Vec<HandlerEffect>, effect: HandlerEffect)
    ensures
        effect_views(final(effects)@) == effect_views(old(effects)@).push(effect@),
{
    effects.push(effect);
    assert(effect_views(effects@) =~= effect_views(old(effects)@).push(effect@));
}

/// Adds a log entry behind the other effects.
fn push_log(effects: &mut Vec<HandlerEffect>, level: SerializableLevel, message: String)
    ensures
        effect_views(final(effects)@) == effect_views(old(effects)@).push(
            HandlerEffectView::Log(level, message@),
        ),
{
    push_effect(effects, HandlerEffect::Log(level, message));
}

/// The effect that tells the manager of a connection status.
pub open spec fn tell_status(status: AmplifierHandlerConnectionStatus) -> HandlerEffectView {
    HandlerEffectView::Tell(AmplifierHandlerTxChannelMsg::AmplifierHandlerConnectionStatusMsg(status))
}

/// The effect that tells the manager of the amplifier's state.
pub open spec fn tell_state(state: AmplifierState) -> HandlerEffectView {
    HandlerEffectView::Tell(AmplifierHandlerTxChannelMsg::AmplifierStateMsg(state))
}

/// The effect that asks the amplifier for the value of `kind`.
pub open spec fn send_request(kind: CommandView) -> HandlerEffectView {
    HandlerEffectView::Send(request_line(kind).push('\r'))
}

/// The requests that fill in what is not known of the amplifier: one for each missing
/// field, in the order mute, power, source, volume, with a pause behind each of the first
/// three.
pub open spec fn request_effects(state: AmplifierState) -> Seq<HandlerEffectView> {
    let mute = if state.is_muted is None {
        seq![send_request(CommandView::Mute(None)), HandlerEffectView::Sleep(REQUEST_GAP_MS)]
    } else {
        Seq::empty()
    };
    let power = if state.is_powered_on is None {
        seq![send_request(CommandView::Power(None)), HandlerEffectView::Sleep(REQUEST_GAP_MS)]
    } else {
        Seq::empty()
    };
    let source = if state.source is None {
        seq![send_request(CommandView::Source(None)), HandlerEffectView::Sleep(REQUEST_GAP_MS)]
    } else {
        Seq::empty()
    };
    let volume = if state.volume is None {
        seq![send_request(CommandView::Volume(None))]
    } else {
        Seq::empty()
    };
    mute + power + source + volume
}

/// The effects with which a session ends: the socket is shut down, the manager is told
/// that the session is disconnected, and the loop is left with `result`.
pub open spec fn lost_effects(
    level: SerializableLevel,
    message: Seq<char>,
    result: Result<(), ErrorView>,
) -> Seq<HandlerEffectView> {
    seq![
        HandlerEffectView::Log(level, message),
        HandlerEffectView::Disconnect,
        tell_status(AmplifierHandlerConnectionStatus::Disconnected),
        HandlerEffectView::Log(SerializableLevel::Info, "AmplifierHandler has stopped"@),
        HandlerEffectView::Finish(result),
    ]
}

/// What the log says when the amplifier closes the stream.
pub open spec fn closed_text() -> Seq<char> {
    "AmplifierHandler connection cleanly closed by amplifier"@
}

/// What the log says when a connection test gets no answer in time.
pub open spec fn test_failed_text() -> Seq<char> {
    "AmplifierHandler connection test failed"@
}

// ================================================================================================
// The session
// ================================================================================================

/// How a connection attempt ended.
#[derive(Clone, Debug, PartialEq, Eq)]
pub enum ConnectOutcome {
    /// The socket is open.
    Connected,
    /// The transport refused, with its reason.
    Failed(String),
    /// Nothing happened within `connection_timeout` milliseconds.
    TimedOut,
}

/// One session with one amplifier.
pub struct HegelAmplifierHandler {
    pub device: AmplifierDevice,
    pub amplifier_state: AmplifierState,
    pub connection_status: AmplifierHandlerConnectionStatus,
    /// When the running connection test began, if one is running.
    pub connection_test_start_time: Option<u64>,
    pub connection_test_timeout: u64,
    pub connection_timeout: u64,
    pub max_heartbeat_timeout: u64,
    /// When the amplifier last reported its power.
    pub last_amplifier_heartbeat: u64,
}

/// The port on which the amplifier listens, as it stands behind the host in an address.
pub open spec fn port_suffix() -> Seq<char> {
    ":50001"@
}

impl HegelAmplifierHandler {
    /// A session for `device` that has not connected yet: nothing is known of the amplifier.
    pub fn new(device: AmplifierDevice) -> (handler: HegelAmplifierHandler)
        ensures
            handler.device == device,
            handler.amplifier_state == AmplifierState::unknown(),
            handler.connection_status is Disconnected,
            handler.connection_test_start_time is None,
            handler.connection_test_timeout == CONNECTION_TEST_TIMEOUT_MS,
            handler.connection_timeout == CONNECTION_TIMEOUT_MS,
            handler.max_heartbeat_timeout == MAX_HEARTBEAT_TIMEOUT_MS,
            handler.last_amplifier_heartbeat == 0,
    {
        HegelAmplifierHandler {
            device,
            amplifier_state: AmplifierState::default(),
            connection_status: AmplifierHandlerConnectionStatus::Disconnected,
            connection_test_start_time: None,
            connection_test_timeout: CONNECTION_TEST_TIMEOUT_MS,
            connection_timeout: CONNECTION_TIMEOUT_MS,
            max_heartbeat_timeout: MAX_HEARTBEAT_TIMEOUT_MS,
            last_amplifier_heartbeat: 0,
        }
    }

    /// Adds the requests for what is not known of the amplifier.
    fn push_requests(&self, effects: &mut Vec<HandlerEffect>)
        ensures
            effect_views(final(effects)@) == effect_views(old(effects)@) + request_effects(
                self.amplifier_state,
            ),
    {
        if self.amplifier_state.is_muted.is_none() {
            push_effect(effects, HandlerEffect::Send(Frame::from(HegelCommand::Mute(None).request())));
            push_effect(effects, HandlerEffect::Sleep(REQUEST_GAP_MS));
        }
        if self.amplifier_state.is_powered_on.is_none() {
            push_effect(
                effects,
                HandlerEffect::Send(Frame::from(HegelCommand::Power(None).request())),
            );
            push_effect(effects, HandlerEffect::Sleep(REQUEST_GAP_MS));
        }
        if self.amplifier_state.source.is_none() {
            push_effect(
                effects,
                HandlerEffect::Send(Frame::from(HegelCommand::Source(None).request())),
            );
            push_effect(effects, HandlerEffect::Sleep(REQUEST_GAP_MS));
        }
        if self.amplifier_state.volume.is_none() {
            push_effect(
                effects,
                HandlerEffect::Send(Frame::from(HegelCommand::Volume(None).request())),
            );
        }
        assert(effect_views(effects@) =~= effect_views(old(effects)@) + request_effects(
            self.amplifier_state,
        ));
    }

    /// Adds the effects with which a session ends.
    fn push_lost(
        effects: &mut Vec<HandlerEffect>,
        level: SerializableLevel,
        message: String,
        result: Result<(), PunyTunesError>,
    )
        ensures
            effect_views(final(effects)@) == effect_views(old(effects)@) + lost_effects(
                level,
                message@,
                result_view(result),
            ),
    {
        push_log(effects, level, message);
        push_effect(effects, HandlerEffect::Disconnect);
        push_effect(
            effects,
            HandlerEffect::Tell(
                AmplifierHandlerTxChannelMsg::AmplifierHandlerConnectionStatusMsg(
                    AmplifierHandlerConnectionStatus::Disconnected,
                ),
            ),
        );
        push_log(effects, SerializableLevel::Info, String::from_str("AmplifierHandler has stopped"));
        push_effect(effects, HandlerEffect::Finish(result));
        assert(effect_views(effects@) =~= effect_views(old(effects)@) + lost_effects(
            level,
            message@,
            result_view(result),
        ));
    }

    // --------------------------------------------------------------------------------------------
    // Connecting

    /// The address to connect to: the host of the device's URL and the amplifier's port.
    /// A URL without a host gives an error that names the URL.
    pub fn address(&self) -> (res: Result<String, PunyTunesError>)
        ensures
            match url_host(self.device.url@) {
                Some(host) => res is Ok && res->Ok_0@ == host + port_suffix(),
                None => res matches Err(PunyTunesError::Amplifier(detail)) && detail@
                    == self.address_error(),
            },
    {
        match host_from_url(self.device.url.as_str()) {
            Some(host) => Ok(host.concat(":50001")),
            None => Err(
                PunyTunesError::Amplifier(
                    String::from_str("Could not determine hostname from '").concat(
                        self.device.url.as_str(),
                    ).concat("'"),
                ),
            ),
        }
    }

    /// What is said of a URL that names no host.
    pub open spec fn address_error(self) -> Seq<char> {
        "Could not determine hostname from '"@ + self.device.url@ + "'"@
    }

    /// The session after it has set out to connect.
    pub open spec fn after_begin(self) -> HegelAmplifierHandler {
        HegelAmplifierHandler {
            connection_status: AmplifierHandlerConnectionStatus::Disconnected,
            ..self
        }
    }

    /// What setting out to connect asks for: a connection to the amplifier's port on the
    /// host of the device's URL; or, where the URL names no host, what a failed attempt
    /// asks for, with an error that names the URL.
    pub open spec fn begin_effects(self) -> Seq<HandlerEffectView> {
        match url_host(self.device.url@) {
            Some(host) => seq![
                HandlerEffectView::Connect {
                    address: host + port_suffix(),
                    timeout_ms: self.connection_timeout,
                },
            ],
            None => seq![
                HandlerEffectView::Log(
                    SerializableLevel::Info,
                    "AmplifierHandler stopping after failed connection attempt"@,
                ),
                tell_status(AmplifierHandlerConnectionStatus::Disconnected),
                HandlerEffectView::Finish(Err(ErrorView::Amplifier(self.address_error()))),
            ],
        }
    }

    /// Sets out to connect. A device whose URL names no host ends the session at once: the
    /// manager is told that the session is disconnected, and the error names the URL.
    pub fn begin_connect(&mut self) -> (effects: Vec<HandlerEffect>)
        ensures
            *final(self) == old(self).after_begin(),
            effect_views(effects@) == old(self).begin_effects(),
    {
        let mut effects: Vec<HandlerEffect> = Vec::new();
        assert(effect_views(effects@) =~= Seq::<HandlerEffectView>::empty());
        self.connection_status = AmplifierHandlerConnectionStatus::Disconnected;
        match self.address() {
            Ok(address) => {
                push_effect(
                    &mut effects,
                    HandlerEffect::Connect { address, timeout_ms: self.connection_timeout },
                );
            },
            Err(error) => {
                push_log(
                    &mut effects,
                    SerializableLevel::Info,
                    String::from_str("AmplifierHandler stopping after failed connection attempt"),
                );
                push_effect(
                    &mut effects,
                    HandlerEffect::Tell(
                        AmplifierHandlerTxChannelMsg::AmplifierHandlerConnectionStatusMsg(
                            AmplifierHandlerConnectionStatus::Disconnected,
                        ),
                    ),
                );
                push_effect(&mut effects, HandlerEffect::Finish(Err(error)));
            },
        }
        assert(effect_views(effects@) =~= old(self).begin_effects());
        effects
    }

    /// The session after a connection attempt that ended with `outcome` at the time `now`.
    pub open spec fn after_connect(self, connected: bool, now: u64) -> HegelAmplifierHandler {
        if connected {
            HegelAmplifierHandler {
                connection_status: AmplifierHandlerConnectionStatus::Connected,
                last_amplifier_heartbeat: now,
                ..self
            }
        } else {
            HegelAmplifierHandler {
                connection_status: AmplifierHandlerConnectionStatus::Disconnected,
                ..self
            }
        }
    }

    /// What is said of a connection attempt that took too long.
    pub open spec fn timeout_text(self) -> Seq<char> {
        "Connection attempt timed out after "@ + decimal_text(self.connection_timeout as int)
            + "ms"@
    }

    /// The error with which a session ends whose connection attempt ended with `outcome`,
    /// where that is no success.
    pub open spec fn connect_error(self, outcome: ConnectOutcome) -> ErrorView {
        match outcome {
            ConnectOutcome::Failed(detail) => ErrorView::Io(detail@),
            _ => ErrorView::Amplifier(self.timeout_text()),
        }
    }

    /// What a connection attempt that ended with `outcome` asks for.
    pub open spec fn connect_effects(self, outcome: ConnectOutcome) -> Seq<HandlerEffectView> {
        if outcome is Connected {
            seq![
                tell_status(AmplifierHandlerConnectionStatus::Connected),
                HandlerEffectView::Log(
                    SerializableLevel::Info,
                    "Connected to amplifier: "@ + self.device.friendly_name@,
                ),
            ] + request_effects(self.amplifier_state)
        } else {
            seq![
                HandlerEffectView::Log(
                    SerializableLevel::Info,
                    "AmplifierHandler stopping after failed connection attempt"@,
                ),
                tell_status(AmplifierHandlerConnectionStatus::Disconnected),
                HandlerEffectView::Finish(Err(self.connect_error(outcome))),
            ]
        }
    }

    /// Takes in how the connection attempt ended. On success the manager is told, the
    /// heartbeat starts to count and the amplifier is asked for its state; on failure the
    /// manager is told and the session ends with an error that says why.
    pub fn on_connect_outcome(&mut self, outcome: ConnectOutcome, now: u64) -> (effects: Vec<
        HandlerEffect,
    >)
        ensures
            *final(self) == old(self).after_connect(outcome is Connected, now),
            effect_views(effects@) == old(self).connect_effects(outcome),
    {
        let mut effects: Vec<HandlerEffect> = Vec::new();
        assert(effect_views(effects@) =~= Seq::<HandlerEffectView>::empty());
        match outcome {
            ConnectOutcome::Connected => {
                self.connection_status = AmplifierHandlerConnectionStatus::Connected;
                self.last_amplifier_heartbeat = now;
                push_effect(
                    &mut effects,
                    HandlerEffect::Tell(
                        AmplifierHandlerTxChannelMsg::AmplifierHandlerConnectionStatusMsg(
                            AmplifierHandlerConnectionStatus::Connected,
                        ),
                    ),
                );
                push_log(
                    &mut effects,
                    SerializableLevel::Info,
                    joined("Connected to amplifier: ", self.device.friendly_name.as_str()),
                );
                self.push_requests(&mut effects);
                assert(effect_views(effects@) =~= old(self).connect_effects(outcome));
            },
            failure => {
                self.connection_status = AmplifierHandlerConnectionStatus::Disconnected;
                push_log(
                    &mut effects,
                    SerializableLevel::Info,
                    String::from_str("AmplifierHandler stopping after failed connection attempt"),
                );
                push_effect(
                    &mut effects,
                    HandlerEffect::Tell(
                        AmplifierHandlerTxChannelMsg::AmplifierHandlerConnectionStatusMsg(
                            AmplifierHandlerConnectionStatus::Disconnected,
                        ),
                    ),
                );
                let error = match failure {
                    ConnectOutcome::Failed(detail) => PunyTunesError::Io(detail),
                    _ => PunyTunesError::Amplifier(
                        String::from_str("Connection attempt timed out after ").concat(
                            decimal_string(self.connection_timeout as i128).as_str(),
                        ).concat("ms"),
                    ),
                };
                push_effect(&mut effects, HandlerEffect::Finish(Err(error)));
                assert(effect_views(effects@) =~= old(self).connect_effects(outcome));
            },
        }
        effects
    }

    // --------------------------------------------------------------------------------------------
    // Messages from the manager

    /// The session after the manager's message `message` arrived at the time `now`.
    pub open spec fn after_manager_message(
        self,
        message: AmplifierHandlerRxChannelMsg,
        now: u64,
    ) -> HegelAmplifierHandler {
        match message {
            AmplifierHandlerRxChannelMsg::AmplifierHandlerActionMsg(
                AmplifierHandlerAction::ShutDown,
            ) => HegelAmplifierHandler {
                connection_status: AmplifierHandlerConnectionStatus::Disconnected,
                ..self
            },
            AmplifierHandlerRxChannelMsg::AmplifierHandlerActionMsg(
                AmplifierHandlerAction::TestConnection,
            ) => HegelAmplifierHandler { connection_test_start_time: Some(now), ..self },
            AmplifierHandlerRxChannelMsg::AmplifierActionMsg(_) => self,
        }
    }

    /// What the manager's message `message` asks for.
    pub open spec fn manager_message_effects(message: AmplifierHandlerRxChannelMsg) -> Seq<
        HandlerEffectView,
    > {
        match message {
            AmplifierHandlerRxChannelMsg::AmplifierHandlerActionMsg(
                AmplifierHandlerAction::ShutDown,
            ) => lost_effects(
                SerializableLevel::Info,
                "AmplifierHandler is shutting down"@,
                Ok(()),
            ),
            AmplifierHandlerRxChannelMsg::AmplifierHandlerActionMsg(
                AmplifierHandlerAction::TestConnection,
            ) => seq![send_request(CommandView::Power(None))],
            AmplifierHandlerRxChannelMsg::AmplifierActionMsg(action) => match frame_of_action(
                action,
            ) {
                Ok(frame) => seq![HandlerEffectView::Send(frame)],
                Err(reason) => seq![
                    HandlerEffectView::Log(
                        SerializableLevel::Warn,
                        "Could not generate amplifier command: "@ + reason,
                    ),
                ],
            },
        }
    }

    /// Takes in a message from the manager. `ShutDown` ends the session; `TestConnection`
    /// asks the amplifier for its power and starts the test's clock; a user's action is sent
    /// to the amplifier as a frame, or logged where it has no frame.
    pub fn on_manager_message(&mut self, message: AmplifierHandlerRxChannelMsg, now: u64) -> (effects:
        Vec<HandlerEffect>)
        ensures
            *final(self) == old(self).after_manager_message(message, now),
            effect_views(effects@) == Self::manager_message_effects(message),
    {
        let mut effects: Vec<HandlerEffect> = Vec::new();
        assert(effect_views(effects@) =~= Seq::<HandlerEffectView>::empty());
        match message {
            AmplifierHandlerRxChannelMsg::AmplifierHandlerActionMsg(
                AmplifierHandlerAction::ShutDown,
            ) => {
                self.connection_status = AmplifierHandlerConnectionStatus::Disconnected;
                Self::push_lost(
                    &mut effects,
                    SerializableLevel::Info,
                    String::from_str("AmplifierHandler is shutting down"),
                    Ok(()),
                );
            },
            AmplifierHandlerRxChannelMsg::AmplifierHandlerActionMsg(
                AmplifierHandlerAction::TestConnection,
            ) => {
                self.connection_test_start_time = Some(now);
                push_effect(
                    &mut effects,
                    HandlerEffect::Send(Frame::from(HegelCommand::Power(None).request())),
                );
            },
            AmplifierHandlerRxChannelMsg::AmplifierActionMsg(action) => {
                match frame_for_action(action) {
                    Ok(frame) => {
                        push_effect(&mut effects, HandlerEffect::Send(frame));
                    },
                    Err(reason) => {
                        push_log(
                            &mut effects,
                            SerializableLevel::Warn,
                            joined("Could not generate amplifier command: ", reason.as_str()),
                        );
                    },
                }
            },
        }
        assert(effect_views(effects@) =~= Self::manager_message_effects(message));
        effects
    }

    // --------------------------------------------------------------------------------------------
    // Frames from the amplifier

    /// Whether a report of the amplifier's power changes what is known of it: it does where
    /// nothing was known, and where the known value differs from the reported one.
    pub open spec fn power_changes(self, reported: Option<bool>) -> bool {
        match self.amplifier_state.is_powered_on {
            Some(known) => reported matches Some(value) && value != known,
            None => true,
        }
    }

    /// The session after the line `line` arrived from the amplifier at the time `now`.
    pub open spec fn after_line(self, line: Seq<char>, now: u64) -> HegelAmplifierHandler {
        match command_of_line(line) {
            Ok(CommandView::Mute(value)) => HegelAmplifierHandler {
                amplifier_state: AmplifierState { is_muted: value, ..self.amplifier_state },
                ..self
            },
            Ok(CommandView::Source(value)) => HegelAmplifierHandler {
                amplifier_state: AmplifierState { source: value, ..self.amplifier_state },
                ..self
            },
            Ok(CommandView::Volume(value)) => HegelAmplifierHandler {
                amplifier_state: AmplifierState { volume: value, ..self.amplifier_state },
                ..self
            },
            Ok(CommandView::Power(value)) => HegelAmplifierHandler {
                amplifier_state: if self.power_changes(value) {
                    AmplifierState { is_powered_on: value, ..self.amplifier_state }
                } else {
                    self.amplifier_state
                },
                connection_test_start_time: None,
                last_amplifier_heartbeat: now,
                ..self
            },
            _ => self,
        }
    }

    /// What the line `line` from the amplifier asks for.
    pub open spec fn line_effects(self, line: Seq<char>, now: u64) -> Seq<HandlerEffectView> {
        match command_of_line(line) {
            Ok(CommandView::Error(text)) => seq![
                HandlerEffectView::Log(
                    SerializableLevel::Warn,
                    "AmplifierHandler received error from amplifier: "@ + text,
                ),
            ],
            Ok(CommandView::Power(value)) => {
                let answered = if self.connection_test_start_time is Some {
                    seq![HandlerEffectView::Log(SerializableLevel::Info, "Amplifier connection OK"@)]
                } else {
                    Seq::empty()
                };
                let changed = if self.power_changes(value) {
                    seq![tell_state(self.after_line(line, now).amplifier_state)]
                } else {
                    Seq::empty()
                };
                answered + changed
            },
            Ok(_) => seq![tell_state(self.after_line(line, now).amplifier_state)],
            Err(reason) => seq![
                HandlerEffectView::Log(
                    SerializableLevel::Warn,
                    "AmplifierHandler did not understand amplifier frame: "@ + line + " : "@
                        + reason,
                ),
            ],
        }
    }

    /// Takes in a frame from the amplifier. A mute, source or volume report replaces what
    /// was known and is passed on to the manager. A power report is a heartbeat and the
    /// answer to a running test; it is passed on only where it changes what was known. An
    /// error report and a frame that cannot be read are logged and change nothing.
    pub fn on_frame(&mut self, frame: Frame, now: u64) -> (effects: Vec<HandlerEffect>)
        ensures
            *final(self) == old(self).after_line(frame@, now),
            effect_views(effects@) == old(self).line_effects(frame@, now),
    {
        let mut effects: Vec<HandlerEffect> = Vec::new();
        assert(effect_views(effects@) =~= Seq::<HandlerEffectView>::empty());
        let line: String = match &frame {
            Frame::Data(text) => text.clone(),
        };
        match HegelCommand::try_from(frame) {
            Ok(HegelCommand::Error(text)) => {
                push_log(
                    &mut effects,
                    SerializableLevel::Warn,
                    joined("AmplifierHandler received error from amplifier: ", text.as_str()),
                );
            },
            Ok(HegelCommand::Mute(value)) => {
                self.amplifier_state.is_muted = value;
                self.push_state(&mut effects);
            },
            Ok(HegelCommand::Source(value)) => {
                self.amplifier_state.source = value;
                self.push_state(&mut effects);
            },
            Ok(HegelCommand::Volume(value)) => {
                self.amplifier_state.volume = value;
                self.push_state(&mut effects);
            },
            Ok(HegelCommand::Power(value)) => {
                if self.connection_test_start_time.is_some() {
                    self.connection_test_start_time = None;
                    push_log(
                        &mut effects,
                        SerializableLevel::Info,
                        String::from_str("Amplifier connection OK"),
                    );
                }
                self.last_amplifier_heartbeat = now;
                let changes: bool = match self.amplifier_state.is_powered_on {
                    Some(known) => match value {
                        Some(reported) => reported != known,
                        None => false,
                    },
                    None => true,
                };
                if changes {
                    self.amplifier_state.is_powered_on = value;
                    self.push_state(&mut effects);
                }
            },
            Err(reason) => {
                push_log(
                    &mut effects,
                    SerializableLevel::Warn,
                    String::from_str("AmplifierHandler did not understand amplifier frame: ").concat(
                        line.as_str(),
                    ).concat(" : ").concat(reason.as_str()),
                );
            },
        }
        assert(effect_views(effects@) =~= old(self).line_effects(frame@, now));
        effects
    }

    /// Adds the effect that tells the manager of the amplifier's state.
    fn push_state(&self, effects: &mut Vec<HandlerEffect>)
        ensures
            effect_views(final(effects)@) == effect_views(old(effects)@).push(
                tell_state(self.amplifier_state),
            ),
    {
        push_effect(
            effects,
            HandlerEffect::Tell(AmplifierHandlerTxChannelMsg::AmplifierStateMsg(self.amplifier_state)),
        );
    }

    // --------------------------------------------------------------------------------------------
    // The end of the stream

    /// Takes in that the amplifier closed the stream between two frames: the manager is
    /// told that the session is disconnected, and the session ends with an error.
    pub fn on_stream_closed(&mut self) -> (effects: Vec<HandlerEffect>)
        ensures
            *final(self) == (HegelAmplifierHandler {
                connection_status: AmplifierHandlerConnectionStatus::Disconnected,
                ..*old(self)
            }),
            effect_views(effects@) == lost_effects(
                SerializableLevel::Info,
                closed_text(),
                Err(ErrorView::Amplifier(closed_text())),
            ),
    {
        let mut effects: Vec<HandlerEffect> = Vec::new();
        assert(effect_views(effects@) =~= Seq::<HandlerEffectView>::empty());
        self.connection_status = AmplifierHandlerConnectionStatus::Disconnected;
        Self::push_lost(
            &mut effects,
            SerializableLevel::Info,
            String::from_str("AmplifierHandler connection cleanly closed by amplifier"),
            Err(
                PunyTunesError::Amplifier(
                    String::from_str("AmplifierHandler connection cleanly closed by amplifier"),
                ),
            ),
        );
        effects
    }

    /// Takes in that reading from the socket failed, with the transport's reason: the
    /// manager is told and the session ends with that reason as its error.
    pub fn on_read_error(&mut self, detail: &str) -> (effects: Vec<HandlerEffect>)
        ensures
            *final(self) == (HegelAmplifierHandler {
                connection_status: AmplifierHandlerConnectionStatus::Disconnected,
                ..*old(self)
            }),
            effect_views(effects@) == lost_effects(
                SerializableLevel::Warn,
                "AmplifierHandler connection error: "@ + detail@,
                Err(ErrorView::Io(detail@)),
            ),
    {
        let mut effects: Vec<HandlerEffect> = Vec::new();
        assert(effect_views(effects@) =~= Seq::<HandlerEffectView>::empty());
        self.connection_status = AmplifierHandlerConnectionStatus::Disconnected;
        Self::push_lost(
            &mut effects,
            SerializableLevel::Warn,
            joined("AmplifierHandler connection error: ", detail),
            Err(PunyTunesError::Io(String::from_str(detail))),
        );
        effects
    }

    // --------------------------------------------------------------------------------------------
    // Ticks

    /// Whether a connection test is running and has waited too long at the time `now`.
    pub open spec fn test_failed(self, now: u64) -> bool {
        self.connection_test_start_time matches Some(start) && has_exceeded(
            now,
            start,
            self.connection_test_timeout,
        )
    }

    /// Whether the amplifier has been silent for too long at the time `now`.
    pub open spec fn heartbeat_lost(self, now: u64) -> bool {
        has_exceeded(now, self.last_amplifier_heartbeat, self.max_heartbeat_timeout)
    }

    /// The session after a tick at the time `now`.
    pub open spec fn after_tick(self, now: u64) -> HegelAmplifierHandler {
        if self.test_failed(now) {
            HegelAmplifierHandler {
                connection_test_start_time: None,
                connection_status: AmplifierHandlerConnectionStatus::Disconnected,
                ..self
            }
        } else if self.heartbeat_lost(now) {
            HegelAmplifierHandler {
                connection_status: AmplifierHandlerConnectionStatus::Disconnected,
                ..self
            }
        } else {
            self
        }
    }

    /// What the log says when the amplifier has been silent for too long.
    pub open spec fn silent_text(self) -> Seq<char> {
        "AmplifierHandler hasn't received amplifier heartbeat for "@ + decimal_text(
            self.max_heartbeat_timeout as int,
        ) + "ms; assuming connection lost"@
    }

    /// What a tick at the time `now` asks for.
    pub open spec fn tick_effects(self, now: u64) -> Seq<HandlerEffectView> {
        if self.test_failed(now) {
            lost_effects(
                SerializableLevel::Warn,
                test_failed_text(),
                Err(ErrorView::Amplifier(test_failed_text())),
            )
        } else if self.heartbeat_lost(now) {
            lost_effects(
                SerializableLevel::Warn,
                self.silent_text(),
                Err(ErrorView::Amplifier(self.silent_text())),
            )
        } else {
            request_effects(self.amplifier_state)
        }
    }

    /// Takes in a tick. A test that has waited too long and an amplifier that has been
    /// silent too long both end the session with an error; otherwise the amplifier is asked again for
    /// what is still not known of it.
    pub fn on_tick(&mut self, now: u64) -> (effects: Vec<HandlerEffect>)
        ensures
            *final(self) == old(self).after_tick(now),
            effect_views(effects@) == old(self).tick_effects(now),
    {
        let mut effects: Vec<HandlerEffect> = Vec::new();
        assert(effect_views(effects@) =~= Seq::<HandlerEffectView>::empty());
        let test_failed: bool = match self.connection_test_start_time {
            Some(start) => exceeded(now, start, self.connection_test_timeout),
            None => false,
        };
        if test_failed {
            self.connection_test_start_time = None;
            self.connection_status = AmplifierHandlerConnectionStatus::Disconnected;
            Self::push_lost(
                &mut effects,
                SerializableLevel::Warn,
                String::from_str("AmplifierHandler connection test failed"),
                Err(
                    PunyTunesError::Amplifier(
                        String::from_str("AmplifierHandler connection test failed"),
                    ),
                ),
            );
        } else if exceeded(now, self.last_amplifier_heartbeat, self.max_heartbeat_timeout) {
            self.connection_status = AmplifierHandlerConnectionStatus::Disconnected;
            let message = String::from_str(
                "AmplifierHandler hasn't received amplifier heartbeat for ",
            ).concat(decimal_string(self.max_heartbeat_timeout as i128).as_str()).concat(
                "ms; assuming connection lost",
            );
            let reason = message.clone();
            Self::push_lost(
                &mut effects,
                SerializableLevel::Warn,
                message,
                Err(PunyTunesError::Amplifier(reason)),
            );
        } else {
            self.push_requests(&mut effects);
        }
        assert(effect_views(effects@) =~= old(self).tick_effects(now));
        effects
    }
}

// ================================================================================================
// What holds of every session
// ================================================================================================

/// Whether what is known of the amplifier can be true of an amplifier: the source and the
/// volume, where they are known, lie in their ranges.
pub open spec fn is_plausible(state: AmplifierState) -> bool {
    &&& state.source matches Some(source) ==> MIN_SOURCE <= source <= MAX_SOURCE
    &&& state.volume matches Some(level) ==> level <= MAX_VOLUME
}

/// Whatever the amplifier sends, what is known of it stays plausible: a value outside its
/// range is never taken in.
pub proof fn lemma_state_stays_plausible(handler: HegelAmplifierHandler, line: Seq<char>, now: u64)
    requires
        is_plausible(handler.amplifier_state),
    ensures
        is_plausible(handler.after_line(line, now).amplifier_state),
{
}

/// A line that is no command, and a command that reports an error, leave what is known of
/// the amplifier as it is.
pub proof fn lemma_refused_lines_change_nothing(
    handler: HegelAmplifierHandler,
    line: Seq<char>,
    now: u64,
)
    requires
        command_of_line(line) is Err || command_of_line(line)->Ok_0 is Error,
    ensures
        handler.after_line(line, now) == handler,
{
}

/// Whether every end of the session among `effects` comes after the manager was told that
/// the session is disconnected.
pub open spec fn ends_are_reported(effects: Seq<HandlerEffectView>) -> bool {
    forall|i: int|
        0 <= i < effects.len() && #[trigger] effects[i] is Finish ==> exists|j: int|
            0 <= j < i && effects[j] == tell_status(AmplifierHandlerConnectionStatus::Disconnected)
}

/// Whether every end of the session among `effects` is an end with an error.
pub open spec fn ends_are_errors(effects: Seq<HandlerEffectView>) -> bool {
    forall|i: int|
        0 <= i < effects.len() ==> (#[trigger] effects[i] matches HandlerEffectView::Finish(result)
            ==> result is Err)
}

/// Whether one of `effects` ends the session.
pub open spec fn ends(effects: Seq<HandlerEffectView>) -> bool {
    exists|i: int| 0 <= i < effects.len() && effects[i] is Finish
}

/// The effects with which a session ends tell the manager once that the session is
/// disconnected, after the socket was shut down and before the loop is left: that is the
/// only message to the manager among them, and leaving the loop is the last of them.
pub proof fn lemma_lost_effects_report(
    level: SerializableLevel,
    message: Seq<char>,
    result: Result<(), ErrorView>,
)
    ensures
        ends_are_reported(lost_effects(level, message, result)),
        ends(lost_effects(level, message, result)),
        result is Err ==> ends_are_errors(lost_effects(level, message, result)),
        lost_effects(level, message, result)[1] is Disconnect,
        lost_effects(level, message, result)[2] == tell_status(
            AmplifierHandlerConnectionStatus::Disconnected,
        ),
        forall|k: int|
            0 <= k < lost_effects(level, message, result).len() && k != 2 ==> !(
            #[trigger] lost_effects(level, message, result)[k] is Tell),
        lost_effects(level, message, result).last() == HandlerEffectView::Finish(result),
{
    let effects = lost_effects(level, message, result);
    assert(effects[2] == tell_status(AmplifierHandlerConnectionStatus::Disconnected));
    assert(effects[4] is Finish);
}

/// Asking the amplifier for its state never ends the session.
pub proof fn lemma_requests_end_nothing(state: AmplifierState)
    ensures
        !ends(request_effects(state)),
{
    let effects = request_effects(state);
    assert forall|i: int| 0 <= i < effects.len() implies !(effects[i] is Finish) by {}
}

/// However a session ends, the manager is told before that it is disconnected; and a
/// session ends without an error only when the manager tells it to shut down. A frame
/// from the amplifier never ends the session, whatever it holds; a tick, a failed
/// connection attempt, a stream that is closed and a read that fails end it only with an
/// error.
pub proof fn lemma_sessions_end_reported(
    handler: HegelAmplifierHandler,
    message: AmplifierHandlerRxChannelMsg,
    outcome: ConnectOutcome,
    line: Seq<char>,
    now: u64,
)
    ensures
        ends_are_reported(handler.begin_effects()),
        ends_are_errors(handler.begin_effects()),
        ends_are_reported(handler.tick_effects(now)),
        ends_are_errors(handler.tick_effects(now)),
        ends_are_reported(handler.connect_effects(outcome)),
        ends_are_errors(handler.connect_effects(outcome)),
        ends_are_reported(HegelAmplifierHandler::manager_message_effects(message)),
        ends(HegelAmplifierHandler::manager_message_effects(message)) <==> message
            == AmplifierHandlerRxChannelMsg::AmplifierHandlerActionMsg(
            AmplifierHandlerAction::ShutDown,
        ),
        !ends(handler.line_effects(line, now)),
{
    lemma_requests_end_nothing(handler.amplifier_state);
    let begun = handler.begin_effects();
    if url_host(handler.device.url@) is None {
        assert(begun[1] == tell_status(AmplifierHandlerConnectionStatus::Disconnected));
    }
    let ticked = handler.tick_effects(now);
    if handler.test_failed(now) {
        lemma_lost_effects_report(
            SerializableLevel::Warn,
            test_failed_text(),
            Err(ErrorView::Amplifier(test_failed_text())),
        );
    } else if handler.heartbeat_lost(now) {
        lemma_lost_effects_report(
            SerializableLevel::Warn,
            handler.silent_text(),
            Err(ErrorView::Amplifier(handler.silent_text())),
        );
    } else {
        assert forall|i: int| 0 <= i < ticked.len() implies !(#[trigger] ticked[i] is Finish) by {
            if ticked[i] is Finish {
                assert(ends(ticked));
            }
        }
    }
    let connecting = handler.connect_effects(outcome);
    if outcome is Connected {
        let asked = request_effects(handler.amplifier_state);
        assert forall|i: int| 0 <= i < connecting.len() implies !(#[trigger] connecting[i]
            is Finish) by {
            if i >= 2 {
                assert(connecting[i] == asked[i - 2]);
                if asked[i - 2] is Finish {
                    assert(ends(asked));
                }
            }
        }
    } else {
        assert(connecting[1] == tell_status(AmplifierHandlerConnectionStatus::Disconnected));
    }
    let told = HegelAmplifierHandler::manager_message_effects(message);
    match message {
        AmplifierHandlerRxChannelMsg::AmplifierHandlerActionMsg(
            AmplifierHandlerAction::ShutDown,
        ) => {
            lemma_lost_effects_report(
                SerializableLevel::Info,
                "AmplifierHandler is shutting down"@,
                Ok(()),
            );
        },
        _ => {
            assert forall|i: int| 0 <= i < told.len() implies !(#[trigger] told[i] is Finish) by {}
        },
    }
    let heard = handler.line_effects(line, now);
    assert forall|i: int| 0 <= i < heard.len() implies !(#[trigger] heard[i] is Finish) by {}
}

/// Whether one of `effects` is a message to the manager.
pub open spec fn tells(effects: Seq<HandlerEffectView>) -> bool {
    exists|i: int| 0 <= i < effects.len() && effects[i] is Tell
}

/// A power report is a heartbeat and the answer to a running test, whatever it reports: the
/// time of the last heartbeat is the time of the report, and no test is running after it.
/// The manager is told of it only where it changes what is known of the amplifier's
/// power: then the new state is the one message to the manager, and otherwise there is
/// none, be a test running or not.
pub proof fn lemma_power_report(
    handler: HegelAmplifierHandler,
    line: Seq<char>,
    reported: Option<bool>,
    now: u64,
)
    requires
        command_of_line(line) == Ok::<CommandView, Seq<char>>(CommandView::Power(reported)),
    ensures
        ({
            let after = handler.after_line(line, now);
            let effects = handler.line_effects(line, now);
            &&& after.last_amplifier_heartbeat == now
            &&& after.connection_test_start_time is None
            &&& after.connection_status == handler.connection_status
            &&& if handler.power_changes(reported) {
                &&& after.amplifier_state == (AmplifierState {
                    is_powered_on: reported,
                    ..handler.amplifier_state
                })
                &&& effects.last() == tell_state(after.amplifier_state)
                &&& forall|i: int|
                    0 <= i < effects.len() - 1 ==> !(#[trigger] effects[i] is Tell)
            } else {
                &&& after.amplifier_state == handler.amplifier_state
                &&& !tells(effects)
            }
        }),
{
    let effects = handler.line_effects(line, now);
    assert forall|i: int| 0 <= i < effects.len() implies (#[trigger] effects[i] is Tell ==> i
        == effects.len() - 1 && handler.power_changes(reported)) by {}
}

/// Each of the four fields of the state is asked for exactly while it is not known: once
/// all four are known, a tick asks for nothing.
pub proof fn lemma_known_state_is_not_asked_for(state: AmplifierState)
    ensures
        request_effects(state).len() == 0 <==> state.is_muted is Some && state.is_powered_on
            is Some && state.source is Some && state.volume is Some,
{
}

} // verus!
