//! Everything that concerns the amplifier: the actions a user can ask for, the line codec of
//! the device and the state machines of the manager and of its session.
//!
//! The manager lives as long as the application. It owns at most one session at a time, starts
//! one for every amplifier that discovery accepts, passes the user's actions on to it, and
//! starts it again, a bounded number of times, when it is lost.

use vstd::prelude::*;
use vstd::string::*;

use crate::amplifier_manager::amplifier_handler::{
    AmplifierHandlerAction, AmplifierHandlerConnectionStatus, AmplifierHandlerRxChannelMsg,
    AmplifierHandlerTxChannelMsg, AmplifierState,
};
use crate::amplifier_manager::discovery::AmplifierDevice;
use crate::messaging::SerializableLevel;
use crate::text::{decimal_string, decimal_text, joined, str_eq};

pub mod amplifier_handler;
pub mod connection;
pub mod discovery;
pub mod hegel;
pub mod hegel_handler;

verus! {

/// How often a lost session is started again before the manager gives up.
pub const MAX_RECONNECT_ATTEMPTS: u8 = 3;

/// The pause before a lost session is started again, in milliseconds.
pub const RECONNECT_DELAY_MS: u64 = 1000;

/// What a user can ask of the amplifier.
#[derive(Clone, Copy, Debug, PartialEq, Eq, Structural)]
pub enum AmplifierAction {
    MuteSet(bool),
    MuteToggle,
    PowerSet(bool),
    PowerToggle,
    SourceSet(u8),
    VolumeDown,
    VolumeSet(u8),
    VolumeUp,
}

/// What the manager shows of itself to the user interface.
#[derive(Clone, Debug, PartialEq, Eq)]
pub struct AmplifierManagerStateMsg {
    pub is_discovering: bool,
    pub is_handling_amplifier: bool,
    pub managed_device: Option<AmplifierDevice>,
}

/// What can be asked of the manager itself.
#[derive(Clone, Debug, PartialEq, Eq)]
pub enum AmplifierManagerAction {
    DisconnectFromAmplifier,
    Discover,
    OnUIReady,
    ProcessDiscoveredDevice(AmplifierDevice),
    SetIsDiscovering(bool),
    ShutDown,
    TestConnection,
}

/// A message in the manager's inbox.
#[derive(Clone, Debug, PartialEq, Eq)]
pub enum AmplifierManagerChannelMsg {
    AmplifierActionMsg(AmplifierAction),
    AmplifierManagerActionMsg(AmplifierManagerAction),
}

// ================================================================================================
// Effects
// ================================================================================================

/// What the manager asks its driver to do.
#[derive(Clone, Debug, PartialEq, Eq)]
pub enum AmplifierManagerEffect {
    /// Write an entry to the application log.
    Log(SerializableLevel, String),
    /// Publish the manager's state on the event bus.
    EmitManagerState(AmplifierManagerStateMsg),
    /// Publish the amplifier's state on the event bus.
    EmitAmplifierState(AmplifierState),
    /// Start a discovery; its findings come back through the inbox.
    Discover,
    /// Send this message to the session.
    TellHandler(AmplifierHandlerRxChannelMsg),
    /// Wait until the session's task has ended.
    AwaitHandler,
    /// Wait this many milliseconds before the next effect.
    Sleep(u64),
    /// Start a session for this device, with channels of its own.
    StartHandler(AmplifierDevice),
    /// Leave the run loop: the manager has ended.
    Stop,
}

/// An effect as mathematics sees it.
pub enum AmplifierManagerEffectView {
    Log(SerializableLevel, Seq<char>),
    EmitManagerState(AmplifierManagerStateMsg),
    EmitAmplifierState(AmplifierState),
    Discover,
    TellHandler(AmplifierHandlerRxChannelMsg),
    AwaitHandler,
    Sleep(u64),
    StartHandler(AmplifierDevice),
    Stop,
}

impl View for AmplifierManagerEffect {
    type V = AmplifierManagerEffectView;

    open spec fn view(&self) -> AmplifierManagerEffectView {
        match *self {
            AmplifierManagerEffect::Log(level, message) => AmplifierManagerEffectView::Log(
                level,
                message@,
            ),
            AmplifierManagerEffect::EmitManagerState(state) =>
                AmplifierManagerEffectView::EmitManagerState(state),
            AmplifierManagerEffect::EmitAmplifierState(state) =>
                AmplifierManagerEffectView::EmitAmplifierState(state),
            AmplifierManagerEffect::Discover => AmplifierManagerEffectView::Discover,
            AmplifierManagerEffect::TellHandler(message) => AmplifierManagerEffectView::TellHandler(
                message,
            ),
            AmplifierManagerEffect::AwaitHandler => AmplifierManagerEffectView::AwaitHandler,
            AmplifierManagerEffect::Sleep(millis) => AmplifierManagerEffectView::Sleep(millis),
            AmplifierManagerEffect::StartHandler(device) => AmplifierManagerEffectView::StartHandler(
                device,
            ),
            AmplifierManagerEffect::Stop => AmplifierManagerEffectView::Stop,
        }
    }
}

/// A list of effects as mathematics sees it.
pub open spec fn effect_views(effects: Seq<AmplifierManagerEffect>) -> Seq<
    AmplifierManagerEffectView,
> {
    Seq::new(effects.len(), |i: int| effects[i]@)
}

/// A log entry among the effects.
pub open spec fn log(level: SerializableLevel, message: Seq<char>) -> AmplifierManagerEffectView {
    AmplifierManagerEffectView::Log(level, message)
}

/// Adds one effect behind the others.
fn push_effect(effects: &mut Vec<AmplifierManagerEffect>, effect: AmplifierManagerEffect)
    ensures
        effect_views(final(effects)@) == effect_views(old(effects)@).push(effect@),
{
    effects.push(effect);
    assert(effect_views(effects@) =~= effect_views(old(effects)@).push(effect@));
}

/// Adds a log entry behind the other effects.
fn push_log(effects: &mut Vec<AmplifierManagerEffect>, level: SerializableLevel, message: &str)
    ensures
        effect_views(final(effects)@) == effect_views(old(effects)@).push(log(level, message@)),
{
    push_effect(effects, AmplifierManagerEffect::Log(level, String::from_str(message)));
}

// ================================================================================================
// The manager
// ================================================================================================

/// The manager of the amplifier.
pub struct AmplifierManager {
    pub amp_state: AmplifierState,
    /// How many sessions have been started.
    pub handler_start_count: usize,
    pub is_discovering: bool,
    /// Whether the session has reported that it is connected.
    pub is_handling_amplifier: bool,
    pub is_shutting_down: bool,
    pub is_testing_connection: bool,
    /// The amplifier for which sessions are started.
    pub managed_device: Option<AmplifierDevice>,
    pub max_reconnect_attempts: u8,
    /// How many times in a row a lost session has been started again.
    pub reconnect_attempts: u8,
    pub reconnect_delay: u64,
    /// Whether a session's task is running, as far as the manager knows.
    pub has_handler: bool,
    /// Whether a channel to a session exists.
    pub has_handler_channel: bool,
}

/// Whether `manufacturer` is the one whose amplifiers are handled.
pub open spec fn is_supported(manufacturer: Seq<char>) -> bool {
    manufacturer == crate::amplifier_manager::discovery::SUPPORTED_MANUFACTURER@
}

impl AmplifierManager {
    /// What holds of a manager throughout its life: the device that it manages, if it
    /// manages one, is of the supported manufacturer; it has started a lost session again
    /// no more often than it may; it handles an amplifier only while it has a session; and
    /// it tests a connection only while it handles an amplifier.
    pub open spec fn is_sound(self) -> bool {
        &&& self.managed_device matches Some(device) ==> is_supported(device.manufacturer@)
        &&& self.reconnect_attempts <= self.max_reconnect_attempts
        &&& self.is_handling_amplifier ==> self.has_handler
        &&& self.is_testing_connection ==> self.is_handling_amplifier
    }

    /// A manager that handles no amplifier yet.
    pub fn new() -> (manager: AmplifierManager)
        ensures
            manager.amp_state == AmplifierState::unknown(),
            manager.handler_start_count == 0,
            !manager.is_discovering,
            !manager.is_handling_amplifier,
            !manager.is_shutting_down,
            !manager.is_testing_connection,
            manager.managed_device is None,
            manager.max_reconnect_attempts == MAX_RECONNECT_ATTEMPTS,
            manager.reconnect_attempts == 0,
            manager.reconnect_delay == RECONNECT_DELAY_MS,
            !manager.has_handler,
            !manager.has_handler_channel,
            manager.is_sound(),
    {
        AmplifierManager {
            amp_state: AmplifierState::default(),
            handler_start_count: 0,
            is_discovering: false,
            is_handling_amplifier: false,
            is_shutting_down: false,
            is_testing_connection: false,
            managed_device: None,
            max_reconnect_attempts: MAX_RECONNECT_ATTEMPTS,
            reconnect_attempts: 0,
            reconnect_delay: RECONNECT_DELAY_MS,
            has_handler: false,
            has_handler_channel: false,
        }
    }

    // --------------------------------------------------------------------------------------------
    // What the user interface is shown

    /// What the manager shows of itself.
    pub open spec fn state_msg(self) -> AmplifierManagerStateMsg {
        AmplifierManagerStateMsg {
            is_discovering: self.is_discovering,
            is_handling_amplifier: self.is_handling_amplifier,
            managed_device: self.managed_device,
        }
    }

    /// The effect that publishes the manager's state.
    pub open spec fn emit_state(self) -> AmplifierManagerEffectView {
        AmplifierManagerEffectView::EmitManagerState(self.state_msg())
    }

    /// Adds the effect that publishes the manager's state.
    fn push_state(&self, effects: &mut Vec<AmplifierManagerEffect>)
        ensures
            effect_views(final(effects)@) == effect_views(old(effects)@).push(self.emit_state()),
    {
        let managed_device = match &self.managed_device {
            Some(device) => Some(device.duplicate()),
            None => None,
        };
        push_effect(
            effects,
            AmplifierManagerEffect::EmitManagerState(
                AmplifierManagerStateMsg {
                    is_discovering: self.is_discovering,
                    is_handling_amplifier: self.is_handling_amplifier,
                    managed_device,
                },
            ),
        );
    }

    // --------------------------------------------------------------------------------------------
    // Discovery

    /// What starting a discovery asks for.
    pub open spec fn discovery_effects(self) -> Seq<AmplifierManagerEffectView> {
        seq![
            log(SerializableLevel::Info, "Initiating amplifier discovery"@),
            (AmplifierManager { is_discovering: true, ..self }).emit_state(),
            AmplifierManagerEffectView::Discover,
        ]
    }

    /// Starts a discovery.
    fn do_discovery(&mut self, effects: &mut Vec<AmplifierManagerEffect>)
        ensures
            *final(self) == (AmplifierManager { is_discovering: true, ..*old(self) }),
            effect_views(final(effects)@) == effect_views(old(effects)@) + old(
                self,
            ).discovery_effects(),
    {
        push_log(effects, SerializableLevel::Info, "Initiating amplifier discovery");
        self.is_discovering = true;
        self.push_state(effects);
        push_effect(effects, AmplifierManagerEffect::Discover);
        assert(effect_views(effects@) =~= effect_views(old(effects)@) + old(
            self,
        ).discovery_effects());
    }

    // --------------------------------------------------------------------------------------------
    // Stopping and starting sessions

    /// The manager after its session, if it has one, has been stopped: no amplifier is
    /// handled any more, and a test of the connection is over.
    pub open spec fn after_stop(self) -> AmplifierManager {
        AmplifierManager {
            has_handler: false,
            is_handling_amplifier: false,
            is_testing_connection: false,
            ..self
        }
    }

    /// What stopping the session asks for: the session is told to shut down and is waited
    /// for. Without a session nothing is done.
    pub open spec fn stop_effects(self) -> Seq<AmplifierManagerEffectView> {
        if self.has_handler {
            seq![log(SerializableLevel::Info, "Stopping existing AmplifierHandler"@)] + (
            if self.has_handler_channel {
                seq![
                    AmplifierManagerEffectView::TellHandler(
                        AmplifierHandlerRxChannelMsg::AmplifierHandlerActionMsg(
                            AmplifierHandlerAction::ShutDown,
                        ),
                    ),
                ]
            } else {
                seq![log(SerializableLevel::Warn, "No AmplifierHandler send channel found"@)]
            }) + seq![AmplifierManagerEffectView::AwaitHandler]
        } else if self.handler_start_count > 0 {
            seq![log(SerializableLevel::Info, "No existing AmplifierHandler to stop"@)]
        } else {
            Seq::empty()
        }
    }

    /// Stops the session, if there is one.
    fn stop_amplifier_handler(&mut self, effects: &mut Vec<AmplifierManagerEffect>)
        ensures
            *final(self) == old(self).after_stop(),
            effect_views(final(effects)@) == effect_views(old(effects)@) + old(self).stop_effects(),
    {
        if self.has_handler {
            push_log(effects, SerializableLevel::Info, "Stopping existing AmplifierHandler");
            if self.has_handler_channel {
                push_effect(
                    effects,
                    AmplifierManagerEffect::TellHandler(
                        AmplifierHandlerRxChannelMsg::AmplifierHandlerActionMsg(
                            AmplifierHandlerAction::ShutDown,
                        ),
                    ),
                );
            } else {
                push_log(effects, SerializableLevel::Warn, "No AmplifierHandler send channel found");
            }
            push_effect(effects, AmplifierManagerEffect::AwaitHandler);
            self.has_handler = false;
        } else if self.handler_start_count > 0 {
            push_log(effects, SerializableLevel::Info, "No existing AmplifierHandler to stop");
        }
        self.is_handling_amplifier = false;
        self.is_testing_connection = false;
        assert(effect_views(effects@) =~= effect_views(old(effects)@) + old(self).stop_effects());
    }

    /// The manager after it has been handed `device` to handle: the old session is stopped
    /// and what was known of the amplifier is forgotten; a device of the supported
    /// manufacturer becomes the managed device and gets a session.
    pub open spec fn after_handle(self, device: AmplifierDevice) -> AmplifierManager {
        if is_supported(device.manufacturer@) {
            AmplifierManager {
                has_handler: true,
                has_handler_channel: true,
                is_handling_amplifier: false,
                is_testing_connection: false,
                amp_state: AmplifierState::unknown(),
                managed_device: Some(device),
                handler_start_count: crate::discovery::counted_up(self.handler_start_count),
                ..self
            }
        } else {
            AmplifierManager {
                has_handler: false,
                is_handling_amplifier: false,
                is_testing_connection: false,
                amp_state: AmplifierState::unknown(),
                managed_device: None,
                ..self
            }
        }
    }

    /// What handling `device` asks for.
    pub open spec fn handle_effects(self, device: AmplifierDevice) -> Seq<
        AmplifierManagerEffectView,
    > {
        let cleared = AmplifierManager {
            amp_state: AmplifierState::unknown(),
            managed_device: None,
            ..self.after_stop()
        };
        let adopted = AmplifierManager { managed_device: Some(device), ..cleared };
        self.stop_effects() + seq![
            AmplifierManagerEffectView::EmitAmplifierState(AmplifierState::unknown()),
        ] + (if is_supported(device.manufacturer@) {
            seq![
                adopted.emit_state(),
                AmplifierManagerEffectView::StartHandler(device),
                self.after_handle(device).emit_state(),
            ]
        } else {
            seq![
                log(
                    SerializableLevel::Info,
                    "Ignoring unsupported amplifier manufacturer: "@ + device.manufacturer@,
                ),
                cleared.emit_state(),
            ]
        })
    }

    /// Begins to handle `device`.
    fn handle_amplifier(&mut self, device: AmplifierDevice, effects: &mut Vec<AmplifierManagerEffect>)
        ensures
            *final(self) == old(self).after_handle(device),
            effect_views(final(effects)@) == effect_views(old(effects)@) + old(self).handle_effects(
                device,
            ),
    {
        self.stop_amplifier_handler(effects);
        self.managed_device = None;
        self.amp_state = AmplifierState::default();
        push_effect(effects, AmplifierManagerEffect::EmitAmplifierState(self.amp_state));
        if !str_eq(
            device.manufacturer.as_str(),
            crate::amplifier_manager::discovery::SUPPORTED_MANUFACTURER,
        ) {
            push_effect(
                effects,
                AmplifierManagerEffect::Log(
                    SerializableLevel::Info,
                    joined(
                        "Ignoring unsupported amplifier manufacturer: ",
                        device.manufacturer.as_str(),
                    ),
                ),
            );
            self.push_state(effects);
            assert(effect_views(effects@) =~= effect_views(old(effects)@) + old(
                self,
            ).handle_effects(device));
            return ;
        }
        self.managed_device = Some(device.duplicate());
        self.push_state(effects);
        self.has_handler_channel = true;
        push_effect(effects, AmplifierManagerEffect::StartHandler(device));
        self.has_handler = true;
        if self.handler_start_count < usize::MAX {
            self.handler_start_count = self.handler_start_count + 1;
        }
        self.push_state(effects);
        assert(effect_views(effects@) =~= effect_views(old(effects)@) + old(self).handle_effects(
            device,
        ));
    }

    // --------------------------------------------------------------------------------------------
    // Start

    /// Begins the manager's life: a discovery is started and the amplifier's state, still
    /// unknown, is published.
    pub fn start(&mut self) -> (effects: Vec<AmplifierManagerEffect>)
        ensures
            *final(self) == (AmplifierManager { is_discovering: true, ..*old(self) }),
            old(self).is_sound() ==> final(self).is_sound(),
            effect_views(effects@) == old(self).discovery_effects().push(
                AmplifierManagerEffectView::EmitAmplifierState(old(self).amp_state),
            ),
    {
        let mut effects: Vec<AmplifierManagerEffect> = Vec::new();
        assert(effect_views(effects@) =~= Seq::<AmplifierManagerEffectView>::empty());
        self.do_discovery(&mut effects);
        push_effect(&mut effects, AmplifierManagerEffect::EmitAmplifierState(self.amp_state));
        assert(effect_views(effects@) =~= old(self).discovery_effects().push(
            AmplifierManagerEffectView::EmitAmplifierState(old(self).amp_state),
        ));
        effects
    }

    // --------------------------------------------------------------------------------------------
    // The inbox

    /// The manager after the action `action` was asked of it.
    pub open spec fn after_action(self, action: AmplifierManagerAction) -> AmplifierManager {
        match action {
            AmplifierManagerAction::DisconnectFromAmplifier => self.after_stop(),
            AmplifierManagerAction::Discover => AmplifierManager { is_discovering: true, ..self },
            AmplifierManagerAction::OnUIReady => self,
            AmplifierManagerAction::ProcessDiscoveredDevice(device) => (AmplifierManager {
                reconnect_attempts: 0,
                ..self
            }).after_handle(device),
            AmplifierManagerAction::SetIsDiscovering(is_discovering) => AmplifierManager {
                is_discovering,
                ..self
            },
            AmplifierManagerAction::ShutDown => (AmplifierManager {
                is_shutting_down: true,
                ..self
            }).after_stop(),
            AmplifierManagerAction::TestConnection => if self.is_handling_amplifier
                && self.has_handler_channel {
                AmplifierManager { is_testing_connection: true, ..self }
            } else {
                self
            },
        }
    }

    /// What telling the session `action` asks for.
    pub open spec fn tell_effects(self, action: AmplifierHandlerAction) -> Seq<
        AmplifierManagerEffectView,
    > {
        if self.has_handler_channel {
            seq![
                AmplifierManagerEffectView::TellHandler(
                    AmplifierHandlerRxChannelMsg::AmplifierHandlerActionMsg(action),
                ),
            ]
        } else {
            seq![log(SerializableLevel::Warn, "No AmplifierHandler send channel found"@)]
        }
    }

    /// What the action `action` asks for.
    pub open spec fn action_effects(self, action: AmplifierManagerAction) -> Seq<
        AmplifierManagerEffectView,
    > {
        match action {
            AmplifierManagerAction::DisconnectFromAmplifier => self.stop_effects().push(
                self.after_stop().emit_state(),
            ),
            AmplifierManagerAction::Discover => self.discovery_effects(),
            AmplifierManagerAction::OnUIReady => seq![
                self.emit_state(),
                AmplifierManagerEffectView::EmitAmplifierState(self.amp_state),
            ],
            AmplifierManagerAction::ProcessDiscoveredDevice(device) => seq![
                log(
                    SerializableLevel::Info,
                    "Processing discovered amplifier: "@ + device.label_text(),
                ),
            ] + self.handle_effects(device),
            AmplifierManagerAction::SetIsDiscovering(is_discovering) => seq![
                (AmplifierManager { is_discovering, ..self }).emit_state(),
            ],
            AmplifierManagerAction::ShutDown => seq![
                log(SerializableLevel::Info, "AmplifierManager shutdown requested"@),
            ] + self.stop_effects() + seq![
                log(SerializableLevel::Info, "AmplifierManager has ended"@),
                AmplifierManagerEffectView::Stop,
            ],
            AmplifierManagerAction::TestConnection => if self.is_handling_amplifier {
                self.tell_effects(AmplifierHandlerAction::TestConnection)
            } else {
                seq![
                    log(
                        SerializableLevel::Warn,
                        "Ignoring request to test connection (not currently handling an amplifier)"@,
                    ),
                ]
            },
        }
    }

    /// Carries out an action that was asked of the manager.
    pub fn on_manager_action(&mut self, action: AmplifierManagerAction) -> (effects: Vec<
        AmplifierManagerEffect,
    >)
        ensures
            *final(self) == old(self).after_action(action),
            old(self).is_sound() ==> final(self).is_sound(),
            effect_views(effects@) == old(self).action_effects(action),
    {
        let mut effects: Vec<AmplifierManagerEffect> = Vec::new();
        assert(effect_views(effects@) =~= Seq::<AmplifierManagerEffectView>::empty());
        match action {
            AmplifierManagerAction::DisconnectFromAmplifier => {
                self.stop_amplifier_handler(&mut effects);
                self.push_state(&mut effects);
            },
            AmplifierManagerAction::Discover => {
                self.do_discovery(&mut effects);
            },
            AmplifierManagerAction::OnUIReady => {
                self.push_state(&mut effects);
                push_effect(&mut effects, AmplifierManagerEffect::EmitAmplifierState(self.amp_state));
            },
            AmplifierManagerAction::ProcessDiscoveredDevice(device) => {
                let label = device.label();
                push_effect(
                    &mut effects,
                    AmplifierManagerEffect::Log(
                        SerializableLevel::Info,
                        joined("Processing discovered amplifier: ", label.as_str()),
                    ),
                );
                self.reconnect_attempts = 0;
                self.handle_amplifier(device, &mut effects);
            },
            AmplifierManagerAction::SetIsDiscovering(is_discovering) => {
                self.is_discovering = is_discovering;
                self.push_state(&mut effects);
            },
            AmplifierManagerAction::ShutDown => {
                push_log(&mut effects, SerializableLevel::Info, "AmplifierManager shutdown requested");
                self.is_shutting_down = true;
                self.stop_amplifier_handler(&mut effects);
                push_log(&mut effects, SerializableLevel::Info, "AmplifierManager has ended");
                push_effect(&mut effects, AmplifierManagerEffect::Stop);
            },
            AmplifierManagerAction::TestConnection => {
                if self.is_handling_amplifier {
                    if self.has_handler_channel {
                        self.is_testing_connection = true;
                        push_effect(
                            &mut effects,
                            AmplifierManagerEffect::TellHandler(
                                AmplifierHandlerRxChannelMsg::AmplifierHandlerActionMsg(
                                    AmplifierHandlerAction::TestConnection,
                                ),
                            ),
                        );
                    } else {
                        push_log(
                            &mut effects,
                            SerializableLevel::Warn,
                            "No AmplifierHandler send channel found",
                        );
                    }
                } else {
                    push_log(
                        &mut effects,
                        SerializableLevel::Warn,
                        "Ignoring request to test connection (not currently handling an amplifier)",
                    );
                }
            },
        }
        assert(effect_views(effects@) =~= old(self).action_effects(action));
        effects
    }

    /// What a user's action asks for: it is passed on to the session while an amplifier is
    /// handled, and dropped with a warning otherwise.
    pub open spec fn amplifier_action_effects(self, action: AmplifierAction) -> Seq<
        AmplifierManagerEffectView,
    > {
        if !self.is_handling_amplifier {
            seq![
                log(
                    SerializableLevel::Warn,
                    "AmplifierManager is not handling an amplifier connection"@,
                ),
            ]
        } else if self.has_handler_channel {
            seq![
                AmplifierManagerEffectView::TellHandler(
                    AmplifierHandlerRxChannelMsg::AmplifierActionMsg(action),
                ),
            ]
        } else {
            Seq::empty()
        }
    }

    /// Passes a user's action on to the session.
    pub fn on_amplifier_action(&self, action: AmplifierAction) -> (effects: Vec<
        AmplifierManagerEffect,
    >)
        ensures
            effect_views(effects@) == self.amplifier_action_effects(action),
    {
        let mut effects: Vec<AmplifierManagerEffect> = Vec::new();
        assert(effect_views(effects@) =~= Seq::<AmplifierManagerEffectView>::empty());
        if self.is_handling_amplifier {
            if self.has_handler_channel {
                push_effect(
                    &mut effects,
                    AmplifierManagerEffect::TellHandler(
                        AmplifierHandlerRxChannelMsg::AmplifierActionMsg(action),
                    ),
                );
            }
        } else {
            push_log(
                &mut effects,
                SerializableLevel::Warn,
                "AmplifierManager is not handling an amplifier connection",
            );
        }
        assert(effect_views(effects@) =~= self.amplifier_action_effects(action));
        effects
    }

    /// Takes in a message from the inbox.
    pub fn on_message(&mut self, message: AmplifierManagerChannelMsg) -> (effects: Vec<
        AmplifierManagerEffect,
    >)
        ensures
            old(self).is_sound() ==> final(self).is_sound(),
            match message {
                AmplifierManagerChannelMsg::AmplifierActionMsg(action) => {
                    &&& *final(self) == *old(self)
                    &&& effect_views(effects@) == old(self).amplifier_action_effects(action)
                },
                AmplifierManagerChannelMsg::AmplifierManagerActionMsg(action) => {
                    &&& *final(self) == old(self).after_action(action)
                    &&& effect_views(effects@) == old(self).action_effects(action)
                },
            },
    {
        match message {
            AmplifierManagerChannelMsg::AmplifierActionMsg(action) => self.on_amplifier_action(
                action,
            ),
            AmplifierManagerChannelMsg::AmplifierManagerActionMsg(action) => self.on_manager_action(
                action,
            ),
        }
    }

    // --------------------------------------------------------------------------------------------
    // Messages from the session

    /// Whether the loss of the session is answered by starting it again: the manager is not
    /// shutting down, it has a device to manage, and it has not tried too often.
    pub open spec fn reconnects(self) -> bool {
        &&& !self.is_shutting_down
        &&& self.managed_device is Some
        &&& self.reconnect_attempts < self.max_reconnect_attempts
    }

    /// Whether the loss of the session makes the manager give up on its device.
    pub open spec fn gives_up(self) -> bool {
        &&& !self.is_shutting_down
        &&& self.managed_device is Some
        &&& self.reconnect_attempts >= self.max_reconnect_attempts
    }

    /// The manager after its session reported that it is disconnected.
    pub open spec fn after_disconnected(self) -> AmplifierManager {
        let stopped = AmplifierManager {
            is_handling_amplifier: false,
            has_handler: false,
            is_testing_connection: false,
            ..self
        };
        if self.reconnects() {
            (AmplifierManager {
                reconnect_attempts: (self.reconnect_attempts + 1) as u8,
                ..stopped
            }).after_handle(self.managed_device->Some_0)
        } else if self.gives_up() {
            AmplifierManager { reconnect_attempts: 0, ..stopped }
        } else {
            stopped
        }
    }

    /// What the session's report that it is disconnected asks for.
    pub open spec fn disconnected_effects(self) -> Seq<AmplifierManagerEffectView> {
        let unhandled = AmplifierManager { is_handling_amplifier: false, ..self };
        let stopped = unhandled.after_stop();
        seq![unhandled.emit_state()] + unhandled.stop_effects() + (if self.reconnects() {
            seq![
                log(
                    SerializableLevel::Warn,
                    "AmplifierManager is attempting an amplifier reconnect (#"@ + decimal_text(
                        self.reconnect_attempts + 1,
                    ) + ")"@,
                ),
                AmplifierManagerEffectView::Sleep(self.reconnect_delay),
            ] + stopped.handle_effects(self.managed_device->Some_0)
        } else if self.gives_up() {
            seq![
                log(
                    SerializableLevel::Warn,
                    "AmplifierManager is giving up on amplifier reconnects"@,
                ),
            ]
        } else {
            Seq::empty()
        })
    }

    /// The manager after the session's message `message`.
    pub open spec fn after_handler_message(
        self,
        message: AmplifierHandlerTxChannelMsg,
    ) -> AmplifierManager {
        match message {
            AmplifierHandlerTxChannelMsg::AmplifierStateMsg(state) => AmplifierManager {
                amp_state: state,
                ..self
            },
            AmplifierHandlerTxChannelMsg::AmplifierHandlerConnectionStatusMsg(
                AmplifierHandlerConnectionStatus::Connected,
            ) => AmplifierManager {
                is_handling_amplifier: self.has_handler,
                is_testing_connection: false,
                reconnect_attempts: 0,
                ..self
            },
            AmplifierHandlerTxChannelMsg::AmplifierHandlerConnectionStatusMsg(
                AmplifierHandlerConnectionStatus::Disconnected,
            ) => self.after_disconnected(),
        }
    }

    /// What the session's message `message` asks for.
    pub open spec fn handler_message_effects(self, message: AmplifierHandlerTxChannelMsg) -> Seq<
        AmplifierManagerEffectView,
    > {
        match message {
            AmplifierHandlerTxChannelMsg::AmplifierStateMsg(state) => seq![
                AmplifierManagerEffectView::EmitAmplifierState(state),
            ],
            AmplifierHandlerTxChannelMsg::AmplifierHandlerConnectionStatusMsg(
                AmplifierHandlerConnectionStatus::Connected,
            ) => seq![
                (AmplifierManager { is_handling_amplifier: self.has_handler, ..self }).emit_state(),
            ],
            AmplifierHandlerTxChannelMsg::AmplifierHandlerConnectionStatusMsg(
                AmplifierHandlerConnectionStatus::Disconnected,
            ) => self.disconnected_effects(),
        }
    }

    /// Answers the session's report that it is disconnected.
    fn handle_disconnected(&mut self, effects: &mut Vec<AmplifierManagerEffect>)
        ensures
            *final(self) == old(self).after_disconnected(),
            effect_views(final(effects)@) == effect_views(old(effects)@) + old(
                self,
            ).disconnected_effects(),
    {
        let ghost before = effect_views(effects@);
        self.is_handling_amplifier = false;
        self.push_state(effects);
        self.stop_amplifier_handler(effects);
        let ghost unhandled = AmplifierManager { is_handling_amplifier: false, ..*old(self) };
        assert(effect_views(effects@) =~= before + (seq![unhandled.emit_state()]
            + unhandled.stop_effects()));
        if self.is_shutting_down {
            assert(effect_views(effects@) =~= before + old(self).disconnected_effects());
            return ;
        }
        let existing = match &self.managed_device {
            Some(device) => Some(device.duplicate()),
            None => None,
        };
        match existing {
            Some(device) => {
                if self.reconnect_attempts < self.max_reconnect_attempts {
                    self.reconnect_attempts = self.reconnect_attempts + 1;
                    push_effect(
                        effects,
                        AmplifierManagerEffect::Log(
                            SerializableLevel::Warn,
                            String::from_str(
                                "AmplifierManager is attempting an amplifier reconnect (#",
                            ).concat(
                                decimal_string(self.reconnect_attempts as i128).as_str(),
                            ).concat(")"),
                        ),
                    );
                    push_effect(effects, AmplifierManagerEffect::Sleep(self.reconnect_delay));
                    let ghost stopped = *self;
                    self.handle_amplifier(device, effects);
                    assert(stopped.handle_effects(device) == unhandled.after_stop().handle_effects(
                        device,
                    ));
                    assert(effect_views(effects@) =~= before + old(self).disconnected_effects());
                } else {
                    push_log(
                        effects,
                        SerializableLevel::Warn,
                        "AmplifierManager is giving up on amplifier reconnects",
                    );
                    self.reconnect_attempts = 0;
                    assert(effect_views(effects@) =~= before + old(self).disconnected_effects());
                }
            },
            None => {
                assert(effect_views(effects@) =~= before + old(self).disconnected_effects());
            },
        }
    }

    /// Takes in a message from the session. A state is stored and published. `Connected`
    /// makes the manager handle its amplifier, where it has a session, and forget earlier
    /// losses. `Disconnected`
    /// ends the handling. Either ends a test of the connection. After `Disconnected`, unless the manager is shutting down or has no device, the session
    /// is started again after a pause, up to `max_reconnect_attempts` times in a row.
    pub fn on_handler_message(&mut self, message: AmplifierHandlerTxChannelMsg) -> (effects: Vec<
        AmplifierManagerEffect,
    >)
        ensures
            *final(self) == old(self).after_handler_message(message),
            old(self).is_sound() ==> final(self).is_sound(),
            effect_views(effects@) == old(self).handler_message_effects(message),
    {
        let mut effects: Vec<AmplifierManagerEffect> = Vec::new();
        assert(effect_views(effects@) =~= Seq::<AmplifierManagerEffectView>::empty());
        match message {
            AmplifierHandlerTxChannelMsg::AmplifierStateMsg(state) => {
                self.amp_state = state;
                push_effect(&mut effects, AmplifierManagerEffect::EmitAmplifierState(state));
            },
            AmplifierHandlerTxChannelMsg::AmplifierHandlerConnectionStatusMsg(
                AmplifierHandlerConnectionStatus::Connected,
            ) => {
                self.is_handling_amplifier = self.has_handler;
                self.is_testing_connection = false;
                self.push_state(&mut effects);
                self.reconnect_attempts = 0;
            },
            AmplifierHandlerTxChannelMsg::AmplifierHandlerConnectionStatusMsg(
                AmplifierHandlerConnectionStatus::Disconnected,
            ) => {
                self.handle_disconnected(&mut effects);
            },
        }
        assert(effect_views(effects@) =~= old(self).handler_message_effects(message));
        effects
    }
}

// ================================================================================================
// Reconnecting is bounded
// ================================================================================================

/// Whether one of `effects` starts a session.
pub open spec fn starts_handler(effects: Seq<AmplifierManagerEffectView>) -> bool {
    exists|i: int| 0 <= i < effects.len() && effects[i] is StartHandler
}

impl AmplifierManager {
    /// The manager after its session reported `count` times in a row that it is
    /// disconnected, with no other message in between.
    pub open spec fn after_disconnects(self, count: nat) -> AmplifierManager
        decreases count,
    {
        if count == 0 {
            self
        } else {
            self.after_disconnects((count - 1) as nat).after_disconnected()
        }
    }

    /// Whether the manager answers the loss of its session at all: it is not shutting down
    /// and manages a device.
    pub open spec fn answers_losses(self) -> bool {
        !self.is_shutting_down && self.managed_device is Some
    }

    /// How many more losses in a row the manager answers by starting a session.
    pub open spec fn attempts_left(self) -> nat {
        (self.max_reconnect_attempts - self.reconnect_attempts) as nat
    }
}

/// Every loss of the session that is answered by a new session counts: after `count`
/// losses in a row the manager still manages the same device and has counted them.
pub proof fn lemma_disconnects_are_counted(manager: AmplifierManager, count: nat)
    requires
        manager.is_sound(),
        manager.answers_losses(),
        count <= manager.attempts_left(),
    ensures
        manager.after_disconnects(count).is_sound(),
        manager.after_disconnects(count).answers_losses(),
        manager.after_disconnects(count).managed_device == manager.managed_device,
        manager.after_disconnects(count).reconnect_attempts == manager.reconnect_attempts + count,
        manager.after_disconnects(count).max_reconnect_attempts == manager.max_reconnect_attempts,
    decreases count,
{
    if count > 0 {
        lemma_disconnects_are_counted(manager, (count - 1) as nat);
    }
}

/// A session that is lost again and again, without ever reporting that it is connected, is
/// started again only as often as the manager has attempts left, which is never more than
/// `max_reconnect_attempts` times: each of the first that many losses starts a session,
/// the next one starts none, and the manager gives up and counts from zero again. This
/// holds of every manager that its steps can lead to.
pub proof fn lemma_reconnects_are_bounded(manager: AmplifierManager)
    requires
        manager.is_sound(),
        manager.answers_losses(),
    ensures
        manager.attempts_left() <= manager.max_reconnect_attempts,
        forall|count: nat|
            count < manager.attempts_left() ==> {
                &&& (#[trigger] manager.after_disconnects(count)).reconnects()
                &&& starts_handler(manager.after_disconnects(count).disconnected_effects())
            },
        manager.after_disconnects(manager.attempts_left()).gives_up(),
        !starts_handler(manager.after_disconnects(manager.attempts_left()).disconnected_effects()),
        manager.after_disconnects(manager.attempts_left() + 1).reconnect_attempts == 0,
{
    let limit = manager.attempts_left();
    assert forall|count: nat| count < limit implies {
        &&& (#[trigger] manager.after_disconnects(count)).reconnects()
        &&& starts_handler(manager.after_disconnects(count).disconnected_effects())
    } by {
        lemma_disconnects_are_counted(manager, count);
        let lost = manager.after_disconnects(count);
        let effects = lost.disconnected_effects();
        let device = lost.managed_device->Some_0;
        let stopped = (AmplifierManager { is_handling_amplifier: false, ..lost }).after_stop();
        let handling = stopped.handle_effects(device);
        assert(handling.last() is StartHandler || handling[handling.len() - 2] is StartHandler);
        let at = effects.len() - 2;
        assert(effects[at] is StartHandler);
    }
    lemma_disconnects_are_counted(manager, limit);
    let last = manager.after_disconnects(limit);
    assert(last.gives_up());
    let effects = last.disconnected_effects();
    assert forall|i: int| 0 <= i < effects.len() implies !(effects[i] is StartHandler) by {}
    assert(manager.after_disconnects(limit + 1) == last.after_disconnected());
}

/// Whether `effects` ask for exactly one pause, of `delay` milliseconds, and start exactly
/// one session, for `device`, after that pause and after every wait for an earlier session.
pub open spec fn pauses_then_starts(
    effects: Seq<AmplifierManagerEffectView>,
    delay: u64,
    device: AmplifierDevice,
) -> bool {
    exists|i: int, j: int|
        {
            &&& 0 <= i < j < effects.len()
            &&& #[trigger] effects[i] == AmplifierManagerEffectView::Sleep(delay)
            &&& #[trigger] effects[j] == AmplifierManagerEffectView::StartHandler(device)
            &&& forall|k: int| 0 <= k < effects.len() && k != i ==> !(#[trigger] effects[k] is Sleep)
            &&& forall|k: int|
                0 <= k < effects.len() && k != j ==> !(#[trigger] effects[k] is StartHandler)
            &&& forall|k: int| 0 <= k < effects.len() && #[trigger] effects[k] is AwaitHandler ==> k < i
        }
}

/// The loss of a session that the manager answers while it has attempts left: the state
/// that is published first shows that no amplifier is handled; a session that was running
/// is waited for; then comes the pause, and after it a session for the same device is
/// started. What was known of the amplifier is forgotten, and the loss is counted.
pub proof fn lemma_lost_session_is_started_again(manager: AmplifierManager)
    requires
        manager.is_sound(),
        manager.answers_losses(),
        manager.reconnect_attempts < manager.max_reconnect_attempts,
    ensures
        ({
            let after = manager.after_disconnected();
            let effects = manager.disconnected_effects();
            &&& effects[0] == AmplifierManagerEffectView::EmitManagerState(
                AmplifierManagerStateMsg {
                    is_discovering: manager.is_discovering,
                    is_handling_amplifier: false,
                    managed_device: manager.managed_device,
                },
            )
            &&& manager.has_handler ==> exists|k: int|
                0 <= k < effects.len() && effects[k] is AwaitHandler
            &&& pauses_then_starts(effects, manager.reconnect_delay, manager.managed_device->Some_0)
            &&& after.managed_device == manager.managed_device
            &&& after.reconnect_attempts == manager.reconnect_attempts + 1
            &&& after.amp_state == AmplifierState::unknown()
            &&& after.has_handler
            &&& !after.is_handling_amplifier
            &&& !after.is_testing_connection
        }),
{
    let effects = manager.disconnected_effects();
    let device = manager.managed_device->Some_0;
    let unhandled = AmplifierManager { is_handling_amplifier: false, ..manager };
    let stopped = unhandled.after_stop();
    let first = seq![unhandled.emit_state()] + unhandled.stop_effects();
    let handling = stopped.handle_effects(device);
    let i = (first.len() + 1) as int;
    let j = effects.len() - 2;
    assert(effects[i] == AmplifierManagerEffectView::Sleep(manager.reconnect_delay));
    assert(handling[handling.len() - 2] == AmplifierManagerEffectView::StartHandler(device));
    assert(effects[j] == AmplifierManagerEffectView::StartHandler(device));
    assert forall|k: int| 0 <= k < effects.len() && k != i implies !(#[trigger] effects[k]
        is Sleep) by {}
    assert forall|k: int| 0 <= k < effects.len() && k != j implies !(#[trigger] effects[k]
        is StartHandler) by {}
    assert forall|k: int| 0 <= k < effects.len() && #[trigger] effects[k]
        is AwaitHandler implies k < i by {}
    if manager.has_handler {
        let k = first.len() - 1;
        assert(effects[k] is AwaitHandler);
    }
}

/// A manager that is shutting down, or that manages no device, answers the loss of its
/// session by starting none.
pub proof fn lemma_unanswered_losses_start_nothing(manager: AmplifierManager)
    requires
        !manager.answers_losses(),
    ensures
        !starts_handler(manager.disconnected_effects()),
        manager.after_disconnected().managed_device == manager.managed_device,
{
    let effects = manager.disconnected_effects();
    assert forall|i: int| 0 <= i < effects.len() implies !(effects[i] is StartHandler) by {}
}

/// Whatever reaches the manager keeps it sound: an action, a user's action for the
/// amplifier, or a message of its session.
pub proof fn lemma_steps_keep_the_manager_sound(
    manager: AmplifierManager,
    action: AmplifierManagerAction,
    message: AmplifierHandlerTxChannelMsg,
)
    requires
        manager.is_sound(),
    ensures
        manager.after_action(action).is_sound(),
        manager.after_handler_message(message).is_sound(),
{
}

} // verus!
