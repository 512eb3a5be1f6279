//! The vocabulary shared by the amplifier manager and an amplifier session: the state of the
//! amplifier as far as it is known, and the messages that travel between the two.

use vstd::prelude::*;

use crate::amplifier_manager::AmplifierAction;

verus! {

/// What is known of the amplifier. `None` stands for "not reported yet".
#[derive(Clone, Copy, Debug, PartialEq, Eq, Structural)]
pub struct AmplifierState {
    pub is_muted: Option<bool>,
    pub is_powered_on: Option<bool>,
    pub source: Option<u8>,
    pub volume: Option<u8>,
}

impl AmplifierState {
    /// The state in which nothing has been reported.
    pub open spec fn unknown() -> AmplifierState {
        AmplifierState { is_muted: None, is_powered_on: None, source: None, volume: None }
    }
}

impl Default for AmplifierState {
    fn default() -> (state: AmplifierState)
        ensures
            state == AmplifierState::unknown(),
    {
        AmplifierState { is_muted: None, is_powered_on: None, source: None, volume: None }
    }
}

/// Messages sent to an amplifier session by the manager.
#[derive(Clone, Copy, Debug, PartialEq, Eq, Structural)]
pub enum AmplifierHandlerRxChannelMsg {
    AmplifierActionMsg(AmplifierAction),
    AmplifierHandlerActionMsg(AmplifierHandlerAction),
}

/// What the manager can ask of the session itself.
#[derive(Clone, Copy, Debug, PartialEq, Eq, Structural)]
pub enum AmplifierHandlerAction {
    ShutDown,
    TestConnection,
}

/// Messages sent by an amplifier session to the manager.
#[derive(Clone, Copy, Debug, PartialEq, Eq, Structural)]
pub enum AmplifierHandlerTxChannelMsg {
    AmplifierStateMsg(AmplifierState),
    AmplifierHandlerConnectionStatusMsg(AmplifierHandlerConnectionStatus),
}

/// Whether a session holds a connection to its amplifier.
#[derive(Clone, Copy, Debug, PartialEq, Eq, Structural)]
pub enum AmplifierHandlerConnectionStatus {
    Connected,
    Disconnected,
}

} // verus!
