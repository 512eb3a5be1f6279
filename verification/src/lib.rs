//! Control plane for two networked audio devices: a streamer that speaks JSON over a WebSocket
//! and an amplifier that speaks a line protocol over TCP.
//!
//! Every actor of the system is kept here as a state machine: a state, the events that reach
//! it, and the effects that it asks its driver to perform. The wire codecs and the rules of
//! discovery, activation, testing and reconnection are part of those machines.

pub mod amplifier_manager;
pub mod average;
pub mod clock;
pub mod discovery;
pub mod errors;
pub mod messaging;
pub mod streammagic_manager;
pub mod text;
pub mod utils;
