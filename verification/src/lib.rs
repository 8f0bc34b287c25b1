//! Daemon-session layer of a container-engine control panel.
//!
//! The library holds the verified core: the error mapper, the session
//! slot that keeps the single validated daemon handle, the fixed
//! parameter rules of the one-shot commands, the image-pull pipeline,
//! the control-frame codec and the attach-tunnel state machine.
//! The surrounding process performs the network calls and drives the
//! state machines with the events it observes.

pub mod attach;
pub mod commands;
pub mod engine;
pub mod errors;
pub mod frames;
pub mod pull;
pub mod session;
