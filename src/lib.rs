//! A verified bridge between a cooperative script runtime and a native,
//! single-threaded window event loop: the two message channels, the pump that
//! moves messages into the loop, the decoding of window requests, and the
//! event-loop state machine that owns the windows.

use vstd::prelude::*;

pub mod bridge;
pub mod channel;
pub mod command;
pub mod config;
pub mod text;
pub mod window_manager;

verus! {

} // verus!
