//! A secure command server: per-connection framing, command decoding, and the
//! state machines that drive each session and the listener.

pub mod frame;
pub mod dispatch;
pub mod listener;
pub mod identity;
pub mod console;
