//! The decisions behind the render window of a phone mirror.
//!
//! The window shows the newest frame that the phone sent, letterboxed, and turns
//! mouse, keyboard and clipboard activity into messages for the phone. Every
//! decision that is not floating point is a function on plain values: what the
//! operating system reports goes in, the messages to send and the next thing to do
//! come out.

pub mod clipboard;
pub mod frame;
pub mod icon;
pub mod keys;
pub mod protocol;
pub mod scale;
pub mod session;
pub mod sizing;
pub mod touch;
