//! Verified core of a terminal audio player.
//!
//! The library owns the interactive playback orchestration: which pane has
//! focus, the lifecycle of the single playback session, how one polled input
//! event is dispatched, and the per-frame transition that reacts to the
//! backend's reported position and end-of-queue signal. Everything impure
//! (terminal drawing, keyboard polling, the audio device, tag reading) lives
//! outside the library and only hands plain values in and out.

pub mod cli;
pub mod display;
pub mod input;
pub mod machine;
pub mod media;
pub mod session;
pub mod transport;
