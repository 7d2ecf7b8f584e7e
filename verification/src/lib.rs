//! A verified core for a two-player Pong session: a screen state machine
//! (home, difficulty menu, play, pause), per-tick ball physics with wall and
//! paddle bounces, event-driven paddle control, and a pure render-description
//! step that lists the primitives a host should draw.
//!
//! The host (window, input devices, renderer) lives outside this crate; it
//! feeds ticks and input events in and takes draw commands out.

pub mod geometry;
pub mod laws;
pub mod render;
pub mod session;
pub mod state;
