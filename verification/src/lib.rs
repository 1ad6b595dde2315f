//! Translates game-controller input events into MIDI messages.
//!
//! The library is the pure core of a controller-to-MIDI bridge: a fixed
//! mapping from physical controls to notes and controller numbers, the
//! conversion of analog samples into the protocol's 7-bit value range, the
//! per-event translation step, and the exact byte framing of each message.
//! Device polling and the MIDI output connection live outside, in the
//! unverified shell around this crate; they exchange plain values with it.

pub mod config;
pub mod controls;
pub mod midi;
pub mod normalize;
pub mod translate;

pub use normalize::ANALOG_ONE;
pub use normalize::centered_to_midi;
pub use normalize::unsigned_to_midi;
