//! A minimal real-time audio playback engine.
//!
//! The engine produces stereo frames from a wavetable signal source, adapts
//! them to the device's sample format with clamping fixed-point conversion,
//! interleaves them into a flat output buffer, and serves play/stop commands
//! and elapsed-time queries against a playback state store.  Device I/O and
//! floating-point signal generation live outside this crate; the engine works
//! on plain fixed-point samples and millisecond timestamps.

pub mod action;
pub mod convert;
pub mod pipeline;
pub mod signal;
pub mod store;
pub mod text;
