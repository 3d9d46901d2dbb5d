//! Fundamentals for audio PCM DSP: sample types and conversions, frames, slices, ring buffers
//! and signals.

pub mod envelope;
pub mod frame;
pub mod interpolate;
pub mod peak;
pub mod ring_buffer;
pub mod sample;
pub mod signal;
pub mod slice;
pub mod window;

pub use frame::Frame;
pub use sample::{Sample, I24, I24BE3, I24LE3, I48, U24, U24BE3, U24LE3, U48};
