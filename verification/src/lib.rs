//! A verified core for a "Scream" network audio receiver.
//!
//! The crate decodes the protocol's five-byte frame headers, converts raw
//! little-endian PCM payloads into fixed-width multichannel samples, buffers
//! them in a bounded FIFO jitter buffer, and adapts the playback rate so that
//! buffered latency stays bounded. Session lifecycle logic decides when a new
//! playback session must replace the current one.

pub mod buffer;
pub mod convert;
pub mod engine;
pub mod scream;
pub mod session;
