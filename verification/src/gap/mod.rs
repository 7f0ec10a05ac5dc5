//! Group Audio Protocol: the real-time audio sub-protocol. Audio payload,
//! the per-source sequence and replay state with an epoch-overlap window,
//! and a reorder (jitter) buffer.

pub mod payload;
pub mod client;
pub mod jitter;
