//! Shared type vocabulary: stream classes, flags, state machines, opcode
//! registries, error registry and identifier aliases.

pub mod bounded;
pub mod codec;
pub mod codes;
pub mod conformance;
pub mod control;
pub mod errors;
pub mod flags;
pub mod ids;
pub mod signal;
pub mod state;
pub mod stream;
pub mod timeouts;
