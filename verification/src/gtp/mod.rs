//! Group Text Protocol: the text sub-protocol. Message envelope, the
//! idempotent client, a bounded message history with resync watermarks,
//! and attachment chunking with integrity checks.

pub mod message;
pub mod client;
pub mod history;
pub mod attachment;
