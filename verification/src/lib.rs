//! Group Protocol Stack: a layered, end-to-end encrypted group-messaging
//! protocol family (GBP base layer with the GTP, GAP and GSP sub-protocols),
//! written in Verus with machine-checked contracts.

pub mod bytes;
pub mod clock;
pub mod keyed;
pub mod text;
pub mod vocab;
pub mod sframe;
pub mod base;
pub mod mls;
pub mod node;
pub mod gtp;
pub mod gap;
pub mod gsp;
pub mod transport;
pub mod report;
