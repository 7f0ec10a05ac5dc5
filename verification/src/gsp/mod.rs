//! Group Signaling Protocol: the signalling sub-protocol. Signal envelope,
//! argument schemas, the client that keeps membership and mute state,
//! roles with permissions, and capability negotiation.

pub mod args;
pub mod capabilities;
pub mod client;
pub mod roles;
pub mod signal;
pub mod token_set;
