//! All canonical error codes.
//!
//! Allocation:
//! * `0x0000`-`0x0FFF`: GBP base layer
//! * `0x1000`-`0x1FFF`: GAP
//! * `0x2000`-`0x2FFF`: GTP
//! * `0x3000`-`0x3FFF`: GSP
//! * `0xF000`-`0xFFFF`: private extensions

use vstd::prelude::*;

verus! {

/// Unsupported protocol version.
pub const UNSUPPORTED_VERSION: u16 = 0x0001;

/// Unknown group_id.
pub const UNKNOWN_GROUP: u16 = 0x0002;

/// Frame epoch does not match the receiver's current epoch.
pub const EPOCH_MISMATCH: u16 = 0x0003;

/// Frame transition_id does not match the current transition.
pub const TRANSITION_MISMATCH: u16 = 0x0004;

/// Sequence number was already used: replay detected.
pub const REPLAY_DETECTED: u16 = 0x0005;

/// AEAD authentication failed.
pub const DECRYPT_FAILED: u16 = 0x0006;

/// MLS commit was rejected.
pub const COMMIT_INVALID: u16 = 0x0007;

/// Stream class used outside its allowed policy.
pub const STREAM_POLICY_VIOLATION: u16 = 0x0008;

/// The coordinator did not see READY quorum within the prepare deadline.
pub const PREPARE_TIMEOUT: u16 = 0x0009;

/// A member did not see EXECUTE_TRANSITION within the execute deadline.
pub const EXECUTE_TIMEOUT: u16 = 0x000A;

/// The coordinator stayed silent longer than the grace period.
pub const COORDINATOR_GONE: u16 = 0x000B;

/// Unknown audio source.
pub const GAP_BAD_SOURCE_ID: u16 = 0x1001;

/// Opus decoder error.
pub const GAP_DECODE_FAILED: u16 = 0x1002;

/// rtp_sequence already seen for this source.
pub const GAP_REPLAY_DETECTED: u16 = 0x1003;

/// key_phase points at a stale epoch.
pub const GAP_EPOCH_STALE: u16 = 0x1004;

/// content_length does not match the body length.
pub const GTP_BAD_LENGTH: u16 = 0x2001;

/// content_type is not supported by the profile.
pub const GTP_UNSUPPORTED_CONTENT_TYPE: u16 = 0x2002;

/// Duplicate (sender_id, message_id).
pub const GTP_DUPLICATE_MESSAGE: u16 = 0x2003;

/// Message rejected by the policy layer (retention / quota / ...).
pub const GTP_POLICY_REJECTED: u16 = 0x2004;

/// Invalid args schema for the given signal_type.
pub const GSP_BAD_SCHEMA: u16 = 0x3001;

/// Sender is not authorised to issue this signal.
pub const GSP_UNAUTHORIZED: u16 = 0x3002;

/// signal_type is not in the registry.
pub const GSP_UNKNOWN_SIGNAL: u16 = 0x3003;

/// Duplicate request_id.
pub const GSP_DUPLICATE_REQUEST: u16 = 0x3004;

/// Signal contradicts the current state.
pub const GSP_STATE_CONFLICT: u16 = 0x3005;

} // verus!
