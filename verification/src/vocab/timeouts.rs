//! Timeout defaults normative for interoperable deployments, in milliseconds.

use vstd::prelude::*;

verus! {

/// Coordinator: max wait for READY quorum after issuing PREPARE_TRANSITION.
pub const T_PREPARE_MAX_MS: u64 = 5_000;

/// Member: max time to complete local commit / welcome processing.
pub const T_READY_MAX_MS: u64 = 5_000;

/// Member: max wait for EXECUTE_TRANSITION after sending READY_FOR_TRANSITION.
pub const T_EXECUTE_MAX_MS: u64 = 10_000;

/// Coordinator: extra slack before declaring quorum failure.
pub const T_QUORUM_GRACE_MS: u64 = 2_000;

/// Member: silence threshold before triggering coordinator handover.
pub const T_COORDINATOR_GRACE_MS: u64 = 10_000;

/// GAP: how long the replay window of a previous epoch is retained so that
/// late in-flight audio frames of that epoch are still accepted.
pub const T_GAP_KEY_OVERLAP_MS: u64 = 10_000;

} // verus!
