//! GBP frame delivery flags.
//!
//! * `O` (ordered): preserve in-stream ordering.
//! * `R` (reliable): retransmit until ACK / NACK / timeout.
//! * `A` (ack-req): acknowledgement is mandatory.
//! * `S` (system): control plane frame, processed before application delivery.
//! * `C` (critical): frame MUST match the receiver's current `transition_id`.

use vstd::prelude::*;

verus! {

/// Bit set on top of `u16`.
#[derive(Copy, Clone, Debug, Default, PartialEq, Eq, Structural, Hash)]
pub struct GbpFlags(pub u16);

impl GbpFlags {
    /// Bit 0: ordered.
    pub const ORDERED: u16 = 0x0001;
    /// Bit 1: reliable.
    pub const RELIABLE: u16 = 0x0002;
    /// Bit 2: ack required.
    pub const ACK_REQ: u16 = 0x0004;
    /// Bit 3: system frame.
    pub const SYSTEM: u16 = 0x0008;
    /// Bit 4: critical (must match the current transition_id).
    pub const CRITICAL: u16 = 0x0010;

    /// Constructs a flag set from raw bits.
    pub fn from_bits(bits: u16) -> (r: Self)
        ensures
            r.0 == bits,
    {
        GbpFlags(bits)
    }

    /// Returns `true` if any bit of `bit` is set.
    pub fn has(self, bit: u16) -> (r: bool)
        ensures
            r == (self.0 & bit != 0),
    {
        self.0 & bit != 0
    }

    /// `O | R | A` profile: chat / signaling messages.
    pub fn ordered_reliable_ack() -> (r: u16)
        ensures
            r == 0x0007,
    {
        assert(0x0001u16 | 0x0002u16 | 0x0004u16 == 0x0007u16) by (bit_vector);
        Self::ORDERED | Self::RELIABLE | Self::ACK_REQ
    }

    /// `O | R | S` profile: control plane (system).
    pub fn ordered_reliable_system() -> (r: u16)
        ensures
            r == 0x000B,
    {
        assert(0x0001u16 | 0x0002u16 | 0x0008u16 == 0x000Bu16) by (bit_vector);
        Self::ORDERED | Self::RELIABLE | Self::SYSTEM
    }

    /// `O` profile: best-effort ordered (voice and other real-time media).
    pub fn ordered_only() -> (r: u16)
        ensures
            r == 0x0001,
    {
        Self::ORDERED
    }
}

} // verus!
