//! SFrame Key ID scheme.
//!
//! The on-the-wire SFrame header is produced and parsed by the `sframe`
//! crate. This module decides how `(epoch, leaf_index)` is packed into the
//! MLS Key ID of that crate: 16 low bits of the epoch, then 16 bits of
//! member index, then a context id of 0.

use vstd::prelude::*;

verus! {

/// Bits of the MLS epoch encoded in the KID (its least-significant bits).
pub const EPOCH_BITS: u8 = 16;

/// Bits of the sender's member index encoded in the KID.
pub const INDEX_BITS: u8 = 16;

/// The KID of `(epoch, leaf)`: the epoch's low 16 bits below the 16-bit
/// member index, context id 0 above.
pub open spec fn kid_of(epoch: u64, leaf: u64) -> u64 {
    (leaf * 65536 + epoch % 65536) as u64
}

/// Packs a context id of 0, `epoch` and `member` into an MLS Key ID with
/// `sframe::mls::MlsKeyId::try_new` (16 epoch bits, 16 index bits). The
/// crate's source computes `(member << 16) | (epoch & 0xFFFF)` when `member`
/// fits in 16 bits, which `requires` guarantees.
#[verifier::external_body]
fn mls_key_id_pack(epoch: u64, member: u64) -> (r: u64)
    requires
        member < 65536,
    ensures
        r == kid_of(epoch, member),
{
    let range = sframe::mls::MlsKeyIdBitRange::new(EPOCH_BITS, INDEX_BITS);
    sframe::mls::MlsKeyId::try_new(0u64, epoch, member, range).expect("a member index below 2^16 fits its field").into()
}

/// Reads the epoch field of a Key ID with
/// `sframe::mls::MlsKeyId::epoch_lsb` (16 epoch bits): the crate's source
/// masks the low 16 bits.
#[verifier::external_body]
fn mls_key_id_epoch(kid: u64) -> (r: u64)
    ensures
        r == kid % 65536,
{
    let range = sframe::mls::MlsKeyIdBitRange::new(EPOCH_BITS, INDEX_BITS);
    sframe::mls::MlsKeyId::from_key_id(kid, range).epoch_lsb()
}

/// Reads the member-index field of a Key ID with
/// `sframe::mls::MlsKeyId::member_index` (16 epoch bits, 16 index bits):
/// the crate's source shifts right by 16 and masks 16 bits.
#[verifier::external_body]
fn mls_key_id_member(kid: u64) -> (r: u64)
    ensures
        r == (kid / 65536) % 65536,
{
    let range = sframe::mls::MlsKeyIdBitRange::new(EPOCH_BITS, INDEX_BITS);
    sframe::mls::MlsKeyId::from_key_id(kid, range).member_index()
}

/// SFrame Key ID helper: packs `(epoch_lsb, member_index)` into the Key ID
/// carried in the SFrame header, and unpacks it again on receipt.
#[derive(Clone, Copy, Debug, PartialEq, Eq, Structural)]
pub struct SFrameHeader;

impl SFrameHeader {
    /// Builds the KID for `(epoch, leaf_index)`; the sender index must fit
    /// in the 16 index bits.
    pub fn kid_from(epoch: u64, leaf_index: u32) -> (r: u64)
        requires
            leaf_index < 65536,
        ensures
            r == kid_of(epoch, leaf_index as u64),
    {
        mls_key_id_pack(epoch, leaf_index as u64)
    }

    /// Extracts the epoch's low 16 bits from a KID.
    pub fn epoch_from_kid(kid: u64) -> (r: u64)
        ensures
            r == kid % 65536,
    {
        mls_key_id_epoch(kid)
    }

    /// Reduces a full epoch to the low 16 bits stored in a KID, so it can
    /// be compared against [`SFrameHeader::epoch_from_kid`].
    pub fn epoch_lsb(epoch: u64) -> (r: u64)
        ensures
            r == epoch % 65536,
    {
        Self::epoch_from_kid(Self::kid_from(epoch, 0))
    }

    /// Extracts the sender's leaf/member index from a KID.
    pub fn leaf_from_kid(kid: u64) -> (r: u32)
        ensures
            r == (kid / 65536) % 65536,
    {
        let m = mls_key_id_member(kid);
        m as u32
    }
}

/// Unpacking a packed KID gives back the epoch's low bits and the sender.
pub proof fn lemma_kid_round_trip(epoch: u64, leaf: u64)
    requires
        leaf < 65536,
    ensures
        kid_of(epoch, leaf) % 65536 == epoch % 65536,
        (kid_of(epoch, leaf) / 65536) % 65536 == leaf,
{
}

} // verus!
