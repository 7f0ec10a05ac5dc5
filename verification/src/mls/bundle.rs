//! The invite bundle handed to bindings by a full invite: the MLS Commit
//! (broadcast to the existing members) and the Welcome (unicast to the
//! joiner) in one buffer, laid out as `[u32-LE commit_len | commit |
//! welcome]`. The welcome's length is what remains after the prefix and the
//! commit.

use vstd::prelude::*;
use crate::bytes::{copy_bytes, extend_bytes};
use crate::transport::{le_bytes, le_value, lemma_prefix_round_trip, length_prefix, prefix_length};

verus! {

/// The bundle of `commit` and `welcome`.
pub open spec fn invite_bundle(commit: Seq<u8>, welcome: Seq<u8>) -> Seq<u8> {
    le_bytes(commit.len() as u32) + commit + welcome
}

/// Lays out `commit` and `welcome` as an invite bundle; the commit's
/// length must fit the 32-bit prefix.
pub fn pack_invite(commit: &[u8], welcome: &[u8]) -> (r: Vec<u8>)
    requires
        commit@.len() <= u32::MAX,
    ensures
        r@ == invite_bundle(commit@, welcome@),
{
    let prefix = length_prefix(commit.len() as u32);
    let mut out: Vec<u8> = Vec::new();
    extend_bytes(&mut out, &prefix);
    extend_bytes(&mut out, commit);
    extend_bytes(&mut out, welcome);
    assert(out@ =~= invite_bundle(commit@, welcome@));
    out
}

/// Splits an invite bundle into its commit and welcome; `None` when the
/// buffer is shorter than its prefix and the commit length it announces.
pub fn unpack_invite(bytes: &[u8]) -> (r: Option<(Vec<u8>, Vec<u8>)>)
    ensures
        match r {
            Some((c, w)) => bytes@.len() >= 4 && c@.len() == le_value(bytes@.take(4)) && bytes@ == bytes@.take(4)
                + c@ + w@,
            None => bytes@.len() < 4 || bytes@.len() - 4 < le_value(bytes@.take(4)),
        },
{
    if bytes.len() < 4 {
        return None;
    }
    let prefix = [bytes[0], bytes[1], bytes[2], bytes[3]];
    assert(prefix@ =~= bytes@.take(4));
    let n = prefix_length(prefix) as usize;
    if bytes.len() - 4 < n {
        return None;
    }
    let c = copy_bytes(vstd::slice::slice_subrange(bytes, 4, 4 + n));
    let w = copy_bytes(vstd::slice::slice_subrange(bytes, 4 + n, bytes.len()));
    assert(bytes@ =~= bytes@.take(4) + c@ + w@);
    Some((c, w))
}

/// A bundle splits back into the commit and welcome it was made of.
pub proof fn lemma_invite_round_trip(commit: Seq<u8>, welcome: Seq<u8>)
    requires
        commit.len() <= u32::MAX,
    ensures
        invite_bundle(commit, welcome).take(4) == le_bytes(commit.len() as u32),
        le_value(invite_bundle(commit, welcome).take(4)) == commit.len(),
        invite_bundle(commit, welcome).subrange(4, 4 + commit.len() as int) == commit,
        invite_bundle(commit, welcome).skip(4 + commit.len() as int) == welcome,
{
    let b = invite_bundle(commit, welcome);
    assert(b.take(4) =~= le_bytes(commit.len() as u32));
    lemma_prefix_round_trip(commit.len() as u32);
    assert(b.subrange(4, 4 + commit.len() as int) =~= commit);
    assert(b.skip(4 + commit.len() as int) =~= welcome);
}

} // verus!
