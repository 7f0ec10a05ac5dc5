//! An SFrame session bound to one MLS epoch, and the laws that tie its
//! encryptors to its decryptors.

use vstd::prelude::*;
use crate::mls::context::{MlsContext, mls_exported, mls_group_epoch};
use crate::sframe::cipher::{
    DecryptorView, EncryptorView, SFrameDecryptor, SFrameEncryptor, after_open, epoch_matches,
    frame_sealed_by, is_replay, kid_leaf, owed_open, sframe_header_fields,
};
use crate::sframe::error::SFrameError;
use crate::sframe::header::{SFrameHeader, kid_of};
use crate::sframe::kdf::{CipherSuite, be8, derive_base_key};

verus! {

/// The abstract state of a session.
pub struct SessionView {
    /// The 32-byte base key of the epoch.
    pub base_key: Seq<u8>,
    /// The MLS epoch the session belongs to.
    pub epoch: u64,
    /// The cipher suite.
    pub suite: CipherSuite,
}

/// An SFrame session bound to one MLS epoch. A new session is created
/// whenever the MLS group commits: the old base key becomes unreachable and
/// every per-sender key is rotated with it.
pub struct SFrameSession {
    base_key: [u8; 32],
    epoch: u64,
    suite: CipherSuite,
}

impl View for SFrameSession {
    type V = SessionView;

    closed spec fn view(&self) -> SessionView {
        SessionView { base_key: self.base_key@, epoch: self.epoch, suite: self.suite }
    }
}

/// The state of a fresh encryptor of session `s` for sender `leaf`.
pub open spec fn fresh_encryptor(s: SessionView, leaf: u64) -> EncryptorView {
    EncryptorView { base_key: s.base_key, suite: s.suite, kid: kid_of(s.epoch, leaf), next: 0, exhausted: false }
}

/// The state of a fresh decryptor of session `s`.
pub open spec fn fresh_decryptor(s: SessionView) -> DecryptorView {
    DecryptorView { base_key: s.base_key, epoch: s.epoch, suite: s.suite, refused: Map::empty() }
}

impl SFrameSession {
    /// A session from a raw 32-byte base key.
    pub fn new(base_key: [u8; 32], epoch: u64, suite: CipherSuite) -> (r: Self)
        ensures
            r@ == (SessionView { base_key: base_key@, epoch, suite }),
    {
        SFrameSession { base_key, epoch, suite }
    }

    /// A session for the current epoch of `mls`, with the base key that
    /// `derive_base_key` exports under the application-defined `label`.
    pub fn from_mls(mls: &MlsContext, label: &str, suite: CipherSuite) -> (r: Result<Self, SFrameError>)
        ensures
            r matches Ok(s) ==> s@.suite == suite && s@.base_key.len() == 32,
            r matches Ok(s) ==> s@.epoch == mls_group_epoch(mls.group) && s@.base_key == mls_exported(
                mls.group,
                label@,
                be8(mls_group_epoch(mls.group)),
                32,
            ),
            r matches Err(e) ==> e is MlsExport,
    {
        let epoch = mls.epoch();
        let base_key = derive_base_key(mls, label, epoch)?;
        Ok(Self::new(base_key, epoch, suite))
    }

    /// The MLS epoch this session was created for.
    pub fn epoch(&self) -> (r: u64)
        ensures
            r == self@.epoch,
    {
        self.epoch
    }

    /// The active cipher suite.
    pub fn suite(&self) -> (r: CipherSuite)
        ensures
            r == self@.suite,
    {
        self.suite
    }

    /// A sender-side encryptor for `leaf_index`, under the KID of
    /// `(epoch, leaf_index)`; the index must fit in the KID's 16 bits.
    pub fn encryptor(&self, leaf_index: u32) -> (r: SFrameEncryptor)
        requires
            leaf_index < 65536,
        ensures
            r@ == fresh_encryptor(self@, leaf_index as u64),
    {
        let kid = SFrameHeader::kid_from(self.epoch, leaf_index);
        SFrameEncryptor::new(&self.base_key, kid, self.suite)
    }

    /// A receiver-side decryptor for this epoch, with an empty replay
    /// window for every sender.
    pub fn decryptor(&self) -> (r: SFrameDecryptor)
        ensures
            r@ == fresh_decryptor(self@),
    {
        SFrameDecryptor::new(self.base_key, self.epoch, self.suite)
    }
}

/// A frame that a session's encryptor for `leaf` sealed from `plaintext`
/// and `aad` at counter `ctr` is owed, by a decryptor of the same session
/// whose replay window for that sender does not refuse `ctr`, as
/// `plaintext` from `leaf`.
pub proof fn lemma_sealed_frame_opens(
    s: SessionView,
    leaf: u64,
    ctr: u64,
    plaintext: Seq<u8>,
    aad: Seq<u8>,
    frame: Seq<u8>,
    d: DecryptorView,
)
    requires
        leaf < 65536,
        frame_sealed_by(fresh_encryptor(s, leaf), ctr, plaintext, aad, frame),
        d.base_key == s.base_key,
        d.epoch == s.epoch,
        d.suite == s.suite,
        !is_replay(d, kid_of(s.epoch, leaf), ctr),
    ensures
        owed_open(d, frame, aad) == Some((plaintext, leaf)),
{
    assert(kid_of(s.epoch, leaf) % 65536 == s.epoch % 65536);
    assert(kid_leaf(kid_of(s.epoch, leaf)) == leaf);
}

/// Once a decryptor accepted a frame, the same frame delivered again is a
/// replay.
pub proof fn lemma_accepted_frame_is_replay(d: DecryptorView, post: DecryptorView, frame: Seq<u8>, kid: u64, ctr: u64)
    requires
        sframe_header_fields(frame) == Some((kid, ctr)),
        after_open(d, post, kid, ctr),
    ensures
        is_replay(post, kid, ctr),
{
}

/// A frame sealed by a sender of one session names that session's epoch
/// in its KID, so a decryptor of an epoch with other low 16 bits refuses
/// it.
pub proof fn lemma_other_epoch_is_refused(
    s: SessionView,
    leaf: u64,
    ctr: u64,
    plaintext: Seq<u8>,
    aad: Seq<u8>,
    frame: Seq<u8>,
    d: DecryptorView,
)
    requires
        leaf < 65536,
        frame_sealed_by(fresh_encryptor(s, leaf), ctr, plaintext, aad, frame),
        d.epoch % 65536 != s.epoch % 65536,
    ensures
        sframe_header_fields(frame) matches Some((kid, _)) && !epoch_matches(d, kid),
{
    assert(kid_of(s.epoch, leaf) % 65536 == s.epoch % 65536);
}

} // verus!
