//! The stateful SFrame encryptor (one per sender) and decryptor (one per
//! epoch, for every sender).
//!
//! The frame format, the per-KID key expansion from the base key and the
//! AEAD are those of the `sframe` crate. The encryptor keeps the frame
//! counter of its KID; the decryptor keeps one replay window per KID in the
//! crate's `ReplayAttackProtectionStore`, screening a frame before it is
//! decrypted and recording it only once decryption authenticated it.

use vstd::prelude::*;
use crate::sframe::error::SFrameError;
use crate::sframe::header::SFrameHeader;
use crate::sframe::kdf::{CipherSuite, suite_code};

verus! {

/// Replay-window tolerance in frames: how far behind the newest frame of a
/// sender a counter may lag before it is rejected as too old.
pub const REPLAY_WINDOW: usize = 1024;

/// The replay protection of the `sframe` crate: one sliding window of
/// counters per Key ID.
#[verifier::external_type_specification]
#[verifier::external_body]
pub struct ExReplayAttackProtectionStore(sframe::frame::validation::ReplayAttackProtectionStore);

/// The SFrame ciphertext (header, encrypted data and tag, without the
/// metadata) that the `sframe` crate produces for `plaintext` and the
/// metadata `aad`, under the key it expands for `kid` from `base_key` with
/// suite `suite`, at counter `ctr`.
pub uninterp spec fn sframe_sealed(
    suite: u8,
    base_key: Seq<u8>,
    kid: u64,
    ctr: u64,
    plaintext: Seq<u8>,
    aad: Seq<u8>,
) -> Seq<u8>;

/// The plaintext that the `sframe` crate recovers from the SFrame
/// ciphertext `frame` with metadata `aad`, under the key it expands from
/// `base_key` for the KID in the frame's header; `None` when the frame
/// does not authenticate.
pub uninterp spec fn sframe_opened(suite: u8, base_key: Seq<u8>, frame: Seq<u8>, aad: Seq<u8>) -> Option<Seq<u8>>;

/// The Key ID and counter of the SFrame header at the start of `frame`, or
/// `None` when no header can be read there.
pub uninterp spec fn sframe_header_fields(frame: Seq<u8>) -> Option<(u64, u64)>;

/// For each Key ID that a replay store tracks, the counters its window
/// refuses when screening a frame: those already recorded within the
/// window, and those too old for it.
pub uninterp spec fn replay_refused(store: sframe::frame::validation::ReplayAttackProtectionStore) -> Map<u64, Set<u64>>;

/// No Key ID tracked.
pub open spec fn no_tracked() -> Map<u64, Set<u64>> {
    Map::empty()
}

/// `ctr` is refused for `kid` by a store whose refusals are `refused`.
pub open spec fn refuses(refused: Map<u64, Set<u64>>, kid: u64, ctr: u64) -> bool {
    refused.contains_key(kid) && refused[kid].contains(ctr)
}

/// The refusals after counter `ctr` of `kid` was recorded: `kid` is
/// tracked and refuses `ctr`; every other tracked Key ID refuses what it
/// refused before.
pub open spec fn recorded(pre: Map<u64, Set<u64>>, post: Map<u64, Set<u64>>, kid: u64, ctr: u64) -> bool {
    &&& post.dom() == pre.dom().insert(kid)
    &&& post[kid].contains(ctr)
    &&& forall|k: u64| #[trigger] pre.contains_key(k) && k != kid ==> post[k] == pre[k]
}

/// Why a validated decryption failed.
pub enum OpenFailure {
    /// The replay window of the frame's KID rejected its counter.
    Replay,
    /// The frame did not authenticate.
    Decrypt,
}

/// `ReplayAttackProtectionStore::new` with a tolerance of
/// [`REPLAY_WINDOW`] frames. A new store tracks no Key ID.
#[verifier::external_body]
fn new_replay_store() -> (r: sframe::frame::validation::ReplayAttackProtectionStore)
    ensures
        replay_refused(r) == no_tracked(),
{
    sframe::frame::validation::ReplayAttackProtectionStore::new(sframe::frame::validation::Tolerance::new(REPLAY_WINDOW))
}

/// `sframe::header::SframeHeader::deserialize`: the Key ID and counter of
/// the header at the start of `frame`, or the parse error's text.
#[verifier::external_body]
fn parse_header(frame: &[u8]) -> (r: Result<(u64, u64), String>)
    ensures
        match r {
            Ok(h) => sframe_header_fields(frame@) == Some(h),
            Err(_) => sframe_header_fields(frame@) is None,
        },
{
    match sframe::header::SframeHeader::deserialize(frame) {
        Ok(h) => Ok((h.key_id(), h.counter())),
        Err(e) => Err(e.to_string()),
    }
}

/// `MediaFrameView::encrypt` of `plaintext` with metadata `aad` at counter
/// `ctr`, under the `EncryptionKey` that `derive_from` expands for `kid`
/// from `base_key`. The crate lays the result out as the metadata followed
/// by the SFrame ciphertext, whose header carries `kid` and `ctr`; as for
/// any AEAD, decrypting that ciphertext with the same key and metadata
/// gives back the plaintext.
#[verifier::external_body]
fn sframe_seal(
    suite: CipherSuite,
    base_key: &[u8; 32],
    kid: u64,
    ctr: u64,
    plaintext: &[u8],
    aad: &[u8],
) -> (r: Result<Vec<u8>, String>)
    ensures
        r matches Ok(v) ==> v@ == aad@ + sframe_sealed(suite_code(suite), base_key@, kid, ctr, plaintext@, aad@),
        r is Ok ==> sframe_header_fields(sframe_sealed(suite_code(suite), base_key@, kid, ctr, plaintext@, aad@))
            == Some((kid, ctr)),
        r is Ok ==> sframe_opened(
            suite_code(suite),
            base_key@,
            sframe_sealed(suite_code(suite), base_key@, kid, ctr, plaintext@, aad@),
            aad@,
        ) == Some(plaintext@),
{
    let cs = match suite {
        CipherSuite::Aes128Gcm => sframe::CipherSuite::AesGcm128Sha256,
        CipherSuite::Aes256Gcm => sframe::CipherSuite::AesGcm256Sha512,
    };
    let key = sframe::key::EncryptionKey::derive_from(cs, kid, base_key).map_err(|e| e.to_string())?;
    let mut counter = sframe::frame::SingleUseCounter::new(ctr);
    let frame = sframe::frame::MediaFrameView::try_with_meta_data(&mut counter, plaintext, aad)
        .map_err(|e| e.to_string())?;
    let sealed = frame.encrypt(&key).map_err(|e| e.to_string())?;
    Ok(sealed.as_ref().to_vec())
}

/// `EncryptedFrameView::validated_decrypt` of `frame` with metadata `aad`
/// against `store`, under the `DecryptionKey` that `derive_from` expands
/// for `kid` (the KID of the frame's header) from `base_key`.
///
/// Per the crate's source the store first screens the frame without
/// changing: a KID it does not track passes, and so does a counter of a
/// tracked KID unless its window refuses it (too old or already recorded).
/// Only a frame that passes and then decrypts is recorded, after which its
/// window refuses that counter. A rejection by the store is `Replay`, any
/// other failure `Decrypt`.
#[verifier::external_body]
fn sframe_validated_open(
    suite: CipherSuite,
    base_key: &[u8; 32],
    kid: u64,
    frame: &[u8],
    aad: &[u8],
    store: &mut sframe::frame::validation::ReplayAttackProtectionStore,
) -> (r: Result<Vec<u8>, OpenFailure>)
    requires
        sframe_header_fields(frame@) matches Some(h) && h.0 == kid,
    ensures
        match r {
            Ok(p) => sframe_opened(suite_code(suite), base_key@, frame@, aad@) == Some(p@) && !refuses(
                replay_refused(*old(store)),
                kid,
                sframe_header_fields(frame@)->Some_0.1,
            ) && recorded(
                replay_refused(*old(store)),
                replay_refused(*final(store)),
                kid,
                sframe_header_fields(frame@)->Some_0.1,
            ),
            Err(OpenFailure::Decrypt) => sframe_opened(suite_code(suite), base_key@, frame@, aad@) is None
                && *final(store) == *old(store),
            Err(OpenFailure::Replay) => refuses(
                replay_refused(*old(store)),
                kid,
                sframe_header_fields(frame@)->Some_0.1,
            ) && *final(store) == *old(store),
        },
        refuses(replay_refused(*old(store)), kid, sframe_header_fields(frame@)->Some_0.1) ==> r matches Err(
            OpenFailure::Replay,
        ),
        sframe_opened(suite_code(suite), base_key@, frame@, aad@) is Some && !(r matches Err(
            OpenFailure::Replay,
        )) ==> r is Ok,
{
    let cs = match suite {
        CipherSuite::Aes128Gcm => sframe::CipherSuite::AesGcm128Sha256,
        CipherSuite::Aes256Gcm => sframe::CipherSuite::AesGcm256Sha512,
    };
    let key = sframe::key::DecryptionKey::derive_from(cs, kid, base_key).map_err(|_| OpenFailure::Decrypt)?;
    let view = sframe::frame::EncryptedFrameView::try_with_meta_data(frame, aad).map_err(|_| OpenFailure::Decrypt)?;
    match view.validated_decrypt(&key, store) {
        Ok(media) => Ok(media.payload().to_vec()),
        Err(sframe::error::SframeError::FrameValidationFailed(_)) => Err(OpenFailure::Replay),
        Err(_) => Err(OpenFailure::Decrypt),
    }
}

// ─── Encryptor ──────────────────────────────────────────────────────────────

/// The abstract state of an encryptor.
pub struct EncryptorView {
    /// The epoch's base key.
    pub base_key: Seq<u8>,
    /// The cipher suite.
    pub suite: CipherSuite,
    /// The KID this encryptor seals under.
    pub kid: u64,
    /// The counter the next frame gets.
    pub next: u64,
    /// Every counter value was used up.
    pub exhausted: bool,
}

/// `frame` is what an encryptor in state `e` seals from `plaintext` and
/// `aad` at counter `ctr`: its header carries the encryptor's KID and the
/// counter, and it opens under the same key and metadata to `plaintext`.
pub open spec fn frame_sealed_by(e: EncryptorView, ctr: u64, plaintext: Seq<u8>, aad: Seq<u8>, frame: Seq<u8>) -> bool {
    &&& frame == sframe_sealed(suite_code(e.suite), e.base_key, e.kid, ctr, plaintext, aad)
    &&& sframe_header_fields(frame) == Some((e.kid, ctr))
    &&& sframe_opened(suite_code(e.suite), e.base_key, frame, aad) == Some(plaintext)
}

/// The counter state after the value `e.next` was handed out: the next
/// value, or exhaustion once `u64::MAX` was used.
pub open spec fn counter_used(e: EncryptorView) -> EncryptorView {
    if e.next == u64::MAX {
        EncryptorView { exhausted: true, ..e }
    } else {
        EncryptorView { next: (e.next + 1) as u64, ..e }
    }
}

/// Handing out a counter value never repeats one: the next value is larger,
/// or the counter is exhausted, which happens only after `u64::MAX` was
/// used.
pub proof fn lemma_counter_never_repeats(e: EncryptorView)
    requires
        !e.exhausted,
    ensures
        counter_used(e).exhausted || counter_used(e).next > e.next,
        counter_used(e).exhausted ==> e.next == u64::MAX,
        counter_used(e).kid == e.kid && counter_used(e).base_key == e.base_key,
{
}

/// Stateful per-sender SFrame encryptor: the key material of one
/// `(epoch, leaf_index)` KID and its monotonic frame counter, which never
/// hands out a value twice.
pub struct SFrameEncryptor {
    base_key: [u8; 32],
    suite: CipherSuite,
    kid: u64,
    next: u64,
    exhausted: bool,
}

impl View for SFrameEncryptor {
    type V = EncryptorView;

    closed spec fn view(&self) -> EncryptorView {
        EncryptorView {
            base_key: self.base_key@,
            suite: self.suite,
            kid: self.kid,
            next: self.next,
            exhausted: self.exhausted,
        }
    }
}

impl SFrameEncryptor {
    /// An encryptor for `kid` whose counter starts at 0.
    pub fn new(base_key: &[u8; 32], kid: u64, suite: CipherSuite) -> (r: Self)
        ensures
            r@ == (EncryptorView { base_key: base_key@, suite, kid, next: 0, exhausted: false }),
    {
        Self::with_counter_at(base_key, kid, suite, 0)
    }

    /// An encryptor for `kid` whose counter starts at `start`, so that the
    /// end of the counter range can be reached without 2^64 frames.
    pub fn with_counter_at(base_key: &[u8; 32], kid: u64, suite: CipherSuite, start: u64) -> (r: Self)
        ensures
            r@ == (EncryptorView { base_key: base_key@, suite, kid, next: start, exhausted: false }),
    {
        SFrameEncryptor { base_key: *base_key, suite, kid, next: start, exhausted: false }
    }

    /// Encrypts `plaintext` and returns the complete SFrame payload:
    /// header, ciphertext and tag. `extra_aad` is bound into the tag (e.g.
    /// an RTP header) but not carried in the payload; the receiver supplies
    /// the same bytes to [`SFrameDecryptor::decrypt`].
    ///
    /// Once every counter value was used the encryptor refuses with
    /// `CounterExhausted` instead of reusing a nonce; a counter value is
    /// used up even when the encryption itself fails.
    pub fn encrypt(&mut self, plaintext: &[u8], extra_aad: &[u8]) -> (r: Result<Vec<u8>, SFrameError>)
        ensures
            old(self)@.exhausted ==> final(self)@ == old(self)@ && (r matches Err(
                SFrameError::CounterExhausted(k),
            ) && k == old(self)@.kid),
            !old(self)@.exhausted ==> final(self)@ == counter_used(old(self)@),
            r matches Ok(v) ==> frame_sealed_by(old(self)@, old(self)@.next, plaintext@, extra_aad@, v@),
            r matches Err(e) ==> (e is CounterExhausted && old(self)@.exhausted) || (e is Encrypt
                && !old(self)@.exhausted),
    {
        if self.exhausted {
            return Err(SFrameError::CounterExhausted(self.kid));
        }
        let ctr = self.next;
        if ctr == u64::MAX {
            self.exhausted = true;
        } else {
            self.next = ctr + 1;
        }
        match sframe_seal(self.suite, &self.base_key, self.kid, ctr, plaintext, extra_aad) {
            Ok(full) => {
                let mut full = full;
                let frame = full.split_off(extra_aad.len());
                assert(frame@ =~= sframe_sealed(
                    suite_code(self.suite),
                    self.base_key@,
                    self.kid,
                    ctr,
                    plaintext@,
                    extra_aad@,
                ));
                Ok(frame)
            },
            Err(_) => Err(SFrameError::Encrypt),
        }
    }

    /// Current counter value: the counter the next frame gets (after the
    /// last value was used, that last value).
    pub fn counter(&self) -> (r: u64)
        ensures
            r == self@.next,
    {
        self.next
    }

    /// KID this encryptor was created for.
    pub fn kid(&self) -> (r: u64)
        ensures
            r == self@.kid,
    {
        self.kid
    }
}

// ─── Decryptor ──────────────────────────────────────────────────────────────

/// The abstract state of a decryptor.
pub struct DecryptorView {
    /// The epoch's base key.
    pub base_key: Seq<u8>,
    /// The epoch the decryptor accepts frames of.
    pub epoch: u64,
    /// The cipher suite.
    pub suite: CipherSuite,
    /// For each sender KID tracked, the counters its replay window refuses
    /// (already accepted within the window, or too old for it).
    pub refused: Map<u64, Set<u64>>,
}

/// The KID in the header of `frame`.
pub open spec fn frame_kid(frame: Seq<u8>) -> u64 {
    sframe_header_fields(frame)->Some_0.0
}

/// The counter in the header of `frame`.
pub open spec fn frame_ctr(frame: Seq<u8>) -> u64 {
    sframe_header_fields(frame)->Some_0.1
}

/// The KID carries the low 16 bits of the decryptor's epoch.
pub open spec fn epoch_matches(d: DecryptorView, kid: u64) -> bool {
    kid % 65536 == d.epoch % 65536
}

/// What `frame` with metadata `aad` decrypts to under the decryptor's key
/// material.
pub open spec fn opened_in(d: DecryptorView, frame: Seq<u8>, aad: Seq<u8>) -> Option<Seq<u8>> {
    sframe_opened(suite_code(d.suite), d.base_key, frame, aad)
}

/// The replay window of `kid` refuses `ctr`.
pub open spec fn is_replay(d: DecryptorView, kid: u64, ctr: u64) -> bool {
    refuses(d.refused, kid, ctr)
}

/// `post` is the state after a frame of `kid` with counter `ctr` was
/// accepted at `pre`: same key material and epoch, and the replay windows
/// recorded the counter.
pub open spec fn after_open(pre: DecryptorView, post: DecryptorView, kid: u64, ctr: u64) -> bool {
    &&& post.base_key == pre.base_key
    &&& post.epoch == pre.epoch
    &&& post.suite == pre.suite
    &&& recorded(pre.refused, post.refused, kid, ctr)
}

/// The sender index carried in a KID.
pub open spec fn kid_leaf(kid: u64) -> u64 {
    (kid / 65536) % 65536
}

/// The plaintext and sender that the decryptor owes for `frame`: its
/// header reads, its KID carries the decryptor's epoch, no frame of that
/// KID was accepted yet, and it authenticates.
pub open spec fn owed_open(d: DecryptorView, frame: Seq<u8>, aad: Seq<u8>) -> Option<(Seq<u8>, u64)> {
    match sframe_header_fields(frame) {
        Some((kid, ctr)) => if epoch_matches(d, kid) && !is_replay(d, kid, ctr) && opened_in(d, frame, aad) is Some {
            Some((opened_in(d, frame, aad)->Some_0, kid_leaf(kid)))
        } else {
            None
        },
        None => None,
    }
}

/// Multi-sender SFrame decryptor for one epoch, with a replay window per
/// sender KID.
pub struct SFrameDecryptor {
    base_key: [u8; 32],
    epoch: u64,
    suite: CipherSuite,
    replay: sframe::frame::validation::ReplayAttackProtectionStore,
}

impl View for SFrameDecryptor {
    type V = DecryptorView;

    closed spec fn view(&self) -> DecryptorView {
        DecryptorView {
            base_key: self.base_key@,
            epoch: self.epoch,
            suite: self.suite,
            refused: replay_refused(self.replay),
        }
    }
}

impl SFrameDecryptor {
    /// A decryptor for `epoch` that has seen no frame.
    pub fn new(base_key: [u8; 32], epoch: u64, suite: CipherSuite) -> (r: Self)
        ensures
            r@ == (DecryptorView { base_key: base_key@, epoch, suite, refused: Map::empty() }),
    {
        SFrameDecryptor { base_key, epoch, suite, replay: new_replay_store() }
    }

    /// Decrypts an SFrame `payload` and returns `(plaintext, sender_leaf)`.
    /// `extra_aad` must be the bytes passed on the encrypting side.
    ///
    /// The header is read first (`Header` on failure); a KID of another
    /// epoch is `UnknownKid`; then the sender's replay window screens the
    /// counter (`Replay`), the frame is decrypted (`Decrypt`), and only an
    /// authenticated frame is recorded in the window.
    pub fn decrypt(&mut self, payload: &[u8], extra_aad: &[u8]) -> (r: Result<(Vec<u8>, u32), SFrameError>)
        ensures
            sframe_header_fields(payload@) is None ==> final(self)@ == old(self)@ && r matches Err(
                SFrameError::Header(_),
            ),
            sframe_header_fields(payload@) is Some && !epoch_matches(old(self)@, frame_kid(payload@))
                ==> final(self)@ == old(self)@ && (r matches Err(SFrameError::UnknownKid(k)) && k
                == frame_kid(payload@)),
            sframe_header_fields(payload@) is Some && epoch_matches(old(self)@, frame_kid(payload@))
                && is_replay(old(self)@, frame_kid(payload@), frame_ctr(payload@)) ==> final(self)@
                == old(self)@ && (r matches Err(SFrameError::Replay { kid: k, ctr: c }) && k == frame_kid(
                payload@,
            ) && c == frame_ctr(payload@)),
            owed_open(old(self)@, payload@, extra_aad@) matches Some((p, leaf)) ==> r matches Ok(
                (q, l),
            ) && q@ == p && l == leaf,
            r matches Ok((p, leaf)) ==> sframe_header_fields(payload@) matches Some((kid, ctr))
                && epoch_matches(old(self)@, kid) && leaf == kid_leaf(kid) && opened_in(
                old(self)@,
                payload@,
                extra_aad@,
            ) == Some(p@) && after_open(old(self)@, final(self)@, kid, ctr),
            r matches Err(SFrameError::Replay { kid, ctr }) ==> sframe_header_fields(payload@) == Some(
                (kid, ctr),
            ) && epoch_matches(old(self)@, kid) && is_replay(old(self)@, kid, ctr) && final(self)@
                == old(self)@,
            r matches Err(SFrameError::Decrypt) ==> sframe_header_fields(payload@) matches Some((kid, _))
                && epoch_matches(old(self)@, kid) && opened_in(old(self)@, payload@, extra_aad@) is None
                && final(self)@ == old(self)@,
            r matches Err(e) ==> e is Header || e is UnknownKid || e is Replay || e is Decrypt,
    {
        let (kid, ctr) = match parse_header(payload) {
            Ok(h) => h,
            Err(m) => {
                return Err(SFrameError::Header(m));
            },
        };
        if SFrameHeader::epoch_from_kid(kid) != SFrameHeader::epoch_lsb(self.epoch) {
            return Err(SFrameError::UnknownKid(kid));
        }
        let leaf = SFrameHeader::leaf_from_kid(kid);
        match sframe_validated_open(self.suite, &self.base_key, kid, payload, extra_aad, &mut self.replay) {
            Ok(p) => Ok((p, leaf)),
            Err(OpenFailure::Replay) => Err(SFrameError::Replay { kid, ctr }),
            Err(OpenFailure::Decrypt) => Err(SFrameError::Decrypt),
        }
    }

    /// Drops all per-sender replay state (call on epoch change).
    pub fn reset(&mut self)
        ensures
            final(self)@ == (DecryptorView { refused: Map::empty(), ..old(self)@ }),
    {
        self.replay = new_replay_store();
    }
}

} // verus!
