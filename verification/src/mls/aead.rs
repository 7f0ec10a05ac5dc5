//! ChaCha20-Poly1305 sealing with a stream key and a per-stream sequence
//! number: the nonce is the sequence number, big-endian, in the first four
//! of twelve bytes.

use chacha20poly1305::aead::{Aead, KeyInit};
use vstd::prelude::*;
use crate::mls::MlsError;

verus! {

/// The nonce of sequence number `seq`.
pub open spec fn seq_nonce(seq: u32) -> Seq<u8> {
    seq![
        ((seq / 0x100_0000) % 256) as u8,
        ((seq / 0x1_0000) % 256) as u8,
        ((seq / 0x100) % 256) as u8,
        (seq % 256) as u8,
        0u8,
        0u8,
        0u8,
        0u8,
        0u8,
        0u8,
        0u8,
        0u8,
    ]
}

/// The ciphertext (with tag) that ChaCha20-Poly1305 produces for `pt`
/// under `key` and `nonce`, as `chacha20poly1305::ChaCha20Poly1305`
/// computes it.
pub uninterp spec fn chacha20poly1305_seal(key: Seq<u8>, nonce: Seq<u8>, pt: Seq<u8>) -> Seq<u8>;

/// The plaintext that ChaCha20-Poly1305 recovers from `ct` under `key`
/// and `nonce`, or `None` when the tag does not verify.
pub uninterp spec fn chacha20poly1305_open(key: Seq<u8>, nonce: Seq<u8>, ct: Seq<u8>) -> Option<Seq<u8>>;

/// Largest plaintext the cipher accepts: fewer than `u32::MAX` blocks of
/// 64 bytes.
pub open spec fn aead_len_ok(n: nat) -> bool {
    n / 64 < u32::MAX
}

/// `ChaCha20Poly1305::encrypt` with the 32-byte key and 12-byte nonce.
/// Per its source, it fails only for a plaintext of `u32::MAX` blocks or
/// more, and otherwise returns the ciphertext followed by the 16-byte tag;
/// the ciphertext is a function of key, nonce and plaintext.
#[verifier::external_body]
fn aead_encrypt(key: &[u8; 32], nonce: &[u8; 12], pt: &[u8]) -> (r: Result<Vec<u8>, String>)
    ensures
        aead_len_ok(pt@.len()) ==> r is Ok,
        r matches Ok(c) ==> c@ == chacha20poly1305_seal(key@, nonce@, pt@) && c@.len() == pt@.len() + 16,
{
    let cipher = chacha20poly1305::ChaCha20Poly1305::new(chacha20poly1305::Key::from_slice(key));
    cipher.encrypt(chacha20poly1305::Nonce::from_slice(nonce), pt).map_err(|e| e.to_string())
}

/// `ChaCha20Poly1305::decrypt` with the 32-byte key and 12-byte nonce.
/// Its result is a function of key, nonce and ciphertext; and, as the
/// AEAD contract of the crate states, what `encrypt` sealed under the same
/// key and nonce opens to the same plaintext.
#[verifier::external_body]
fn aead_decrypt(key: &[u8; 32], nonce: &[u8; 12], ct: &[u8]) -> (r: Result<Vec<u8>, String>)
    ensures
        match r {
            Ok(p) => chacha20poly1305_open(key@, nonce@, ct@) == Some(p@),
            Err(_) => chacha20poly1305_open(key@, nonce@, ct@) is None,
        },
        forall|p: Seq<u8>| #[trigger] chacha20poly1305_seal(key@, nonce@, p) == ct@ && aead_len_ok(p.len()) ==> r is Ok && r->Ok_0@ == p,
{
    let cipher = chacha20poly1305::ChaCha20Poly1305::new(chacha20poly1305::Key::from_slice(key));
    cipher.decrypt(chacha20poly1305::Nonce::from_slice(nonce), ct).map_err(|e| e.to_string())
}

/// The nonce of sequence number `seq`: its big-endian bytes, then zeros.
pub fn nonce_for(seq: u32) -> (r: [u8; 12])
    ensures
        r@ == seq_nonce(seq),
{
    let r = [
        ((seq / 0x100_0000) % 256) as u8,
        ((seq / 0x1_0000) % 256) as u8,
        ((seq / 0x100) % 256) as u8,
        (seq % 256) as u8,
        0u8,
        0u8,
        0u8,
        0u8,
        0u8,
        0u8,
        0u8,
        0u8,
    ];
    assert(r@ =~= seq_nonce(seq));
    r
}

/// Seals `plaintext` under `key` with the nonce of `seq`; a failure is an
/// `Aead` error.
pub fn seal_with_key(key: &[u8; 32], seq: u32, plaintext: &[u8]) -> (r: Result<Vec<u8>, MlsError>)
    ensures
        aead_len_ok(plaintext@.len()) ==> r is Ok,
        r matches Ok(c) ==> c@ == chacha20poly1305_seal(key@, seq_nonce(seq), plaintext@),
        r matches Err(e) ==> e is Aead,
{
    let nonce = nonce_for(seq);
    match aead_encrypt(key, &nonce, plaintext) {
        Ok(c) => Ok(c),
        Err(m) => Err(MlsError::Aead(m)),
    }
}

/// Opens `ciphertext` under `key` with the nonce of `seq`; a failure is
/// an `Aead` error. What [`seal_with_key`] sealed under the same key and
/// sequence number opens to the same plaintext.
pub fn open_with_key(key: &[u8; 32], seq: u32, ciphertext: &[u8]) -> (r: Result<Vec<u8>, MlsError>)
    ensures
        match r {
            Ok(p) => chacha20poly1305_open(key@, seq_nonce(seq), ciphertext@) == Some(p@),
            Err(e) => chacha20poly1305_open(key@, seq_nonce(seq), ciphertext@) is None && e is Aead,
        },
        forall|p: Seq<u8>|
            #[trigger] chacha20poly1305_seal(key@, seq_nonce(seq), p) == ciphertext@ && aead_len_ok(p.len()) ==> r is Ok
                && r->Ok_0@ == p,
{
    let nonce = nonce_for(seq);
    match aead_decrypt(key, &nonce, ciphertext) {
        Ok(p) => Ok(p),
        Err(m) => Err(MlsError::Aead(m)),
    }
}

} // verus!
