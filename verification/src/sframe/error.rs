//! Errors of the SFrame layer.

use vstd::prelude::*;
use crate::text::{decimal, decimal_string, hex, hex_string, join2};

verus! {

/// Errors that can occur in the SFrame layer.
#[derive(Debug)]
pub enum SFrameError {
    /// MLS `ExportSecret` failed.
    MlsExport(String),
    /// AEAD encryption failed.
    Encrypt,
    /// AEAD decryption failed (wrong key, tampered ciphertext, bad AAD).
    Decrypt,
    /// The SFrame header could not be parsed.
    Header(String),
    /// The counter in the received frame has already been seen: a replay.
    Replay {
        /// Key ID that carried the duplicate counter.
        kid: u64,
        /// The duplicated counter value.
        ctr: u64,
    },
    /// This sender used up every counter value for its KID. Encrypting again
    /// would have to reuse a `(key, KID, CTR)` nonce, so the encryptor
    /// refuses; a new epoch (and hence a new base key) is required.
    CounterExhausted(u64),
    /// No key material is available for the KID carried in the frame.
    UnknownKid(u64),
}

/// The display text of an SFrame error.
pub open spec fn sframe_error_text(e: SFrameError) -> Seq<char> {
    match e {
        SFrameError::MlsExport(m) => "MLS export failed: "@ + m@,
        SFrameError::Encrypt => "AEAD encryption failed"@,
        SFrameError::Decrypt => "AEAD decryption failed"@,
        SFrameError::Header(m) => "invalid SFrame header: "@ + m@,
        SFrameError::Replay { kid, ctr } => "replay detected: KID="@ + decimal(kid as nat) + " CTR="@
            + decimal(ctr as nat),
        SFrameError::CounterExhausted(kid) => "counter exhausted for KID 0x"@ + hex(kid as nat, false)
            + ": rotate the epoch"@,
        SFrameError::UnknownKid(kid) => "unknown KID 0x"@ + hex(kid as nat, false)
            + ": epoch or sender not registered"@,
    }
}

impl SFrameError {
    /// Display text of the error.
    pub fn message(&self) -> (r: String)
        ensures
            r@ == sframe_error_text(*self),
    {
        match self {
            SFrameError::MlsExport(m) => join2("MLS export failed: ".to_owned(), m.as_str()),
            SFrameError::Encrypt => "AEAD encryption failed".to_owned(),
            SFrameError::Decrypt => "AEAD decryption failed".to_owned(),
            SFrameError::Header(m) => join2("invalid SFrame header: ".to_owned(), m.as_str()),
            SFrameError::Replay { kid, ctr } => {
                let s = join2("replay detected: KID=".to_owned(), decimal_string(*kid).as_str());
                let s = join2(s, " CTR=");
                join2(s, decimal_string(*ctr).as_str())
            },
            SFrameError::CounterExhausted(kid) => {
                let s = join2("counter exhausted for KID 0x".to_owned(), hex_string(*kid, false).as_str());
                join2(s, ": rotate the epoch")
            },
            SFrameError::UnknownKid(kid) => {
                let s = join2("unknown KID 0x".to_owned(), hex_string(*kid, false).as_str());
                join2(s, ": epoch or sender not registered")
            },
        }
    }
}

} // verus!
