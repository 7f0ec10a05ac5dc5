//! Error class enum and the registry of canonical error codes.

use vstd::prelude::*;
use crate::vocab::codes;

verus! {

/// Coarse classification of an error. Single byte on the wire.
#[derive(Copy, Clone, Debug, PartialEq, Eq, Structural, Hash)]
pub enum ErrorClass {
    /// 0x01: transport (QUIC / TLS).
    Transport,
    /// 0x02: cryptography (AEAD / MLS).
    Crypto,
    /// 0x03: state (epoch / transition).
    State,
    /// 0x04: policy (replay / quota).
    Policy,
    /// 0x05: schema (CBOR shape, length validation).
    Schema,
    /// 0x06: authorisation (roles, GSP).
    Authz,
}

/// The on-wire byte of each error class.
pub open spec fn class_code(c: ErrorClass) -> u8 {
    match c {
        ErrorClass::Transport => 0x01,
        ErrorClass::Crypto => 0x02,
        ErrorClass::State => 0x03,
        ErrorClass::Policy => 0x04,
        ErrorClass::Schema => 0x05,
        ErrorClass::Authz => 0x06,
    }
}

/// The error class carried by an on-wire byte, if any.
pub open spec fn class_of_code(v: u8) -> Option<ErrorClass> {
    if v == 1 {
        Some(ErrorClass::Transport)
    } else if v == 2 {
        Some(ErrorClass::Crypto)
    } else if v == 3 {
        Some(ErrorClass::State)
    } else if v == 4 {
        Some(ErrorClass::Policy)
    } else if v == 5 {
        Some(ErrorClass::Schema)
    } else if v == 6 {
        Some(ErrorClass::Authz)
    } else {
        None
    }
}

/// Decoding a class's own byte gives the class back.
pub proof fn lemma_class_round_trip(c: ErrorClass)
    ensures
        class_of_code(class_code(c)) == Some(c),
{
}

impl ErrorClass {
    /// Returns the on-wire byte.
    pub fn as_u8(self) -> (r: u8)
        ensures
            r == class_code(self),
    {
        match self {
            ErrorClass::Transport => 0x01,
            ErrorClass::Crypto => 0x02,
            ErrorClass::State => 0x03,
            ErrorClass::Policy => 0x04,
            ErrorClass::Schema => 0x05,
            ErrorClass::Authz => 0x06,
        }
    }

    /// Converts an on-wire byte; unknown values are handed back as the error.
    pub fn try_from_u8(v: u8) -> (r: Result<ErrorClass, u8>)
        ensures
            match r {
                Ok(c) => class_of_code(v) == Some(c),
                Err(e) => class_of_code(v).is_none() && e == v,
            },
    {
        match v {
            0x01 => Ok(ErrorClass::Transport),
            0x02 => Ok(ErrorClass::Crypto),
            0x03 => Ok(ErrorClass::State),
            0x04 => Ok(ErrorClass::Policy),
            0x05 => Ok(ErrorClass::Schema),
            0x06 => Ok(ErrorClass::Authz),
            other => Err(other),
        }
    }
}

/// The registry's description of a known code.
pub struct RegistryEntry {
    /// Error class.
    pub class: ErrorClass,
    /// Whether the operation MAY be retried.
    pub retryable: bool,
    /// Whether the error is fatal.
    pub fatal: bool,
    /// Stable symbolic name.
    pub name: Seq<char>,
}

/// The registry of canonical error codes: class, retryable, fatal and name
/// of every known code, and nothing for any other code.
pub open spec fn registry(code: u16) -> Option<RegistryEntry> {
    if code == codes::UNSUPPORTED_VERSION {
        Some(RegistryEntry { class: ErrorClass::Schema, retryable: false, fatal: true, name: "ERR_UNSUPPORTED_VERSION"@ })
    } else if code == codes::UNKNOWN_GROUP {
        Some(RegistryEntry { class: ErrorClass::State, retryable: false, fatal: true, name: "ERR_UNKNOWN_GROUP"@ })
    } else if code == codes::EPOCH_MISMATCH {
        Some(RegistryEntry { class: ErrorClass::State, retryable: true, fatal: false, name: "ERR_EPOCH_MISMATCH"@ })
    } else if code == codes::TRANSITION_MISMATCH {
        Some(RegistryEntry { class: ErrorClass::State, retryable: true, fatal: false, name: "ERR_TRANSITION_MISMATCH"@ })
    } else if code == codes::REPLAY_DETECTED {
        Some(RegistryEntry { class: ErrorClass::Crypto, retryable: false, fatal: false, name: "ERR_REPLAY_DETECTED"@ })
    } else if code == codes::DECRYPT_FAILED {
        Some(RegistryEntry { class: ErrorClass::Crypto, retryable: true, fatal: false, name: "ERR_DECRYPT_FAILED"@ })
    } else if code == codes::COMMIT_INVALID {
        Some(RegistryEntry { class: ErrorClass::Crypto, retryable: false, fatal: true, name: "ERR_COMMIT_INVALID"@ })
    } else if code == codes::STREAM_POLICY_VIOLATION {
        Some(RegistryEntry { class: ErrorClass::Policy, retryable: false, fatal: false, name: "ERR_STREAM_POLICY_VIOLATION"@ })
    } else if code == codes::GAP_BAD_SOURCE_ID {
        Some(RegistryEntry { class: ErrorClass::Schema, retryable: false, fatal: false, name: "ERR_GAP_BAD_SOURCE_ID"@ })
    } else if code == codes::GAP_DECODE_FAILED {
        Some(RegistryEntry { class: ErrorClass::Schema, retryable: false, fatal: false, name: "ERR_GAP_DECODE_FAILED"@ })
    } else if code == codes::GAP_REPLAY_DETECTED {
        Some(RegistryEntry { class: ErrorClass::Crypto, retryable: false, fatal: false, name: "ERR_GAP_REPLAY_DETECTED"@ })
    } else if code == codes::GAP_EPOCH_STALE {
        Some(RegistryEntry { class: ErrorClass::Crypto, retryable: false, fatal: false, name: "ERR_GAP_EPOCH_STALE"@ })
    } else if code == codes::GTP_BAD_LENGTH {
        Some(RegistryEntry { class: ErrorClass::Schema, retryable: false, fatal: false, name: "ERR_GTP_BAD_LENGTH"@ })
    } else if code == codes::GTP_UNSUPPORTED_CONTENT_TYPE {
        Some(RegistryEntry { class: ErrorClass::Schema, retryable: false, fatal: false, name: "ERR_GTP_UNSUPPORTED_CONTENT_TYPE"@ })
    } else if code == codes::GTP_DUPLICATE_MESSAGE {
        Some(RegistryEntry { class: ErrorClass::Policy, retryable: false, fatal: false, name: "ERR_GTP_DUPLICATE_MESSAGE"@ })
    } else if code == codes::GTP_POLICY_REJECTED {
        Some(RegistryEntry { class: ErrorClass::Policy, retryable: false, fatal: false, name: "ERR_GTP_POLICY_REJECTED"@ })
    } else if code == codes::GSP_BAD_SCHEMA {
        Some(RegistryEntry { class: ErrorClass::Schema, retryable: false, fatal: false, name: "ERR_GSP_BAD_SCHEMA"@ })
    } else if code == codes::GSP_UNAUTHORIZED {
        Some(RegistryEntry { class: ErrorClass::Authz, retryable: false, fatal: false, name: "ERR_GSP_UNAUTHORIZED"@ })
    } else if code == codes::GSP_UNKNOWN_SIGNAL {
        Some(RegistryEntry { class: ErrorClass::Schema, retryable: false, fatal: false, name: "ERR_GSP_UNKNOWN_SIGNAL"@ })
    } else if code == codes::GSP_DUPLICATE_REQUEST {
        Some(RegistryEntry { class: ErrorClass::Policy, retryable: false, fatal: false, name: "ERR_GSP_DUPLICATE_REQUEST"@ })
    } else if code == codes::GSP_STATE_CONFLICT {
        Some(RegistryEntry { class: ErrorClass::State, retryable: true, fatal: false, name: "ERR_GSP_STATE_CONFLICT"@ })
    } else {
        None
    }
}

/// Descriptor of a registered code: the code plus its `retryable` / `fatal`
/// semantics.
#[derive(Copy, Clone, Debug)]
pub struct ErrorSpec {
    /// Numeric code (see [`codes`]).
    pub code: u16,
    /// Class.
    pub class: ErrorClass,
    /// MAY be retried by the client.
    pub retryable: bool,
    /// Fatal: the node moves to FAILED.
    pub fatal: bool,
    /// Stable symbolic name for logs.
    pub name: &'static str,
}

/// `s` describes `code` exactly as the registry does.
pub open spec fn spec_matches_registry(s: ErrorSpec, code: u16) -> bool {
    &&& registry(code) is Some
    &&& s.code == code
    &&& s.class == registry(code)->0.class
    &&& s.retryable == registry(code)->0.retryable
    &&& s.fatal == registry(code)->0.fatal
    &&& s.name@ == registry(code)->0.name
}

fn make(code: u16, class: ErrorClass, retryable: bool, fatal: bool, name: &'static str) -> (r:
    ErrorSpec)
    ensures
        r.code == code,
        r.class == class,
        r.retryable == retryable,
        r.fatal == fatal,
        r.name == name,
{
    ErrorSpec { code, class, retryable, fatal, name }
}

impl ErrorSpec {
    /// Returns the descriptor of a known code, or `None` otherwise.
    pub fn lookup(code: u16) -> (r: Option<ErrorSpec>)
        ensures
            match r {
                Some(s) => spec_matches_registry(s, code),
                None => registry(code) is None,
            },
    {
        if code == codes::UNSUPPORTED_VERSION {
            Some(make(code, ErrorClass::Schema, false, true, "ERR_UNSUPPORTED_VERSION"))
        } else if code == codes::UNKNOWN_GROUP {
            Some(make(code, ErrorClass::State, false, true, "ERR_UNKNOWN_GROUP"))
        } else if code == codes::EPOCH_MISMATCH {
            Some(make(code, ErrorClass::State, true, false, "ERR_EPOCH_MISMATCH"))
        } else if code == codes::TRANSITION_MISMATCH {
            Some(make(code, ErrorClass::State, true, false, "ERR_TRANSITION_MISMATCH"))
        } else if code == codes::REPLAY_DETECTED {
            Some(make(code, ErrorClass::Crypto, false, false, "ERR_REPLAY_DETECTED"))
        } else if code == codes::DECRYPT_FAILED {
            Some(make(code, ErrorClass::Crypto, true, false, "ERR_DECRYPT_FAILED"))
        } else if code == codes::COMMIT_INVALID {
            Some(make(code, ErrorClass::Crypto, false, true, "ERR_COMMIT_INVALID"))
        } else if code == codes::STREAM_POLICY_VIOLATION {
            Some(make(code, ErrorClass::Policy, false, false, "ERR_STREAM_POLICY_VIOLATION"))
        } else if code == codes::GAP_BAD_SOURCE_ID {
            Some(make(code, ErrorClass::Schema, false, false, "ERR_GAP_BAD_SOURCE_ID"))
        } else if code == codes::GAP_DECODE_FAILED {
            Some(make(code, ErrorClass::Schema, false, false, "ERR_GAP_DECODE_FAILED"))
        } else if code == codes::GAP_REPLAY_DETECTED {
            Some(make(code, ErrorClass::Crypto, false, false, "ERR_GAP_REPLAY_DETECTED"))
        } else if code == codes::GAP_EPOCH_STALE {
            Some(make(code, ErrorClass::Crypto, false, false, "ERR_GAP_EPOCH_STALE"))
        } else if code == codes::GTP_BAD_LENGTH {
            Some(make(code, ErrorClass::Schema, false, false, "ERR_GTP_BAD_LENGTH"))
        } else if code == codes::GTP_UNSUPPORTED_CONTENT_TYPE {
            Some(make(code, ErrorClass::Schema, false, false, "ERR_GTP_UNSUPPORTED_CONTENT_TYPE"))
        } else if code == codes::GTP_DUPLICATE_MESSAGE {
            Some(make(code, ErrorClass::Policy, false, false, "ERR_GTP_DUPLICATE_MESSAGE"))
        } else if code == codes::GTP_POLICY_REJECTED {
            Some(make(code, ErrorClass::Policy, false, false, "ERR_GTP_POLICY_REJECTED"))
        } else if code == codes::GSP_BAD_SCHEMA {
            Some(make(code, ErrorClass::Schema, false, false, "ERR_GSP_BAD_SCHEMA"))
        } else if code == codes::GSP_UNAUTHORIZED {
            Some(make(code, ErrorClass::Authz, false, false, "ERR_GSP_UNAUTHORIZED"))
        } else if code == codes::GSP_UNKNOWN_SIGNAL {
            Some(make(code, ErrorClass::Schema, false, false, "ERR_GSP_UNKNOWN_SIGNAL"))
        } else if code == codes::GSP_DUPLICATE_REQUEST {
            Some(make(code, ErrorClass::Policy, false, false, "ERR_GSP_DUPLICATE_REQUEST"))
        } else if code == codes::GSP_STATE_CONFLICT {
            Some(make(code, ErrorClass::State, true, false, "ERR_GSP_STATE_CONFLICT"))
        } else {
            None
        }
    }
}

} // verus!
