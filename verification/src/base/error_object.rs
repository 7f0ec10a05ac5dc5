//! Wire-serialisable error object.
//!
//! `details_cbor` carries opaque, structured details. `reason` and
//! `details_cbor` MUST NOT carry secret material: error objects are
//! forwarded across trust boundaries.

use vstd::prelude::*;
use crate::vocab::errors::{ErrorClass, ErrorSpec, class_code};

verus! {

/// Wire-serialisable error object.
#[derive(Clone, Debug)]
pub struct ErrorObject {
    /// Numeric error code.
    pub code: u16,
    /// Error class as a `u8`.
    pub class: u8,
    /// Whether the operation MAY be retried.
    pub retryable: bool,
    /// Whether the error is fatal (the node moves to FAILED).
    pub fatal: bool,
    /// Human-readable reason. MUST NOT carry secrets.
    pub reason: String,
    /// Structured detail bytes (typically CBOR).
    pub details_cbor: Vec<u8>,
}

impl ErrorObject {
    /// Builds an error object from a registry descriptor.
    pub fn from_spec(spec: ErrorSpec, reason: String) -> (r: Self)
        ensures
            r.code == spec.code,
            r.class == class_code(spec.class),
            r.retryable == spec.retryable,
            r.fatal == spec.fatal,
            r.reason == reason,
            r.details_cbor@ == Seq::<u8>::empty(),
    {
        ErrorObject {
            code: spec.code,
            class: spec.class.as_u8(),
            retryable: spec.retryable,
            fatal: spec.fatal,
            reason,
            details_cbor: Vec::new(),
        }
    }

    /// Builds an error object with arbitrary fields (for codes outside the
    /// registry).
    pub fn new(code: u16, class: ErrorClass, retryable: bool, fatal: bool, reason: String) -> (r:
        Self)
        ensures
            r.code == code,
            r.class == class_code(class),
            r.retryable == retryable,
            r.fatal == fatal,
            r.reason == reason,
            r.details_cbor@ == Seq::<u8>::empty(),
    {
        ErrorObject {
            code,
            class: class.as_u8(),
            retryable,
            fatal,
            reason,
            details_cbor: Vec::new(),
        }
    }
}

} // verus!
