//! GBP base layer: the transport frame, the control plane message envelope,
//! the wire error object and the codec error shared by every codec.

pub mod control;
pub mod error_object;
pub mod frame;

use vstd::prelude::*;
use crate::text::{decimal, decimal_string, join2};

verus! {

/// Unified codec error type used by every codec in the stack.
#[derive(Debug, Clone, PartialEq, Eq)]
pub enum CodecError {
    /// Decoding failure, with the decoder's message.
    Decode(String),
    /// Encoding failure, with the encoder's message.
    Encode(String),
    /// A length field does not match the actual length of the data it
    /// describes (`payload_size`, `content_length`, `args_length`, ...).
    PayloadSizeMismatch,
    /// An unknown enum value was observed (for example an out-of-range
    /// `stream_type` or `signal_type`).
    UnknownEnumValue(u32),
}


/// The display text of a codec error.
pub open spec fn codec_error_text(e: CodecError) -> Seq<char> {
    match e {
        CodecError::Decode(m) => "CBOR decode: "@ + m@,
        CodecError::Encode(m) => "CBOR encode: "@ + m@,
        CodecError::PayloadSizeMismatch => "payload_size/content_length/args_length mismatch"@,
        CodecError::UnknownEnumValue(v) => "unknown enum value: "@ + decimal(v as nat),
    }
}

impl CodecError {
    /// Display text of the error.
    pub fn message(&self) -> (r: String)
        ensures
            r@ == codec_error_text(*self),
    {
        match self {
            CodecError::Decode(m) => join2("CBOR decode: ".to_owned(), m.as_str()),
            CodecError::Encode(m) => join2("CBOR encode: ".to_owned(), m.as_str()),
            CodecError::PayloadSizeMismatch => "payload_size/content_length/args_length mismatch".to_owned(),
            CodecError::UnknownEnumValue(v) => join2(
                "unknown enum value: ".to_owned(),
                decimal_string(*v as u64).as_str(),
            ),
        }
    }
}

} // verus!
