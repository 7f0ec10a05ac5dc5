//! Payload codec discriminant (the `pf` field of a GBP frame).

use vstd::prelude::*;

verus! {

/// Codec used to encode the sub-protocol payload inside a frame. `Cbor` (0)
/// is the default; frames that omit the `pf` field are treated as CBOR.
#[derive(Clone, Copy, Debug, PartialEq, Eq, Structural, Hash)]
pub enum PayloadCodec {
    /// CBOR (0): default and backward-compatible.
    Cbor,
    /// Protocol Buffers (1).
    Protobuf,
    /// FlatBuffers (2).
    FlatBuffers,
}

/// The on-wire discriminant of each codec.
pub open spec fn codec_code(c: PayloadCodec) -> u8 {
    match c {
        PayloadCodec::Cbor => 0,
        PayloadCodec::Protobuf => 1,
        PayloadCodec::FlatBuffers => 2,
    }
}

/// The codec carried by an on-wire discriminant, if any.
pub open spec fn codec_of_code(v: u8) -> Option<PayloadCodec> {
    if v == 0 {
        Some(PayloadCodec::Cbor)
    } else if v == 1 {
        Some(PayloadCodec::Protobuf)
    } else if v == 2 {
        Some(PayloadCodec::FlatBuffers)
    } else {
        None
    }
}

/// Decoding a codec's own discriminant gives the codec back.
pub proof fn lemma_codec_round_trip(c: PayloadCodec)
    ensures
        codec_of_code(codec_code(c)) == Some(c),
{
}

impl PayloadCodec {
    /// Returns the on-wire byte discriminant.
    pub fn as_u8(self) -> (r: u8)
        ensures
            r == codec_code(self),
    {
        match self {
            PayloadCodec::Cbor => 0,
            PayloadCodec::Protobuf => 1,
            PayloadCodec::FlatBuffers => 2,
        }
    }

    /// Converts from the on-wire discriminant; `None` for unknown values.
    pub fn from_u8(v: u8) -> (r: Option<PayloadCodec>)
        ensures
            r == codec_of_code(v),
    {
        match v {
            0 => Some(PayloadCodec::Cbor),
            1 => Some(PayloadCodec::Protobuf),
            2 => Some(PayloadCodec::FlatBuffers),
            _ => None,
        }
    }

    /// Lower-case display name.
    pub fn name(self) -> (r: &'static str)
        ensures
            r@ == codec_name(self),
    {
        match self {
            PayloadCodec::Cbor => "cbor",
            PayloadCodec::Protobuf => "protobuf",
            PayloadCodec::FlatBuffers => "flatbuffers",
        }
    }
}

impl Default for PayloadCodec {
    /// CBOR is the default codec.
    fn default() -> (r: PayloadCodec)
        ensures
            r == PayloadCodec::Cbor,
    {
        PayloadCodec::Cbor
    }
}

/// Display name of each codec.
pub open spec fn codec_name(c: PayloadCodec) -> Seq<char> {
    match c {
        PayloadCodec::Cbor => "cbor"@,
        PayloadCodec::Protobuf => "protobuf"@,
        PayloadCodec::FlatBuffers => "flatbuffers"@,
    }
}

} // verus!
