//! GBP stream classes.

use vstd::prelude::*;

verus! {

/// Stream class. Each stream class is a separate sub-protocol with its own
/// delivery and reliability policy.
#[derive(Copy, Clone, Debug, PartialEq, Eq, Structural, Hash)]
pub enum StreamType {
    /// Stream 0: the GBP control plane.
    Control,
    /// Group Audio Protocol (Opus media frames).
    Audio,
    /// Group Text Protocol (textual messages).
    Text,
    /// Group Signaling Protocol (membership and policy signals).
    Signal,
}

/// The on-wire code of a stream class.
pub open spec fn stream_code(st: StreamType) -> u8 {
    match st {
        StreamType::Control => 0,
        StreamType::Audio => 1,
        StreamType::Text => 2,
        StreamType::Signal => 3,
    }
}

/// The stream class carried by an on-wire code, if the code is known.
pub open spec fn stream_of_code(v: int) -> Option<StreamType> {
    if v == 0 {
        Some(StreamType::Control)
    } else if v == 1 {
        Some(StreamType::Audio)
    } else if v == 2 {
        Some(StreamType::Text)
    } else if v == 3 {
        Some(StreamType::Signal)
    } else {
        None
    }
}

/// Decoding a stream class's own code gives the class back.
pub proof fn lemma_stream_code_round_trip(st: StreamType)
    ensures
        stream_of_code(stream_code(st) as int) == Some(st),
{
}

/// A code that decodes to a class is that class's code.
pub proof fn lemma_stream_decode_is_inverse(v: int)
    ensures
        stream_of_code(v) matches Some(st) ==> stream_code(st) == v,
{
}

impl StreamType {
    /// Returns the on-wire byte representation.
    pub fn as_u8(self) -> (r: u8)
        ensures
            r == stream_code(self),
    {
        match self {
            StreamType::Control => 0,
            StreamType::Audio => 1,
            StreamType::Text => 2,
            StreamType::Signal => 3,
        }
    }

    /// Converts a 32-bit code; unknown codes are handed back as the error.
    pub fn try_from_u32(v: u32) -> (r: Result<StreamType, u32>)
        ensures
            match r {
                Ok(st) => stream_of_code(v as int) == Some(st),
                Err(e) => stream_of_code(v as int).is_none() && e == v,
            },
    {
        match v {
            0 => Ok(StreamType::Control),
            1 => Ok(StreamType::Audio),
            2 => Ok(StreamType::Text),
            3 => Ok(StreamType::Signal),
            other => Err(other),
        }
    }

    /// Converts an 8-bit code; unknown codes are handed back as the error.
    pub fn try_from_u8(v: u8) -> (r: Result<StreamType, u8>)
        ensures
            match r {
                Ok(st) => stream_of_code(v as int) == Some(st),
                Err(e) => stream_of_code(v as int).is_none() && e == v,
            },
    {
        match StreamType::try_from_u32(v as u32) {
            Ok(st) => Ok(st),
            Err(_) => Err(v),
        }
    }

    /// Lower-case display name of the stream class.
    pub fn name(self) -> (r: &'static str)
        ensures
            r@ == stream_name(self),
    {
        match self {
            StreamType::Control => "control",
            StreamType::Audio => "audio",
            StreamType::Text => "text",
            StreamType::Signal => "signal",
        }
    }
}

/// Display name of each stream class.
pub open spec fn stream_name(st: StreamType) -> Seq<char> {
    match st {
        StreamType::Control => "control"@,
        StreamType::Audio => "audio"@,
        StreamType::Text => "text"@,
        StreamType::Signal => "signal"@,
    }
}

} // verus!
