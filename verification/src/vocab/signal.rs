//! GSP signal opcode registry.
//!
//! Allocation: 1xx membership, 2xx media permissions, 3xx stream, 4xx config.

use vstd::prelude::*;

verus! {

/// Signal opcode.
#[derive(Copy, Clone, Debug, PartialEq, Eq, Structural, Hash)]
pub enum SignalType {
    /// Member announces that it has joined the group (100).
    Join,
    /// Member announces that it is leaving (101).
    Leave,
    /// Member changes its role (102).
    RoleChange,
    /// Mute request or notification (200).
    Mute,
    /// Unmute request or notification (201).
    Unmute,
    /// Start of a stream publication (300).
    StreamStart,
    /// End of a stream publication (301).
    StreamStop,
    /// Codec or SDP parameters update (400).
    CodecUpdate,
}

/// The on-wire code of each signal type.
pub open spec fn signal_code(s: SignalType) -> u32 {
    match s {
        SignalType::Join => 100,
        SignalType::Leave => 101,
        SignalType::RoleChange => 102,
        SignalType::Mute => 200,
        SignalType::Unmute => 201,
        SignalType::StreamStart => 300,
        SignalType::StreamStop => 301,
        SignalType::CodecUpdate => 400,
    }
}

/// The signal type carried by an on-wire code, if any.
pub open spec fn signal_of_code(v: u32) -> Option<SignalType> {
    if v == 100 {
        Some(SignalType::Join)
    } else if v == 101 {
        Some(SignalType::Leave)
    } else if v == 102 {
        Some(SignalType::RoleChange)
    } else if v == 200 {
        Some(SignalType::Mute)
    } else if v == 201 {
        Some(SignalType::Unmute)
    } else if v == 300 {
        Some(SignalType::StreamStart)
    } else if v == 301 {
        Some(SignalType::StreamStop)
    } else if v == 400 {
        Some(SignalType::CodecUpdate)
    } else {
        None
    }
}

/// Decoding a signal's own code gives the signal back, and every decoded
/// code is the code of the signal it decodes to.
pub proof fn lemma_signal_round_trip(s: SignalType, v: u32)
    ensures
        signal_of_code(signal_code(s)) == Some(s),
        signal_of_code(v) matches Some(t) ==> signal_code(t) == v,
{
}

impl SignalType {
    /// Returns the on-wire code.
    pub fn as_u32(self) -> (r: u32)
        ensures
            r == signal_code(self),
    {
        match self {
            SignalType::Join => 100,
            SignalType::Leave => 101,
            SignalType::RoleChange => 102,
            SignalType::Mute => 200,
            SignalType::Unmute => 201,
            SignalType::StreamStart => 300,
            SignalType::StreamStop => 301,
            SignalType::CodecUpdate => 400,
        }
    }

    /// Converts an on-wire code; unknown codes are handed back as the error.
    pub fn try_from_u32(v: u32) -> (r: Result<SignalType, u32>)
        ensures
            match r {
                Ok(s) => signal_of_code(v) == Some(s),
                Err(e) => signal_of_code(v).is_none() && e == v,
            },
    {
        match v {
            100 => Ok(SignalType::Join),
            101 => Ok(SignalType::Leave),
            102 => Ok(SignalType::RoleChange),
            200 => Ok(SignalType::Mute),
            201 => Ok(SignalType::Unmute),
            300 => Ok(SignalType::StreamStart),
            301 => Ok(SignalType::StreamStop),
            400 => Ok(SignalType::CodecUpdate),
            other => Err(other),
        }
    }

    /// Stable human-readable name suitable for logs.
    pub fn name(self) -> (r: &'static str)
        ensures
            r@ == signal_name(self),
    {
        match self {
            SignalType::Join => "JOIN",
            SignalType::Leave => "LEAVE",
            SignalType::RoleChange => "ROLE_CHANGE",
            SignalType::Mute => "MUTE",
            SignalType::Unmute => "UNMUTE",
            SignalType::StreamStart => "STREAM_START",
            SignalType::StreamStop => "STREAM_STOP",
            SignalType::CodecUpdate => "CODEC_UPDATE",
        }
    }
}

/// Log name of each signal type.
pub open spec fn signal_name(s: SignalType) -> Seq<char> {
    match s {
        SignalType::Join => "JOIN"@,
        SignalType::Leave => "LEAVE"@,
        SignalType::RoleChange => "ROLE_CHANGE"@,
        SignalType::Mute => "MUTE"@,
        SignalType::Unmute => "UNMUTE"@,
        SignalType::StreamStart => "STREAM_START"@,
        SignalType::StreamStop => "STREAM_STOP"@,
        SignalType::CodecUpdate => "CODEC_UPDATE"@,
    }
}

} // verus!
