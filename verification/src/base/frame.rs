//! GBP transport frame.
//!
//! On the wire the frame is a CBOR map of ten keys (eleven when a non-CBOR
//! payload codec is in use): `v, gid, ep, tid, st, sid, fl, seq, psz, pl[, pf]`.
//! Field `psz` MUST equal the actual length of `pl`; field `pf` is omitted
//! when its value is 0 (CBOR).

use vstd::prelude::*;
use crate::base::CodecError;
use crate::vocab::codec::{PayloadCodec, codec_of_code};
use crate::vocab::ids::GroupId;
use crate::vocab::stream::{StreamType, stream_code, stream_of_code};

verus! {

/// `true` when `v` is zero: the `pf` field is then left off the wire.
pub fn is_zero_u8(v: &u8) -> (r: bool)
    ensures
        r == (*v == 0),
{
    *v == 0
}

/// GBP frame.
#[derive(Clone, Debug)]
pub struct GbpFrame {
    /// Protocol version (currently `1`).
    pub version: u8,
    /// 16-byte group identifier.
    pub group_id: Vec<u8>,
    /// Sender's current epoch.
    pub epoch: u64,
    /// Last applied `transition_id`.
    pub transition_id: u32,
    /// Stream class code.
    pub stream_type: u8,
    /// Logical stream identifier within the session.
    pub stream_id: u32,
    /// Delivery flags.
    pub flags: u16,
    /// Per-stream sequence number (replay window key).
    pub sequence_no: u32,
    /// Declared payload length; MUST equal `encrypted_payload.len()`.
    pub payload_size: u32,
    /// Encrypted payload (an opaque byte string).
    pub encrypted_payload: Vec<u8>,
    /// Payload codec discriminant (0 = CBOR, the default).
    pub payload_format: u8,
}

/// The 16-byte group id a byte string denotes: its first 16 bytes, padded
/// with zeros when shorter.
pub open spec fn group_id_of(bytes: Seq<u8>) -> Seq<u8> {
    Seq::new(16, |i: int| if i < bytes.len() { bytes[i] } else { 0u8 })
}

/// The codec named by a frame's `pf` field, CBOR for unknown values.
pub open spec fn frame_codec(pf: u8) -> PayloadCodec {
    match codec_of_code(pf) {
        Some(c) => c,
        None => PayloadCodec::Cbor,
    }
}

/// Copies the first 16 bytes of `bytes` into a group id, padding with
/// zeros.
pub fn group_id_from_bytes(bytes: &[u8]) -> (r: GroupId)
    ensures
        r@ == group_id_of(bytes@),
{
    let mut out = [0u8; 16];
    let n = if bytes.len() < 16 {
        bytes.len()
    } else {
        16
    };
    let mut i: usize = 0;
    while i < n
        invariant
            0 <= i <= n,
            n <= 16,
            n == (if bytes@.len() < 16 { bytes@.len() } else { 16 }),
            out@.len() == 16,
            forall|k: int| 0 <= k < i ==> out@[k] == bytes@[k],
            forall|k: int| i <= k < 16 ==> out@[k] == 0u8,
        decreases n - i,
    {
        out[i] = bytes[i];
        i = i + 1;
    }
    assert(out@ =~= group_id_of(bytes@));
    out
}

impl GbpFrame {
    /// Builds a version-1 frame from already-encrypted payload bytes;
    /// `payload_size` is set to the payload's length.
    pub fn new(
        group_id: GroupId,
        epoch: u64,
        transition_id: u32,
        stream_type: StreamType,
        stream_id: u32,
        flags: u16,
        sequence_no: u32,
        encrypted_payload: Vec<u8>,
        payload_format: u8,
    ) -> (r: Self)
        ensures
            r.version == 1,
            r.group_id@ == group_id@,
            r.epoch == epoch,
            r.transition_id == transition_id,
            r.stream_type == stream_code(stream_type),
            r.stream_id == stream_id,
            r.flags == flags,
            r.sequence_no == sequence_no,
            r.payload_size == encrypted_payload@.len() as u32,
            r.encrypted_payload@ == encrypted_payload@,
            r.payload_format == payload_format,
    {
        let gid = crate::bytes::copy_bytes(&group_id);
        let len = encrypted_payload.len() as u32;
        GbpFrame {
            version: 1,
            group_id: gid,
            epoch,
            transition_id,
            stream_type: stream_type.as_u8(),
            stream_id,
            flags,
            sequence_no,
            payload_size: len,
            encrypted_payload,
            payload_format,
        }
    }

    /// Returns the `payload_format` field as a codec, falling back to CBOR
    /// for unknown discriminants.
    pub fn payload_codec(&self) -> (r: PayloadCodec)
        ensures
            r == frame_codec(self.payload_format),
    {
        match PayloadCodec::from_u8(self.payload_format) {
            Some(c) => c,
            None => PayloadCodec::Cbor,
        }
    }

    /// `Ok(())` if `payload_size` equals the actual payload length,
    /// `Err(CodecError::PayloadSizeMismatch)` otherwise.
    pub fn validate_payload_size(&self) -> (r: Result<(), CodecError>)
        ensures
            r is Ok == (self.payload_size == self.encrypted_payload@.len()),
            r is Err ==> r == Err::<(), CodecError>(CodecError::PayloadSizeMismatch),
    {
        if self.payload_size as usize != self.encrypted_payload.len() {
            return Err(CodecError::PayloadSizeMismatch);
        }
        Ok(())
    }

    /// Returns the typed stream class, or `CodecError::UnknownEnumValue` for
    /// unknown stream codes.
    pub fn stream_type_typed(&self) -> (r: Result<StreamType, CodecError>)
        ensures
            match r {
                Ok(st) => stream_of_code(self.stream_type as int) == Some(st),
                Err(e) => stream_of_code(self.stream_type as int).is_none() && e
                    == CodecError::UnknownEnumValue(self.stream_type as u32),
            },
    {
        match StreamType::try_from_u32(self.stream_type as u32) {
            Ok(st) => Ok(st),
            Err(v) => Err(CodecError::UnknownEnumValue(v)),
        }
    }

    /// Returns `group_id` as a 16-byte array, padding with zeros or
    /// truncating if necessary.
    pub fn group_id_array(&self) -> (r: GroupId)
        ensures
            r@ == group_id_of(self.group_id@),
    {
        group_id_from_bytes(self.group_id.as_slice())
    }
}

} // verus!
