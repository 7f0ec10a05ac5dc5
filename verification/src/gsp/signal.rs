//! The GSP signal envelope (six wire keys: `t, rid, sid, rc, alen, args`).

use vstd::prelude::*;
use crate::base::CodecError;
use crate::bytes::copy_bytes;

verus! {

/// GSP signal envelope. `args` carries opcode-specific CBOR bytes.
#[derive(Clone, Debug)]
pub struct GspSignal {
    /// Signal type code, widened to `u32`.
    pub signal_type: u32,
    /// Request identifier (echoed in ACK / NACK, used for deduplication).
    pub request_id: u32,
    /// Sender member id.
    pub sender_id: u32,
    /// Role claim (used by `ROLE_CHANGE`).
    pub role_claim: u32,
    /// Declared length of `args`.
    pub args_length: u32,
    /// Opcode-specific CBOR-encoded arguments.
    pub args: Vec<u8>,
}

impl GspSignal {
    /// Builds a signal with no arguments and no role claim.
    pub fn bare(signal_type: u32, request_id: u32, sender_id: u32) -> (r: Self)
        ensures
            r.signal_type == signal_type,
            r.request_id == request_id,
            r.sender_id == sender_id,
            r.role_claim == 0,
            r.args_length == 0,
            r.args@ == Seq::<u8>::empty(),
    {
        GspSignal { signal_type, request_id, sender_id, role_claim: 0, args_length: 0, args: Vec::new() }
    }

    /// Builds a signal with a role claim and raw CBOR arguments;
    /// `args_length` is set to their length.
    pub fn with_args(
        signal_type: u32,
        request_id: u32,
        sender_id: u32,
        role_claim: u32,
        args: &[u8],
    ) -> (r: Self)
        ensures
            r.signal_type == signal_type,
            r.request_id == request_id,
            r.sender_id == sender_id,
            r.role_claim == role_claim,
            r.args_length == args@.len() as u32,
            r.args@ == args@,
    {
        let a = copy_bytes(args);
        let len = a.len() as u32;
        GspSignal { signal_type, request_id, sender_id, role_claim, args_length: len, args: a }
    }

    /// The check every decoder applies: the declared `args_length` must
    /// equal the length of `args`.
    pub fn validate(&self) -> (r: Result<(), CodecError>)
        ensures
            r is Ok <==> self.args_length as int == self.args@.len(),
            r matches Err(e) ==> e == CodecError::PayloadSizeMismatch,
    {
        if self.args_length as usize != self.args.len() {
            return Err(CodecError::PayloadSizeMismatch);
        }
        Ok(())
    }
}

} // verus!
