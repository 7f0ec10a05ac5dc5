//! GBP control plane message envelope (six wire keys).

use vstd::prelude::*;
use crate::base::CodecError;

verus! {

/// Control plane message that travels on Stream 0.
#[derive(Clone, Debug)]
pub struct ControlMessage {
    /// Opcode.
    pub opcode: u16,
    /// Request identifier (echoed in ACK / NACK).
    pub request_id: u32,
    /// Sender's member id.
    pub sender_id: u32,
    /// Related `transition_id`.
    pub transition_id: u32,
    /// Declared length of `args`.
    pub args_length: u32,
    /// Opcode-specific CBOR arguments.
    pub args: Vec<u8>,
}

impl ControlMessage {
    /// Builds an argument-less message.
    pub fn bare(opcode: u16, request_id: u32, sender_id: u32, transition_id: u32) -> (r: Self)
        ensures
            r.opcode == opcode,
            r.request_id == request_id,
            r.sender_id == sender_id,
            r.transition_id == transition_id,
            r.args_length == 0,
            r.args@ == Seq::<u8>::empty(),
    {
        ControlMessage {
            opcode,
            request_id,
            sender_id,
            transition_id,
            args_length: 0,
            args: Vec::new(),
        }
    }

    /// Builds a message with raw CBOR arguments; `args_length` is set to
    /// their length.
    pub fn with_args(
        opcode: u16,
        request_id: u32,
        sender_id: u32,
        transition_id: u32,
        args: Vec<u8>,
    ) -> (r: Self)
        ensures
            r.opcode == opcode,
            r.request_id == request_id,
            r.sender_id == sender_id,
            r.transition_id == transition_id,
            r.args_length == args@.len() as u32,
            r.args@ == args@,
    {
        let n = args.len() as u32;
        ControlMessage { opcode, request_id, sender_id, transition_id, args_length: n, args }
    }

    /// Checks a decoded message: `args_length` must equal the length of
    /// `args`, else `CodecError::PayloadSizeMismatch`.
    pub fn validate(self) -> (r: Result<Self, CodecError>)
        ensures
            self.args_length == self.args@.len() ==> r == Ok::<Self, CodecError>(self),
            self.args_length != self.args@.len() ==> r == Err::<Self, CodecError>(
                CodecError::PayloadSizeMismatch,
            ),
    {
        if self.args_length as usize != self.args.len() {
            return Err(CodecError::PayloadSizeMismatch);
        }
        Ok(self)
    }
}

} // verus!
