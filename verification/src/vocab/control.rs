//! GBP control plane opcode registry (16-bit opcodes).

use vstd::prelude::*;

verus! {

/// Control plane opcode.
#[derive(Copy, Clone, Debug, PartialEq, Eq, Structural, Hash)]
pub enum ControlOpcode {
    /// Coordinator announces an upcoming epoch change (0x0001).
    PrepareTransition,
    /// Member acknowledges that it is ready to apply the commit (0x0002).
    ReadyForTransition,
    /// Coordinator: apply the new epoch (0x0003).
    ExecuteTransition,
    /// Coordinator: abort the pending transition (0x0004).
    AbortTransition,
    /// Request a digest of the current group state (0x0005).
    GroupStateDigestRequest,
    /// Response to a digest request (0x0006).
    GroupStateDigestResponse,
    /// Report an invalid MLS commit (0x0007).
    ReportInvalidCommit,
    /// Capability advertisement (0x0008).
    CapabilitiesAdvertise,
    /// Positive acknowledgement (0x0009).
    Ack,
    /// Negative acknowledgement carrying an error object (0x000A).
    Nack,
}

/// The on-wire code of each opcode.
pub open spec fn opcode_code(op: ControlOpcode) -> u16 {
    match op {
        ControlOpcode::PrepareTransition => 0x0001,
        ControlOpcode::ReadyForTransition => 0x0002,
        ControlOpcode::ExecuteTransition => 0x0003,
        ControlOpcode::AbortTransition => 0x0004,
        ControlOpcode::GroupStateDigestRequest => 0x0005,
        ControlOpcode::GroupStateDigestResponse => 0x0006,
        ControlOpcode::ReportInvalidCommit => 0x0007,
        ControlOpcode::CapabilitiesAdvertise => 0x0008,
        ControlOpcode::Ack => 0x0009,
        ControlOpcode::Nack => 0x000A,
    }
}

/// The opcode carried by an on-wire code, if any.
pub open spec fn opcode_of_code(v: u16) -> Option<ControlOpcode> {
    if 1 <= v <= 10 {
        Some(
            if v == 1 {
                ControlOpcode::PrepareTransition
            } else if v == 2 {
                ControlOpcode::ReadyForTransition
            } else if v == 3 {
                ControlOpcode::ExecuteTransition
            } else if v == 4 {
                ControlOpcode::AbortTransition
            } else if v == 5 {
                ControlOpcode::GroupStateDigestRequest
            } else if v == 6 {
                ControlOpcode::GroupStateDigestResponse
            } else if v == 7 {
                ControlOpcode::ReportInvalidCommit
            } else if v == 8 {
                ControlOpcode::CapabilitiesAdvertise
            } else if v == 9 {
                ControlOpcode::Ack
            } else {
                ControlOpcode::Nack
            },
        )
    } else {
        None
    }
}

/// Decoding an opcode's own code gives the opcode back, and every decoded
/// code is the code of the opcode it decodes to.
pub proof fn lemma_opcode_round_trip(op: ControlOpcode, v: u16)
    ensures
        opcode_of_code(opcode_code(op)) == Some(op),
        opcode_of_code(v) matches Some(o) ==> opcode_code(o) == v,
{
}

impl ControlOpcode {
    /// Returns the on-wire code.
    pub fn as_u16(self) -> (r: u16)
        ensures
            r == opcode_code(self),
    {
        match self {
            ControlOpcode::PrepareTransition => 0x0001,
            ControlOpcode::ReadyForTransition => 0x0002,
            ControlOpcode::ExecuteTransition => 0x0003,
            ControlOpcode::AbortTransition => 0x0004,
            ControlOpcode::GroupStateDigestRequest => 0x0005,
            ControlOpcode::GroupStateDigestResponse => 0x0006,
            ControlOpcode::ReportInvalidCommit => 0x0007,
            ControlOpcode::CapabilitiesAdvertise => 0x0008,
            ControlOpcode::Ack => 0x0009,
            ControlOpcode::Nack => 0x000A,
        }
    }

    /// Converts an on-wire code; unknown codes are handed back as the error.
    pub fn try_from_u16(v: u16) -> (r: Result<ControlOpcode, u16>)
        ensures
            match r {
                Ok(op) => opcode_of_code(v) == Some(op),
                Err(e) => opcode_of_code(v).is_none() && e == v,
            },
    {
        match v {
            0x0001 => Ok(ControlOpcode::PrepareTransition),
            0x0002 => Ok(ControlOpcode::ReadyForTransition),
            0x0003 => Ok(ControlOpcode::ExecuteTransition),
            0x0004 => Ok(ControlOpcode::AbortTransition),
            0x0005 => Ok(ControlOpcode::GroupStateDigestRequest),
            0x0006 => Ok(ControlOpcode::GroupStateDigestResponse),
            0x0007 => Ok(ControlOpcode::ReportInvalidCommit),
            0x0008 => Ok(ControlOpcode::CapabilitiesAdvertise),
            0x0009 => Ok(ControlOpcode::Ack),
            0x000A => Ok(ControlOpcode::Nack),
            other => Err(other),
        }
    }

    /// Stable human-readable name suitable for logs and dumps.
    pub fn name(self) -> (r: &'static str)
        ensures
            r@ == opcode_name(self),
    {
        match self {
            ControlOpcode::PrepareTransition => "PREPARE_TRANSITION",
            ControlOpcode::ReadyForTransition => "READY_FOR_TRANSITION",
            ControlOpcode::ExecuteTransition => "EXECUTE_TRANSITION",
            ControlOpcode::AbortTransition => "ABORT_TRANSITION",
            ControlOpcode::GroupStateDigestRequest => "GROUP_STATE_DIGEST_REQUEST",
            ControlOpcode::GroupStateDigestResponse => "GROUP_STATE_DIGEST_RESPONSE",
            ControlOpcode::ReportInvalidCommit => "REPORT_INVALID_COMMIT",
            ControlOpcode::CapabilitiesAdvertise => "CAPABILITIES_ADVERTISE",
            ControlOpcode::Ack => "ACK",
            ControlOpcode::Nack => "NACK",
        }
    }
}

/// Log name of each opcode.
pub open spec fn opcode_name(op: ControlOpcode) -> Seq<char> {
    match op {
        ControlOpcode::PrepareTransition => "PREPARE_TRANSITION"@,
        ControlOpcode::ReadyForTransition => "READY_FOR_TRANSITION"@,
        ControlOpcode::ExecuteTransition => "EXECUTE_TRANSITION"@,
        ControlOpcode::AbortTransition => "ABORT_TRANSITION"@,
        ControlOpcode::GroupStateDigestRequest => "GROUP_STATE_DIGEST_REQUEST"@,
        ControlOpcode::GroupStateDigestResponse => "GROUP_STATE_DIGEST_RESPONSE"@,
        ControlOpcode::ReportInvalidCommit => "REPORT_INVALID_COMMIT"@,
        ControlOpcode::CapabilitiesAdvertise => "CAPABILITIES_ADVERTISE"@,
        ControlOpcode::Ack => "ACK"@,
        ControlOpcode::Nack => "NACK"@,
    }
}

} // verus!
