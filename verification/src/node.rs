//! GBP-layer group node: frame validation, the replay window, the control
//! plane and the node / transition state machines.
//!
//! Responsibilities of this layer (analogous to IP):
//!
//! * validate `version`, `group_id`, `epoch`, `payload_size`,
//!   `transition_id` and the per-stream replay window of incoming frames, in
//!   that order;
//! * open the AEAD payload through the [`Sealer`] trait;
//! * surface decoded payloads to sub-protocols as [`Event::PayloadReceived`];
//! * drive the control plane: tie-break competing PREPAREs, apply EXECUTE,
//!   request resync on epoch mismatch, coordinator hand-over and timers.
//!
//! The node works on decoded [`GbpFrame`] and [`ControlMessage`] values;
//! turning wire bytes into those values (and back) is the codec's job.

use std::collections::HashMap;
use vstd::prelude::*;
use vstd::string::StringExecFns;
use crate::base::{CodecError, codec_error_text};
use crate::clock::clock_ms;
use crate::base::control::ControlMessage;
use crate::base::frame::{GbpFrame, frame_codec, group_id_of};
use crate::mls::aead::{aead_len_ok, chacha20poly1305_open, chacha20poly1305_seal, seq_nonce};
use crate::mls::context::{MlsContext, openmls_failure, label_key};
use crate::mls::{MlsError, label_for, label_of, mls_error_text};
use crate::text::{decimal, decimal_string, join2};
use crate::vocab::codec::{PayloadCodec, codec_code};
use crate::vocab::codes;
use crate::vocab::control::{ControlOpcode, opcode_code, opcode_name, opcode_of_code};
use crate::vocab::errors::{ErrorClass, ErrorSpec, registry};
use crate::vocab::flags::GbpFlags;
use crate::vocab::ids::{GroupId, MemberId, SequenceNo, StreamId, TransitionId};
use crate::vocab::state::{NodeState, TransitionState, node_edge, node_state_name};
use crate::vocab::stream::{StreamType, stream_code, stream_name, stream_of_code};
use crate::vocab::timeouts;

verus! {

broadcast use vstd::std_specs::hash::group_hash_axioms;

/// Errors raised by [`GroupNode`].
#[derive(Debug, Clone, PartialEq, Eq)]
pub enum NodeError {
    /// Codec error.
    Codec(CodecError),
    /// MLS / AEAD error.
    Mls(MlsError),
    /// The node is not in a state that allows the requested operation.
    InvalidState(String),
}

/// The display text of a node error.
pub open spec fn node_error_text(e: NodeError) -> Seq<char> {
    match e {
        NodeError::Codec(c) => "codec: "@ + codec_error_text(c),
        NodeError::Mls(m) => "mls: "@ + mls_error_text(m),
        NodeError::InvalidState(s) => "invalid state: "@ + s@,
    }
}

impl NodeError {
    /// Display text of the error.
    pub fn message(&self) -> (r: String)
        ensures
            r@ == node_error_text(*self),
    {
        match self {
            NodeError::Codec(c) => join2("codec: ".to_owned(), c.message().as_str()),
            NodeError::Mls(m) => join2("mls: ".to_owned(), m.message().as_str()),
            NodeError::InvalidState(s) => join2("invalid state: ".to_owned(), s.as_str()),
        }
    }
}

/// An outbound frame and its recipient.
#[derive(Debug, Clone)]
pub struct OutboundFrame {
    /// Target member id.
    pub to: MemberId,
    /// The frame to put on the wire.
    pub frame: GbpFrame,
}

/// A payload delivered by GBP to a sub-protocol.
#[derive(Debug, Clone)]
pub struct DeliveredPayload {
    /// Stream class on which the frame arrived.
    pub stream_type: StreamType,
    /// Stream id from the frame.
    pub stream_id: StreamId,
    /// Sequence number after passing the replay window.
    pub sequence_no: SequenceNo,
    /// Frame flag bits, copied as-is.
    pub flags: u16,
    /// Decrypted plaintext bytes.
    pub plaintext: Vec<u8>,
    /// Codec used to encode the plaintext (from the frame's `pf` field).
    pub codec: PayloadCodec,
}

/// Events surfaced by the GBP layer.
#[derive(Debug, Clone)]
#[allow(inconsistent_fields)]
pub enum Event {
    /// Node FSM changed state.
    StateChanged {
        /// Previous state.
        from: NodeState,
        /// New state.
        to: NodeState,
    },
    /// Payload delivered to a sub-protocol (Text / Audio / Signal).
    PayloadReceived(DeliveredPayload),
    /// A control plane message was received and parsed.
    Control {
        /// Sender member id.
        from: MemberId,
        /// Decoded opcode.
        opcode: ControlOpcode,
        /// `transition_id` carried by the message.
        transition_id: TransitionId,
        /// `request_id` echoed by ACK / NACK responders.
        request_id: u32,
        /// Opcode-specific args.
        args: Vec<u8>,
    },
    /// An error was raised.
    Error {
        /// Numeric error code.
        code: u16,
        /// Error class.
        class: ErrorClass,
        /// MAY be retried.
        retryable: bool,
        /// Fatal: the node is now in `FAILED`.
        fatal: bool,
        /// Human-readable reason.
        reason: String,
    },
    /// Epoch transition has been applied locally.
    EpochAdvanced {
        /// New epoch.
        epoch: u64,
        /// `transition_id` that produced the new epoch.
        transition_id: TransitionId,
    },
    /// Coordinator silence exceeded the grace period; the member with the
    /// lowest id should claim the coordinator role.
    CoordinatorElectionNeeded,
    /// This node claimed the coordinator role.
    BecameCoordinator,
    /// A remote member broadcast a coordinator claim.
    CoordinatorClaim {
        /// The claiming member's id.
        claimant: MemberId,
    },
}

/// The abstract value of an [`Event`]: byte strings and text as sequences.
#[allow(inconsistent_fields)]
pub enum EventView {
    /// See [`Event::StateChanged`].
    StateChanged { from: NodeState, to: NodeState },
    /// See [`Event::PayloadReceived`].
    PayloadReceived {
        stream_type: StreamType,
        stream_id: StreamId,
        sequence_no: SequenceNo,
        flags: u16,
        plaintext: Seq<u8>,
        codec: PayloadCodec,
    },
    /// See [`Event::Control`].
    Control {
        from: MemberId,
        opcode: ControlOpcode,
        transition_id: TransitionId,
        request_id: u32,
        args: Seq<u8>,
    },
    /// See [`Event::Error`].
    Error { code: u16, class: ErrorClass, retryable: bool, fatal: bool, reason: Seq<char> },
    /// See [`Event::EpochAdvanced`].
    EpochAdvanced { epoch: u64, transition_id: TransitionId },
    /// See [`Event::CoordinatorElectionNeeded`].
    CoordinatorElectionNeeded,
    /// See [`Event::BecameCoordinator`].
    BecameCoordinator,
    /// See [`Event::CoordinatorClaim`].
    CoordinatorClaim { claimant: MemberId },
}

impl View for Event {
    type V = EventView;

    open spec fn view(&self) -> EventView {
        match self {
            Event::StateChanged { from, to } => EventView::StateChanged { from: *from, to: *to },
            Event::PayloadReceived(d) => EventView::PayloadReceived {
                stream_type: d.stream_type,
                stream_id: d.stream_id,
                sequence_no: d.sequence_no,
                flags: d.flags,
                plaintext: d.plaintext@,
                codec: d.codec,
            },
            Event::Control { from, opcode, transition_id, request_id, args } => EventView::Control {
                from: *from,
                opcode: *opcode,
                transition_id: *transition_id,
                request_id: *request_id,
                args: args@,
            },
            Event::Error { code, class, retryable, fatal, reason } => EventView::Error {
                code: *code,
                class: *class,
                retryable: *retryable,
                fatal: *fatal,
                reason: reason@,
            },
            Event::EpochAdvanced { epoch, transition_id } => EventView::EpochAdvanced {
                epoch: *epoch,
                transition_id: *transition_id,
            },
            Event::CoordinatorElectionNeeded => EventView::CoordinatorElectionNeeded,
            Event::BecameCoordinator => EventView::BecameCoordinator,
            Event::CoordinatorClaim { claimant } => EventView::CoordinatorClaim {
                claimant: *claimant,
            },
        }
    }
}

/// The views of a sequence of events.
pub open spec fn event_views(es: Seq<Event>) -> Seq<EventView> {
    es.map_values(|e: Event| e@)
}

/// The AEAD seal / open boundary between the protocol layer and the
/// cryptographic provider. Applications implement it over their MLS group
/// (or, in tests, with an identity transform).
pub trait Sealer {
    /// `out` is an outcome this sealer may give when asked to seal `pt`
    /// for stream class `st` at sequence number `seq`. An implementation
    /// that does not define it claims nothing of its outcomes.
    closed spec fn seals(&self, st: StreamType, seq: SequenceNo, pt: Seq<u8>, out: Result<Seq<u8>, MlsError>) -> bool {
        true
    }

    /// `out` is an outcome this sealer may give when asked to open `ct`
    /// for stream class `st` at sequence number `seq`. An implementation
    /// that does not define it claims nothing of its outcomes.
    closed spec fn opens(&self, st: StreamType, seq: SequenceNo, ct: Seq<u8>, out: Result<Seq<u8>, MlsError>) -> bool {
        true
    }

    /// Encrypts `pt` for the given stream and per-stream sequence number.
    fn seal(&mut self, st: StreamType, seq: SequenceNo, pt: &[u8]) -> (r: Result<Vec<u8>, MlsError>)
        ensures
            old(self).seals(st, seq, pt@, bytes_result(r)),
    ;

    /// Decrypts `ct` for the given stream and per-stream sequence number.
    fn open(&mut self, st: StreamType, seq: SequenceNo, ct: &[u8]) -> (r: Result<Vec<u8>, MlsError>)
        ensures
            old(self).opens(st, seq, ct@, bytes_result(r)),
    ;
}

/// A byte-string result taken by its view.
pub open spec fn bytes_result(r: Result<Vec<u8>, MlsError>) -> Result<Seq<u8>, MlsError> {
    match r {
        Ok(v) => Ok(v@),
        Err(e) => Err(e),
    }
}

impl Sealer for MlsContext {
    /// The ChaCha20-Poly1305 sealing of `pt` under the key the group exports
    /// for the stream class's label and the nonce of `seq`; or a failed key
    /// export; or an AEAD failure on a plaintext beyond the AEAD's length
    /// bound.
    open spec fn seals(&self, st: StreamType, seq: SequenceNo, pt: Seq<u8>, out: Result<Seq<u8>, MlsError>) -> bool {
        match out {
            Ok(c) => c == chacha20poly1305_seal(label_key(self.group, label_of(st)), seq_nonce(seq), pt),
            Err(e) => openmls_failure(e, "export: "@) || (e is Aead && !aead_len_ok(pt.len())),
        }
    }

    /// The ChaCha20-Poly1305 opening of `ct` under the key the group exports
    /// for the stream class's label and the nonce of `seq`; or a failed key
    /// export; or an AEAD failure where that opening gives nothing.
    open spec fn opens(&self, st: StreamType, seq: SequenceNo, ct: Seq<u8>, out: Result<Seq<u8>, MlsError>) -> bool {
        match out {
            Ok(p) => chacha20poly1305_open(label_key(self.group, label_of(st)), seq_nonce(seq), ct) == Some(p),
            Err(e) => openmls_failure(e, "export: "@) || (e is Aead && chacha20poly1305_open(
                label_key(self.group, label_of(st)),
                seq_nonce(seq),
                ct,
            ) is None),
        }
    }

    /// Seals with the MLS context under the stream class's label: the
    /// ChaCha20-Poly1305 sealing of `pt` under the key exported for the
    /// stream class's label and the nonce of `seq`, the context left as it was.
    fn seal(&mut self, st: StreamType, seq: SequenceNo, pt: &[u8]) -> (r: Result<Vec<u8>, MlsError>)
        ensures
            *final(self) == *old(self),
            aead_len_ok(pt@.len()) && r is Err ==> openmls_failure(r->Err_0, "export: "@),
            r matches Ok(c) ==> c@ == chacha20poly1305_seal(label_key(old(self).group, label_of(st)), seq_nonce(seq), pt@),
    {
        MlsContext::seal(self, label_for(st), seq, pt)
    }

    /// Opens with the MLS context under the stream class's label: the
    /// ChaCha20-Poly1305 opening of `ct` under the key exported for the
    /// stream class's label and the nonce of `seq`, the context left as it was.
    fn open(&mut self, st: StreamType, seq: SequenceNo, ct: &[u8]) -> (r: Result<Vec<u8>, MlsError>)
        ensures
            *final(self) == *old(self),
            r matches Err(e) ==> (openmls_failure(e, "export: "@) || e is Aead),
            r matches Err(MlsError::Aead(_)) ==> chacha20poly1305_open(label_key(old(self).group, label_of(st)), seq_nonce(seq), ct@) is None,
            r matches Ok(p) ==> chacha20poly1305_open(label_key(old(self).group, label_of(st)), seq_nonce(seq), ct@) == Some(p@),
    {
        MlsContext::open(self, label_for(st), seq, ct)
    }
}

/// The key of a `(stream class, stream id)` pair in the sequence tables.
pub open spec fn stream_key(st: StreamType, sid: StreamId) -> u64 {
    (stream_code(st) as int * 0x1_0000_0000 + sid as int) as u64
}

fn stream_key_of(st: StreamType, sid: StreamId) -> (r: u64)
    ensures
        r == stream_key(st, sid),
{
    (st.as_u8() as u64) * 0x1_0000_0000u64 + sid as u64
}

/// Distinct `(stream class, stream id)` pairs have distinct keys.
pub proof fn lemma_stream_key_injective(a: StreamType, x: StreamId, b: StreamType, y: StreamId)
    ensures
        stream_key(a, x) == stream_key(b, y) ==> a == b && x == y,
{
}

/// The abstract state of a group node.
pub struct NodeModel {
    /// Application-level member id.
    pub member_id: MemberId,
    /// Whether this node holds the coordinator role.
    pub is_coordinator: bool,
    /// 16-byte group identifier.
    pub group_id: Seq<u8>,
    /// Current epoch.
    pub current_epoch: u64,
    /// Last applied `transition_id`.
    pub last_transition_id: TransitionId,
    /// Pending `transition_id` (0 when none).
    pub pending_transition_id: TransitionId,
    /// Node FSM state.
    pub state: NodeState,
    /// Transition FSM state.
    pub transition_state: TransitionState,
    /// Last outbound sequence number per stream key.
    pub out_seq: Map<u64, u32>,
    /// Highest accepted inbound sequence number per stream key.
    pub in_hw: Map<u64, u32>,
    /// Events queued since the last drain.
    pub events: Seq<EventView>,
    /// Sender of the PREPARE currently winning the tie-break.
    pub pending_commit_sender: Option<MemberId>,
    /// Deadline (ms) for READY quorum after issuing PREPARE.
    pub prepare_deadline: Option<u64>,
    /// Deadline (ms) for EXECUTE after sending READY / receiving PREPARE.
    pub execute_deadline: Option<u64>,
    /// Time (ms) of the last coordinator activity.
    pub coordinator_last_seen: Option<u64>,
}

/// GBP-layer node: owns the replay window, FSMs and control plane.
pub struct GroupNode {
    /// Application-level member id.
    pub member_id: MemberId,
    /// Whether this node currently holds the coordinator role.
    pub is_coordinator: bool,
    /// 16-byte group identifier.
    pub group_id: GroupId,
    /// Current epoch as observed by the GBP layer.
    pub current_epoch: u64,
    /// Last applied `transition_id`.
    pub last_transition_id: TransitionId,
    /// Pending `transition_id` (set during PREPARE / READY).
    pub pending_transition_id: TransitionId,
    /// Node FSM.
    pub state: NodeState,
    /// Transition FSM.
    pub transition_state: TransitionState,
    out_seq: HashMap<u64, SequenceNo>,
    in_hw: HashMap<u64, SequenceNo>,
    events: Vec<Event>,
    pending_commit_sender: Option<MemberId>,
    prepare_deadline: Option<u64>,
    execute_deadline: Option<u64>,
    coordinator_last_seen: Option<u64>,
}

/// The state the node FSM moves to when asked to go to `next`: unchanged
/// when already there, `next` along an allowed edge, `Failed` otherwise.
pub open spec fn fsm_next(s: NodeState, next: NodeState) -> NodeState {
    if s == next {
        s
    } else if node_edge(s, next) {
        next
    } else {
        NodeState::Failed
    }
}

/// The events a request to move from `s` to `next` produces.
pub open spec fn fsm_events(s: NodeState, next: NodeState) -> Seq<EventView> {
    if s == next {
        Seq::empty()
    } else {
        seq![EventView::StateChanged { from: s, to: fsm_next(s, next) }]
    }
}

/// Class, retryable and fatal of a code as reported by the node: the
/// registry's for known codes, `(Policy, false, false)` otherwise.
pub open spec fn err_props(code: u16) -> (ErrorClass, bool, bool) {
    match registry(code) {
        Some(e) => (e.class, e.retryable, e.fatal),
        None => (ErrorClass::Policy, false, false),
    }
}

/// Class, retryable and fatal of an error reported with the given ones:
/// the registry's for a known code, whatever was given; the given ones
/// otherwise.
pub open spec fn named_props(code: u16, class: ErrorClass, retryable: bool, fatal: bool) -> (ErrorClass, bool, bool) {
    match registry(code) {
        Some(e) => (e.class, e.retryable, e.fatal),
        None => (class, retryable, fatal),
    }
}

/// Events and state after reporting an error with the given properties in
/// state `s`: the error event, then a move to `Failed` when fatal.
pub open spec fn error_events(
    s: NodeState,
    code: u16,
    class: ErrorClass,
    retryable: bool,
    fatal: bool,
    reason: Seq<char>,
) -> Seq<EventView> {
    let e = EventView::Error { code, class, retryable, fatal, reason };
    if fatal {
        seq![e, EventView::StateChanged { from: s, to: NodeState::Failed }]
    } else {
        seq![e]
    }
}

/// The state after reporting an error that is fatal or not.
pub open spec fn after_error_state(s: NodeState, fatal: bool) -> NodeState {
    if fatal {
        NodeState::Failed
    } else {
        s
    }
}


impl View for GroupNode {
    type V = NodeModel;

    closed spec fn view(&self) -> NodeModel {
        NodeModel {
            member_id: self.member_id,
            is_coordinator: self.is_coordinator,
            group_id: self.group_id@,
            current_epoch: self.current_epoch,
            last_transition_id: self.last_transition_id,
            pending_transition_id: self.pending_transition_id,
            state: self.state,
            transition_state: self.transition_state,
            out_seq: self.spec_out_seq(),
            in_hw: self.spec_in_hw(),
            events: self.spec_events(),
            pending_commit_sender: self.spec_pending_commit_sender(),
            prepare_deadline: self.spec_prepare_deadline(),
            execute_deadline: self.spec_execute_deadline(),
            coordinator_last_seen: self.spec_coordinator_last_seen(),
        }
    }
}

/// The highest inbound sequence number recorded for a stream (0 if none).
pub open spec fn hw_of(m: NodeModel, st: StreamType, sid: StreamId) -> u32 {
    if m.in_hw.contains_key(stream_key(st, sid)) {
        m.in_hw[stream_key(st, sid)]
    } else {
        0
    }
}

/// The last outbound sequence number used on a stream (0 if none).
pub open spec fn seq_of(m: NodeModel, st: StreamType, sid: StreamId) -> u32 {
    if m.out_seq.contains_key(stream_key(st, sid)) {
        m.out_seq[stream_key(st, sid)]
    } else {
        0
    }
}

/// The node may send in its current state.
pub open spec fn can_send(s: NodeState) -> bool {
    s == NodeState::Active || s == NodeState::Resyncing || s == NodeState::EstablishingGroup
}

/// The model after one payload was sent on `(st, sid)`: that stream's
/// outbound sequence number moved on by one.
pub open spec fn after_send(m: NodeModel, st: StreamType, sid: StreamId) -> NodeModel {
    NodeModel {
        out_seq: m.out_seq.insert(stream_key(st, sid), (seq_of(m, st, sid) + 1) as u32),
        ..m
    }
}

/// The frame that carries a payload sent from model `m` on `(st, sid)` to
/// `target`: the node's group, epoch and last transition id, the stream's
/// next sequence number, the given flags and codec, and a `payload_size`
/// equal to the sealed payload's length.
pub open spec fn sent_frame(
    m: NodeModel,
    target: MemberId,
    st: StreamType,
    sid: StreamId,
    flags: u16,
    codec: PayloadCodec,
    of: OutboundFrame,
) -> bool {
    &&& of.to == target
    &&& of.frame.version == 1
    &&& of.frame.group_id@ == m.group_id
    &&& of.frame.epoch == m.current_epoch
    &&& of.frame.transition_id == m.last_transition_id
    &&& of.frame.stream_type == stream_code(st)
    &&& of.frame.stream_id == sid
    &&& of.frame.flags == flags
    &&& of.frame.sequence_no == (seq_of(m, st, sid) + 1) as u32
    &&& of.frame.payload_size == of.frame.encrypted_payload@.len() as u32
    &&& of.frame.payload_format == codec_code(codec)
}

/// What sending a payload does, from model `pre` to model `post` with
/// result `r`: outside the sending states nothing changes and the result
/// is `InvalidState`; inside them the stream's sequence number moves on
/// and the result is the sealed frame, or `Mls` when sealing failed.
pub open spec fn send_outcome(
    pre: NodeModel,
    post: NodeModel,
    target: MemberId,
    st: StreamType,
    sid: StreamId,
    flags: u16,
    codec: PayloadCodec,
    r: Result<OutboundFrame, NodeError>,
) -> bool {
    &&& !can_send(pre.state) ==> (post == pre && (r matches Err(NodeError::InvalidState(_))))
    &&& can_send(pre.state) ==> {
        &&& post == after_send(pre, st, sid)
        &&& (r is Ok || r matches Err(NodeError::Mls(_)))
        &&& (r matches Ok(of) ==> sent_frame(pre, target, st, sid, flags, codec, of))
    }
}

/// What the sealer was asked, and what came of it, when a payload `pt` was
/// sent from model `pre` on `(st, sid)` with result `r`: outside the sending
/// states it was not asked; inside them it was asked to seal `pt` at the
/// stream's next sequence number, and the frame carries exactly what it
/// gave back, or the result is `Mls` with exactly its error.
pub open spec fn seal_outcome<S: Sealer>(
    pre: NodeModel,
    sealer: S,
    sealer_after: S,
    st: StreamType,
    sid: StreamId,
    pt: Seq<u8>,
    r: Result<OutboundFrame, NodeError>,
) -> bool {
    let seq = (seq_of(pre, st, sid) + 1) as u32;
    &&& !can_send(pre.state) ==> sealer_after == sealer
    &&& can_send(pre.state) ==> match r {
        Ok(of) => sealer.seals(st, seq, pt, Ok(of.frame.encrypted_payload@)),
        Err(NodeError::Mls(e)) => sealer.seals(st, seq, pt, Err(e)),
        Err(_) => false,
    }
}

/// `a + b` saturated at `u64::MAX`.
pub open spec fn sat_add(a: u64, b: u64) -> u64 {
    if a + b > u64::MAX {
        u64::MAX
    } else {
        (a + b) as u64
    }
}

impl GroupNode {
    /// Outbound sequence table.
    pub closed spec fn spec_out_seq(&self) -> Map<u64, u32> {
        self.out_seq@
    }

    /// Inbound high-water table.
    pub closed spec fn spec_in_hw(&self) -> Map<u64, u32> {
        self.in_hw@
    }

    /// Queued events.
    pub closed spec fn spec_events(&self) -> Seq<EventView> {
        event_views(self.events@)
    }

    /// Current tie-break winner.
    pub closed spec fn spec_pending_commit_sender(&self) -> Option<MemberId> {
        self.pending_commit_sender
    }

    /// Prepare deadline.
    pub closed spec fn spec_prepare_deadline(&self) -> Option<u64> {
        self.prepare_deadline
    }

    /// Execute deadline.
    pub closed spec fn spec_execute_deadline(&self) -> Option<u64> {
        self.execute_deadline
    }

    /// Last coordinator activity.
    pub closed spec fn spec_coordinator_last_seen(&self) -> Option<u64> {
        self.coordinator_last_seen
    }

    fn push_event(&mut self, e: Event)
        ensures
            final(self)@ == (NodeModel { events: old(self)@.events.push(e@), ..old(self)@ }),
    {
        self.events.push(e);
        assert(event_views(self.events@) =~= event_views(old(self).events@).push(e@));
    }

    /// Builds a fresh node in the `IDLE` state.
    pub fn new(member_id: MemberId, group_id: GroupId) -> (r: Self)
        ensures
            r@ == (NodeModel {
                member_id,
                is_coordinator: false,
                group_id: group_id@,
                current_epoch: 0,
                last_transition_id: 0,
                pending_transition_id: 0,
                state: NodeState::Idle,
                transition_state: TransitionState::TIdle,
                out_seq: Map::empty(),
                in_hw: Map::empty(),
                events: Seq::empty(),
                pending_commit_sender: None,
                prepare_deadline: None,
                execute_deadline: None,
                coordinator_last_seen: None,
            }),
    {
        let r = GroupNode {
            member_id,
            group_id,
            is_coordinator: false,
            current_epoch: 0,
            last_transition_id: 0,
            pending_transition_id: 0,
            state: NodeState::Idle,
            transition_state: TransitionState::TIdle,
            out_seq: HashMap::new(),
            in_hw: HashMap::new(),
            events: Vec::new(),
            pending_commit_sender: None,
            prepare_deadline: None,
            execute_deadline: None,
            coordinator_last_seen: None,
        };
        assert(r@.events =~= Seq::<EventView>::empty());
        r
    }

    fn transition(&mut self, next: NodeState)
        ensures
            final(self)@ == (NodeModel {
                state: fsm_next(old(self)@.state, next),
                events: old(self)@.events + fsm_events(old(self)@.state, next),
                ..old(self)@
            }),
    {
        if self.state == next {
            assert(old(self)@.events + fsm_events(old(self)@.state, next) =~= old(self)@.events);
            return;
        }
        let from = self.state;
        if !self.state.can_transition_to(next) {
            self.state = NodeState::Failed;
            self.push_event(Event::StateChanged { from, to: NodeState::Failed });
        } else {
            self.state = next;
            self.push_event(Event::StateChanged { from, to: next });
        }
        assert(self@.events =~= old(self)@.events + fsm_events(old(self)@.state, next));
    }

    fn emit_err_named(
        &mut self,
        code: u16,
        class: ErrorClass,
        retryable: bool,
        fatal: bool,
        reason: String,
    )
        ensures
            ({
                let (c, rt, f) = named_props(code, class, retryable, fatal);
                final(self)@ == (NodeModel {
                    state: after_error_state(old(self)@.state, f),
                    events: old(self)@.events + error_events(old(self)@.state, code, c, rt, f, reason@),
                    ..old(self)@
                })
            }),
    {
        let (class, retryable, fatal) = match ErrorSpec::lookup(code) {
            Some(spec) => (spec.class, spec.retryable, spec.fatal),
            None => (class, retryable, fatal),
        };
        let from = self.state;
        self.push_event(Event::Error { code, class, retryable, fatal, reason });
        if fatal {
            self.state = NodeState::Failed;
            self.push_event(Event::StateChanged { from, to: NodeState::Failed });
        }
        assert(self@.events =~= old(self)@.events + error_events(
            old(self)@.state,
            code,
            class,
            retryable,
            fatal,
            reason@,
        ));
    }

    fn emit_err_spec(&mut self, code: u16, reason: String)
        ensures
            final(self)@ == (NodeModel {
                state: after_error_state(old(self)@.state, err_props(code).2),
                events: old(self)@.events + error_events(
                    old(self)@.state,
                    code,
                    err_props(code).0,
                    err_props(code).1,
                    err_props(code).2,
                    reason@,
                ),
                ..old(self)@
            }),
    {
        match ErrorSpec::lookup(code) {
            Some(spec) => self.emit_err_named(spec.code, spec.class, spec.retryable, spec.fatal, reason),
            None => self.emit_err_named(code, ErrorClass::Policy, false, false, reason),
        }
    }

    /// Drives the node from `IDLE` to `ACTIVE` as a creator, adopting
    /// `epoch`.
    pub fn bootstrap_as_creator(&mut self, epoch: u64)
        ensures
            ({
                let s0 = old(self)@.state;
                let s1 = fsm_next(s0, NodeState::Connecting);
                let s2 = fsm_next(s1, NodeState::EstablishingGroup);
                final(self)@ == (NodeModel {
                    current_epoch: epoch,
                    state: fsm_next(s2, NodeState::Active),
                    events: old(self)@.events + fsm_events(s0, NodeState::Connecting) + fsm_events(
                        s1,
                        NodeState::EstablishingGroup,
                    ) + fsm_events(s2, NodeState::Active),
                    ..old(self)@
                })
            }),
    {
        self.transition(NodeState::Connecting);
        self.transition(NodeState::EstablishingGroup);
        self.current_epoch = epoch;
        self.transition(NodeState::Active);
    }

    /// Drives the node from `IDLE` to `ACTIVE` as a joiner. A non-zero
    /// `expected_first_tid` pre-arms the pending transition so that the
    /// first `EXECUTE_TRANSITION` (whose PREPARE the joiner could not
    /// decrypt) is accepted.
    pub fn bootstrap_as_joiner(&mut self, epoch: u64, expected_first_tid: u32)
        ensures
            ({
                let s0 = old(self)@.state;
                let s1 = fsm_next(s0, NodeState::Connecting);
                let s2 = fsm_next(s1, NodeState::EstablishingGroup);
                final(self)@ == (NodeModel {
                    current_epoch: epoch,
                    state: fsm_next(s2, NodeState::Active),
                    events: old(self)@.events + fsm_events(s0, NodeState::Connecting) + fsm_events(
                        s1,
                        NodeState::EstablishingGroup,
                    ) + fsm_events(s2, NodeState::Active),
                    pending_transition_id: if expected_first_tid > 0 {
                        expected_first_tid
                    } else {
                        old(self)@.pending_transition_id
                    },
                    transition_state: if expected_first_tid > 0 {
                        TransitionState::TPrepared
                    } else {
                        old(self)@.transition_state
                    },
                    ..old(self)@
                })
            }),
    {
        self.transition(NodeState::Connecting);
        self.transition(NodeState::EstablishingGroup);
        self.current_epoch = epoch;
        if expected_first_tid > 0 {
            self.pending_transition_id = expected_first_tid;
            self.transition_state = TransitionState::TPrepared;
        }
        self.transition(NodeState::Active);
    }

    /// Drains and returns all queued events.
    pub fn drain_events(&mut self) -> (r: Vec<Event>)
        ensures
            event_views(r@) == old(self)@.events,
            final(self)@ == (NodeModel { events: Seq::empty(), ..old(self)@ }),
    {
        let mut r: Vec<Event> = Vec::new();
        std::mem::swap(&mut r, &mut self.events);
        assert(event_views(self.events@) =~= Seq::<EventView>::empty());
        r
    }

    /// Returns a sender-unique `stream_id` within the given base class, so
    /// the receiver's replay window does not conflate streams of different
    /// members.
    pub fn member_stream_id(&self, base: u32) -> (r: StreamId)
        requires
            base + self@.member_id * 100 <= u32::MAX,
        ensures
            r == base + self@.member_id * 100,
    {
        base + self.member_id * 100
    }

    /// The sequence number last sent on `(stream_type, stream_id)`, 0 when
    /// nothing was sent there; the next frame gets this value plus one.
    pub fn last_sent_sequence(&self, stream_type: StreamType, stream_id: StreamId) -> (r: SequenceNo)
        ensures
            r == seq_of(self@, stream_type, stream_id),
    {
        let key = stream_key_of(stream_type, stream_id);
        match self.out_seq.get(&key) {
            Some(v) => *v,
            None => 0,
        }
    }

    fn assert_can_send(&self) -> (r: Result<(), NodeError>)
        ensures
            r is Ok == can_send(self.state),
            r matches Err(e) ==> e matches NodeError::InvalidState(m) && m@ == "cannot send in state "@
                + node_state_name(self.state),
    {
        match self.state {
            NodeState::Active | NodeState::Resyncing | NodeState::EstablishingGroup => Ok(()),
            _ => Err(NodeError::InvalidState(join2("cannot send in state ".to_owned(), self.state.name()))),
        }
    }

    fn next_seq(&mut self, st: StreamType, sid: StreamId) -> (r: SequenceNo)
        requires
            seq_of(old(self)@, st, sid) < u32::MAX,
        ensures
            r == seq_of(old(self)@, st, sid) + 1,
            final(self)@ == (NodeModel {
                out_seq: old(self)@.out_seq.insert(stream_key(st, sid), r),
                ..old(self)@
            }),
    {
        let key = stream_key_of(st, sid);
        let cur = match self.out_seq.get(&key) {
            Some(v) => *v,
            None => 0,
        };
        let next = cur + 1;
        self.out_seq.insert(key, next);
        next
    }

    /// Seals `plaintext` and frames it on the given stream, with the next
    /// sequence number of that stream.
    ///
    /// Fails with `InvalidState` (and changes nothing) unless the node is
    /// `ACTIVE`, `RESYNCING` or `ESTABLISHING_GROUP`; with `Mls` when the
    /// sealer fails (the sequence number is then used up).
    pub fn send_payload<S: Sealer>(
        &mut self,
        seal: &mut S,
        target: MemberId,
        stream_type: StreamType,
        stream_id: StreamId,
        flags: u16,
        plaintext: &[u8],
        codec: PayloadCodec,
    ) -> (r: Result<OutboundFrame, NodeError>)
        requires
            seq_of(old(self)@, stream_type, stream_id) < u32::MAX,
        ensures
            send_outcome(old(self)@, final(self)@, target, stream_type, stream_id, flags, codec, r),
            seal_outcome(old(self)@, *old(seal), *final(seal), stream_type, stream_id, plaintext@, r),
    {
        self.assert_can_send()?;
        let seq = self.next_seq(stream_type, stream_id);
        let ciphertext = match seal.seal(stream_type, seq, plaintext) {
            Ok(c) => c,
            Err(e) => {
                return Err(NodeError::Mls(e));
            },
        };
        let frame = GbpFrame::new(
            self.group_id,
            self.current_epoch,
            self.last_transition_id,
            stream_type,
            stream_id,
            flags,
            seq,
            ciphertext,
            codec.as_u8(),
        );
        Ok(OutboundFrame { to: target, frame })
    }
}

/// The verdict of the frame validation pipeline, in the order version,
/// group id, epoch, payload size, stream class, transition id (critical
/// application frames only), replay window.
pub enum FrameCheck {
    /// Rejected with this error code and reason.
    Reject { code: u16, reason: Seq<char> },
    /// The frame's epoch differs from the node's: reported, then resync.
    EpochMismatch { reason: Seq<char> },
    /// Passed; the frame belongs to this stream class.
    Accept { st: StreamType },
}

/// Text of the payload-size check failure.
pub open spec fn payload_size_reason() -> Seq<char> {
    "payload size: payload_size/content_length/args_length mismatch"@
}

/// The validation verdict of frame `f` at a node in state `m`.
pub open spec fn frame_check(m: NodeModel, f: GbpFrame) -> FrameCheck {
    if f.version != 1 {
        FrameCheck::Reject { code: codes::UNSUPPORTED_VERSION, reason: "version != 1"@ }
    } else if group_id_of(f.group_id@) != m.group_id {
        FrameCheck::Reject { code: codes::UNKNOWN_GROUP, reason: "group_id"@ }
    } else if f.epoch != m.current_epoch {
        FrameCheck::EpochMismatch {
            reason: "got "@ + decimal(f.epoch as nat) + ", expected "@ + decimal(
                m.current_epoch as nat,
            ),
        }
    } else if f.payload_size != f.encrypted_payload@.len() {
        FrameCheck::Reject { code: codes::STREAM_POLICY_VIOLATION, reason: payload_size_reason() }
    } else {
        match stream_of_code(f.stream_type as int) {
            None => FrameCheck::Reject {
                code: codes::STREAM_POLICY_VIOLATION,
                reason: "unknown stream_type"@,
            },
            Some(st) => if st != StreamType::Control && f.flags & GbpFlags::CRITICAL != 0
                && f.transition_id != m.last_transition_id {
                FrameCheck::Reject {
                    code: codes::TRANSITION_MISMATCH,
                    reason: "got tid="@ + decimal(f.transition_id as nat) + ", expected "@
                        + decimal(m.last_transition_id as nat),
                }
            } else if f.sequence_no <= hw_of(m, st, f.stream_id) {
                FrameCheck::Reject {
                    code: codes::REPLAY_DETECTED,
                    reason: "st="@ + stream_name(st) + " sid="@ + decimal(f.stream_id as nat)
                        + " seq="@ + decimal(f.sequence_no as nat) + " hw="@ + decimal(
                        hw_of(m, st, f.stream_id) as nat,
                    ),
                }
            } else {
                FrameCheck::Accept { st }
            },
        }
    }
}

/// The model after reporting error `code` (registry semantics) with
/// `reason`.
pub open spec fn reported(m: NodeModel, code: u16, reason: Seq<char>) -> NodeModel {
    NodeModel {
        state: after_error_state(m.state, err_props(code).2),
        events: m.events + error_events(
            m.state,
            code,
            err_props(code).0,
            err_props(code).1,
            err_props(code).2,
            reason,
        ),
        ..m
    }
}

/// Reporting an error of a known code queues an error event with the
/// registry's class and retryable and fatal flags, followed, for a fatal
/// code, by the move to `FAILED`; a known non-fatal code leaves the state
/// as it was.
pub proof fn lemma_reported_matches_registry(m: NodeModel, code: u16, reason: Seq<char>)
    requires
        registry(code) is Some,
    ensures
        reported(m, code, reason).events[m.events.len() as int] == (EventView::Error {
            code,
            class: registry(code)->0.class,
            retryable: registry(code)->0.retryable,
            fatal: registry(code)->0.fatal,
            reason,
        }),
        registry(code)->0.fatal ==> reported(m, code, reason).state == NodeState::Failed
            && reported(m, code, reason).events.len() == m.events.len() + 2,
        !registry(code)->0.fatal ==> reported(m, code, reason).state == m.state
            && reported(m, code, reason).events.len() == m.events.len() + 1,
{
}

/// The model after a request to move the node FSM to `next`.
pub open spec fn moved(m: NodeModel, next: NodeState) -> NodeModel {
    NodeModel { state: fsm_next(m.state, next), events: m.events + fsm_events(m.state, next), ..m }
}

/// The model after a resync request: the node moves to `RESYNCING` unless
/// it is already there.
pub open spec fn resynced(m: NodeModel) -> NodeModel {
    if m.state == NodeState::Resyncing {
        m
    } else {
        moved(m, NodeState::Resyncing)
    }
}

/// The model after applying transition `tid`: the epoch advances, the
/// pending transition and tie-break winner are cleared, both sequence
/// tables are reset and an `EpochAdvanced` event is queued.
pub open spec fn applied(m: NodeModel, tid: TransitionId) -> NodeModel {
    NodeModel {
        current_epoch: (m.current_epoch + 1) as u64,
        last_transition_id: tid,
        pending_transition_id: 0,
        pending_commit_sender: None,
        transition_state: TransitionState::TExecuted,
        out_seq: Map::empty(),
        in_hw: Map::empty(),
        events: m.events.push(
            EventView::EpochAdvanced { epoch: (m.current_epoch + 1) as u64, transition_id: tid },
        ),
        ..m
    }
}

/// `args` encode a coordinator claim: they hold the CBOR pair
/// `uint(0) -> true`, i.e. the bytes `00 F5` (the minimal claim is the map
/// `A1 00 F5`).
pub open spec fn is_claim(args: Seq<u8>) -> bool {
    exists|i: int| 0 <= i && i + 1 < args.len() && #[trigger] args[i] == 0x00u8 && args[i + 1] == 0xF5u8
}

/// Whether a control message's `transition_id` fits the opcode: PREPARE
/// must introduce a newer tid (and match a pending one, if any); READY,
/// EXECUTE and ABORT must name the pending tid; other opcodes carry it for
/// information only.
pub open spec fn tid_ok(m: NodeModel, op: ControlOpcode, tid: TransitionId) -> bool {
    match op {
        ControlOpcode::PrepareTransition => tid > m.last_transition_id && (m.pending_transition_id
            == 0 || m.pending_transition_id == tid),
        ControlOpcode::ReadyForTransition
        | ControlOpcode::ExecuteTransition
        | ControlOpcode::AbortTransition => m.pending_transition_id != 0 && tid
            == m.pending_transition_id,
        _ => true,
    }
}

/// `msg` is an `EXECUTE_TRANSITION` for the transition pending at `m`: the
/// one control message that advances the epoch.
pub open spec fn executes_pending(m: NodeModel, msg: Option<ControlMessage>) -> bool {
    msg matches Some(c) && c.opcode == opcode_code(ControlOpcode::ExecuteTransition)
        && m.pending_transition_id != 0 && c.transition_id == m.pending_transition_id
}

/// Text of a rejected control `transition_id`.
pub open spec fn tid_reason(m: NodeModel, op: ControlOpcode, tid: TransitionId) -> Seq<char> {
    "control tid="@ + decimal(tid as nat) + " not valid for "@ + opcode_name(op) + " (last="@
        + decimal(m.last_transition_id as nat) + ", pending="@ + decimal(
        m.pending_transition_id as nat,
    ) + ")"@
}

/// The model after accepting a control message with a valid tid.
pub open spec fn control_applied(
    m: NodeModel,
    op: ControlOpcode,
    sender: MemberId,
    tid: TransitionId,
    rid: u32,
    args: Seq<u8>,
    now: u64,
) -> NodeModel {
    let ev = EventView::Control { from: sender, opcode: op, transition_id: tid, request_id: rid, args };
    match op {
        ControlOpcode::PrepareTransition => {
            let winner = match m.pending_commit_sender {
                Some(w) => w,
                None => u32::MAX,
            };
            if m.pending_transition_id == tid && sender >= winner {
                NodeModel { events: m.events.push(ev), ..m }
            } else {
                NodeModel {
                    pending_transition_id: tid,
                    pending_commit_sender: Some(sender),
                    transition_state: TransitionState::TPrepared,
                    coordinator_last_seen: Some(now),
                    execute_deadline: Some(sat_add(now, timeouts::T_EXECUTE_MAX_MS)),
                    events: m.events.push(ev),
                    ..m
                }
            }
        },
        ControlOpcode::ReadyForTransition => NodeModel {
            transition_state: TransitionState::TReady,
            prepare_deadline: None,
            events: m.events.push(ev),
            ..m
        },
        ControlOpcode::ExecuteTransition => {
            let a = applied(NodeModel { execute_deadline: None, pending_commit_sender: None, ..m }, tid);
            NodeModel { coordinator_last_seen: Some(now), events: a.events.push(ev), ..a }
        },
        ControlOpcode::AbortTransition => NodeModel {
            prepare_deadline: None,
            execute_deadline: None,
            pending_commit_sender: None,
            transition_state: TransitionState::TAborted,
            pending_transition_id: 0,
            events: m.events.push(ev),
            ..m
        },
        ControlOpcode::GroupStateDigestResponse => {
            let a = if m.state == NodeState::Resyncing {
                moved(m, NodeState::Active)
            } else {
                m
            };
            NodeModel { events: a.events.push(ev), ..a }
        },
        ControlOpcode::CapabilitiesAdvertise => if is_claim(args) {
            NodeModel {
                coordinator_last_seen: Some(now),
                is_coordinator: m.is_coordinator && !(sender < m.member_id),
                events: m.events.push(EventView::CoordinatorClaim { claimant: sender }).push(ev),
                ..m
            }
        } else {
            NodeModel { events: m.events.push(ev), ..m }
        },
        _ => NodeModel { events: m.events.push(ev), ..m },
    }
}

/// The model after handling a (possibly undecodable) control message.
pub open spec fn control_handled(m: NodeModel, msg: Option<ControlMessage>, now: u64) -> NodeModel {
    match msg {
        None => reported(m, codes::STREAM_POLICY_VIOLATION, "control decode"@),
        Some(c) => match opcode_of_code(c.opcode) {
            None => reported(m, codes::STREAM_POLICY_VIOLATION, "unknown opcode"@),
            Some(op) => if !tid_ok(m, op, c.transition_id) {
                reported(m, codes::TRANSITION_MISMATCH, tid_reason(m, op, c.transition_id))
            } else {
                control_applied(m, op, c.sender_id, c.transition_id, c.request_id, c.args@, now)
            },
        },
    }
}

/// Frame flags a control message is sent with: `O | R | S`, plus `C` for
/// PREPARE, READY and EXECUTE.
pub open spec fn control_flags(op: ControlOpcode) -> u16 {
    match op {
        ControlOpcode::PrepareTransition
        | ControlOpcode::ReadyForTransition
        | ControlOpcode::ExecuteTransition => 0x001B,
        _ => 0x000B,
    }
}

/// Sender-side state mirroring of an outgoing control message.
pub open spec fn control_mirrored(m: NodeModel, op: ControlOpcode, tid: TransitionId, now: u64) -> NodeModel {
    match op {
        ControlOpcode::PrepareTransition => NodeModel {
            pending_transition_id: tid,
            transition_state: TransitionState::TPrepared,
            prepare_deadline: Some(sat_add(now, timeouts::T_PREPARE_MAX_MS)),
            execute_deadline: None,
            ..m
        },
        ControlOpcode::ReadyForTransition => NodeModel {
            execute_deadline: Some(sat_add(now, timeouts::T_EXECUTE_MAX_MS)),
            ..m
        },
        ControlOpcode::ExecuteTransition => NodeModel {
            prepare_deadline: None,
            execute_deadline: None,
            ..m
        },
        ControlOpcode::AbortTransition => NodeModel {
            prepare_deadline: None,
            execute_deadline: None,
            pending_transition_id: 0,
            transition_state: TransitionState::TAborted,
            ..m
        },
        _ => m,
    }
}

/// The model after the timer check at time `now`: an expired prepare
/// deadline aborts the transition, an expired execute deadline is reported,
/// and coordinator silence of at least the grace period clears the
/// coordinator role and asks for an election.
pub open spec fn timed_out(m: NodeModel, now: u64) -> NodeModel {
    let m1 = if m.prepare_deadline matches Some(d) && now >= d {
        reported(
            NodeModel {
                prepare_deadline: None,
                execute_deadline: None,
                pending_transition_id: 0,
                transition_state: TransitionState::TAborted,
                ..m
            },
            codes::PREPARE_TIMEOUT,
            "T_prepare_max exceeded"@,
        )
    } else {
        m
    };
    let m2 = if m1.execute_deadline matches Some(d) && now >= d {
        reported(NodeModel { execute_deadline: None, ..m1 }, codes::EXECUTE_TIMEOUT, "T_execute_max exceeded"@)
    } else {
        m1
    };
    if m2.coordinator_last_seen matches Some(t) && now >= t && now - t >= timeouts::T_COORDINATOR_GRACE_MS {
        let m3 = reported(
            NodeModel { coordinator_last_seen: None, is_coordinator: false, ..m2 },
            codes::COORDINATOR_GONE,
            "coordinator silence exceeded T_coordinator_grace"@,
        );
        NodeModel { events: m3.events.push(EventView::CoordinatorElectionNeeded), ..m3 }
    } else {
        m2
    }
}

fn text(s: &str) -> (r: String)
    ensures
        r@ == s@,
{
    s.to_owned()
}

fn dec(n: u64) -> (r: String)
    ensures
        r@ == decimal(n as nat),
{
    decimal_string(n)
}

fn saturating(a: u64, b: u64) -> (r: u64)
    ensures
        r == sat_add(a, b),
{
    if a > u64::MAX - b {
        u64::MAX
    } else {
        a + b
    }
}

impl GroupNode {
    /// Application-level member id.
    pub fn member_id(&self) -> (r: MemberId)
        ensures
            r == self@.member_id,
    {
        self.member_id
    }

    /// Current epoch.
    pub fn current_epoch(&self) -> (r: u64)
        ensures
            r == self@.current_epoch,
    {
        self.current_epoch
    }

    /// Last applied `transition_id`.
    pub fn last_transition_id(&self) -> (r: TransitionId)
        ensures
            r == self@.last_transition_id,
    {
        self.last_transition_id
    }

    /// Pending `transition_id` (0 when none).
    pub fn pending_transition_id(&self) -> (r: TransitionId)
        ensures
            r == self@.pending_transition_id,
    {
        self.pending_transition_id
    }

    /// Node FSM state.
    pub fn state(&self) -> (r: NodeState)
        ensures
            r == self@.state,
    {
        self.state
    }

    /// Transition FSM state.
    pub fn transition_state(&self) -> (r: TransitionState)
        ensures
            r == self@.transition_state,
    {
        self.transition_state
    }

    /// Whether this node holds the coordinator role.
    pub fn is_coordinator(&self) -> (r: bool)
        ensures
            r == self@.is_coordinator,
    {
        self.is_coordinator
    }

    /// Sender of the PREPARE currently winning the tie-break.
    pub fn pending_commit_sender(&self) -> (r: Option<MemberId>)
        ensures
            r == self@.pending_commit_sender,
    {
        self.pending_commit_sender
    }

    /// Deadline (ms) for READY quorum, when armed.
    pub fn prepare_deadline(&self) -> (r: Option<u64>)
        ensures
            r == self@.prepare_deadline,
    {
        self.prepare_deadline
    }

    /// Deadline (ms) for EXECUTE, when armed.
    pub fn execute_deadline(&self) -> (r: Option<u64>)
        ensures
            r == self@.execute_deadline,
    {
        self.execute_deadline
    }

    /// Time (ms) of the last recorded coordinator activity.
    pub fn coordinator_last_seen(&self) -> (r: Option<u64>)
        ensures
            r == self@.coordinator_last_seen,
    {
        self.coordinator_last_seen
    }

    /// Sets the coordinator-role flag.
    pub fn set_coordinator(&mut self, on: bool)
        ensures
            final(self)@ == (NodeModel { is_coordinator: on, ..old(self)@ }),
    {
        self.is_coordinator = on;
    }

    /// Overrides the current epoch.
    pub fn set_epoch(&mut self, epoch: u64)
        ensures
            final(self)@ == (NodeModel { current_epoch: epoch, ..old(self)@ }),
    {
        self.current_epoch = epoch;
    }

    /// Overrides the pending transition (id and FSM state), as after a
    /// PREPARE received out of band.
    pub fn set_pending_transition(&mut self, tid: TransitionId, ts: TransitionState)
        ensures
            final(self)@ == (NodeModel { pending_transition_id: tid, transition_state: ts, ..old(self)@ }),
    {
        self.pending_transition_id = tid;
        self.transition_state = ts;
    }

    /// Records coordinator activity at `now_ms`, so that the silence timer
    /// restarts.
    pub fn note_coordinator_activity_at(&mut self, now_ms: u64)
        ensures
            final(self)@ == (NodeModel { coordinator_last_seen: Some(now_ms), ..old(self)@ }),
    {
        self.coordinator_last_seen = Some(now_ms);
    }

    /// Records coordinator activity now (system clock).
    pub fn note_coordinator_activity(&mut self)
        ensures
            final(self)@.coordinator_last_seen is Some,
            final(self)@ == (NodeModel {
                coordinator_last_seen: final(self)@.coordinator_last_seen,
                ..old(self)@
            }),
    {
        let now = clock_ms();
        self.note_coordinator_activity_at(now);
    }

    /// Applies a new epoch (called by the coordinator after
    /// `EXECUTE_TRANSITION`): the epoch advances, `tid` becomes the last
    /// applied transition and both sequence tables are reset.
    pub fn apply_transition(&mut self, tid: TransitionId)
        requires
            old(self)@.current_epoch < u64::MAX,
        ensures
            final(self)@ == applied(old(self)@, tid),
    {
        self.current_epoch = self.current_epoch + 1;
        self.last_transition_id = tid;
        self.pending_transition_id = 0;
        self.pending_commit_sender = None;
        self.transition_state = TransitionState::TExecuted;
        self.out_seq.clear();
        self.in_hw.clear();
        let epoch = self.current_epoch;
        self.push_event(Event::EpochAdvanced { epoch, transition_id: tid });
    }

    /// Forces the node into the `RESYNCING` state (an invalid move from the
    /// current state fails the node, as every FSM move does).
    pub fn trigger_resync(&mut self)
        ensures
            final(self)@ == resynced(old(self)@),
    {
        if self.state != NodeState::Resyncing {
            self.transition(NodeState::Resyncing);
        }
    }

    /// Reports a frame whose bytes could not be decoded, with the decoder's
    /// message.
    pub fn reject_undecodable_frame(&mut self, detail: &str)
        ensures
            final(self)@ == reported(old(self)@, codes::STREAM_POLICY_VIOLATION, "frame decode: "@ + detail@),
    {
        self.emit_err_spec(codes::STREAM_POLICY_VIOLATION, join2(text("frame decode: "), detail));
    }

    /// Runs the validation pipeline on a decoded frame and, when it passes,
    /// opens the payload through `seal`.
    ///
    /// Rejections are reported as error events (see [`frame_check`]); an
    /// epoch mismatch also moves the node to `RESYNCING`. A frame that
    /// passes raises the stream's replay high-water mark to its sequence
    /// number. A payload the sealer cannot open is reported as a retryable,
    /// non-fatal `DECRYPT_FAILED`. An opened application payload is queued
    /// as [`Event::PayloadReceived`]; an opened control payload is returned
    /// for the caller to decode and pass to [`GroupNode::handle_control`].
    pub fn deliver_frame<S: Sealer>(&mut self, seal: &mut S, frame: GbpFrame) -> (r: Option<Vec<u8>>)
        ensures
            match frame_check(old(self)@, frame) {
                FrameCheck::Reject { code, reason } => r is None && final(self)@ == reported(
                    old(self)@,
                    code,
                    reason,
                ) && *final(seal) == *old(seal),
                FrameCheck::EpochMismatch { reason } => r is None && final(self)@ == resynced(
                    reported(old(self)@, codes::EPOCH_MISMATCH, reason),
                ) && *final(seal) == *old(seal),
                FrameCheck::Accept { st } => {
                    let m1 = NodeModel {
                        in_hw: old(self)@.in_hw.insert(
                            stream_key(st, frame.stream_id),
                            frame.sequence_no,
                        ),
                        ..old(self)@
                    };
                    ||| exists|e: MlsError|
                        #![trigger old(seal).opens(st, frame.sequence_no, frame.encrypted_payload@, Err(e))]
                        old(seal).opens(st, frame.sequence_no, frame.encrypted_payload@, Err(e)) && r is None
                            && final(self)@ == reported(m1, codes::DECRYPT_FAILED, "aead open: "@ + mls_error_text(e))
                    ||| exists|p: Seq<u8>|
                        #![trigger old(seal).opens(st, frame.sequence_no, frame.encrypted_payload@, Ok(p))]
                        old(seal).opens(st, frame.sequence_no, frame.encrypted_payload@, Ok(p)) && {
                            ||| (st == StreamType::Control && (r matches Some(v) && v@ == p) && final(self)@
                                == m1)
                            ||| (st != StreamType::Control && r is None && final(self)@ == (NodeModel {
                                events: m1.events.push(
                                    EventView::PayloadReceived {
                                        stream_type: st,
                                        stream_id: frame.stream_id,
                                        sequence_no: frame.sequence_no,
                                        flags: frame.flags,
                                        plaintext: p,
                                        codec: frame_codec(frame.payload_format),
                                    },
                                ),
                                ..m1
                            }))
                        }
                },
            },
    {
        if frame.version != 1 {
            self.emit_err_spec(codes::UNSUPPORTED_VERSION, text("version != 1"));
            return None;
        }
        let gid = frame.group_id_array();
        if !crate::bytes::bytes_eq(&gid, &self.group_id) {
            self.emit_err_spec(codes::UNKNOWN_GROUP, text("group_id"));
            return None;
        }
        if frame.epoch != self.current_epoch {
            let reason = join2(join2(join2(text("got "), dec(frame.epoch).as_str()), ", expected "), dec(self.current_epoch).as_str());
            self.emit_err_spec(codes::EPOCH_MISMATCH, reason);
            self.trigger_resync();
            return None;
        }
        if frame.validate_payload_size().is_err() {
            self.emit_err_spec(codes::STREAM_POLICY_VIOLATION, text("payload size: payload_size/content_length/args_length mismatch"));
            return None;
        }
        let flags = GbpFlags::from_bits(frame.flags);
        let st = match frame.stream_type_typed() {
            Ok(st) => st,
            Err(_) => {
                self.emit_err_spec(codes::STREAM_POLICY_VIOLATION, text("unknown stream_type"));
                return None;
            },
        };
        if st != StreamType::Control && flags.has(GbpFlags::CRITICAL) && frame.transition_id
            != self.last_transition_id {
            let reason = join2(join2(join2(text("got tid="), dec(frame.transition_id as u64).as_str()), ", expected "), dec(self.last_transition_id as u64).as_str());
            self.emit_err_spec(codes::TRANSITION_MISMATCH, reason);
            return None;
        }
        let key = stream_key_of(st, frame.stream_id);
        let hw = match self.in_hw.get(&key) {
            Some(v) => *v,
            None => 0,
        };
        if frame.sequence_no <= hw {
            let r1 = join2(join2(text("st="), st.name()), " sid=");
            let r2 = join2(join2(r1, dec(frame.stream_id as u64).as_str()), " seq=");
            let r3 = join2(join2(r2, dec(frame.sequence_no as u64).as_str()), " hw=");
            let reason = join2(r3, dec(hw as u64).as_str());
            self.emit_err_spec(codes::REPLAY_DETECTED, reason);
            return None;
        }
        self.in_hw.insert(key, frame.sequence_no);
        let plain = match seal.open(st, frame.sequence_no, frame.encrypted_payload.as_slice()) {
            Ok(p) => {
                assert(old(seal).opens(st, frame.sequence_no, frame.encrypted_payload@, Ok(p@)));
                p
            },
            Err(e) => {
                assert(old(seal).opens(st, frame.sequence_no, frame.encrypted_payload@, Err(e)));
                let reason = join2(text("aead open: "), e.message().as_str());
                self.emit_err_spec(codes::DECRYPT_FAILED, reason);
                return None;
            },
        };
        match st {
            StreamType::Control => Some(plain),
            other => {
                let codec = frame.payload_codec();
                self.push_event(
                    Event::PayloadReceived(
                        DeliveredPayload {
                            stream_type: other,
                            stream_id: frame.stream_id,
                            sequence_no: frame.sequence_no,
                            flags: frame.flags,
                            plaintext: plain,
                            codec,
                        },
                    ),
                );
                None
            },
        }
    }

    /// `true` if the args of a `CAPABILITIES_ADVERTISE` encode a coordinator
    /// claim: the minimal map `{0: true}` (`A1 00 F5`) or any args holding
    /// the pair `uint(0) -> true` (`00 F5`).
    pub fn is_coordinator_claim(args: &[u8]) -> (r: bool)
        ensures
            r == is_claim(args@),
    {
        if args.len() == 3 && args[0] == 0xA1 && args[1] == 0x00 && args[2] == 0xF5 {
            return true;
        }
        let mut i: usize = 0;
        while i < args.len()
            invariant
                i <= args@.len(),
                forall|k: int| 0 <= k < i && k + 1 < args@.len() ==> !(#[trigger] args@[k] == 0x00u8
                    && args@[k + 1] == 0xF5u8),
            decreases args@.len() - i,
        {
            if i + 1 < args.len() && args[i] == 0x00 && args[i + 1] == 0xF5 {
                return true;
            }
            i = i + 1;
        }
        false
    }

    /// Handles a decoded control message received at `now_ms` (`None` when
    /// the control payload could not be decoded). See [`control_handled`]:
    /// undecodable messages, unknown opcodes and transition ids that do not
    /// fit the opcode are reported; otherwise the opcode's effect is applied
    /// (PREPARE tie-break by lowest sender id, EXECUTE applies the
    /// transition, coordinator claims, ...) and a `Control` event is queued.
    pub fn handle_control_at(&mut self, msg: Option<ControlMessage>, now_ms: u64)
        requires
            executes_pending(old(self)@, msg) ==> old(self)@.current_epoch < u64::MAX,
        ensures
            final(self)@ == control_handled(old(self)@, msg, now_ms),
    {
        let c = match msg {
            Some(c) => c,
            None => {
                self.emit_err_spec(codes::STREAM_POLICY_VIOLATION, text("control decode"));
                return ;
            },
        };
        let opcode = match ControlOpcode::try_from_u16(c.opcode) {
            Ok(op) => op,
            Err(_) => {
                self.emit_err_spec(codes::STREAM_POLICY_VIOLATION, text("unknown opcode"));
                return ;
            },
        };
        let tid_ok = match opcode {
            ControlOpcode::PrepareTransition => c.transition_id > self.last_transition_id && (
            self.pending_transition_id == 0 || self.pending_transition_id == c.transition_id),
            ControlOpcode::ReadyForTransition
            | ControlOpcode::ExecuteTransition
            | ControlOpcode::AbortTransition => self.pending_transition_id != 0 && c.transition_id
                == self.pending_transition_id,
            _ => true,
        };
        if !tid_ok {
            let r1 = join2(join2(text("control tid="), dec(c.transition_id as u64).as_str()), " not valid for ");
            let r2 = join2(join2(r1, opcode.name()), " (last=");
            let r3 = join2(join2(r2, dec(self.last_transition_id as u64).as_str()), ", pending=");
            let reason = join2(join2(r3, dec(self.pending_transition_id as u64).as_str()), ")");
            self.emit_err_spec(codes::TRANSITION_MISMATCH, reason);
            return ;
        }
        let ghost m0 = self@;
        let sender = c.sender_id;
        let tid = c.transition_id;
        let rid = c.request_id;
        match opcode {
            ControlOpcode::PrepareTransition => {
                if self.pending_transition_id == tid {
                    let current_winner = match self.pending_commit_sender {
                        Some(w) => w,
                        None => u32::MAX,
                    };
                    if sender >= current_winner {
                        self.push_event(Event::Control { from: sender, opcode, transition_id: tid, request_id: rid, args: c.args });
                        return ;
                    }
                }
                self.pending_transition_id = tid;
                self.pending_commit_sender = Some(sender);
                self.transition_state = TransitionState::TPrepared;
                self.coordinator_last_seen = Some(now_ms);
                self.execute_deadline = Some(saturating(now_ms, timeouts::T_EXECUTE_MAX_MS));
            },
            ControlOpcode::ReadyForTransition => {
                self.transition_state = TransitionState::TReady;
                self.prepare_deadline = None;
            },
            ControlOpcode::ExecuteTransition => {
                self.execute_deadline = None;
                self.pending_commit_sender = None;
                self.apply_transition(tid);
                self.coordinator_last_seen = Some(now_ms);
            },
            ControlOpcode::AbortTransition => {
                self.prepare_deadline = None;
                self.execute_deadline = None;
                self.pending_commit_sender = None;
                self.transition_state = TransitionState::TAborted;
                self.pending_transition_id = 0;
            },
            ControlOpcode::GroupStateDigestResponse => {
                if self.state == NodeState::Resyncing {
                    self.transition(NodeState::Active);
                }
            },
            ControlOpcode::CapabilitiesAdvertise => {
                if Self::is_coordinator_claim(c.args.as_slice()) {
                    self.coordinator_last_seen = Some(now_ms);
                    if self.is_coordinator && sender < self.member_id {
                        self.is_coordinator = false;
                    }
                    self.push_event(Event::CoordinatorClaim { claimant: sender });
                }
            },
            _ => {},
        }
        self.push_event(Event::Control { from: sender, opcode, transition_id: tid, request_id: rid, args: c.args });
    }

    /// Handles a decoded control message at the current system time.
    pub fn handle_control(&mut self, msg: Option<ControlMessage>)
        requires
            executes_pending(old(self)@, msg) ==> old(self)@.current_epoch < u64::MAX,
        ensures
            exists|t: u64| #![trigger control_handled(old(self)@, msg, t)]
                final(self)@ == control_handled(old(self)@, msg, t),
    {
        let now = clock_ms();
        self.handle_control_at(msg, now);
    }

    /// Builds an outgoing control message sent at `now_ms` and mirrors its
    /// effect on the sender's own transition state (see
    /// [`control_mirrored`]). Returns the message and the frame flags to
    /// send it with; the caller encodes it and hands the bytes to
    /// [`GroupNode::send_control_payload`].
    pub fn prepare_control_at(
        &mut self,
        opcode: ControlOpcode,
        transition_id: TransitionId,
        request_id: u32,
        args: Vec<u8>,
        now_ms: u64,
    ) -> (r: (ControlMessage, u16))
        ensures
            r.0.opcode == opcode_code(opcode),
            r.0.request_id == request_id,
            r.0.sender_id == old(self)@.member_id,
            r.0.transition_id == transition_id,
            r.0.args_length == args@.len() as u32,
            r.0.args@ == args@,
            r.1 == control_flags(opcode),
            final(self)@ == control_mirrored(old(self)@, opcode, transition_id, now_ms),
    {
        let ctl = ControlMessage::with_args(opcode.as_u16(), request_id, self.member_id, transition_id, args);
        let mut flags = GbpFlags::ordered_reliable_system();
        match opcode {
            ControlOpcode::PrepareTransition
            | ControlOpcode::ReadyForTransition
            | ControlOpcode::ExecuteTransition => {
                assert(0x000Bu16 | 0x0010u16 == 0x001Bu16) by (bit_vector);
                flags = flags | GbpFlags::CRITICAL;
            },
            _ => {},
        }
        match opcode {
            ControlOpcode::PrepareTransition => {
                self.pending_transition_id = transition_id;
                self.transition_state = TransitionState::TPrepared;
                self.prepare_deadline = Some(saturating(now_ms, timeouts::T_PREPARE_MAX_MS));
                self.execute_deadline = None;
            },
            ControlOpcode::ReadyForTransition => {
                self.execute_deadline = Some(saturating(now_ms, timeouts::T_EXECUTE_MAX_MS));
            },
            ControlOpcode::ExecuteTransition => {
                self.prepare_deadline = None;
                self.execute_deadline = None;
            },
            ControlOpcode::AbortTransition => {
                self.prepare_deadline = None;
                self.execute_deadline = None;
                self.pending_transition_id = 0;
                self.transition_state = TransitionState::TAborted;
            },
            _ => {},
        }
        (ctl, flags)
    }

    /// [`GroupNode::prepare_control_at`] at the current system time.
    pub fn prepare_control(
        &mut self,
        opcode: ControlOpcode,
        transition_id: TransitionId,
        request_id: u32,
        args: Vec<u8>,
    ) -> (r: (ControlMessage, u16))
        ensures
            r.0.opcode == opcode_code(opcode),
            r.0.request_id == request_id,
            r.0.sender_id == old(self)@.member_id,
            r.0.transition_id == transition_id,
            r.0.args_length == args@.len() as u32,
            r.0.args@ == args@,
            r.1 == control_flags(opcode),
            exists|t: u64| #![trigger control_mirrored(old(self)@, opcode, transition_id, t)]
                final(self)@ == control_mirrored(old(self)@, opcode, transition_id, t),
    {
        let now = clock_ms();
        self.prepare_control_at(opcode, transition_id, request_id, args, now)
    }

    /// Seals an encoded control message and frames it on the control
    /// stream of this member (stream id `member_id * 100`), CBOR codec.
    pub fn send_control_payload<S: Sealer>(
        &mut self,
        seal: &mut S,
        target: MemberId,
        flags: u16,
        plaintext: &[u8],
    ) -> (r: Result<OutboundFrame, NodeError>)
        requires
            old(self)@.member_id * 100 <= u32::MAX,
            seq_of(old(self)@, StreamType::Control, (old(self)@.member_id * 100) as u32) < u32::MAX,
        ensures
            ({
                let sid = (old(self)@.member_id * 100) as u32;
                &&& (!can_send(old(self)@.state) ==> final(self)@ == old(self)@ && r matches Err(
                    NodeError::InvalidState(_),
                ))
                &&& (can_send(old(self)@.state) ==> {
                    let seq = (seq_of(old(self)@, StreamType::Control, sid) + 1) as u32;
                    &&& final(self)@ == (NodeModel {
                        out_seq: old(self)@.out_seq.insert(stream_key(StreamType::Control, sid), seq),
                        ..old(self)@
                    })
                    &&& (r is Ok || r matches Err(NodeError::Mls(_)))
                    &&& (r matches Ok(of) ==> {
                        &&& of.to == target
                        &&& of.frame.version == 1
                        &&& of.frame.group_id@ == old(self)@.group_id
                        &&& of.frame.epoch == old(self)@.current_epoch
                        &&& of.frame.transition_id == old(self)@.last_transition_id
                        &&& of.frame.stream_type == stream_code(StreamType::Control)
                        &&& of.frame.stream_id == sid
                        &&& of.frame.flags == flags
                        &&& of.frame.sequence_no == seq
                        &&& of.frame.payload_size == of.frame.encrypted_payload@.len() as u32
                        &&& of.frame.payload_format == 0
                    })
                })
            }),
            seal_outcome(
                old(self)@,
                *old(seal),
                *final(seal),
                StreamType::Control,
                (old(self)@.member_id * 100) as u32,
                plaintext@,
                r,
            ),
    {
        let stream_id = self.member_stream_id(0);
        self.send_payload(seal, target, StreamType::Control, stream_id, flags, plaintext, PayloadCodec::Cbor)
    }

    /// Claims the coordinator role at `now_ms`: sets the flag, restarts the
    /// silence timer, queues [`Event::BecameCoordinator`] and builds the
    /// `CAPABILITIES_ADVERTISE` message with the claim args `{0: true}`
    /// (`A1 00 F5`) for the caller to encode and broadcast.
    pub fn claim_coordinator_at(&mut self, now_ms: u64) -> (r: (ControlMessage, u16))
        ensures
            r.0.opcode == opcode_code(ControlOpcode::CapabilitiesAdvertise),
            r.0.request_id == 0,
            r.0.sender_id == old(self)@.member_id,
            r.0.transition_id == old(self)@.last_transition_id,
            r.0.args@ == seq![0xA1u8, 0x00u8, 0xF5u8],
            r.0.args_length == 3,
            r.1 == control_flags(ControlOpcode::CapabilitiesAdvertise),
            final(self)@ == (NodeModel {
                is_coordinator: true,
                coordinator_last_seen: Some(now_ms),
                events: old(self)@.events.push(EventView::BecameCoordinator),
                ..old(self)@
            }),
    {
        let mut args: Vec<u8> = Vec::new();
        args.push(0xA1);
        args.push(0x00);
        args.push(0xF5);
        self.is_coordinator = true;
        self.coordinator_last_seen = Some(now_ms);
        self.push_event(Event::BecameCoordinator);
        let tid = self.last_transition_id;
        self.prepare_control_at(ControlOpcode::CapabilitiesAdvertise, tid, 0, args, now_ms)
    }

    /// [`GroupNode::claim_coordinator_at`] at the current system time.
    pub fn claim_coordinator(&mut self) -> (r: (ControlMessage, u16))
        ensures
            r.0.opcode == opcode_code(ControlOpcode::CapabilitiesAdvertise),
            r.0.sender_id == old(self)@.member_id,
            r.0.args@ == seq![0xA1u8, 0x00u8, 0xF5u8],
            final(self)@.coordinator_last_seen is Some,
            final(self)@ == (NodeModel {
                is_coordinator: true,
                coordinator_last_seen: final(self)@.coordinator_last_seen,
                events: old(self)@.events.push(EventView::BecameCoordinator),
                ..old(self)@
            }),
    {
        let now = clock_ms();
        self.claim_coordinator_at(now)
    }

    /// Checks the FSM deadlines at `now_ms` (see [`timed_out`]) and returns
    /// every queued event, draining the queue.
    pub fn check_timeouts_at(&mut self, now_ms: u64) -> (r: Vec<Event>)
        ensures
            event_views(r@) == timed_out(old(self)@, now_ms).events,
            final(self)@ == (NodeModel { events: Seq::empty(), ..timed_out(old(self)@, now_ms) }),
    {
        let expired_prepare = match self.prepare_deadline {
            Some(d) => now_ms >= d,
            None => false,
        };
        if expired_prepare {
            self.prepare_deadline = None;
            self.execute_deadline = None;
            self.pending_transition_id = 0;
            self.transition_state = TransitionState::TAborted;
            self.emit_err_spec(codes::PREPARE_TIMEOUT, text("T_prepare_max exceeded"));
        }
        let expired_execute = match self.execute_deadline {
            Some(d) => now_ms >= d,
            None => false,
        };
        if expired_execute {
            self.execute_deadline = None;
            self.emit_err_spec(codes::EXECUTE_TIMEOUT, text("T_execute_max exceeded"));
        }
        let silent = match self.coordinator_last_seen {
            Some(t) => now_ms >= t && now_ms - t >= timeouts::T_COORDINATOR_GRACE_MS,
            None => false,
        };
        if silent {
            self.coordinator_last_seen = None;
            self.is_coordinator = false;
            self.emit_err_spec(codes::COORDINATOR_GONE, text("coordinator silence exceeded T_coordinator_grace"));
            self.push_event(Event::CoordinatorElectionNeeded);
        }
        self.drain_events()
    }

    /// Checks the FSM deadlines at the current system time and returns
    /// every queued event, draining the queue.
    pub fn check_timeouts(&mut self) -> (r: Vec<Event>)
        ensures
            exists|t: u64| #![trigger timed_out(old(self)@, t)]
                event_views(r@) == timed_out(old(self)@, t).events && final(self)@ == (NodeModel {
                    events: Seq::empty(),
                    ..timed_out(old(self)@, t)
                }),
    {
        let now = clock_ms();
        self.check_timeouts_at(now)
    }
}

/// What one node sends, a peer in the same group, epoch and transition
/// accepts on the same stream, as long as the peer's high-water mark there
/// is below the frame's sequence number (a fresh peer's is 0, and the
/// first frame of a stream carries 1) and the sealed payload's length fits
/// the 32-bit `payload_size` field.
pub proof fn lemma_sent_frame_is_accepted(
    sender: NodeModel,
    receiver: NodeModel,
    target: MemberId,
    st: StreamType,
    sid: StreamId,
    flags: u16,
    codec: PayloadCodec,
    of: OutboundFrame,
)
    requires
        sender.group_id.len() == 16,
        sent_frame(sender, target, st, sid, flags, codec, of),
        of.frame.encrypted_payload@.len() <= u32::MAX,
        receiver.group_id == sender.group_id,
        receiver.current_epoch == sender.current_epoch,
        receiver.last_transition_id == sender.last_transition_id,
        hw_of(receiver, st, sid) < of.frame.sequence_no,
    ensures
        frame_check(receiver, of.frame) == (FrameCheck::Accept { st }),
{
    assert(group_id_of(of.frame.group_id@) =~= receiver.group_id);
    assert(stream_of_code(stream_code(st) as int) == Some(st)) by {
        crate::vocab::stream::lemma_stream_code_round_trip(st);
    }
}

/// A frame that was accepted cannot be accepted again: once its sequence
/// number is the stream's high-water mark, the same frame at the same
/// group, epoch and transition id is rejected as a replay.
pub proof fn lemma_accepted_frame_is_replay(m: NodeModel, f: GbpFrame, post: NodeModel, st: StreamType)
    requires
        frame_check(m, f) == (FrameCheck::Accept { st }),
        post.group_id == m.group_id,
        post.current_epoch == m.current_epoch,
        post.last_transition_id == m.last_transition_id,
        post.in_hw == m.in_hw.insert(stream_key(st, f.stream_id), f.sequence_no),
    ensures
        frame_check(post, f) matches FrameCheck::Reject { code, .. } && code == codes::REPLAY_DETECTED,
{
    assert(hw_of(post, st, f.stream_id) == f.sequence_no);
}

/// An accepted frame raises its stream's high-water mark to its sequence
/// number, which was above the old mark.
pub proof fn lemma_accept_raises_high_water(m: NodeModel, f: GbpFrame, st: StreamType)
    requires
        frame_check(m, f) == (FrameCheck::Accept { st }),
    ensures
        f.sequence_no > hw_of(m, st, f.stream_id),
        hw_of(
            NodeModel { in_hw: m.in_hw.insert(stream_key(st, f.stream_id), f.sequence_no), ..m },
            st,
            f.stream_id,
        ) == f.sequence_no,
{
}

/// A frame of another epoch (valid version and group) asks for a resync:
/// the node reports the mismatch and ends up `RESYNCING` from any state
/// that may move there.
pub proof fn lemma_epoch_mismatch_resyncs(m: NodeModel, f: GbpFrame)
    requires
        f.version == 1,
        group_id_of(f.group_id@) == m.group_id,
        f.epoch != m.current_epoch,
        m.state == NodeState::Resyncing || node_edge(m.state, NodeState::Resyncing),
    ensures
        frame_check(m, f) matches FrameCheck::EpochMismatch { reason } && resynced(
            reported(m, codes::EPOCH_MISMATCH, reason),
        ).state == NodeState::Resyncing,
{
}

/// Sending moves a stream's outbound sequence number on by exactly one and
/// leaves every other stream's alone; two sends on one stream use strictly
/// increasing numbers.
pub proof fn lemma_send_advances_sequence(m: NodeModel, st: StreamType, sid: StreamId, st2: StreamType, sid2: StreamId)
    requires
        seq_of(m, st, sid) < u32::MAX,
    ensures
        seq_of(after_send(m, st, sid), st, sid) == seq_of(m, st, sid) + 1,
        (st2 != st || sid2 != sid) ==> seq_of(after_send(m, st, sid), st2, sid2) == seq_of(m, st2, sid2),
{
    lemma_stream_key_injective(st, sid, st2, sid2);
}

/// The model after sending on each stream of `ks` in turn from `m`.
pub open spec fn after_sends(m: NodeModel, ks: Seq<(StreamType, StreamId)>) -> NodeModel
    decreases ks.len(),
{
    if ks.len() == 0 {
        m
    } else {
        after_send(after_sends(m, ks.drop_last()), ks.last().0, ks.last().1)
    }
}

/// How many of the sends `ks` went to stream `(st, sid)`.
pub open spec fn sends_on(ks: Seq<(StreamType, StreamId)>, st: StreamType, sid: StreamId) -> nat
    decreases ks.len(),
{
    if ks.len() == 0 {
        0
    } else {
        sends_on(ks.drop_last(), st, sid) + if ks.last() == (st, sid) {
            1nat
        } else {
            0nat
        }
    }
}

/// Over a run of sends, each stream numbers its frames consecutively: after
/// the sends `ks`, a stream's last sequence number has moved on by the
/// number of them that went to it, so the next frame on it carries the
/// number after that. (Sequence tables restart at 0 on `new` and on each
/// applied transition.)
pub proof fn lemma_sends_number_consecutively(m: NodeModel, ks: Seq<(StreamType, StreamId)>, st: StreamType, sid: StreamId)
    requires
        forall|i: int| 0 <= i < ks.len() ==> seq_of(m, #[trigger] ks[i].0, ks[i].1) + ks.len() < u32::MAX,
        seq_of(m, st, sid) + ks.len() < u32::MAX,
    ensures
        seq_of(after_sends(m, ks), st, sid) == seq_of(m, st, sid) + sends_on(ks, st, sid),
        sends_on(ks, st, sid) <= ks.len(),
    decreases ks.len(),
{
    if ks.len() > 0 {
        let p = ks.drop_last();
        let (a, b) = ks.last();
        assert forall|i: int| 0 <= i < p.len() implies seq_of(m, #[trigger] p[i].0, p[i].1) + p.len() < u32::MAX by {
            assert(p[i] == ks[i]);
        }
        lemma_sends_number_consecutively(m, p, st, sid);
        lemma_sends_number_consecutively(m, p, a, b);
        assert(ks[ks.len() - 1] == ks.last());
        lemma_send_advances_sequence(after_sends(m, p), a, b, st, sid);
    }
}

/// An `EXECUTE_TRANSITION` for the pending transition advances the epoch
/// by one, records the transition as applied, clears the pending
/// transition, its tie-break winner and both sequence tables.
pub proof fn lemma_execute_advances_epoch(m: NodeModel, c: ControlMessage, now: u64)
    requires
        opcode_of_code(c.opcode) == Some(ControlOpcode::ExecuteTransition),
        m.current_epoch < u64::MAX,
        m.pending_transition_id != 0,
        c.transition_id == m.pending_transition_id,
    ensures
        ({
            let post = control_handled(m, Some(c), now);
            &&& post.current_epoch == m.current_epoch + 1
            &&& post.last_transition_id == c.transition_id
            &&& post.pending_transition_id == 0
            &&& post.pending_commit_sender is None
            &&& post.transition_state == TransitionState::TExecuted
            &&& post.execute_deadline is None
            &&& post.out_seq == Map::<u64, u32>::empty()
            &&& post.in_hw == Map::<u64, u32>::empty()
        }),
{
}

/// An `ABORT_TRANSITION` for the pending transition clears it and its
/// tie-break winner without changing the epoch.
pub proof fn lemma_abort_keeps_epoch(m: NodeModel, c: ControlMessage, now: u64)
    requires
        opcode_of_code(c.opcode) == Some(ControlOpcode::AbortTransition),
        m.pending_transition_id != 0,
        c.transition_id == m.pending_transition_id,
    ensures
        ({
            let post = control_handled(m, Some(c), now);
            &&& post.current_epoch == m.current_epoch
            &&& post.last_transition_id == m.last_transition_id
            &&& post.pending_transition_id == 0
            &&& post.pending_commit_sender is None
            &&& post.transition_state == TransitionState::TAborted
        }),
{
}

/// Competing `PREPARE_TRANSITION`s for one transition id: the lowest sender
/// id wins the tie-break, whatever the order of arrival.
pub proof fn lemma_prepare_lowest_sender_wins(m: NodeModel, c: ControlMessage, now: u64, w: MemberId)
    requires
        opcode_of_code(c.opcode) == Some(ControlOpcode::PrepareTransition),
        m.pending_transition_id != 0,
        c.transition_id == m.pending_transition_id,
        c.transition_id > m.last_transition_id,
        m.pending_commit_sender == Some(w),
    ensures
        control_handled(m, Some(c), now).pending_commit_sender == Some(
            if c.sender_id < w {
                c.sender_id
            } else {
                w
            },
        ),
        control_handled(m, Some(c), now).pending_transition_id == m.pending_transition_id,
{
}

/// A coordinator claim from a lower member id makes this node yield the
/// coordinator role; a claim from a higher id leaves the role as it was.
pub proof fn lemma_claim_lower_id_wins(m: NodeModel, c: ControlMessage, now: u64)
    requires
        opcode_of_code(c.opcode) == Some(ControlOpcode::CapabilitiesAdvertise),
        is_claim(c.args@),
    ensures
        c.sender_id < m.member_id ==> !control_handled(m, Some(c), now).is_coordinator,
        c.sender_id >= m.member_id ==> control_handled(m, Some(c), now).is_coordinator
            == m.is_coordinator,
        control_handled(m, Some(c), now).coordinator_last_seen == Some(now),
{
}

/// Past the prepare deadline the timer aborts the pending transition.
pub proof fn lemma_prepare_deadline_aborts(m: NodeModel, now: u64, d: u64)
    requires
        m.prepare_deadline == Some(d),
        now >= d,
    ensures
        timed_out(m, now).pending_transition_id == 0,
        timed_out(m, now).transition_state == TransitionState::TAborted,
        timed_out(m, now).prepare_deadline is None,
        timed_out(m, now).current_epoch == m.current_epoch,
{
}

/// With no deadline armed and no coordinator activity recorded, the timer
/// changes nothing.
pub proof fn lemma_no_deadline_no_timeout(m: NodeModel, now: u64)
    requires
        m.prepare_deadline is None,
        m.execute_deadline is None,
        m.coordinator_last_seen is None,
    ensures
        timed_out(m, now) == m,
{
}

/// Coordinator silence of at least the grace period drops the coordinator
/// role and ends with a request for an election.
pub proof fn lemma_coordinator_silence_calls_election(m: NodeModel, now: u64, t: u64)
    requires
        m.prepare_deadline is None,
        m.execute_deadline is None,
        m.coordinator_last_seen == Some(t),
        now >= t,
        now - t >= timeouts::T_COORDINATOR_GRACE_MS,
    ensures
        !timed_out(m, now).is_coordinator,
        timed_out(m, now).coordinator_last_seen is None,
        timed_out(m, now).events.last() == EventView::CoordinatorElectionNeeded,
{
}

/// Resync recovery: a `GROUP_STATE_DIGEST_RESPONSE` that reaches a node in
/// `RESYNCING` brings it back to `ACTIVE`; the move is announced before the
/// control message itself, and nothing else about the node changes.
pub proof fn lemma_digest_response_resumes(m: NodeModel, c: ControlMessage, now: u64)
    requires
        m.state == NodeState::Resyncing,
        opcode_of_code(c.opcode) == Some(ControlOpcode::GroupStateDigestResponse),
    ensures
        ({
            let post = control_handled(m, Some(c), now);
            &&& post.state == NodeState::Active
            &&& post.events == m.events.push(
                EventView::StateChanged { from: NodeState::Resyncing, to: NodeState::Active },
            ).push(
                EventView::Control {
                    from: c.sender_id,
                    opcode: ControlOpcode::GroupStateDigestResponse,
                    transition_id: c.transition_id,
                    request_id: c.request_id,
                    args: c.args@,
                },
            )
            &&& post.current_epoch == m.current_epoch
            &&& post.pending_transition_id == m.pending_transition_id
            &&& post.in_hw == m.in_hw
            &&& post.out_seq == m.out_seq
        }),
{
    let post = control_handled(m, Some(c), now);
    assert(post.events =~= m.events.push(
        EventView::StateChanged { from: NodeState::Resyncing, to: NodeState::Active },
    ).push(
        EventView::Control {
            from: c.sender_id,
            opcode: ControlOpcode::GroupStateDigestResponse,
            transition_id: c.transition_id,
            request_id: c.request_id,
            args: c.args@,
        },
    ));
}

/// A `GROUP_STATE_DIGEST_RESPONSE` outside `RESYNCING` moves nothing: the
/// node keeps its state and only queues the control message.
pub proof fn lemma_digest_response_outside_resync(m: NodeModel, c: ControlMessage, now: u64)
    requires
        m.state != NodeState::Resyncing,
        opcode_of_code(c.opcode) == Some(ControlOpcode::GroupStateDigestResponse),
    ensures
        control_handled(m, Some(c), now).state == m.state,
        control_handled(m, Some(c), now).events.len() == m.events.len() + 1,
{
}

/// A `READY_FOR_TRANSITION` for the pending transition ends the wait for
/// readiness: the prepare deadline is cleared and the transition is
/// `T_READY`, still pending under the same id in the same epoch, so no
/// later timer check can abort it for want of readiness.
pub proof fn lemma_ready_clears_prepare_deadline(m: NodeModel, c: ControlMessage, now: u64, later: u64)
    requires
        opcode_of_code(c.opcode) == Some(ControlOpcode::ReadyForTransition),
        m.pending_transition_id != 0,
        c.transition_id == m.pending_transition_id,
    ensures
        ({
            let post = control_handled(m, Some(c), now);
            &&& post.prepare_deadline is None
            &&& post.transition_state == TransitionState::TReady
            &&& post.pending_transition_id == m.pending_transition_id
            &&& post.current_epoch == m.current_epoch
            &&& post.execute_deadline is None ==> timed_out(post, later).pending_transition_id
                == m.pending_transition_id
        }),
{
}

/// Coordinator silence shorter than the grace period (10 s) is no failure:
/// with no deadline armed, the timer check at `now`, less than 10 000 ms
/// after the last coordinator activity, changes nothing.
pub proof fn lemma_short_silence_is_tolerated(m: NodeModel, now: u64, t: u64)
    requires
        m.prepare_deadline is None,
        m.execute_deadline is None,
        m.coordinator_last_seen == Some(t),
        t <= now,
        now - t < 10_000,
    ensures
        timed_out(m, now) == m,
{
}

} // verus!
