use gbp_stack::base::control::ControlMessage;
use gbp_stack::mls::MlsError;
use gbp_stack::node::{Event, GroupNode, NodeError, OutboundFrame, Sealer};
use gbp_stack::vocab::codec::PayloadCodec;
use gbp_stack::vocab::codes;
use gbp_stack::vocab::control::ControlOpcode;
use gbp_stack::vocab::flags::GbpFlags;
use gbp_stack::vocab::ids::{GroupId, SequenceNo, TransitionId};
use gbp_stack::vocab::state::{NodeState, TransitionState};
use gbp_stack::vocab::stream::StreamType;
use gbp_stack::vocab::timeouts;

struct PlainSealer;

impl Sealer for PlainSealer {
    fn seal(&mut self, _st: StreamType, _seq: SequenceNo, pt: &[u8]) -> Result<Vec<u8>, MlsError> {
        Ok(pt.to_vec())
    }
    fn open(&mut self, _st: StreamType, _seq: SequenceNo, ct: &[u8]) -> Result<Vec<u8>, MlsError> {
        Ok(ct.to_vec())
    }
}

fn group_id() -> GroupId {
    let mut g = [0u8; 16];
    g[..3].copy_from_slice(b"GBP");
    g
}

// A plain byte layout for control messages in these tests (the sealer is
// the identity, so whatever bytes go in come back out).
fn encode_control(m: &ControlMessage) -> Vec<u8> {
    let mut out = Vec::new();
    out.extend_from_slice(&m.opcode.to_be_bytes());
    out.extend_from_slice(&m.request_id.to_be_bytes());
    out.extend_from_slice(&m.sender_id.to_be_bytes());
    out.extend_from_slice(&m.transition_id.to_be_bytes());
    out.extend_from_slice(&m.args_length.to_be_bytes());
    out.extend_from_slice(&m.args);
    out
}

fn decode_control(b: &[u8]) -> Option<ControlMessage> {
    if b.len() < 18 {
        return None;
    }
    let u32_at = |i: usize| u32::from_be_bytes([b[i], b[i + 1], b[i + 2], b[i + 3]]);
    Some(ControlMessage {
        opcode: u16::from_be_bytes([b[0], b[1]]),
        request_id: u32_at(2),
        sender_id: u32_at(6),
        transition_id: u32_at(10),
        args_length: u32_at(14),
        args: b[18..].to_vec(),
    })
}

fn send_control(
    node: &mut GroupNode,
    s: &mut PlainSealer,
    to: u32,
    op: ControlOpcode,
    tid: TransitionId,
    rid: u32,
    args: Vec<u8>,
) -> Result<OutboundFrame, NodeError> {
    let (msg, flags) = node.prepare_control(op, tid, rid, args);
    node.send_control_payload(s, to, flags, &encode_control(&msg))
}

fn claim(node: &mut GroupNode, s: &mut PlainSealer, to: u32) -> Result<OutboundFrame, NodeError> {
    let (msg, flags) = node.claim_coordinator();
    node.send_control_payload(s, to, flags, &encode_control(&msg))
}

fn on_wire<S: Sealer>(node: &mut GroupNode, s: &mut S, of: &OutboundFrame) -> Vec<Event> {
    if let Some(pt) = node.deliver_frame(s, of.frame.clone()) {
        node.handle_control(decode_control(&pt));
    }
    node.drain_events()
}

fn drain_errs(events: &[Event]) -> Vec<u16> {
    events
        .iter()
        .filter_map(|e| match e {
            Event::Error { code, .. } => Some(*code),
            _ => None,
        })
        .collect()
}

fn drain_controls(events: &[Event]) -> Vec<(ControlOpcode, TransitionId)> {
    events
        .iter()
        .filter_map(|e| match e {
            Event::Control { opcode, transition_id, .. } => Some((*opcode, *transition_id)),
            _ => None,
        })
        .collect()
}

fn text_frame(alice: &mut GroupNode, s: &mut PlainSealer, body: &[u8]) -> OutboundFrame {
    let sid = alice.member_stream_id(2);
    alice
        .send_payload(
            s,
            2,
            StreamType::Text,
            sid,
            GbpFlags::ordered_reliable_ack(),
            body,
            PayloadCodec::Cbor,
        )
        .unwrap()
}

#[test]
fn replay_window_rejects_repeat() {
    let mut alice = GroupNode::new(1, group_id());
    let mut bob = GroupNode::new(2, group_id());
    alice.bootstrap_as_creator(1);
    bob.bootstrap_as_joiner(1, 0);
    let mut s = PlainSealer;
    let f = text_frame(&mut alice, &mut s, b"hi");
    let _ = on_wire(&mut bob, &mut s, &f);
    let evs = on_wire(&mut bob, &mut s, &f);
    assert!(evs
        .iter()
        .any(|e| matches!(e, Event::Error { code: codes::REPLAY_DETECTED, .. })));
}

#[test]
fn epoch_mismatch_triggers_resync() {
    let mut alice = GroupNode::new(1, group_id());
    let mut bob = GroupNode::new(2, group_id());
    alice.bootstrap_as_creator(1);
    bob.bootstrap_as_joiner(1, 0);
    alice.set_epoch(2);
    let mut s = PlainSealer;
    let f = text_frame(&mut alice, &mut s, b"x");
    let _ = on_wire(&mut bob, &mut s, &f);
    assert_eq!(bob.state(), NodeState::Resyncing);
}

#[test]
fn payload_emits_received_event() {
    let mut alice = GroupNode::new(1, group_id());
    let mut bob = GroupNode::new(2, group_id());
    alice.bootstrap_as_creator(1);
    bob.bootstrap_as_joiner(1, 0);
    let mut s = PlainSealer;
    let f = text_frame(&mut alice, &mut s, b"payload");
    let evs = on_wire(&mut bob, &mut s, &f);
    let pr = evs
        .into_iter()
        .find_map(|e| match e {
            Event::PayloadReceived(p) => Some(p),
            _ => None,
        })
        .expect("payload");
    assert_eq!(pr.stream_type, StreamType::Text);
    assert_eq!(pr.plaintext, b"payload");
}

#[test]
fn send_sequence_numbers_increase() {
    let mut alice = GroupNode::new(1, group_id());
    alice.bootstrap_as_creator(1);
    let mut s = PlainSealer;
    let a = text_frame(&mut alice, &mut s, b"a");
    let b = text_frame(&mut alice, &mut s, b"b");
    assert_eq!(a.frame.sequence_no, 1);
    assert_eq!(b.frame.sequence_no, 2);
    assert_eq!(a.frame.stream_id, 102);
    assert_eq!(a.frame.payload_size, 1);
}

#[test]
fn idle_node_cannot_send() {
    let mut alice = GroupNode::new(1, group_id());
    let mut s = PlainSealer;
    let r = alice.send_payload(&mut s, 2, StreamType::Text, 1, 0, b"x", PayloadCodec::Cbor);
    assert!(matches!(r, Err(NodeError::InvalidState(_))));
}

#[test]
fn prepare_transition_sets_pending_on_sender_and_receiver() {
    let mut coord = GroupNode::new(1, group_id());
    let mut peer = GroupNode::new(2, group_id());
    coord.bootstrap_as_creator(0);
    peer.bootstrap_as_joiner(0, 0);
    let mut s = PlainSealer;
    let f = send_control(
        &mut coord,
        &mut s,
        0,
        ControlOpcode::PrepareTransition,
        1,
        100,
        b"commit-blob".to_vec(),
    )
    .unwrap();
    assert_eq!(coord.pending_transition_id(), 1, "sender mirrors pending");
    assert_eq!(coord.transition_state(), TransitionState::TPrepared);
    let evs = on_wire(&mut peer, &mut s, &f);
    assert_eq!(peer.pending_transition_id(), 1, "receiver records pending");
    assert!(drain_errs(&evs).is_empty(), "no error: {:?}", drain_errs(&evs));
    assert_eq!(drain_controls(&evs), vec![(ControlOpcode::PrepareTransition, 1)]);
}

#[test]
fn ready_with_wrong_tid_is_rejected() {
    let mut coord = GroupNode::new(1, group_id());
    let mut peer = GroupNode::new(2, group_id());
    coord.bootstrap_as_creator(0);
    peer.bootstrap_as_joiner(0, 0);
    let mut s = PlainSealer;
    let f = send_control(&mut coord, &mut s, 0, ControlOpcode::PrepareTransition, 1, 1, vec![])
        .unwrap();
    on_wire(&mut peer, &mut s, &f);
    let bogus = send_control(&mut peer, &mut s, 1, ControlOpcode::ReadyForTransition, 7, 1, vec![])
        .unwrap();
    let evs = on_wire(&mut coord, &mut s, &bogus);
    let errs = drain_errs(&evs);
    assert!(errs.contains(&codes::TRANSITION_MISMATCH), "got {:?}", errs);
}

#[test]
fn execute_advances_epoch_and_clears_pending() {
    let mut coord = GroupNode::new(1, group_id());
    let mut peer = GroupNode::new(2, group_id());
    coord.bootstrap_as_creator(0);
    peer.bootstrap_as_joiner(0, 0);
    let mut s = PlainSealer;
    let prep = send_control(&mut coord, &mut s, 0, ControlOpcode::PrepareTransition, 1, 1, vec![])
        .unwrap();
    on_wire(&mut peer, &mut s, &prep);
    let exec = send_control(&mut coord, &mut s, 0, ControlOpcode::ExecuteTransition, 1, 2, vec![])
        .unwrap();
    coord.apply_transition(1);
    let evs = on_wire(&mut peer, &mut s, &exec);
    assert_eq!(coord.last_transition_id(), 1);
    assert_eq!(coord.current_epoch(), 1);
    assert_eq!(peer.last_transition_id(), 1);
    assert_eq!(peer.current_epoch(), 1);
    assert_eq!(peer.pending_transition_id(), 0);
    assert!(evs
        .iter()
        .any(|e| matches!(e, Event::EpochAdvanced { transition_id: 1, .. })));
}

#[test]
fn abort_clears_pending_no_advance() {
    let mut coord = GroupNode::new(1, group_id());
    let mut peer = GroupNode::new(2, group_id());
    coord.bootstrap_as_creator(0);
    peer.bootstrap_as_joiner(0, 0);
    let mut s = PlainSealer;
    let prep = send_control(&mut coord, &mut s, 0, ControlOpcode::PrepareTransition, 1, 1, vec![])
        .unwrap();
    on_wire(&mut peer, &mut s, &prep);
    let abort = send_control(&mut coord, &mut s, 0, ControlOpcode::AbortTransition, 1, 2, vec![])
        .unwrap();
    on_wire(&mut peer, &mut s, &abort);
    assert_eq!(peer.pending_transition_id(), 0);
    assert_eq!(peer.current_epoch(), 0);
    assert_eq!(peer.transition_state(), TransitionState::TAborted);
    assert_eq!(coord.transition_state(), TransitionState::TAborted);
}

#[test]
fn bootstrap_as_joiner_with_expected_tid_accepts_first_execute() {
    let mut coord = GroupNode::new(1, group_id());
    let mut joiner = GroupNode::new(2, group_id());
    coord.bootstrap_as_creator(0);
    joiner.bootstrap_as_joiner(0, 1);
    assert_eq!(joiner.pending_transition_id(), 1);
    let mut s = PlainSealer;
    let _ = send_control(&mut coord, &mut s, 0, ControlOpcode::PrepareTransition, 1, 1, vec![])
        .unwrap();
    let exec = send_control(&mut coord, &mut s, 0, ControlOpcode::ExecuteTransition, 1, 2, vec![])
        .unwrap();
    let evs = on_wire(&mut joiner, &mut s, &exec);
    let errs = drain_errs(&evs);
    assert!(errs.is_empty(), "expected clean apply, got errors {:?}", errs);
    assert_eq!(joiner.last_transition_id(), 1);
    assert_eq!(joiner.current_epoch(), 1);
}

#[test]
fn claim_coordinator_sets_flag_and_emits_event() {
    let mut node = GroupNode::new(1, group_id());
    node.bootstrap_as_creator(0);
    node.drain_events();
    let mut s = PlainSealer;
    let _ = claim(&mut node, &mut s, 0).unwrap();
    assert!(node.is_coordinator());
    let evs = node.drain_events();
    assert!(evs.iter().any(|e| matches!(e, Event::BecameCoordinator)));
}

#[test]
fn coordinator_gone_emits_election_needed() {
    let mut member = GroupNode::new(2, group_id());
    member.bootstrap_as_joiner(0, 0);
    member.note_coordinator_activity_at(1_000);
    let evs = member.check_timeouts_at(12_000);
    assert!(evs.iter().any(|e| matches!(e, Event::CoordinatorElectionNeeded)));
    assert!(!member.is_coordinator(), "flag cleared on silence");
}

#[test]
fn capabilities_advertise_with_claim_resets_silence_timer() {
    let mut member = GroupNode::new(2, group_id());
    let mut coord = GroupNode::new(1, group_id());
    member.bootstrap_as_joiner(0, 0);
    coord.bootstrap_as_creator(0);
    let mut s = PlainSealer;
    let f = claim(&mut coord, &mut s, 2).unwrap();
    let evs = on_wire(&mut member, &mut s, &f);
    assert!(member.coordinator_last_seen().is_some(), "silence timer reset");
    assert!(evs
        .iter()
        .any(|e| matches!(e, Event::CoordinatorClaim { claimant: 1 })));
}

#[test]
fn higher_id_yields_to_lower_claimant() {
    let mut node5 = GroupNode::new(5, group_id());
    let mut node2 = GroupNode::new(2, group_id());
    node5.bootstrap_as_joiner(0, 0);
    node2.bootstrap_as_creator(0);
    let mut s = PlainSealer;
    node5.set_coordinator(true);
    let f = claim(&mut node2, &mut s, 5).unwrap();
    on_wire(&mut node5, &mut s, &f);
    assert!(!node5.is_coordinator(), "node5 yielded to node2");
}

#[test]
fn lower_id_keeps_coordinator_against_higher_claimant() {
    let mut node1 = GroupNode::new(1, group_id());
    let mut node5 = GroupNode::new(5, group_id());
    node1.bootstrap_as_creator(0);
    node5.bootstrap_as_joiner(0, 0);
    let mut s = PlainSealer;
    node1.set_coordinator(true);
    let f = claim(&mut node5, &mut s, 1).unwrap();
    on_wire(&mut node1, &mut s, &f);
    assert!(node1.is_coordinator(), "node1 keeps role: it has the lower id");
}

#[test]
fn competing_prepare_lower_member_id_wins() {
    let mut node = GroupNode::new(10, group_id());
    node.bootstrap_as_joiner(0, 0);
    let mut s = PlainSealer;
    let mut sender1 = GroupNode::new(1, group_id());
    sender1.bootstrap_as_creator(0);
    let f1 = send_control(
        &mut sender1,
        &mut s,
        10,
        ControlOpcode::PrepareTransition,
        1,
        1,
        b"commit-A".to_vec(),
    )
    .unwrap();
    on_wire(&mut node, &mut s, &f1);
    assert_eq!(node.pending_commit_sender(), Some(1), "member 1 is initial winner");
    let mut sender3 = GroupNode::new(3, group_id());
    sender3.bootstrap_as_creator(0);
    let f3 = send_control(
        &mut sender3,
        &mut s,
        10,
        ControlOpcode::PrepareTransition,
        1,
        2,
        b"commit-B".to_vec(),
    )
    .unwrap();
    on_wire(&mut node, &mut s, &f3);
    assert_eq!(node.pending_commit_sender(), Some(1), "member 1 still wins");
    assert_eq!(node.pending_transition_id(), 1);
}

#[test]
fn competing_prepare_later_lower_id_displaces_winner() {
    let mut node = GroupNode::new(10, group_id());
    node.bootstrap_as_joiner(0, 0);
    let mut s = PlainSealer;
    let mut sender5 = GroupNode::new(5, group_id());
    sender5.bootstrap_as_creator(0);
    let f5 = send_control(
        &mut sender5,
        &mut s,
        10,
        ControlOpcode::PrepareTransition,
        1,
        1,
        b"commit-X".to_vec(),
    )
    .unwrap();
    on_wire(&mut node, &mut s, &f5);
    assert_eq!(node.pending_commit_sender(), Some(5));
    let mut sender2 = GroupNode::new(2, group_id());
    sender2.bootstrap_as_creator(0);
    let f2 = send_control(
        &mut sender2,
        &mut s,
        10,
        ControlOpcode::PrepareTransition,
        1,
        2,
        b"commit-Y".to_vec(),
    )
    .unwrap();
    on_wire(&mut node, &mut s, &f2);
    assert_eq!(node.pending_commit_sender(), Some(2), "member 2 displaces member 5");
}

#[test]
fn apply_transition_clears_commit_sender() {
    let mut coord = GroupNode::new(1, group_id());
    coord.bootstrap_as_creator(0);
    let mut s = PlainSealer;
    send_control(&mut coord, &mut s, 0, ControlOpcode::PrepareTransition, 1, 1, vec![]).unwrap();
    coord.apply_transition(1);
    assert_eq!(coord.pending_commit_sender(), None);
}

#[test]
fn prepare_timeout_fires_when_deadline_exceeded() {
    let mut coord = GroupNode::new(1, group_id());
    coord.bootstrap_as_creator(0);
    let (_msg, _flags) = coord.prepare_control_at(ControlOpcode::PrepareTransition, 1, 1, vec![], 1_000);
    let evs = coord.check_timeouts_at(1_000 + timeouts::T_PREPARE_MAX_MS + 1);
    assert!(
        evs.iter()
            .any(|e| matches!(e, Event::Error { code: codes::PREPARE_TIMEOUT, .. })),
        "expected PREPARE_TIMEOUT, got {:?}",
        evs
    );
    assert_eq!(coord.transition_state(), TransitionState::TAborted, "transition aborted");
    assert_eq!(coord.prepare_deadline(), None, "deadline cleared");
}

#[test]
fn execute_timeout_fires_when_deadline_exceeded() {
    let mut member = GroupNode::new(2, group_id());
    member.bootstrap_as_joiner(0, 0);
    member.set_pending_transition(1, TransitionState::TPrepared);
    let (_msg, _flags) = member.prepare_control_at(ControlOpcode::ReadyForTransition, 1, 1, vec![], 1_000);
    let evs = member.check_timeouts_at(1_000 + timeouts::T_EXECUTE_MAX_MS + 1);
    assert!(
        evs.iter()
            .any(|e| matches!(e, Event::Error { code: codes::EXECUTE_TIMEOUT, .. })),
        "expected EXECUTE_TIMEOUT, got {:?}",
        evs
    );
    assert_eq!(member.execute_deadline(), None, "deadline cleared");
}

#[test]
fn coordinator_gone_fires_after_silence() {
    let mut member = GroupNode::new(2, group_id());
    member.bootstrap_as_joiner(0, 0);
    member.note_coordinator_activity_at(5_000);
    let evs = member.check_timeouts_at(16_000);
    assert!(
        evs.iter()
            .any(|e| matches!(e, Event::Error { code: codes::COORDINATOR_GONE, .. })),
        "expected COORDINATOR_GONE, got {:?}",
        evs
    );
    assert_eq!(member.coordinator_last_seen(), None, "timer cleared");
}

#[test]
fn note_coordinator_activity_resets_silence_timer() {
    let mut member = GroupNode::new(2, group_id());
    member.bootstrap_as_joiner(0, 0);
    member.note_coordinator_activity_at(5_000);
    member.note_coordinator_activity_at(16_000);
    let evs = member.check_timeouts_at(16_000);
    assert!(
        !evs.iter()
            .any(|e| matches!(e, Event::Error { code: codes::COORDINATOR_GONE, .. })),
        "should NOT fire after reset"
    );
}

#[test]
fn execute_clears_prepare_deadline() {
    let mut coord = GroupNode::new(1, group_id());
    coord.bootstrap_as_creator(0);
    let mut s = PlainSealer;
    send_control(&mut coord, &mut s, 0, ControlOpcode::PrepareTransition, 1, 1, vec![]).unwrap();
    assert!(coord.prepare_deadline().is_some(), "deadline armed");
    send_control(&mut coord, &mut s, 0, ControlOpcode::ExecuteTransition, 1, 2, vec![]).unwrap();
    assert_eq!(coord.prepare_deadline(), None, "deadline cleared on EXECUTE");
    assert_eq!(coord.execute_deadline(), None, "execute_deadline also cleared");
}

#[test]
fn receive_prepare_arms_execute_deadline() {
    let mut coord = GroupNode::new(1, group_id());
    let mut member = GroupNode::new(2, group_id());
    coord.bootstrap_as_creator(0);
    member.bootstrap_as_joiner(0, 0);
    let mut s = PlainSealer;
    let f = send_control(&mut coord, &mut s, 0, ControlOpcode::PrepareTransition, 1, 1, vec![])
        .unwrap();
    on_wire(&mut member, &mut s, &f);
    assert!(member.execute_deadline().is_some(), "execute_deadline armed on receiving PREPARE");
}

#[test]
fn receive_execute_clears_execute_deadline() {
    let mut coord = GroupNode::new(1, group_id());
    let mut member = GroupNode::new(2, group_id());
    coord.bootstrap_as_creator(0);
    member.bootstrap_as_joiner(0, 0);
    let mut s = PlainSealer;
    let prep = send_control(&mut coord, &mut s, 0, ControlOpcode::PrepareTransition, 1, 1, vec![])
        .unwrap();
    on_wire(&mut member, &mut s, &prep);
    let exec = send_control(&mut coord, &mut s, 0, ControlOpcode::ExecuteTransition, 1, 2, vec![])
        .unwrap();
    on_wire(&mut member, &mut s, &exec);
    assert_eq!(member.execute_deadline(), None, "cleared on EXECUTE");
}

#[test]
fn no_timeout_when_deadlines_not_set() {
    let mut node = GroupNode::new(1, group_id());
    node.bootstrap_as_creator(0);
    node.drain_events();
    let evs = node.check_timeouts();
    assert!(evs.is_empty(), "no events without armed deadlines");
}

#[test]
fn prepare_with_already_applied_tid_is_rejected() {
    let mut coord = GroupNode::new(1, group_id());
    coord.bootstrap_as_creator(0);
    let mut s = PlainSealer;
    let _ = send_control(&mut coord, &mut s, 0, ControlOpcode::PrepareTransition, 1, 1, vec![])
        .unwrap();
    coord.apply_transition(1);
    assert_eq!(coord.last_transition_id(), 1);
    assert_eq!(coord.pending_transition_id(), 0);
    let mut peer = GroupNode::new(2, group_id());
    peer.bootstrap_as_joiner(coord.current_epoch(), 0);
    let stale = send_control(&mut peer, &mut s, 1, ControlOpcode::PrepareTransition, 1, 9, vec![])
        .unwrap();
    let evs = on_wire(&mut coord, &mut s, &stale);
    let errs = drain_errs(&evs);
    assert!(errs.contains(&codes::TRANSITION_MISMATCH), "expected TRANSITION_MISMATCH, got {:?}", errs);
}

#[test]
fn decrypt_failed_is_non_fatal() {
    struct OpenFailSealer;
    impl Sealer for OpenFailSealer {
        fn seal(&mut self, _: StreamType, _: SequenceNo, p: &[u8]) -> Result<Vec<u8>, MlsError> {
            Ok(p.to_vec())
        }
        fn open(&mut self, _: StreamType, _: SequenceNo, _: &[u8]) -> Result<Vec<u8>, MlsError> {
            Err(MlsError::Aead("simulated".into()))
        }
    }
    let mut alice = GroupNode::new(1, group_id());
    let mut bob = GroupNode::new(2, group_id());
    alice.bootstrap_as_creator(1);
    bob.bootstrap_as_joiner(1, 0);
    let mut s = PlainSealer;
    let f = text_frame(&mut alice, &mut s, b"x");
    let mut fail = OpenFailSealer;
    let evs = on_wire(&mut bob, &mut fail, &f);
    let err = evs
        .iter()
        .find_map(|e| match e {
            Event::Error { code, fatal, retryable, .. } => Some((*code, *fatal, *retryable)),
            _ => None,
        })
        .expect("error event");
    assert_eq!(err.0, codes::DECRYPT_FAILED);
    assert!(!err.1, "must be non-fatal");
    assert!(err.2, "must be retryable");
    assert_eq!(bob.state(), NodeState::Active, "bob stays Active");
}

#[test]
fn undecodable_control_is_a_policy_violation() {
    let mut node = GroupNode::new(1, group_id());
    node.bootstrap_as_creator(0);
    node.drain_events();
    node.handle_control(None);
    let errs = drain_errs(&node.drain_events());
    assert_eq!(errs, vec![codes::STREAM_POLICY_VIOLATION]);
}

#[test]
fn foreign_group_frame_is_rejected() {
    let mut alice = GroupNode::new(1, [9u8; 16]);
    let mut bob = GroupNode::new(2, group_id());
    alice.bootstrap_as_creator(1);
    bob.bootstrap_as_joiner(1, 0);
    let mut s = PlainSealer;
    let f = text_frame(&mut alice, &mut s, b"x");
    let evs = on_wire(&mut bob, &mut s, &f);
    assert_eq!(drain_errs(&evs), vec![codes::UNKNOWN_GROUP]);
    assert_eq!(bob.state(), NodeState::Failed);
}
