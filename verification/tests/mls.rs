use gbp_stack::base::control::ControlMessage;
use gbp_stack::gtp::client::{GtpAccept, GtpClient};
use gbp_stack::gtp::message::GtpMessage;
use gbp_stack::mls::aead::{nonce_for, open_with_key, seal_with_key};
use gbp_stack::mls::context::{check_leaf_indices, MlsContext, Processed};
use gbp_stack::mls::{label_for, MlsError, ProcessedKind, StreamLabel};
use gbp_stack::mls::bundle::{pack_invite, unpack_invite};
use gbp_stack::sframe::kdf::{derive_base_key, CipherSuite};
use gbp_stack::sframe::session::SFrameSession;
use gbp_stack::node::{DeliveredPayload, Event, GroupNode, NodeError, OutboundFrame, Sealer};
use gbp_stack::vocab::codec::PayloadCodec;
use gbp_stack::vocab::control::ControlOpcode;
use gbp_stack::vocab::flags::GbpFlags;
use gbp_stack::vocab::ids::TransitionId;
use gbp_stack::vocab::state::NodeState;
use gbp_stack::vocab::stream::StreamType;
use openmls::prelude::{DeserializeBytes, KeyPackage, KeyPackageBundle, KeyPackageIn, OpenMlsProvider, ProtocolVersion};

fn alice() -> (MlsContext, KeyPackageBundle) {
    MlsContext::new_member(b"alice").unwrap()
}

fn bob() -> (MlsContext, KeyPackageBundle) {
    MlsContext::new_member(b"bob").unwrap()
}

#[test]
fn stream_label_strings_are_correct() {
    assert_eq!(StreamLabel::Control.as_str(), "gbp/control");
    assert_eq!(StreamLabel::Audio.as_str(), "gbp/audio");
    assert_eq!(StreamLabel::Text.as_str(), "gbp/text");
    assert_eq!(StreamLabel::Signal.as_str(), "gbp/signal");
}

#[test]
fn label_for_maps_every_stream_type() {
    assert_eq!(label_for(StreamType::Control), StreamLabel::Control);
    assert_eq!(label_for(StreamType::Audio), StreamLabel::Audio);
    assert_eq!(label_for(StreamType::Text), StreamLabel::Text);
    assert_eq!(label_for(StreamType::Signal), StreamLabel::Signal);
}

#[test]
fn new_member_starts_at_epoch_zero() {
    let (ctx, _kp) = alice();
    assert_eq!(ctx.epoch(), 0);
}

#[test]
fn group_id_16_is_16_bytes() {
    let (ctx, _kp) = alice();
    let id = ctx.group_id_16();
    assert_eq!(id.len(), 16);
}

#[test]
fn export_stream_key_is_32_bytes_and_stable() {
    let (ctx, _kp) = alice();
    let k1 = ctx.export_stream_key(StreamLabel::Text).unwrap();
    let k2 = ctx.export_stream_key(StreamLabel::Text).unwrap();
    assert_eq!(k1.len(), 32);
    assert_eq!(k1, k2);
}

#[test]
fn different_labels_produce_different_keys() {
    let (ctx, _kp) = alice();
    let k_ctrl = ctx.export_stream_key(StreamLabel::Control).unwrap();
    let k_text = ctx.export_stream_key(StreamLabel::Text).unwrap();
    assert_ne!(k_ctrl, k_text);
}

#[test]
fn seal_open_single_member_round_trip() {
    let (ctx, _kp) = alice();
    let plaintext = b"hello world";
    let ciphertext = ctx.seal(StreamLabel::Text, 1, plaintext).unwrap();
    assert_ne!(ciphertext, plaintext);
    let recovered = ctx.open(StreamLabel::Text, 1, &ciphertext).unwrap();
    assert_eq!(recovered, plaintext);
}

#[test]
fn seal_wrong_seq_fails_to_open() {
    let (ctx, _kp) = alice();
    let ciphertext = ctx.seal(StreamLabel::Text, 1, b"secret").unwrap();
    assert!(ctx.open(StreamLabel::Text, 2, &ciphertext).is_err());
}

#[test]
fn seal_wrong_label_fails_to_open() {
    let (ctx, _kp) = alice();
    let ciphertext = ctx.seal(StreamLabel::Text, 0, b"secret").unwrap();
    assert!(ctx.open(StreamLabel::Audio, 0, &ciphertext).is_err());
}

#[test]
fn two_member_invite_and_welcome() {
    let (mut alice, _akp) = alice();
    let (mut bob, bob_kp) = bob();
    let welcome = alice.invite(&[bob_kp.key_package().clone()]).unwrap();
    assert_eq!(alice.epoch(), 1);
    bob.accept_welcome(&welcome).unwrap();
    assert_eq!(bob.epoch(), 1);
}

#[test]
fn two_member_seal_open_cross_member() {
    let (mut alice, _akp) = alice();
    let (mut bob, bob_kp) = bob();
    let welcome = alice.invite(&[bob_kp.key_package().clone()]).unwrap();
    bob.accept_welcome(&welcome).unwrap();
    let plaintext = b"cross-member secret";
    let ct = alice.seal(StreamLabel::Control, 0, plaintext).unwrap();
    let recovered = bob.open(StreamLabel::Control, 0, &ct).unwrap();
    assert_eq!(recovered, plaintext);
}

#[test]
fn export_raw_returns_requested_length() {
    let (ctx, _kp) = alice();
    let raw = ctx.export_raw("test/label", b"ctx", 48).unwrap();
    assert_eq!(raw.len(), 48);
    assert!(ctx.export_raw("test/label", b"ctx", 70_000).is_err());
}

#[test]
fn clear_pending_commit_is_idempotent() {
    let (mut ctx, _kp) = alice();
    ctx.clear_pending_commit().unwrap();
    ctx.clear_pending_commit().unwrap();
}

#[test]
fn finalize_pending_commit_on_fresh_group_is_ok() {
    let (mut ctx, _kp) = alice();
    ctx.finalize_pending_commit().unwrap();
}

#[test]
fn invite_full_does_not_advance_epoch_until_finalize() {
    let (mut alice, _akp) = alice();
    let (_bob, bob_kp) = bob();
    let (_commit, _welcome) = alice.invite_full(&[bob_kp.key_package().clone()]).unwrap();
    assert_eq!(alice.epoch(), 0);
    alice.finalize_pending_commit().unwrap();
    assert_eq!(alice.epoch(), 1);
    let (mut alice2, _akp2) = MlsContext::new_member(b"alice2").unwrap();
    let (mut bob2, bob2_kp) = MlsContext::new_member(b"bob2").unwrap();
    let (_commit_bytes, welcome_bytes) = alice2.invite_full(&[bob2_kp.key_package().clone()]).unwrap();
    alice2.finalize_pending_commit().unwrap();
    bob2.accept_welcome(&welcome_bytes).unwrap();
    assert_eq!(alice2.epoch(), 1);
    assert_eq!(bob2.epoch(), 1);
}

#[test]
fn remove_out_of_range_leaf_is_refused() {
    let (mut ctx, _kp) = alice();
    match ctx.remove_members(&[0, 5]) {
        Err(MlsError::OpenMls(m)) => assert_eq!(m, "leaf_index 5 out of range (group size 1)"),
        other => panic!("unexpected {:?}", other),
    }
    assert_eq!(check_leaf_indices(&[3, 1, 9], 4), Err("leaf_index 9 out of range (group size 4)".to_string()));
    assert_eq!(check_leaf_indices(&[0, 1], 2), Ok(()));
}

#[test]
fn garbage_is_not_a_welcome_or_commit() {
    let (mut ctx, _kp) = alice();
    assert!(matches!(ctx.accept_welcome(&[1, 2, 3]), Err(MlsError::OpenMls(_))));
    assert!(matches!(ctx.process_message(&[1, 2, 3]), Err(MlsError::OpenMls(_))));
}

#[test]
fn nonce_is_big_endian_sequence() {
    assert_eq!(nonce_for(0x0102_0304), [1, 2, 3, 4, 0, 0, 0, 0, 0, 0, 0, 0]);
}

#[test]
fn key_level_seal_open() {
    let key = [7u8; 32];
    let ct = seal_with_key(&key, 9, b"abc").unwrap();
    assert_eq!(ct.len(), 3 + 16);
    assert_eq!(open_with_key(&key, 9, &ct).unwrap(), b"abc");
    assert!(matches!(open_with_key(&key, 10, &ct), Err(MlsError::Aead(_))));
}

// ---- handshake and lifecycle over real MLS state ---------------------------

fn validated_kp(ctx: &MlsContext, raw: &[u8]) -> KeyPackage {
    let kp_in = KeyPackageIn::tls_deserialize_exact_bytes(raw).expect("kp parse");
    kp_in.validate(ctx.provider.crypto(), ProtocolVersion::Mls10).expect("kp validate")
}

fn export_kp(bundle: &KeyPackageBundle) -> Vec<u8> {
    openmls::prelude::tls_codec::Serialize::tls_serialize_detached(bundle.key_package()).unwrap()
}

fn encode_control(m: &ControlMessage) -> Vec<u8> {
    let mut out = Vec::new();
    out.extend_from_slice(&m.opcode.to_be_bytes());
    out.extend_from_slice(&m.request_id.to_be_bytes());
    out.extend_from_slice(&m.sender_id.to_be_bytes());
    out.extend_from_slice(&m.transition_id.to_be_bytes());
    out.extend_from_slice(&m.args_length.to_be_bytes());
    out.extend_from_slice(&m.args);
    out
}

fn decode_control(b: &[u8]) -> Option<ControlMessage> {
    if b.len() < 18 {
        return None;
    }
    let u32_at = |i: usize| u32::from_be_bytes([b[i], b[i + 1], b[i + 2], b[i + 3]]);
    Some(ControlMessage {
        opcode: u16::from_be_bytes([b[0], b[1]]),
        request_id: u32_at(2),
        sender_id: u32_at(6),
        transition_id: u32_at(10),
        args_length: u32_at(14),
        args: b[18..].to_vec(),
    })
}

fn encode_text(m: &GtpMessage) -> Vec<u8> {
    let mut out = Vec::new();
    out.extend_from_slice(&m.message_id.to_be_bytes());
    out.extend_from_slice(&m.sender_id.to_be_bytes());
    out.extend_from_slice(&m.content_length.to_be_bytes());
    out.extend_from_slice(&m.content);
    out
}

fn decode_text(b: &[u8]) -> GtpMessage {
    let mut m = GtpMessage::plain(0, 0, "");
    m.message_id = u64::from_be_bytes(b[0..8].try_into().unwrap());
    m.sender_id = u32::from_be_bytes(b[8..12].try_into().unwrap());
    m.content_length = u32::from_be_bytes(b[12..16].try_into().unwrap());
    m.content = b[16..].to_vec();
    m
}

fn send_control<S: Sealer>(
    node: &mut GroupNode,
    s: &mut S,
    to: u32,
    op: ControlOpcode,
    tid: TransitionId,
    rid: u32,
    args: Vec<u8>,
) -> Result<OutboundFrame, NodeError> {
    let (msg, flags) = node.prepare_control(op, tid, rid, args);
    node.send_control_payload(s, to, flags, &encode_control(&msg))
}

fn on_wire<S: Sealer>(node: &mut GroupNode, s: &mut S, of: &OutboundFrame) -> Vec<Event> {
    if let Some(pt) = node.deliver_frame(s, of.frame.clone()) {
        node.handle_control(decode_control(&pt));
    }
    node.drain_events()
}

fn send_text(gtp: &mut GtpClient, node: &mut GroupNode, mls: &mut MlsContext, to: u32, mid: u64, text: &str) -> OutboundFrame {
    let m = GtpMessage::plain(node.member_id(), mid, text);
    gtp.send_encoded(node, mls, to, &encode_text(&m), PayloadCodec::Cbor).unwrap()
}

fn first_payload(events: &[Event]) -> Option<&DeliveredPayload> {
    events.iter().find_map(|e| match e {
        Event::PayloadReceived(p) => Some(p),
        _ => None,
    })
}

fn errors(events: &[Event]) -> Vec<u16> {
    events
        .iter()
        .filter_map(|e| match e {
            Event::Error { code, .. } => Some(*code),
            _ => None,
        })
        .collect()
}

#[test]
fn two_party_add_completes_full_handshake() {
    let (mut alice, _alice_kp) = MlsContext::new_member(b"alice").unwrap();
    let (mut bob, bob_kp_bundle) = MlsContext::new_member(b"bob").unwrap();
    let validated = validated_kp(&alice, &export_kp(&bob_kp_bundle));
    let (commit_bytes, welcome_bytes) = alice.invite_full(&[validated]).unwrap();
    assert_eq!(alice.epoch(), 0, "invite_full must NOT advance epoch");
    assert!(!commit_bytes.is_empty());
    assert!(!welcome_bytes.is_empty());
    bob.accept_welcome(&welcome_bytes).unwrap();
    assert_eq!(bob.epoch(), 1);
    assert_eq!(bob.group_id_16(), alice.group_id_16());
    alice.finalize_pending_commit().unwrap();
    assert_eq!(alice.epoch(), 1);
    let mut a_node = GroupNode::new(1, alice.group_id_16());
    let mut b_node = GroupNode::new(2, bob.group_id_16());
    a_node.bootstrap_as_creator(0);
    b_node.bootstrap_as_joiner(0, 1);
    assert_eq!(b_node.pending_transition_id(), 1);
    let exec = send_control(&mut a_node, &mut alice, 0, ControlOpcode::ExecuteTransition, 1, 7, vec![]).unwrap();
    a_node.apply_transition(1);
    let evs = on_wire(&mut b_node, &mut bob, &exec);
    let errs = errors(&evs);
    assert!(errs.is_empty(), "got errors during EXECUTE delivery: {errs:?}");
    assert_eq!(a_node.last_transition_id(), 1);
    assert_eq!(b_node.last_transition_id(), 1);
    assert_eq!(a_node.current_epoch(), 1);
    assert_eq!(b_node.current_epoch(), 1);
    assert_eq!(a_node.state(), NodeState::Active);
    assert_eq!(b_node.state(), NodeState::Active);
    let sid = a_node.member_stream_id(2);
    let msg = a_node
        .send_payload(&mut alice, 2, StreamType::Text, sid, GbpFlags::ordered_reliable_ack(), b"hi bob", PayloadCodec::Cbor)
        .unwrap();
    let recv = on_wire(&mut b_node, &mut bob, &msg);
    assert_eq!(first_payload(&recv).expect("payload").plaintext, b"hi bob");
}

#[test]
fn abort_rolls_back_pending_commit() {
    let (mut alice, _) = MlsContext::new_member(b"alice").unwrap();
    let (_bob, bob_kp_bundle) = MlsContext::new_member(b"bob").unwrap();
    let validated = validated_kp(&alice, &export_kp(&bob_kp_bundle));
    let _ = alice.invite_full(&[validated]).unwrap();
    assert_eq!(alice.epoch(), 0);
    alice.clear_pending_commit().unwrap();
    assert_eq!(alice.epoch(), 0, "epoch must stay at 0 after abort");
}

#[test]
fn process_message_on_existing_member_advances_epoch() {
    let (mut alice, _) = MlsContext::new_member(b"alice").unwrap();
    let (mut bob, bob_kp_bundle) = MlsContext::new_member(b"bob").unwrap();
    let v_bob = validated_kp(&alice, &export_kp(&bob_kp_bundle));
    let (_commit1, welcome_b) = alice.invite_full(&[v_bob]).unwrap();
    bob.accept_welcome(&welcome_b).unwrap();
    alice.finalize_pending_commit().unwrap();
    assert_eq!(alice.epoch(), 1);
    assert_eq!(bob.epoch(), 1);
    let (_carol, carol_kp_bundle) = MlsContext::new_member(b"carol").unwrap();
    let v_carol = validated_kp(&alice, &export_kp(&carol_kp_bundle));
    let (commit2, _welcome_c) = alice.invite_full(&[v_carol]).unwrap();
    assert_eq!(bob.epoch(), 1);
    let kind = bob.process_message(&commit2).unwrap();
    assert_eq!(kind, ProcessedKind::Commit);
    assert_eq!(bob.epoch(), 1, "staged but not merged");
    match bob.process_message(&commit2) {
        Ok(k) => assert_eq!(k, ProcessedKind::Commit),
        Err(e) => assert!(matches!(e, MlsError::OpenMls(_))),
    }
    assert_eq!(bob.epoch(), 1, "a second commit is staged, not merged");
    bob.finalize_pending_commit().unwrap();
    assert_eq!(bob.epoch(), 2, "finalize merges the staged commit");
    alice.finalize_pending_commit().unwrap();
    assert_eq!(alice.epoch(), 2);
}

#[test]
fn aead_round_trips_under_label() {
    let (alice, _) = MlsContext::new_member(b"alice").unwrap();
    let label = label_for(StreamType::Text);
    let pt = b"the quick brown fox";
    let ct = alice.seal(label, 1, pt).unwrap();
    let dec = alice.open(label, 1, &ct).unwrap();
    assert_eq!(dec, pt);
    assert!(alice.open(label, 2, &ct).is_err());
}

struct Member {
    mls: MlsContext,
    node: GroupNode,
    gtp: GtpClient,
}

impl Member {
    fn new_creator(name: &'static str, member_id: u32) -> Self {
        let (mls, _) = MlsContext::new_member(name.as_bytes()).unwrap();
        let mut node = GroupNode::new(member_id, mls.group_id_16());
        node.bootstrap_as_creator(0);
        Self { mls, node, gtp: GtpClient::new() }
    }
    fn new_pending(name: &'static str) -> (Self, KeyPackageBundle) {
        let (mls, bundle) = MlsContext::new_member(name.as_bytes()).unwrap();
        let placeholder = GroupNode::new(0, [0u8; 16]);
        (Self { mls, node: placeholder, gtp: GtpClient::new() }, bundle)
    }
    fn finish_join(&mut self, member_id: u32, expected_tid: u32) {
        let mls_epoch = self.mls.epoch();
        self.node = GroupNode::new(member_id, self.mls.group_id_16());
        self.node.bootstrap_as_joiner(mls_epoch.saturating_sub(1), expected_tid);
    }
    fn read_text(&mut self, of: &OutboundFrame) -> String {
        let evs = on_wire(&mut self.node, &mut self.mls, of);
        let plain = first_payload(&evs).expect("payload").plaintext.clone();
        match self.gtp.accept(Ok(decode_text(&plain)), self.node.current_epoch()).unwrap() {
            GtpAccept::New(m) => m.text().unwrap().to_string(),
            other => panic!("expected New, got {:?}", other),
        }
    }
}

fn prepare_args(events: &[Event]) -> Vec<u8> {
    events
        .iter()
        .find_map(|e| match e {
            Event::Control { opcode: ControlOpcode::PrepareTransition, args, .. } => Some(args.clone()),
            _ => None,
        })
        .expect("saw PREPARE")
}

#[test]
fn full_lifecycle_two_joins_one_leave() {
    let mut alice = Member::new_creator("alice", 1);
    let (mut bob, bob_kp_bundle) = Member::new_pending("bob");
    let validated = validated_kp(&alice.mls, &export_kp(&bob_kp_bundle));
    let (_commit_bytes, welcome_bytes) = alice.mls.invite_full(&[validated]).unwrap();
    assert_eq!(alice.mls.epoch(), 0, "no merge yet");
    bob.mls.accept_welcome(&welcome_bytes).unwrap();
    bob.finish_join(2, 1);
    alice.mls.finalize_pending_commit().unwrap();
    let exec1 = send_control(&mut alice.node, &mut alice.mls, 0, ControlOpcode::ExecuteTransition, 1, 1, vec![]).unwrap();
    alice.node.apply_transition(1);
    let _ = on_wire(&mut bob.node, &mut bob.mls, &exec1);
    assert_eq!(alice.node.last_transition_id(), 1);
    assert_eq!(bob.node.last_transition_id(), 1);

    let m = send_text(&mut alice.gtp, &mut alice.node, &mut alice.mls, 0, 100, "hello bob");
    assert_eq!(bob.read_text(&m), "hello bob");

    let (mut carol, carol_kp_bundle) = Member::new_pending("carol");
    let v_carol = validated_kp(&alice.mls, &export_kp(&carol_kp_bundle));
    let (commit2, welcome2) = alice.mls.invite_full(&[v_carol]).unwrap();
    assert_eq!(alice.mls.epoch(), 1, "still pre-merge for tid=2");
    carol.mls.accept_welcome(&welcome2).unwrap();
    carol.finish_join(3, 2);
    let prepare2 = send_control(&mut alice.node, &mut alice.mls, 0, ControlOpcode::PrepareTransition, 2, 10, commit2.clone()).unwrap();
    let bob_evs = on_wire(&mut bob.node, &mut bob.mls, &prepare2);
    let args2 = prepare_args(&bob_evs);
    assert_eq!(args2, commit2);
    assert_eq!(bob.mls.process_message(&args2).unwrap(), ProcessedKind::Commit);
    assert_eq!(bob.mls.epoch(), 1, "deferred merge: staged but not advanced");
    // EXECUTE reaches the existing member under the old epoch's key and
    // the joiner (who only holds the new epoch) under the new one.
    let exec2_old = send_control(&mut alice.node, &mut alice.mls, 0, ControlOpcode::ExecuteTransition, 2, 11, vec![]).unwrap();
    alice.mls.finalize_pending_commit().unwrap();
    let exec2 = send_control(&mut alice.node, &mut alice.mls, 0, ControlOpcode::ExecuteTransition, 2, 11, vec![]).unwrap();
    alice.node.apply_transition(2);
    let _ = on_wire(&mut bob.node, &mut bob.mls, &exec2_old);
    bob.mls.finalize_pending_commit().unwrap();
    let _ = on_wire(&mut carol.node, &mut carol.mls, &exec2);
    carol.mls.finalize_pending_commit().unwrap();
    assert_eq!(alice.node.last_transition_id(), 2);
    assert_eq!(bob.node.last_transition_id(), 2);
    assert_eq!(carol.node.last_transition_id(), 2);
    assert_eq!(alice.node.current_epoch(), 2);
    assert_eq!(bob.node.current_epoch(), 2);
    assert_eq!(carol.node.current_epoch(), 2);

    let m2 = send_text(&mut bob.gtp, &mut bob.node, &mut bob.mls, 0, 200, "everyone hi");
    assert_eq!(alice.read_text(&m2), "everyone hi");
    assert_eq!(carol.read_text(&m2), "everyone hi");

    let commit3 = alice.mls.remove_members(&[1]).unwrap();
    assert_eq!(alice.mls.epoch(), 2, "still pre-merge for tid=3");
    let prepare3 = send_control(&mut alice.node, &mut alice.mls, 0, ControlOpcode::PrepareTransition, 3, 20, commit3.clone()).unwrap();
    let carol_evs = on_wire(&mut carol.node, &mut carol.mls, &prepare3);
    let p3args = prepare_args(&carol_evs);
    assert_eq!(carol.mls.process_message(&p3args).unwrap(), ProcessedKind::Commit);
    assert_eq!(carol.mls.epoch(), 2, "deferred merge: still on 2 until EXECUTE");
    let _ = bob.mls.process_message(&p3args);
    let exec3 = send_control(&mut alice.node, &mut alice.mls, 0, ControlOpcode::ExecuteTransition, 3, 21, vec![]).unwrap();
    alice.mls.finalize_pending_commit().unwrap();
    alice.node.apply_transition(3);
    let _ = on_wire(&mut carol.node, &mut carol.mls, &exec3);
    carol.mls.finalize_pending_commit().unwrap();
    assert_eq!(alice.node.last_transition_id(), 3);
    assert_eq!(carol.node.last_transition_id(), 3);
    assert_eq!(alice.node.current_epoch(), 3);
    assert_eq!(carol.node.current_epoch(), 3);

    let m3 = send_text(&mut carol.gtp, &mut carol.node, &mut carol.mls, 0, 300, "after-leave");
    assert_eq!(alice.read_text(&m3), "after-leave");
    let bob_evs_after = on_wire(&mut bob.node, &mut bob.mls, &m3);
    assert!(!errors(&bob_evs_after).is_empty(), "bob must observe a decryption / state error");
    assert_eq!(alice.node.state(), NodeState::Active);
    assert_eq!(carol.node.state(), NodeState::Active);
}

#[test]
fn sframe_sessions_from_mls_agree_across_members() {
    let (mut alice, _akp) = alice();
    let (mut bob, bob_kp) = bob();
    let welcome = alice.invite(&[bob_kp.key_package().clone()]).unwrap();
    bob.accept_welcome(&welcome).unwrap();

    let ka = derive_base_key(&alice, "gbp/sframe v1", alice.epoch()).unwrap();
    let kb = derive_base_key(&bob, "gbp/sframe v1", bob.epoch()).unwrap();
    assert_eq!(ka, kb);
    let other_label = derive_base_key(&alice, "gbp/sframe v2", alice.epoch()).unwrap();
    assert_ne!(ka, other_label);

    let sa = SFrameSession::from_mls(&alice, "gbp/sframe v1", CipherSuite::Aes128Gcm).unwrap();
    let sb = SFrameSession::from_mls(&bob, "gbp/sframe v1", CipherSuite::Aes128Gcm).unwrap();
    assert_eq!(sa.epoch(), 1);
    let mut enc = sa.encryptor(0);
    let mut dec = sb.decryptor();
    let payload = enc.encrypt(b"opus frame", b"rtp").unwrap();
    let (plain, leaf) = dec.decrypt(&payload, b"rtp").unwrap();
    assert_eq!(plain, b"opus frame");
    assert_eq!(leaf, 0);
}

#[test]
fn invite_by_key_package_bytes_and_bundle() {
    let (mut alice, _akp) = alice();
    let (mut bob, bob_kp) = bob();
    let kp_bytes = MlsContext::key_package_bytes(&bob_kp).unwrap();
    let kp = alice.key_package_from_bytes(&kp_bytes).unwrap();
    let (commit, welcome) = alice.invite_full(&[kp]).unwrap();
    let bundle = pack_invite(&commit, &welcome);
    assert_eq!(u32::from_le_bytes([bundle[0], bundle[1], bundle[2], bundle[3]]) as usize, commit.len());
    assert_eq!(bundle.len(), 4 + commit.len() + welcome.len());
    let (c, w) = unpack_invite(&bundle).unwrap();
    assert_eq!(c, commit);
    assert_eq!(w, welcome);
    alice.finalize_pending_commit().unwrap();
    bob.accept_welcome(&w).unwrap();
    assert_eq!(bob.epoch(), alice.epoch());
}

#[test]
fn key_package_from_garbage_is_parse_error() {
    let (alice, _akp) = alice();
    match alice.key_package_from_bytes(&[1, 2, 3]) {
        Err(MlsError::OpenMls(m)) => assert!(m.starts_with("kp parse: ")),
        _ => panic!("expected a parse error"),
    }
}

#[test]
fn unpack_invite_rejects_short_buffers() {
    assert!(unpack_invite(&[1, 0, 0]).is_none());
    assert!(unpack_invite(&[5, 0, 0, 0, 1, 2]).is_none());
    let (c, w) = unpack_invite(&[2, 0, 0, 0, 7, 8, 9]).unwrap();
    assert_eq!(c, vec![7, 8]);
    assert_eq!(w, vec![9]);
}

#[test]
fn recorded_non_commits_leave_no_pending_commit() {
    let (mut ctx, _kp) = alice();
    assert_eq!(ctx.record_processed(Processed::Application), Ok(ProcessedKind::Application));
    assert_eq!(ctx.record_processed(Processed::Proposal), Ok(ProcessedKind::Proposal));
    assert_eq!(ctx.record_processed(Processed::External), Ok(ProcessedKind::External));
    assert!(ctx.pending_staged.is_none());
}

#[test]
fn garbage_errors_name_the_failing_step() {
    let (mut ctx, _kp) = alice();
    let epoch = ctx.epoch();
    match ctx.accept_welcome(&[1, 2, 3]) {
        Err(MlsError::OpenMls(m)) => assert!(m.starts_with("welcome parse: ")),
        other => panic!("unexpected {:?}", other),
    }
    assert_eq!(ctx.epoch(), epoch);
    match ctx.process_message(&[1, 2, 3]) {
        Err(MlsError::OpenMls(m)) => assert!(m.starts_with("msg parse: ")),
        other => panic!("unexpected {:?}", other),
    }
}

#[test]
fn sealed_under_one_label_does_not_open_under_another() {
    let (ctx, _kp) = alice();
    let c = ctx.seal(StreamLabel::Control, 3, b"ctl").unwrap();
    assert!(matches!(ctx.open(StreamLabel::Text, 3, &c), Err(MlsError::Aead(_))));
    assert_eq!(ctx.open(StreamLabel::Control, 3, &c).unwrap(), b"ctl".to_vec());
}

#[test]
fn epoch_moves_only_when_the_commit_is_finalized() {
    let (mut alice, _) = MlsContext::new_member(b"alice").unwrap();
    let (mut bob, bob_kp) = MlsContext::new_member(b"bob").unwrap();
    assert_eq!(alice.epoch(), 0);
    let v_bob = validated_kp(&alice, &export_kp(&bob_kp));
    let (_commit, welcome) = alice.invite_full(&[v_bob]).unwrap();
    assert_eq!(alice.epoch(), 0, "invite stages, it does not merge");
    bob.accept_welcome(&welcome).unwrap();
    alice.finalize_pending_commit().unwrap();
    assert_eq!(alice.epoch(), 1);
    assert_eq!(alice.group_id_16(), bob.group_id_16());
}

#[test]
fn invite_full_gives_commit_then_welcome() {
    let (mut alice, _) = MlsContext::new_member(b"alice").unwrap();
    let (mut bob, bob_kp) = MlsContext::new_member(b"bob").unwrap();
    assert!(matches!(alice.invite_full(&[]), Err(MlsError::OpenMls(_))));
    let v_bob = validated_kp(&alice, &export_kp(&bob_kp));
    let (commit, welcome) = alice.invite_full(&[v_bob]).unwrap();
    match bob.accept_welcome(&commit) {
        Err(MlsError::OpenMls(m)) => assert!(m.starts_with("expected welcome, got ")),
        other => panic!("unexpected {:?}", other),
    }
    match alice.process_message(&welcome) {
        Err(MlsError::OpenMls(m)) => assert!(m.starts_with("expected protocol message, got ")),
        other => panic!("unexpected {:?}", other),
    }
    bob.accept_welcome(&welcome).unwrap();
}
