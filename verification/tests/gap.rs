use gbp_stack::base::CodecError;
use gbp_stack::gap::client::{GapAccept, GapClient, GapError};
use gbp_stack::gap::jitter::{JitterBuffer, JitterPush};
use gbp_stack::gap::payload::GapPayload;
use gbp_stack::node::{GroupNode, Sealer};
use gbp_stack::mls::MlsError;
use gbp_stack::vocab::codec::PayloadCodec;
use gbp_stack::vocab::ids::SequenceNo;
use gbp_stack::vocab::stream::StreamType;
use gbp_stack::vocab::timeouts;

fn make_payload(seq: u32, key_phase: u32) -> Result<GapPayload, CodecError> {
    Ok(GapPayload {
        media_source_id: 1,
        rtp_sequence: seq,
        rtp_timestamp: 960,
        key_phase,
        opus_frame: b"opus-data".to_vec(),
    })
}

#[test]
fn wraparound_after_ffff_is_accepted() {
    let mut client = GapClient::new();
    let _ = client.accept_at(make_payload(0xFFFE, 1), 1, 0).unwrap();
    let _ = client.accept_at(make_payload(0xFFFF, 1), 1, 0).unwrap();
    let result = client.accept_at(make_payload(0x0000, 1), 1, 0).unwrap();
    assert!(matches!(result, GapAccept::New(_)), "seq=0 after 0xFFFF must be New");
}

#[test]
fn strict_replay_within_window_is_late() {
    let mut client = GapClient::new();
    let _ = client.accept_at(make_payload(100, 1), 1, 0).unwrap();
    let result = client.accept_at(make_payload(100, 1), 1, 0).unwrap();
    assert!(matches!(result, GapAccept::Late(_)), "exact dup must be Late");
}

#[test]
fn epoch_change_clears_window() {
    let mut client = GapClient::new();
    let _ = client.accept_at(make_payload(1, 1), 1, 0).unwrap();
    let result = client.accept_at(make_payload(1, 2), 2, 0).unwrap();
    assert!(matches!(result, GapAccept::New(_)), "new epoch resets window");
}

#[test]
fn old_epoch_frame_accepted_within_overlap() {
    let mut client = GapClient::new();
    let _ = client.accept_at(make_payload(5, 1), 1, 0).unwrap();
    let _ = client.accept_at(make_payload(1, 2), 2, 100).unwrap();
    let result = client.accept_at(make_payload(6, 1), 2, 200).unwrap();
    assert!(matches!(result, GapAccept::New(_)), "late epoch-1 frame accepted within T_overlap");
}

#[test]
fn old_epoch_replay_is_late_within_overlap() {
    let mut client = GapClient::new();
    let _ = client.accept_at(make_payload(5, 1), 1, 0).unwrap();
    let _ = client.accept_at(make_payload(1, 2), 2, 100).unwrap();
    let result = client.accept_at(make_payload(5, 1), 2, 200).unwrap();
    assert!(matches!(result, GapAccept::Late(_)), "duplicate from old epoch is Late");
}

#[test]
fn expired_old_epoch_frame_is_stale() {
    let mut client = GapClient::new();
    let _ = client.accept_at(make_payload(5, 1), 1, 0).unwrap();
    let _ = client.accept_at(make_payload(1, 2), 2, 100).unwrap();
    let later = 100 + timeouts::T_GAP_KEY_OVERLAP_MS + 1;
    let result = client.accept_at(make_payload(6, 1), 2, later);
    assert!(matches!(result, Err(GapError::EpochStale { kp: 1, expected: 2 })), "expired epoch is Stale");
}

#[test]
fn reset_clears_overlap_buffer() {
    let mut client = GapClient::new();
    let _ = client.accept_at(make_payload(1, 1), 1, 0).unwrap();
    let _ = client.accept_at(make_payload(1, 2), 2, 0).unwrap();
    assert!(client.overlap_windows() > 0, "overlap buffer populated");
    client.reset();
    assert_eq!(client.overlap_windows(), 0, "overlap buffer cleared after reset");
}

#[test]
fn far_behind_sequence_counts_as_new() {
    let mut client = GapClient::new();
    let _ = client.accept_at(make_payload(0x9000, 1), 1, 0).unwrap();
    // More than half the 16-bit range behind: treated as a wrapped new frame.
    let result = client.accept_at(make_payload(0x0100, 1), 1, 0).unwrap();
    assert!(matches!(result, GapAccept::New(_)));
}

#[test]
fn decode_error_is_reported_after_the_epoch_is_observed() {
    let mut client = GapClient::new();
    let _ = client.accept_at(make_payload(3, 1), 1, 0).unwrap();
    let r = client.accept_at(Err(CodecError::Decode("bad".into())), 2, 0);
    assert!(matches!(r, Err(GapError::Decode(_))));
    // epoch 1's window was retained at the epoch change.
    assert_eq!(client.overlap_windows(), 1);
}

struct PlainSealer;

impl Sealer for PlainSealer {
    fn seal(&mut self, _st: StreamType, _seq: SequenceNo, pt: &[u8]) -> Result<Vec<u8>, MlsError> {
        Ok(pt.to_vec())
    }
    fn open(&mut self, _st: StreamType, _seq: SequenceNo, ct: &[u8]) -> Result<Vec<u8>, MlsError> {
        Ok(ct.to_vec())
    }
}

#[test]
fn compose_numbers_frames_and_wraps() {
    let mut node = GroupNode::new(3, [1u8; 16]);
    node.bootstrap_as_creator(4);
    let mut client = GapClient::new();
    let a = client.compose_at(&node, 7, 960, vec![1], 0);
    let b = client.compose_at(&node, 7, 1920, vec![2], 0);
    assert_eq!((a.rtp_sequence, b.rtp_sequence), (1, 2));
    assert_eq!(a.key_phase, 4);
    let mut s = PlainSealer;
    let of = client.send_encoded(&mut node, &mut s, 9, b"frame", PayloadCodec::Cbor).unwrap();
    assert_eq!(of.frame.stream_id, 302);
    assert_eq!(of.frame.flags, 0x0001);
    assert_eq!(of.to, 9);
}

fn frame(src: u32, seq: u32) -> GapPayload {
    GapPayload::opus_20ms(src, seq as u16, 0, vec![seq as u8])
}

#[test]
fn reorders_out_of_order_pushes() {
    let mut jb = JitterBuffer::new(8);
    for s in [3u32, 1, 2, 4] {
        assert!(matches!(jb.push(frame(1, s)), JitterPush::Accepted));
    }
    let order: Vec<u32> = std::iter::from_fn(|| jb.pop_in_order(1)).map(|f| f.rtp_sequence).collect();
    assert_eq!(order, vec![1, 2, 3, 4]);
}

#[test]
fn rejects_late_frames() {
    let mut jb = JitterBuffer::new(4);
    jb.push(frame(1, 5));
    jb.pop_in_order(1).unwrap();
    let r = jb.push(frame(1, 4));
    assert!(matches!(r, JitterPush::Late));
}

#[test]
fn pop_force_skips_missing() {
    let mut jb = JitterBuffer::new(4);
    jb.push(frame(1, 1));
    jb.push(frame(1, 3));
    assert_eq!(jb.pop_in_order(1).unwrap().rtp_sequence, 1);
    assert!(jb.pop_in_order(1).is_none());
    assert_eq!(jb.pop_force(1).unwrap().rtp_sequence, 3);
}

#[test]
fn full_buffer_evicts_oldest() {
    let mut jb = JitterBuffer::new(2);
    jb.push(frame(1, 10));
    jb.push(frame(1, 12));
    match jb.push(frame(1, 11)) {
        JitterPush::Evicted(e) => assert_eq!(e.rtp_sequence, 10),
        other => panic!("expected eviction, got {:?}", other),
    }
    assert_eq!(jb.len_for(1), 2);
    assert_eq!(jb.len_for(2), 0);
    assert!(matches!(jb.push(frame(1, 12)), JitterPush::Accepted));
    assert_eq!(jb.len_for(1), 2);
    jb.clear();
    assert_eq!(jb.len_for(1), 0);
}

#[test]
fn opus_payload_builders() {
    let p = GapPayload::opus_20ms(1, 42, 7, vec![0xAB, 0xCD, 0xEF]);
    assert_eq!((p.media_source_id, p.rtp_sequence, p.rtp_timestamp, p.key_phase), (1, 42, 960, 7));
    let q = GapPayload::with_timestamp(2, 3, 4800, 9, vec![]);
    assert_eq!((q.rtp_sequence, q.rtp_timestamp, q.key_phase), (3, 4800, 9));
}
