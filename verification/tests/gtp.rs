use gbp_stack::base::CodecError;
use gbp_stack::gtp::attachment::{
    AttachmentAssembler, AttachmentChunk, AttachmentError, AttachmentSender, DEFAULT_CHUNK_SIZE,
};
use gbp_stack::gtp::client::{GtpAccept, GtpClient, GtpError};
use gbp_stack::gtp::history::{MessageHistory, Watermark};
use gbp_stack::gtp::message::{GtpContentType, GtpMessage};

fn encode_msg(sender_id: u32, message_id: u64) -> Result<GtpMessage, CodecError> {
    Ok(GtpMessage::plain(sender_id, message_id, "hello"))
}

#[test]
fn accept_new_message_returns_new() {
    let mut client = GtpClient::new();
    assert!(matches!(client.accept(encode_msg(1, 100), 0).unwrap(), GtpAccept::New(_)));
}

#[test]
fn accept_duplicate_returns_duplicate() {
    let mut client = GtpClient::new();
    client.accept(encode_msg(1, 100), 0).unwrap();
    let result = client.accept(encode_msg(1, 100), 0).unwrap();
    assert!(matches!(result, GtpAccept::Duplicate(_)));
}

#[test]
fn different_message_ids_both_new() {
    let mut client = GtpClient::new();
    assert!(matches!(client.accept(encode_msg(1, 1), 0).unwrap(), GtpAccept::New(_)));
    assert!(matches!(client.accept(encode_msg(1, 2), 0).unwrap(), GtpAccept::New(_)));
}

#[test]
fn different_senders_same_message_id_both_new() {
    let mut client = GtpClient::new();
    assert!(matches!(client.accept(encode_msg(1, 42), 0).unwrap(), GtpAccept::New(_)));
    assert!(matches!(client.accept(encode_msg(2, 42), 0).unwrap(), GtpAccept::New(_)));
}

#[test]
fn epoch_advance_clears_seen_set() {
    let mut client = GtpClient::new();
    client.accept(encode_msg(1, 100), 0).unwrap();
    let result = client.accept(encode_msg(1, 100), 1).unwrap();
    assert!(matches!(result, GtpAccept::New(_)));
}

#[test]
fn reset_clears_idempotency_state() {
    let mut client = GtpClient::new();
    client.accept(encode_msg(7, 999), 5).unwrap();
    client.reset();
    let result = client.accept(encode_msg(7, 999), 5).unwrap();
    assert!(matches!(result, GtpAccept::New(_)));
}

#[test]
fn sync_epoch_same_value_keeps_state() {
    let mut client = GtpClient::new();
    client.accept(encode_msg(1, 1), 3).unwrap();
    client.sync_epoch(3);
    let result = client.accept(encode_msg(1, 1), 3).unwrap();
    assert!(matches!(result, GtpAccept::Duplicate(_)));
}

#[test]
fn client_invalid_cbor_returns_decode_error() {
    let mut client = GtpClient::new();
    let result = client.accept(Err(CodecError::Decode("unexpected byte 0xff".into())), 0);
    assert!(matches!(result, Err(GtpError::Decode(_))));
}

#[test]
fn length_mismatch_is_a_decode_error() {
    let mut client = GtpClient::new();
    let mut m = GtpMessage::plain(1, 1, "abc");
    m.content_length = 9;
    let result = client.accept(Ok(m), 0);
    assert!(matches!(result, Err(GtpError::Decode(CodecError::PayloadSizeMismatch))));
}

#[test]
fn plain_message_fields() {
    let m = GtpMessage::plain(42, 0xDEAD_BEEF, "codec roundtrip");
    assert_eq!(m.sender_id, 42);
    assert_eq!(m.message_id, 0xDEAD_BEEF);
    assert_eq!(m.flags, 0x01);
    assert_eq!(m.content_type, GtpContentType::Plain.as_u8());
    assert_eq!(m.content_length, 15);
    assert_eq!(m.text(), Some("codec roundtrip"));
    assert!(m.validate().is_ok());
}

#[test]
fn text_of_invalid_utf8_is_none() {
    let mut m = GtpMessage::plain(1, 1, "");
    m.content = vec![0xFF, 0xFE];
    m.content_length = 2;
    assert_eq!(m.text(), None);
}

#[test]
fn content_type_codes() {
    assert_eq!(GtpContentType::Plain.as_u8(), 0);
    assert_eq!(GtpContentType::Markdown.as_u8(), 1);
    assert_eq!(GtpContentType::Binary.as_u8(), 2);
    assert_eq!(GtpContentType::AttachmentRef.as_u8(), 3);
}

fn msg(sender: u32, mid: u64) -> GtpMessage {
    GtpMessage::plain(sender, mid, "x")
}

#[test]
fn push_dedups_and_evicts() {
    let mut h = MessageHistory::with_capacity(3);
    assert!(h.push(msg(1, 1)));
    assert!(h.push(msg(1, 2)));
    assert!(!h.push(msg(1, 1)));
    assert!(h.push(msg(1, 3)));
    assert!(h.push(msg(1, 4)));
    assert_eq!(h.len(), 3);
    assert!(!h.contains(1, 1));
    assert!(h.contains(1, 4));
}

#[test]
fn since_returns_only_after_watermark() {
    let mut h = MessageHistory::with_capacity(10);
    for mid in 1..=5 {
        h.push(msg(1, mid));
    }
    let mut wm = Watermark::new();
    wm.observe(1, 3);
    let after: Vec<u64> = h.since(&wm).iter().map(|m| m.message_id).collect();
    assert_eq!(after, vec![4, 5]);
}

#[test]
fn since_includes_unmarked_senders_and_filters_per_sender() {
    let mut h = MessageHistory::with_capacity(10);
    h.push(msg(1, 1));
    h.push(msg(2, 1));
    h.push(msg(1, 2));
    let mut wm = Watermark::new();
    wm.observe(1, 1);
    let after: Vec<(u32, u64)> = h.since(&wm).iter().map(|m| (m.sender_id, m.message_id)).collect();
    assert_eq!(after, vec![(2, 1), (1, 2)]);
    let one: Vec<u64> = h.since_for_sender(1, 0).iter().map(|m| m.message_id).collect();
    assert_eq!(one, vec![1, 2]);
    h.clear();
    assert!(h.is_empty());
}

#[test]
fn watermark_keeps_max() {
    let mut wm = Watermark::new();
    wm.observe(1, 5);
    wm.observe(1, 3);
    wm.observe(1, 7);
    assert_eq!(wm.last_seen(1), Some(7));
}

#[test]
fn watermark_lists_senders_in_order() {
    let mut wm = Watermark::new();
    wm.observe(9, 1);
    wm.observe(4, 2);
    wm.observe(9, 3);
    assert_eq!(wm.iter(), vec![(9, 3), (4, 2)]);
    assert_eq!(wm.len(), 2);
    assert_eq!(wm.last_seen(5), None);
    wm.clear();
    assert!(wm.is_empty());
}

fn sample_data(n: usize) -> Vec<u8> {
    (0..n).map(|i| (i % 251) as u8).collect()
}

#[test]
fn round_trip_small_payload() {
    let data = sample_data(100);
    let sender = AttachmentSender::new(1, "file.bin", "application/octet-stream", &data, DEFAULT_CHUNK_SIZE);
    assert_eq!(sender.manifest.chunk_count, 1);
    let mut assembler = AttachmentAssembler::new(sender.manifest);
    for chunk in &sender.chunks {
        assembler.push(chunk.clone()).unwrap();
    }
    let result = assembler.assemble().unwrap();
    assert_eq!(result, data);
}

#[test]
fn round_trip_multi_chunk() {
    let data = sample_data(300);
    let sender = AttachmentSender::new(2, "multi.bin", "application/octet-stream", &data, 100);
    assert_eq!(sender.manifest.chunk_count, 3);
    let mut assembler = AttachmentAssembler::new(sender.manifest);
    for chunk in &sender.chunks {
        assembler.push(chunk.clone()).unwrap();
    }
    assert!(assembler.is_complete());
    let result = assembler.assemble().unwrap();
    assert_eq!(result, data);
}

#[test]
fn out_of_order_chunks_reassemble_correctly() {
    let data = sample_data(250);
    let sender = AttachmentSender::new(3, "ooo.bin", "application/octet-stream", &data, 100);
    let mut assembler = AttachmentAssembler::new(sender.manifest);
    for chunk in sender.chunks.iter().rev() {
        assembler.push(chunk.clone()).unwrap();
    }
    let result = assembler.assemble().unwrap();
    assert_eq!(result, data);
}

#[test]
fn duplicate_chunk_ignored() {
    let data = sample_data(100);
    let sender = AttachmentSender::new(4, "dup.bin", "application/octet-stream", &data, DEFAULT_CHUNK_SIZE);
    let mut assembler = AttachmentAssembler::new(sender.manifest);
    let chunk = sender.chunks[0].clone();
    assembler.push(chunk.clone()).unwrap();
    assembler.push(chunk).unwrap();
    let result = assembler.assemble().unwrap();
    assert_eq!(result, data);
}

#[test]
fn hash_mismatch_detected() {
    let data = sample_data(100);
    let sender = AttachmentSender::new(5, "bad.bin", "application/octet-stream", &data, DEFAULT_CHUNK_SIZE);
    let mut manifest = sender.manifest;
    manifest.sha256[0] ^= 0xFF;
    let mut assembler = AttachmentAssembler::new(manifest);
    assembler.push(sender.chunks[0].clone()).unwrap();
    assert!(matches!(assembler.assemble(), Err(AttachmentError::HashMismatch)));
}

#[test]
fn incomplete_returns_error() {
    let data = sample_data(300);
    let sender = AttachmentSender::new(6, "inc.bin", "application/octet-stream", &data, 100);
    let mut assembler = AttachmentAssembler::new(sender.manifest);
    assembler.push(sender.chunks[0].clone()).unwrap();
    assert!(matches!(assembler.assemble(), Err(AttachmentError::Incomplete { received: 1, total: 3 })));
}

#[test]
fn chunk_out_of_range_rejected() {
    let data = sample_data(100);
    let sender = AttachmentSender::new(7, "oor.bin", "application/octet-stream", &data, DEFAULT_CHUNK_SIZE);
    let mut assembler = AttachmentAssembler::new(sender.manifest);
    let bad_chunk = AttachmentChunk { attachment_id: 7, chunk_index: 99, chunk_count: 1, data: Vec::new() };
    assert!(matches!(assembler.push(bad_chunk), Err(AttachmentError::ChunkOutOfRange { idx: 99, count: 1 })));
}

#[test]
fn manifest_describes_the_payload() {
    let data = sample_data(50);
    let sender = AttachmentSender::new(8, "rt.bin", "text/plain", &data, DEFAULT_CHUNK_SIZE);
    assert_eq!(sender.manifest.attachment_id, 8);
    assert_eq!(sender.manifest.filename, "rt.bin");
    assert_eq!(sender.manifest.mime_type, "text/plain");
    assert_eq!(sender.manifest.total_size, 50);
    assert_eq!(sender.manifest.chunk_count, 1);
    assert_eq!(sender.manifest.sha256.len(), 32);
}

#[test]
fn empty_attachment_has_no_chunks_and_assembles_empty() {
    let sender = AttachmentSender::new(9, "empty", "application/octet-stream", &[], 0);
    assert_eq!(sender.manifest.chunk_count, 0);
    assert!(sender.chunks.is_empty());
    let assembler = AttachmentAssembler::new(sender.manifest);
    assert!(assembler.is_complete());
    assert_eq!(assembler.assemble().unwrap(), Vec::<u8>::new());
}

#[test]
fn zero_chunk_size_means_one_byte_chunks() {
    let sender = AttachmentSender::new(10, "b", "x", &[1, 2, 3], 0);
    assert_eq!(sender.manifest.chunk_count, 3);
    let sizes: Vec<usize> = sender.chunks.iter().map(|c| c.data.len()).collect();
    assert_eq!(sizes, vec![1, 1, 1]);
    let idx: Vec<u32> = sender.chunks.iter().map(|c| c.chunk_index).collect();
    assert_eq!(idx, vec![0, 1, 2]);
}

#[test]
fn sha256_of_known_input() {
    // SHA-256("abc"), the standard test vector.
    let sender = AttachmentSender::new(11, "abc", "text/plain", b"abc", 64);
    let expected: [u8; 32] = [
        0xba, 0x78, 0x16, 0xbf, 0x8f, 0x01, 0xcf, 0xea, 0x41, 0x41, 0x40, 0xde, 0x5d, 0xae, 0x22,
        0x23, 0xb0, 0x03, 0x61, 0xa3, 0x96, 0x17, 0x7a, 0x9c, 0xb4, 0x10, 0xff, 0x61, 0xf2, 0x00,
        0x15, 0xad,
    ];
    assert_eq!(sender.manifest.sha256, expected.to_vec());
}
