use gbp_stack::base::control::ControlMessage;
use gbp_stack::base::error_object::ErrorObject;
use gbp_stack::base::frame::GbpFrame;
use gbp_stack::base::CodecError;
use gbp_stack::transport::{blob_length, frame_blob, length_prefix, prefix_length, WireError, MAX_FRAME};
use gbp_stack::vocab::codec::PayloadCodec;
use gbp_stack::vocab::errors::{ErrorClass, ErrorSpec};
use gbp_stack::vocab::flags::GbpFlags;
use gbp_stack::vocab::stream::StreamType;

#[test]
fn frame_new_fills_version_and_size() {
    let f = GbpFrame::new(
        [0xAA; 16],
        42,
        7,
        StreamType::Text,
        201,
        GbpFlags::ORDERED | GbpFlags::RELIABLE,
        1,
        vec![1, 2, 3, 4, 5],
        0,
    );
    assert_eq!(f.version, 1);
    assert_eq!(f.epoch, 42);
    assert_eq!(f.transition_id, 7);
    assert_eq!(f.stream_type_typed().unwrap(), StreamType::Text);
    assert_eq!(f.payload_size, 5);
    assert_eq!(f.encrypted_payload.as_slice(), &[1, 2, 3, 4, 5]);
    assert_eq!(f.payload_format, 0);
    assert_eq!(f.group_id_array(), [0xAA; 16]);
    assert!(f.validate_payload_size().is_ok());
}

#[test]
fn frame_codec_field_selects_codec() {
    let f = GbpFrame::new([0xBB; 16], 1, 0, StreamType::Audio, 1, 0, 1, vec![0xDE, 0xAD], PayloadCodec::FlatBuffers.as_u8());
    assert_eq!(f.payload_codec(), PayloadCodec::FlatBuffers);
    let mut g = f;
    g.payload_format = 9;
    assert_eq!(g.payload_codec(), PayloadCodec::Cbor);
}

#[test]
fn frame_validation_rejects_bad_payload_size() {
    let mut f = GbpFrame::new([0; 16], 1, 0, StreamType::Text, 1, 0, 1, vec![1, 2, 3], 0);
    f.payload_size = 99;
    assert_eq!(f.validate_payload_size(), Err(CodecError::PayloadSizeMismatch));
}

#[test]
fn frame_unknown_stream_code() {
    let mut f = GbpFrame::new([0; 16], 1, 0, StreamType::Text, 1, 0, 1, vec![], 0);
    f.stream_type = 77;
    assert_eq!(f.stream_type_typed(), Err(CodecError::UnknownEnumValue(77)));
}

#[test]
fn frame_group_id_pads_and_truncates() {
    let mut f = GbpFrame::new([0; 16], 1, 0, StreamType::Text, 1, 0, 1, vec![], 0);
    f.group_id = vec![1, 2, 3];
    let mut want = [0u8; 16];
    want[..3].copy_from_slice(&[1, 2, 3]);
    assert_eq!(f.group_id_array(), want);
    f.group_id = (0u8..20).collect();
    let want: Vec<u8> = (0u8..16).collect();
    assert_eq!(f.group_id_array().to_vec(), want);
}

#[test]
fn control_constructors_set_args_length() {
    let msg = ControlMessage::bare(3, 99, 1, 2);
    assert_eq!(msg.opcode, 3);
    assert_eq!(msg.request_id, 99);
    assert_eq!(msg.sender_id, 1);
    assert_eq!(msg.transition_id, 2);
    assert_eq!(msg.args_length, 0);
    assert!(msg.args.is_empty());

    let args = vec![0xA1u8, 0x00, 0xF5];
    let msg = ControlMessage::with_args(7, 1, 2, 3, args.clone());
    assert_eq!(msg.args_length, 3);
    assert_eq!(msg.args, args);
    assert!(msg.validate().is_ok());
}

#[test]
fn control_args_length_mismatch_rejected() {
    let mut msg = ControlMessage::bare(1, 0, 0, 0);
    msg.args = vec![0xFF; 5];
    assert!(matches!(msg.validate(), Err(CodecError::PayloadSizeMismatch)));
}

#[test]
fn error_object_from_registry_spec() {
    let spec: ErrorSpec = ErrorSpec::lookup(0x0003).unwrap();
    let e = ErrorObject::from_spec(spec, "epoch mismatch".to_string());
    assert_eq!(e.code, 0x0003);
    assert_eq!(e.class, spec.class.as_u8());
    assert_eq!(e.retryable, spec.retryable);
    assert_eq!(e.fatal, spec.fatal);
    assert!(e.details_cbor.is_empty());
    let o = ErrorObject::new(0x7001, ErrorClass::Policy, false, true, "custom".to_string());
    assert_eq!(o.class, 0x04);
    assert!(o.fatal);
}

#[test]
fn blob_framing_prefixes_little_endian_length() {
    let v = frame_blob(&[9, 8, 7]).unwrap();
    assert_eq!(v, vec![3, 0, 0, 0, 9, 8, 7]);
    assert_eq!(length_prefix(0x0102_0304), [4, 3, 2, 1]);
    assert_eq!(prefix_length([4, 3, 2, 1]), 0x0102_0304);
    assert_eq!(blob_length([3, 0, 0, 0]).unwrap(), 3);
}

#[test]
fn blob_framing_enforces_max_frame() {
    let big = vec![0u8; MAX_FRAME + 1];
    assert!(matches!(frame_blob(&big), Err(WireError::TooLarge { size, max }) if size == MAX_FRAME + 1 && max == MAX_FRAME));
    assert!(frame_blob(&vec![0u8; MAX_FRAME]).is_ok());
    let over = length_prefix((MAX_FRAME + 1) as u32);
    assert!(matches!(blob_length(over), Err(WireError::TooLarge { .. })));
    assert_eq!(blob_length(length_prefix(MAX_FRAME as u32)).unwrap(), MAX_FRAME);
}

#[test]
fn decrypt_failed_registry_entry_is_retryable_and_non_fatal() {
    let spec = ErrorSpec::lookup(0x0006).unwrap();
    assert_eq!(spec.class, ErrorClass::Crypto);
    assert!(spec.retryable);
    assert!(!spec.fatal);
}
