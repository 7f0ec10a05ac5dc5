use gbp_stack::base::CodecError;
use gbp_stack::gap::client::{GapAccept, GapError};
use gbp_stack::gap::payload::GapPayload;
use gbp_stack::gsp::client::{GspAccept, GspError};
use gbp_stack::gsp::roles::RoleError;
use gbp_stack::gtp::attachment::AttachmentError;
use gbp_stack::gtp::client::{GtpAccept, GtpError};
use gbp_stack::gtp::message::GtpMessage;
use gbp_stack::node::{DeliveredPayload, Event, NodeError};
use gbp_stack::report::{
    b64, code_hex_string, event_dto, event_dtos, gap_accept_report, gsp_accept_report, gtp_accept_report,
    EventDto,
};
use gbp_stack::transport::WireError;
use gbp_stack::vocab::codec::PayloadCodec;
use gbp_stack::vocab::control::ControlOpcode;
use gbp_stack::vocab::errors::ErrorClass;
use gbp_stack::vocab::signal::SignalType;
use gbp_stack::vocab::state::NodeState;
use gbp_stack::vocab::stream::StreamType;

#[test]
fn b64_matches_rfc4648_vectors() {
    assert_eq!(b64(b""), "");
    assert_eq!(b64(b"f"), "Zg==");
    assert_eq!(b64(b"fo"), "Zm8=");
    assert_eq!(b64(b"foo"), "Zm9v");
    assert_eq!(b64(b"foob"), "Zm9vYg==");
    assert_eq!(b64(b"fooba"), "Zm9vYmE=");
    assert_eq!(b64(b"foobar"), "Zm9vYmFy");
}

#[test]
fn b64_uses_plus_and_slash() {
    assert_eq!(b64(&[0xFB, 0xFF, 0xBF]), "+/+/");
    assert_eq!(b64(&[0, 0, 0]), "AAAA");
}

#[test]
fn b64_length_is_four_per_started_group() {
    for n in 0..20usize {
        let data = vec![0x5Au8; n];
        assert_eq!(b64(&data).len(), (n + 2) / 3 * 4);
    }
}

#[test]
fn code_hex_is_four_upper_digits() {
    assert_eq!(code_hex_string(0x0009), "0x0009");
    assert_eq!(code_hex_string(0x00AB), "0x00AB");
    assert_eq!(code_hex_string(0xBEEF), "0xBEEF");
}

#[test]
fn state_change_dto_uses_display_names() {
    let e = Event::StateChanged { from: NodeState::Idle, to: NodeState::EstablishingGroup };
    match event_dto(&e) {
        EventDto::StateChanged { from, to } => {
            assert_eq!(from, "IDLE");
            assert_eq!(to, "ESTABLISHING_GROUP");
        }
        _ => panic!("wrong kind"),
    }
}

#[test]
fn payload_dto_carries_codes_and_base64() {
    let e = Event::PayloadReceived(DeliveredPayload {
        stream_type: StreamType::Text,
        stream_id: 201,
        sequence_no: 7,
        flags: 3,
        plaintext: b"hi".to_vec(),
        codec: PayloadCodec::Cbor,
    });
    match event_dto(&e) {
        EventDto::PayloadReceived { stream_type, stream_type_code, stream_id, sequence_no, flags, plaintext_b64 } => {
            assert_eq!(stream_type, "text");
            assert_eq!(stream_type_code, StreamType::Text.as_u8() as u32);
            assert_eq!(stream_id, 201);
            assert_eq!(sequence_no, 7);
            assert_eq!(flags, 3);
            assert_eq!(plaintext_b64, "aGk=");
        }
        _ => panic!("wrong kind"),
    }
}

#[test]
fn control_and_error_dtos() {
    let c = Event::Control {
        from: 4,
        opcode: ControlOpcode::Ack,
        transition_id: 9,
        request_id: 11,
        args: vec![0xA0],
    };
    match event_dto(&c) {
        EventDto::Control { from, opcode, opcode_code, transition_id, request_id, args_b64 } => {
            assert_eq!(from, 4);
            assert_eq!(opcode, "ACK");
            assert_eq!(opcode_code, ControlOpcode::Ack.as_u16());
            assert_eq!(transition_id, 9);
            assert_eq!(request_id, 11);
            assert_eq!(args_b64, "oA==");
        }
        _ => panic!("wrong kind"),
    }
    let e = Event::Error {
        code: 0x000B,
        class: ErrorClass::State,
        retryable: true,
        fatal: false,
        reason: "gone".to_string(),
    };
    match event_dto(&e) {
        EventDto::Error { code, code_hex, class, retryable, fatal, reason } => {
            assert_eq!(code, 0x000B);
            assert_eq!(code_hex, "0x000B");
            assert_eq!(class, 0x03);
            assert!(retryable);
            assert!(!fatal);
            assert_eq!(reason, "gone");
        }
        _ => panic!("wrong kind"),
    }
}

#[test]
fn epoch_and_other_dtos() {
    let v = vec![
        Event::EpochAdvanced { epoch: 5, transition_id: 2 },
        Event::BecameCoordinator,
        Event::CoordinatorClaim { claimant: 3 },
    ];
    let d = event_dtos(&v);
    assert_eq!(d.len(), 3);
    assert!(matches!(d[0], EventDto::EpochAdvanced { epoch: 5, transition_id: 2 }));
    assert!(matches!(d[1], EventDto::Other));
    assert!(matches!(d[2], EventDto::Other));
}

#[test]
fn gtp_reports() {
    let m = GtpMessage::plain(3, 0x10, "hello");
    let r = gtp_accept_report(&Ok(GtpAccept::New(m)));
    assert_eq!(r.status, "new");
    assert_eq!(r.sender, Some(3));
    assert_eq!(r.message_id, Some(0x10));
    assert_eq!(r.text.as_deref(), Some("hello"));
    assert!(r.reason.is_none());

    let mut bin = GtpMessage::plain(3, 0x11, "");
    bin.content = vec![0xFF, 0xFE];
    bin.content_length = 2;
    let r = gtp_accept_report(&Ok(GtpAccept::Duplicate(bin)));
    assert_eq!(r.status, "duplicate");
    assert_eq!(r.text.as_deref(), Some("<binary>"));

    let r = gtp_accept_report(&Err(GtpError::Duplicate { sender_id: 3, message_id: 0xAB }));
    assert_eq!(r.status, "error");
    assert_eq!(r.reason.as_deref(), Some("duplicate (sender=3, mid=0xAB)"));
    assert!(r.sender.is_none());
}

#[test]
fn gap_reports() {
    let p = GapPayload::opus_20ms(9, 12, 1, vec![1, 2, 3]);
    let r = gap_accept_report(&Ok(GapAccept::Late(p)));
    assert_eq!(r.status, "late");
    assert_eq!(r.source, Some(9));
    assert_eq!(r.seq, Some(12));
    assert_eq!(r.bytes, Some(3));
    let r = gap_accept_report(&Err(GapError::EpochStale { kp: 1, expected: 4 }));
    assert_eq!(r.status, "error");
    assert_eq!(r.reason.as_deref(), Some("epoch stale: kp=1, expected=4"));
}

#[test]
fn gsp_reports() {
    let a = GspAccept { signal: SignalType::Join, sender_id: 2, role_claim: 0, request_id: 77 };
    let r = gsp_accept_report(&Ok(a));
    assert_eq!(r.status, "new");
    assert_eq!(r.signal, Some("JOIN"));
    assert_eq!(r.signal_code, Some(100));
    assert_eq!(r.sender, Some(2));
    assert_eq!(r.request_id, Some(77));
    let r = gsp_accept_report(&Err(GspError::DuplicateRequest(77)));
    assert_eq!(r.reason.as_deref(), Some("duplicate request_id: 77"));
}

#[test]
fn error_messages_match_their_display_text() {
    assert_eq!(CodecError::PayloadSizeMismatch.message(), "payload_size/content_length/args_length mismatch");
    assert_eq!(CodecError::UnknownEnumValue(9).message(), "unknown enum value: 9");
    assert_eq!(CodecError::Decode("eof".to_string()).message(), "CBOR decode: eof");
    assert_eq!(
        NodeError::Codec(CodecError::PayloadSizeMismatch).message(),
        "codec: payload_size/content_length/args_length mismatch"
    );
    assert_eq!(NodeError::InvalidState("closed".to_string()).message(), "invalid state: closed");
    assert_eq!(
        GapError::RtpReplay { src: 1, seq: 2, hw: 3 }.message(),
        "rtp replay: src=1, seq=2, hw=3"
    );
    assert_eq!(GspError::UnknownSignal(5).message(), "unknown signal_type: 5");
    assert_eq!(GspError::BadSchema("role").message(), "bad args schema: role");
    assert_eq!(
        AttachmentError::ChunkOutOfRange { idx: 4, count: 2 }.message(),
        "chunk index 4 out of range (count=2)"
    );
    assert_eq!(
        AttachmentError::Incomplete { received: 1, total: 3 }.message(),
        "incomplete: 1/3 chunks received"
    );
    assert_eq!(AttachmentError::HashMismatch.message(), "integrity check failed: hash mismatch");
    assert_eq!(RoleError::UnknownRole(8).message(), "unknown role: 8");
    assert_eq!(
        RoleError::Unauthorised { member: 5, permission: 0x10 }.message(),
        "member 5 lacks permission 0x00000010"
    );
    assert_eq!(WireError::too_large(2_000_000).message(), "frame too large: 2000000 bytes (max 1048576)");
    let io = WireError::Io(std::io::Error::new(std::io::ErrorKind::Other, "boom"));
    assert_eq!(io.message(), "io: boom");
}
