use gbp_stack::base::CodecError;
use gbp_stack::gsp::args::validate_args;
use gbp_stack::gsp::capabilities::CapabilitiesNegotiator;
use gbp_stack::gsp::client::{GspClient, GspError};
use gbp_stack::gsp::roles::{Permissions, RoleError, RoleRegistry};
use gbp_stack::gsp::signal::GspSignal;
use gbp_stack::gsp::token_set::{insert_sorted, str_lt};
use gbp_stack::vocab::conformance::ConformanceClass;
use gbp_stack::vocab::signal::SignalType;

fn encode_bare(signal: SignalType, request_id: u32, sender_id: u32) -> Result<GspSignal, CodecError> {
    Ok(GspSignal::bare(signal.as_u32(), request_id, sender_id))
}

#[test]
fn join_adds_sender_to_members() {
    let mut c = GspClient::new();
    let accept = c.accept(encode_bare(SignalType::Join, 1, 42), 0).unwrap();
    assert_eq!(accept.signal, SignalType::Join);
    assert!(c.members.contains(&42));
}

#[test]
fn leave_removes_sender_from_members() {
    let mut c = GspClient::new();
    c.accept(encode_bare(SignalType::Join, 1, 7), 0).unwrap();
    c.accept(encode_bare(SignalType::Leave, 2, 7), 0).unwrap();
    assert!(!c.members.contains(&7));
}

#[test]
fn leave_also_removes_from_muted() {
    let mut c = GspClient::new();
    c.accept(encode_bare(SignalType::Join, 1, 5), 0).unwrap();
    c.muted.insert(5);
    c.accept(encode_bare(SignalType::Leave, 2, 5), 0).unwrap();
    assert!(!c.muted.contains(&5));
}

#[test]
fn duplicate_request_id_is_rejected() {
    let mut c = GspClient::new();
    c.accept(encode_bare(SignalType::Join, 99, 1), 0).unwrap();
    let result = c.accept(encode_bare(SignalType::Leave, 99, 1), 0);
    assert!(matches!(result, Err(GspError::DuplicateRequest(99))));
}

#[test]
fn epoch_advance_clears_request_seen_set() {
    let mut c = GspClient::new();
    c.accept(encode_bare(SignalType::Join, 1, 10), 0).unwrap();
    let result = c.accept(encode_bare(SignalType::Leave, 1, 10), 1);
    assert!(result.is_ok());
}

#[test]
fn reset_clears_state() {
    let mut c = GspClient::new();
    c.accept(encode_bare(SignalType::Join, 1, 3), 0).unwrap();
    c.reset();
    c.accept(encode_bare(SignalType::Join, 1, 4), 0).unwrap();
    assert!(c.members.contains(&3) && c.members.contains(&4));
}

#[test]
fn unknown_signal_type_rejected() {
    let mut c = GspClient::new();
    let bad = Ok(GspSignal::bare(999, 1, 1));
    assert!(matches!(c.accept(bad, 0), Err(GspError::UnknownSignal(999))));
}

#[test]
fn invalid_cbor_returns_decode_error() {
    let mut c = GspClient::new();
    let r = c.accept(Err(CodecError::Decode("unexpected byte 0xff".into())), 0);
    assert!(matches!(r, Err(GspError::Decode(_))));
}

#[test]
fn multiple_members_join_independently() {
    let mut c = GspClient::new();
    c.accept(encode_bare(SignalType::Join, 1, 10), 0).unwrap();
    c.accept(encode_bare(SignalType::Join, 2, 20), 0).unwrap();
    c.accept(encode_bare(SignalType::Join, 3, 30), 0).unwrap();
    assert_eq!(c.members.len(), 3);
    assert!(c.members.contains(&10));
    assert!(c.members.contains(&20));
    assert!(c.members.contains(&30));
}

#[test]
fn mute_without_args_is_bad_schema() {
    let mut c = GspClient::new();
    let r = c.accept(encode_bare(SignalType::Mute, 1, 10), 0);
    assert!(matches!(r, Err(GspError::BadSchema("MUTE/UNMUTE: args must be a CBOR map"))));
}

#[test]
fn mute_with_target_mutes_sender() {
    let mut c = GspClient::new();
    let args = cbor_map(&[(0, 7)]);
    let s = GspSignal::with_args(SignalType::Mute.as_u32(), 1, 10, 0, &args);
    c.accept(Ok(s), 0).unwrap();
    assert!(c.muted.contains(&10));
    let u = GspSignal::with_args(SignalType::Unmute.as_u32(), 2, 10, 0, &args);
    c.accept(Ok(u), 0).unwrap();
    assert!(!c.muted.contains(&10));
}

#[test]
fn args_length_mismatch_rejected() {
    let mut c = GspClient::new();
    let mut s = GspSignal::bare(SignalType::Join.as_u32(), 1, 1);
    s.args_length = 4;
    assert!(matches!(c.accept(Ok(s), 0), Err(GspError::Decode(CodecError::PayloadSizeMismatch))));
}

fn cbor_map(pairs: &[(u64, u64)]) -> Vec<u8> {
    let map: Vec<(ciborium::Value, ciborium::Value)> = pairs
        .iter()
        .map(|(k, v)| (ciborium::Value::Integer((*k).into()), ciborium::Value::Integer((*v).into())))
        .collect();
    let mut buf = Vec::new();
    ciborium::into_writer(&ciborium::Value::Map(map), &mut buf).unwrap();
    buf
}

#[test]
fn join_leave_accept_empty_args() {
    assert!(validate_args(SignalType::Join, &[]).is_ok());
    assert!(validate_args(SignalType::Leave, &[]).is_ok());
}

#[test]
fn role_change_valid() {
    let args = cbor_map(&[(0, 42), (1, 2)]);
    assert!(validate_args(SignalType::RoleChange, &args).is_ok());
}

#[test]
fn role_change_missing_key_1() {
    let args = cbor_map(&[(0, 42)]);
    assert_eq!(
        validate_args(SignalType::RoleChange, &args),
        Err("ROLE_CHANGE: missing key 1 (new_role)")
    );
}

#[test]
fn role_change_empty_args_rejected() {
    assert!(validate_args(SignalType::RoleChange, &[]).is_err());
}

#[test]
fn mute_valid() {
    let args = cbor_map(&[(0, 7)]);
    assert!(validate_args(SignalType::Mute, &args).is_ok());
    assert!(validate_args(SignalType::Unmute, &args).is_ok());
}

#[test]
fn mute_missing_target() {
    let args = cbor_map(&[(1, 99)]);
    assert_eq!(
        validate_args(SignalType::Mute, &args),
        Err("MUTE/UNMUTE: missing key 0 (target_member_id)")
    );
}

#[test]
fn stream_start_stop_valid() {
    let args = cbor_map(&[(0, 1)]);
    assert!(validate_args(SignalType::StreamStart, &args).is_ok());
    assert!(validate_args(SignalType::StreamStop, &args).is_ok());
}

#[test]
fn stream_start_missing_stream_type() {
    assert!(validate_args(SignalType::StreamStart, &[]).is_err());
}

#[test]
fn codec_update_valid() {
    let args = cbor_map(&[(0, 1)]);
    assert!(validate_args(SignalType::CodecUpdate, &args).is_ok());
}

#[test]
fn codec_update_missing_codec_id() {
    assert!(validate_args(SignalType::CodecUpdate, &[]).is_err());
}

#[test]
fn non_map_and_non_uint_values_are_refused() {
    let mut buf = Vec::new();
    ciborium::into_writer(&ciborium::Value::Integer(5u64.into()), &mut buf).unwrap();
    assert_eq!(validate_args(SignalType::Mute, &buf), Err("MUTE/UNMUTE: args must be a CBOR map"));
    let text_value = ciborium::Value::Map(vec![(
        ciborium::Value::Integer(0u64.into()),
        ciborium::Value::Text("seven".into()),
    )]);
    let mut buf2 = Vec::new();
    ciborium::into_writer(&text_value, &mut buf2).unwrap();
    assert_eq!(
        validate_args(SignalType::Mute, &buf2),
        Err("MUTE/UNMUTE: missing key 0 (target_member_id)")
    );
    assert_eq!(
        validate_args(SignalType::CodecUpdate, &[0xFF, 0xFF]),
        Err("CODEC_UPDATE: args must be a CBOR map")
    );
}

#[test]
fn permissions_and_require() {
    let mut r = RoleRegistry::new();
    r.define_role(1, "viewer", Permissions::default());
    r.define_role(10, "speaker", Permissions::default() | Permissions::SEND_TEXT | Permissions::SEND_AUDIO);
    r.define_role(
        100,
        "admin",
        Permissions::default()
            | Permissions::SEND_TEXT
            | Permissions::SEND_AUDIO
            | Permissions::MUTE_OTHERS
            | Permissions::ASSIGN_ROLES,
    );
    r.assign(2, 10).unwrap();
    r.assign(3, 100).unwrap();
    assert!(r.require(2, Permissions::SEND_TEXT).is_ok());
    assert!(r.require(2, Permissions::MUTE_OTHERS).is_err());
    assert!(r.require(3, Permissions::MUTE_OTHERS).is_ok());
}

#[test]
fn unknown_role_rejected() {
    let mut r = RoleRegistry::new();
    let err = r.assign(1, 42).unwrap_err();
    assert!(matches!(err, RoleError::UnknownRole(42)));
}

#[test]
fn permission_bit_helpers() {
    let p = Permissions(0).with(Permissions::INVITE | Permissions::CLOSE_GROUP);
    assert!(p.has(Permissions::INVITE));
    assert!(p.has(Permissions::INVITE | Permissions::CLOSE_GROUP));
    assert!(!p.has(Permissions::INVITE | Permissions::SEND_TEXT));
    assert_eq!(p.without(Permissions::INVITE), Permissions(Permissions::CLOSE_GROUP));
    let mut r = RoleRegistry::new();
    assert_eq!(r.permissions_of(4), Permissions(0));
    assert!(matches!(r.require(4, 1), Err(RoleError::Unauthorised { member: 4, permission: 1 })));
    r.define_role(5, "mod", p);
    r.assign(4, 5).unwrap();
    assert_eq!(r.role_of(4).unwrap().name, "mod");
    assert_eq!(r.roles().len(), 1);
    assert!(r.role(6).is_none());
}

#[test]
fn intersection_is_lowest_common() {
    let mut n = CapabilitiesNegotiator::new();
    n.advertise(1, &["opus", "fec", "h264"]);
    n.advertise(2, &["opus", "fec"]);
    n.advertise(3, &["opus", "av1"]);
    let common = n.intersection();
    assert!(common.iter().any(|c| c == "opus"));
    assert!(!common.iter().any(|c| c == "fec"));
    assert!(!common.iter().any(|c| c == "h264"));
    assert_eq!(n.missing("fec"), vec![3]);
}

#[test]
fn declare_class_inserts_tokens() {
    let mut n = CapabilitiesNegotiator::new();
    n.declare_class(1, ConformanceClass::C);
    assert!(n.group_supports(ConformanceClass::TOKEN_A));
    assert!(n.group_supports(ConformanceClass::TOKEN_B));
    assert!(n.group_supports(ConformanceClass::TOKEN_C));
}

#[test]
fn group_class_returns_minimum() {
    let mut n = CapabilitiesNegotiator::new();
    n.declare_class(1, ConformanceClass::C);
    n.declare_class(2, ConformanceClass::B);
    n.declare_class(3, ConformanceClass::A);
    assert_eq!(n.group_class(), Some(ConformanceClass::A));
}

#[test]
fn group_class_none_when_member_missing_tokens() {
    let mut n = CapabilitiesNegotiator::new();
    n.declare_class(1, ConformanceClass::B);
    n.advertise(2, &["opus"]);
    assert_eq!(n.group_class(), None);
}

#[test]
fn group_class_none_when_empty() {
    let n = CapabilitiesNegotiator::new();
    assert_eq!(n.group_class(), None);
}

#[test]
fn group_supports_requires_everyone() {
    let mut n = CapabilitiesNegotiator::new();
    n.advertise(1, &["opus"]);
    n.advertise(2, &["opus"]);
    assert!(n.group_supports("opus"));
    n.advertise(3, &[]);
    assert!(!n.group_supports("opus"));
}

#[test]
fn union_forget_and_reset() {
    let mut n = CapabilitiesNegotiator::new();
    n.advertise(1, &["opus", "opus", "fec"]);
    n.advertise(2, &["av1", "opus"]);
    assert_eq!(n.capabilities_of(1).unwrap().len(), 2);
    assert_eq!(n.union(), vec!["av1".to_string(), "fec".to_string(), "opus".to_string()]);
    n.forget(1);
    assert_eq!(n.len(), 1);
    assert!(n.capabilities_of(1).is_none());
    n.declare_class(2, ConformanceClass::A);
    assert_eq!(n.group_class(), Some(ConformanceClass::A));
    n.reset_for_epoch();
    assert!(n.is_empty());
    assert!(!n.group_supports("opus"));
}

#[test]
fn advertisements_are_ordered_sets() {
    let mut n = CapabilitiesNegotiator::new();
    n.advertise(1, &["opus", "fec", "h264", "fec"]);
    n.advertise(2, &["vp9", "h264", "opus", "fec", "av1"]);
    assert_eq!(n.capabilities_of(1).unwrap(), &vec!["fec".to_string(), "h264".to_string(), "opus".to_string()]);
    assert_eq!(n.intersection(), vec!["fec".to_string(), "h264".to_string(), "opus".to_string()]);
    assert_eq!(
        n.union(),
        vec!["av1".to_string(), "fec".to_string(), "h264".to_string(), "opus".to_string(), "vp9".to_string()]
    );
}

#[test]
fn token_order_is_the_order_of_str() {
    assert!(str_lt("a", "b"));
    assert!(str_lt("ab", "b"));
    assert!(str_lt("", "a"));
    assert!(!str_lt("a", "a"));
    assert!(str_lt("Z", "a"));
    assert!(str_lt("z", "\u{e9}"));
    let mut v: Vec<String> = Vec::new();
    for t in ["opus", "\u{e9}t\u{e9}", "Opus", "op", "opus"] {
        insert_sorted(&mut v, t);
    }
    let mut expected: Vec<String> = ["opus", "\u{e9}t\u{e9}", "Opus", "op"].iter().map(|s| s.to_string()).collect();
    expected.sort();
    assert_eq!(v, expected);
}
