use gbp_stack::sframe::cipher::SFrameEncryptor;
use gbp_stack::sframe::error::SFrameError;
use gbp_stack::sframe::header::SFrameHeader;
use gbp_stack::sframe::kdf::{epoch_context, CipherSuite};
use gbp_stack::sframe::session::SFrameSession;

const KID: u64 = 0xabc;

fn test_session(epoch: u64) -> SFrameSession {
    SFrameSession::new([0x42u8; 32], epoch, CipherSuite::Aes128Gcm)
}

#[test]
fn kid_round_trip() {
    let epoch = 42u64;
    let leaf = 7u32;
    let kid = SFrameHeader::kid_from(epoch, leaf);
    assert_eq!(SFrameHeader::epoch_from_kid(kid), epoch);
    assert_eq!(SFrameHeader::leaf_from_kid(kid), leaf);
}

#[test]
fn kid_packs_leaf_above_epoch_bits() {
    assert_eq!(SFrameHeader::kid_from(0x1_2345, 3), 0x3_2345);
    assert_eq!(SFrameHeader::epoch_lsb(0x1_2345), 0x2345);
}

#[test]
fn last_counter_value_still_encrypts() {
    let mut enc = SFrameEncryptor::with_counter_at(&[7u8; 32], KID, CipherSuite::Aes128Gcm, u64::MAX);

    assert!(enc.encrypt(b"last frame", b"").is_ok());
}

#[test]
fn exhausted_counter_errors_instead_of_panicking() {
    let mut enc = SFrameEncryptor::with_counter_at(&[7u8; 32], KID, CipherSuite::Aes128Gcm, u64::MAX);
    enc.encrypt(b"last frame", b"").unwrap();

    assert!(matches!(
        enc.encrypt(b"one too many", b""),
        Err(SFrameError::CounterExhausted(KID))
    ));

    // Still usable, and still refusing.
    assert!(enc.encrypt(b"and another", b"").is_err());
}

#[test]
fn encrypt_decrypt_roundtrip_128() {
    let session = test_session(1);
    let mut enc = session.encryptor(0);
    let mut dec = session.decryptor();

    let frame = b"hello sframe";
    let payload = enc.encrypt(frame, b"").unwrap();
    let (plain, leaf) = dec.decrypt(&payload, b"").unwrap();
    assert_eq!(plain, frame);
    assert_eq!(leaf, 0);
}

#[test]
fn encrypt_decrypt_roundtrip_256() {
    let session = SFrameSession::new([0x11u8; 32], 5, CipherSuite::Aes256Gcm);
    let mut enc = session.encryptor(3);
    let mut dec = session.decryptor();

    let frame = b"audio payload aes256";
    let payload = enc.encrypt(frame, b"rtp-header").unwrap();
    let (plain, leaf) = dec.decrypt(&payload, b"rtp-header").unwrap();
    assert_eq!(plain, frame);
    assert_eq!(leaf, 3);
}

#[test]
fn wrong_aad_fails_decryption() {
    let session = test_session(0);
    let mut enc = session.encryptor(0);
    let mut dec = session.decryptor();

    let payload = enc.encrypt(b"data", b"correct-aad").unwrap();
    assert!(dec.decrypt(&payload, b"wrong-aad").is_err());
}

#[test]
fn replay_rejected() {
    let session = test_session(0);
    let mut enc = session.encryptor(1);
    let mut dec = session.decryptor();

    let payload = enc.encrypt(b"frame", b"").unwrap();
    dec.decrypt(&payload, b"").unwrap();
    assert!(dec.decrypt(&payload, b"").is_err());
}

#[test]
fn multi_sender() {
    let session = test_session(2);
    let mut enc0 = session.encryptor(0);
    let mut enc1 = session.encryptor(1);
    let mut dec = session.decryptor();

    let p0 = enc0.encrypt(b"from-0", b"").unwrap();
    let p1 = enc1.encrypt(b"from-1", b"").unwrap();

    let (msg0, leaf0) = dec.decrypt(&p0, b"").unwrap();
    let (msg1, leaf1) = dec.decrypt(&p1, b"").unwrap();

    assert_eq!(msg0, b"from-0");
    assert_eq!(leaf0, 0);
    assert_eq!(msg1, b"from-1");
    assert_eq!(leaf1, 1);
}

#[test]
fn epoch_mismatch_rejected() {
    let session_a = test_session(1);
    let session_b = test_session(2);

    let mut enc = session_a.encryptor(0);
    let mut dec = session_b.decryptor();

    let payload = enc.encrypt(b"stale", b"").unwrap();
    assert!(dec.decrypt(&payload, b"").is_err());
}

#[test]
fn epoch_mismatch_is_unknown_kid() {
    let mut enc = test_session(1).encryptor(0);
    let mut dec = test_session(2).decryptor();
    let payload = enc.encrypt(b"stale", b"").unwrap();
    let kid = SFrameHeader::kid_from(1, 0);
    assert!(matches!(dec.decrypt(&payload, b""), Err(SFrameError::UnknownKid(k)) if k == kid));
}

#[test]
fn replay_error_names_kid_and_counter() {
    let session = test_session(9);
    let mut enc = session.encryptor(4);
    let mut dec = session.decryptor();
    let first = enc.encrypt(b"a", b"").unwrap();
    dec.decrypt(&first, b"").unwrap();
    let kid = SFrameHeader::kid_from(9, 4);
    assert!(matches!(
        dec.decrypt(&first, b""),
        Err(SFrameError::Replay { kid: k, ctr: 0 }) if k == kid
    ));
}

#[test]
fn decryptor_reset_forgets_seen_counters() {
    let session = test_session(3);
    let mut enc = session.encryptor(2);
    let mut dec = session.decryptor();
    let payload = enc.encrypt(b"again", b"").unwrap();
    dec.decrypt(&payload, b"").unwrap();
    dec.reset();
    let (plain, leaf) = dec.decrypt(&payload, b"").unwrap();
    assert_eq!(plain, b"again");
    assert_eq!(leaf, 2);
}

#[test]
fn tampered_frame_is_decrypt_error() {
    let session = test_session(4);
    let mut enc = session.encryptor(0);
    let mut dec = session.decryptor();
    let mut payload = enc.encrypt(b"payload", b"").unwrap();
    let last = payload.len() - 1;
    payload[last] ^= 0x01;
    assert!(matches!(dec.decrypt(&payload, b""), Err(SFrameError::Decrypt)));
    // A frame that failed to decrypt is not recorded: the genuine one still opens.
    payload[last] ^= 0x01;
    assert!(dec.decrypt(&payload, b"").is_ok());
}

#[test]
fn empty_payload_is_header_error() {
    let mut dec = test_session(0).decryptor();
    assert!(matches!(dec.decrypt(b"", b""), Err(SFrameError::Header(_))));
}

#[test]
fn encryptor_counter_advances_per_frame() {
    let mut enc = test_session(0).encryptor(5);
    assert_eq!(enc.counter(), 0);
    assert_eq!(enc.kid(), SFrameHeader::kid_from(0, 5));
    enc.encrypt(b"x", b"").unwrap();
    enc.encrypt(b"y", b"").unwrap();
    assert_eq!(enc.counter(), 2);
}

#[test]
fn payload_does_not_carry_the_aad() {
    let session = test_session(6);
    let mut a = session.encryptor(1);
    let mut b = session.encryptor(1);
    let with_aad = a.encrypt(b"same", b"a long piece of associated data").unwrap();
    let without = b.encrypt(b"same", b"").unwrap();
    assert_eq!(with_aad.len(), without.len());
}

#[test]
fn session_accessors_and_suite_codes() {
    let s = SFrameSession::new([1u8; 32], 77, CipherSuite::Aes256Gcm);
    assert_eq!(s.epoch(), 77);
    assert_eq!(s.suite(), CipherSuite::Aes256Gcm);
    assert_eq!(CipherSuite::from_u8(0), Some(CipherSuite::Aes128Gcm));
    assert_eq!(CipherSuite::from_u8(1), Some(CipherSuite::Aes256Gcm));
    assert_eq!(CipherSuite::from_u8(2), None);
    assert_eq!(CipherSuite::Aes256Gcm.as_u8(), 1);
}

#[test]
fn epoch_context_is_big_endian() {
    assert_eq!(epoch_context(0x0102_0304_0506_0708), [1, 2, 3, 4, 5, 6, 7, 8]);
}

#[test]
fn sframe_error_messages() {
    assert_eq!(SFrameError::Replay { kid: 5, ctr: 9 }.message(), "replay detected: KID=5 CTR=9");
    assert_eq!(
        SFrameError::CounterExhausted(0xabc).message(),
        "counter exhausted for KID 0xabc: rotate the epoch"
    );
    assert_eq!(
        SFrameError::UnknownKid(0x10).message(),
        "unknown KID 0x10: epoch or sender not registered"
    );
    assert_eq!(SFrameError::Decrypt.message(), "AEAD decryption failed");
}
