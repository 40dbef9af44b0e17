use ed25519_dalek::{Signer, SigningKey, Verifier};
use vext_vault::asset::HoldKind;
use vext_vault::session::SessionState;

fn attested_session(seed: [u8; 32]) -> SessionState {
    let mut s = SessionState::new(seed);
    s.apply_connect_result(Ok("ABC123".to_string()));
    s.complete_verification();
    s.start_hold(HoldKind::Reveal);
    for _ in 0..100 {
        s.reveal_tick();
    }
    s.start_hold(HoldKind::Sign);
    for _ in 0..100 {
        s.sign_tick(1736962043, "VEXT-HEX-0.5");
    }
    s
}

#[test]
fn signature_matches_independent_recomputation() {
    let s = attested_session([0u8; 32]);
    let entry = &s.audit_log[0];

    let msg = entry.canonical_fields();
    let expected = format!(
        "{{\"nonce\":\"{}\",\"timestamp_utc\":1736962043,\"wallet_pubkey\":\"ABC123\",\"hold_duration_ms\":1500,\"asset\":\"SOL\",\"biometric_proof\":\"BIO-ATTESTED\"}}",
        entry.nonce
    );
    assert_eq!(msg, expected);

    // recompute the signature directly with the signature crate
    let key = SigningKey::from_bytes(&[0u8; 32]);
    let sig = key.sign(msg.as_bytes());
    assert_eq!(hex::encode(sig.to_bytes()), entry.signature);

    // and verify the recorded signature directly with the signature crate
    let decoded = hex::decode(&entry.signature).unwrap();
    let parsed = ed25519_dalek::Signature::from_slice(&decoded).unwrap();
    assert!(key.verifying_key().verify(msg.as_bytes(), &parsed).is_ok());
}

#[test]
fn library_verifier_accepts_every_entry() {
    let mut s = attested_session([7u8; 32]);
    assert_eq!(s.verify_attestation(0), Some(true));
    assert_eq!(s.verify_attestation(1), None);

    s.start_hold(HoldKind::Sign);
    for _ in 0..100 {
        s.sign_tick(1736962100, "VEXT-HEX-0.6");
    }
    assert_eq!(s.audit_log.len(), 2);
    assert_eq!(s.verify_attestation(0), Some(true));
    assert_eq!(s.verify_attestation(1), Some(true));
}

#[test]
fn library_verifier_rejects_tampering() {
    let mut s = attested_session([0u8; 32]);

    // flip the recorded timestamp: the signature no longer covers the fields
    s.audit_log[0].timestamp_utc += 1;
    assert_eq!(s.verify_attestation(0), Some(false));
    s.audit_log[0].timestamp_utc -= 1;
    assert_eq!(s.verify_attestation(0), Some(true));

    // corrupt the signature itself
    let good = s.audit_log[0].signature.clone();
    let flipped = if good.as_bytes()[0] == b'0' { "1" } else { "0" };
    s.audit_log[0].signature = format!("{}{}", flipped, &good[1..]);
    assert_eq!(s.verify_attestation(0), Some(false));

    // a signature that is not even hex
    s.audit_log[0].signature = "zz".to_string();
    assert_eq!(s.verify_attestation(0), Some(false));
}

#[test]
fn signature_depends_on_the_key() {
    let a = attested_session([0u8; 32]);
    let b = attested_session([1u8; 32]);
    // same canonical field shapes, different keys: the signatures must differ
    assert_ne!(a.audit_log[0].signature, b.audit_log[0].signature);
    assert_eq!(a.verify_attestation(0), Some(true));
    assert_eq!(b.verify_attestation(0), Some(true));
}

#[test]
fn nonce_shape_and_uniqueness() {
    let mut s = attested_session([0u8; 32]);
    s.start_hold(HoldKind::Sign);
    for _ in 0..100 {
        s.sign_tick(2, "e");
    }
    assert_eq!(s.audit_log.len(), 2);
    for entry in &s.audit_log {
        assert_eq!(entry.nonce.len(), 36);
        assert!(entry.nonce.chars().all(|c| c == '-' || c.is_ascii_hexdigit()));
    }
    assert_ne!(s.audit_log[0].nonce, s.audit_log[1].nonce);
}

#[test]
fn signature_is_lowercase_hex() {
    let s = attested_session([0u8; 32]);
    let sig = &s.audit_log[0].signature;
    assert_eq!(sig.len(), 128);
    assert!(sig.chars().all(|c| c.is_ascii_digit() || ('a'..='f').contains(&c)));
}
