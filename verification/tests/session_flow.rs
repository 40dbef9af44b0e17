use vext_vault::asset::{Asset, HoldKind};
use vext_vault::errors::AttestError;
use vext_vault::session::SessionState;

fn fresh_session() -> SessionState {
    SessionState::new([0u8; 32])
}

fn linked_and_verified() -> SessionState {
    let mut s = fresh_session();
    s.apply_connect_result(Ok("ABC123".to_string()));
    s.complete_verification();
    s
}

fn revealed_session() -> SessionState {
    let mut s = linked_and_verified();
    s.start_hold(HoldKind::Reveal);
    for _ in 0..100 {
        s.reveal_tick();
    }
    s
}

#[test]
fn full_happy_path() {
    let mut s = fresh_session();
    assert!(!s.identity_linked);
    assert!(!s.verified);
    assert!(!s.revealed);
    assert!(!s.attested);

    s.apply_connect_result(Ok("ABC123".to_string()));
    assert!(s.identity_linked);
    assert_eq!(s.identity_handle, "ABC123");

    s.complete_verification();
    assert!(s.verified);

    s.start_hold(HoldKind::Reveal);
    assert!(s.holding_reveal);
    for _ in 0..100 {
        s.reveal_tick();
    }
    assert!(s.revealed);
    assert_eq!(s.reveal_progress, 0);

    s.start_hold(HoldKind::Sign);
    assert!(s.holding_sign);
    for _ in 0..100 {
        s.sign_tick(1736962043, "VEXT-HEX-0.5");
    }
    assert_eq!(s.audit_log.len(), 1);
    assert!(s.attested);
    assert_eq!(s.sign_progress, 0);
    assert!(!s.holding_sign);

    let entry = &s.audit_log[0];
    assert_eq!(entry.asset_symbol, "SOL");
    assert_eq!(entry.wallet_pubkey, "ABC123");
    assert_eq!(entry.biometric_proof, "BIO-ATTESTED");
    assert_eq!(entry.hold_duration_ms, 1500);
    assert_eq!(entry.timestamp_utc, 1736962043);
    assert_eq!(entry.entropy_hash, "VEXT-HEX-0.5");
    assert_eq!(entry.nonce.len(), 36);
    assert_eq!(entry.signature.len(), 128);
}

#[test]
fn reveal_interrupted_at_tick_42() {
    let mut s = linked_and_verified();
    s.start_hold(HoldKind::Reveal);
    for _ in 0..42 {
        s.reveal_tick();
    }
    assert_eq!(s.reveal_progress, 42);
    s.release_hold(HoldKind::Reveal);
    assert_eq!(s.reveal_progress, 0);
    assert!(!s.revealed);
    assert_eq!(s.audit_log.len(), 0);
}

#[test]
fn connect_rejected_keeps_session_locked() {
    let mut s = fresh_session();
    s.apply_connect_result(Err(AttestError::UserRejected));
    assert!(!s.identity_linked);
    assert_eq!(s.identity_handle, "");
    assert_eq!(s.last_error, Some(AttestError::UserRejected));

    s.start_hold(HoldKind::Sign);
    assert!(!s.holding_sign);
    for _ in 0..100 {
        s.sign_tick(0, "");
    }
    assert_eq!(s.sign_progress, 0);
    assert_eq!(s.audit_log.len(), 0);
    assert!(!s.attested);
}

#[test]
fn provider_absent_is_surfaced() {
    let mut s = fresh_session();
    s.apply_connect_result(Err(AttestError::ProviderAbsent));
    assert_eq!(s.last_error, Some(AttestError::ProviderAbsent));
    assert!(!s.identity_linked);
}

#[test]
fn sign_hold_guard_enforced_before_reveal() {
    let mut s = linked_and_verified();
    assert!(!s.revealed);
    s.start_hold(HoldKind::Sign);
    assert!(!s.holding_sign);
    assert_eq!(s.sign_progress, 0);
    s.sign_tick(7, "e");
    assert_eq!(s.sign_progress, 0);
    assert_eq!(s.audit_log.len(), 0);
}

#[test]
fn reveal_hold_guard_enforced_before_verification() {
    let mut s = fresh_session();
    s.apply_connect_result(Ok("ABC123".to_string()));
    s.start_hold(HoldKind::Reveal);
    assert!(!s.holding_reveal);
    for _ in 0..100 {
        s.reveal_tick();
    }
    assert!(!s.revealed);
    assert_eq!(s.reveal_progress, 0);
}

#[test]
fn verification_out_of_sequence_is_noop() {
    let mut s = fresh_session();
    s.complete_verification();
    assert!(!s.verified);
}

#[test]
fn revealed_once_despite_failed_attempts() {
    let mut s = linked_and_verified();

    // a failed attempt: interrupted ramp
    s.start_hold(HoldKind::Reveal);
    for _ in 0..50 {
        s.reveal_tick();
    }
    s.release_hold(HoldKind::Reveal);
    assert!(!s.revealed);
    assert_eq!(s.reveal_progress, 0);

    // ticks without a hold in flight do nothing
    s.reveal_tick();
    assert_eq!(s.reveal_progress, 0);

    // a completed hold reveals
    s.start_hold(HoldKind::Reveal);
    for _ in 0..100 {
        s.reveal_tick();
    }
    assert!(s.revealed);

    // a further completed hold keeps it revealed
    s.start_hold(HoldKind::Reveal);
    for _ in 0..100 {
        s.reveal_tick();
    }
    assert!(s.revealed);
}

#[test]
fn start_hold_is_idempotent_while_holding() {
    let mut s = linked_and_verified();
    s.start_hold(HoldKind::Reveal);
    for _ in 0..30 {
        s.reveal_tick();
    }
    s.start_hold(HoldKind::Reveal);
    assert_eq!(s.reveal_progress, 30);
}

#[test]
fn holds_are_independent() {
    let mut s = revealed_session();
    s.start_hold(HoldKind::Sign);
    for _ in 0..10 {
        s.sign_tick(1, "e");
    }
    assert_eq!(s.sign_progress, 10);
    s.release_hold(HoldKind::Reveal);
    assert_eq!(s.sign_progress, 10);
    assert!(s.holding_sign);
    s.release_hold(HoldKind::Sign);
    assert_eq!(s.sign_progress, 0);
    assert!(!s.holding_sign);
}

#[test]
fn sign_interrupted_appends_nothing() {
    let mut s = revealed_session();
    s.start_hold(HoldKind::Sign);
    for _ in 0..99 {
        s.sign_tick(1, "e");
    }
    assert_eq!(s.sign_progress, 99);
    s.release_hold(HoldKind::Sign);
    assert_eq!(s.sign_progress, 0);
    assert_eq!(s.audit_log.len(), 0);
    assert!(!s.attested);
}

#[test]
fn stale_connect_resolution_is_ignored() {
    let mut s = fresh_session();
    s.apply_connect_result(Ok("ABC123".to_string()));
    s.apply_connect_result(Ok("OTHER".to_string()));
    assert_eq!(s.identity_handle, "ABC123");
    s.apply_connect_result(Err(AttestError::ProviderAbsent));
    assert_eq!(s.last_error, None);
    assert!(s.identity_linked);
}

#[test]
fn two_attestations_in_one_session() {
    let mut s = revealed_session();

    s.start_hold(HoldKind::Sign);
    for _ in 0..100 {
        s.sign_tick(100, "e1");
    }
    assert_eq!(s.audit_log.len(), 1);
    assert!(s.attested);

    s.dismiss_attestation();
    assert!(!s.attested);
    assert_eq!(s.audit_log.len(), 1);

    // the session re-arms to revealed: another sign hold is legal
    s.select_asset(Asset::BTC);
    s.start_hold(HoldKind::Sign);
    assert!(s.holding_sign);
    for _ in 0..100 {
        s.sign_tick(200, "e2");
    }
    assert_eq!(s.audit_log.len(), 2);
    assert!(s.attested);

    assert_eq!(s.audit_log[0].asset_symbol, "SOL");
    assert_eq!(s.audit_log[1].asset_symbol, "BTC");
    assert_eq!(s.audit_log[0].timestamp_utc, 100);
    assert_eq!(s.audit_log[1].timestamp_utc, 200);
    // nonce uniqueness across the log
    assert_ne!(s.audit_log[0].nonce, s.audit_log[1].nonce);
}

#[test]
fn asset_selection_is_recorded() {
    let mut s = fresh_session();
    assert!(matches!(s.asset, Asset::SOL));
    s.select_asset(Asset::ETH);
    assert!(matches!(s.asset, Asset::ETH));
}
