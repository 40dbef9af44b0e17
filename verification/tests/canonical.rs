use vext_vault::asset::Asset;
use vext_vault::canon::canonical_message;
use vext_vault::errors::AttestError;

#[test]
fn canonical_message_exact_form() {
    let msg = canonical_message("abc", 0, "PK", 1500, "BTC", "x");
    assert_eq!(
        msg,
        "{\"nonce\":\"abc\",\"timestamp_utc\":0,\"wallet_pubkey\":\"PK\",\"hold_duration_ms\":1500,\"asset\":\"BTC\",\"biometric_proof\":\"x\"}"
    );
}

#[test]
fn canonical_message_largest_timestamp() {
    let msg = canonical_message("n", 18446744073709551615, "k", 18446744073709551615, "SOL", "p");
    assert_eq!(
        msg,
        "{\"nonce\":\"n\",\"timestamp_utc\":18446744073709551615,\"wallet_pubkey\":\"k\",\"hold_duration_ms\":18446744073709551615,\"asset\":\"SOL\",\"biometric_proof\":\"p\"}"
    );
}

#[test]
fn canonical_message_escapes_strings() {
    let msg = canonical_message("a\"b", 7, "c\\d", 1500, "e\nf", "g\u{1f}h");
    assert_eq!(
        msg,
        "{\"nonce\":\"a\\\"b\",\"timestamp_utc\":7,\"wallet_pubkey\":\"c\\\\d\",\"hold_duration_ms\":1500,\"asset\":\"e\\u000af\",\"biometric_proof\":\"g\\u001fh\"}"
    );
}

#[test]
fn canonical_message_empty_strings() {
    let msg = canonical_message("", 1, "", 2, "", "");
    assert_eq!(
        msg,
        "{\"nonce\":\"\",\"timestamp_utc\":1,\"wallet_pubkey\":\"\",\"hold_duration_ms\":2,\"asset\":\"\",\"biometric_proof\":\"\"}"
    );
}

#[test]
fn canonical_message_is_valid_json() {
    let msg = canonical_message("a\"b\\c\td", 1736962043, "ABC123", 1500, "SOL", "BIO-ATTESTED");
    let v: serde_json::Value = serde_json::from_str(&msg).unwrap();
    assert_eq!(v.get("nonce").unwrap().as_str().unwrap(), "a\"b\\c\td");
    assert_eq!(v.get("timestamp_utc").unwrap().as_u64().unwrap(), 1736962043);
    assert_eq!(v.get("wallet_pubkey").unwrap().as_str().unwrap(), "ABC123");
    assert_eq!(v.get("hold_duration_ms").unwrap().as_u64().unwrap(), 1500);
    assert_eq!(v.get("asset").unwrap().as_str().unwrap(), "SOL");
    assert_eq!(v.get("biometric_proof").unwrap().as_str().unwrap(), "BIO-ATTESTED");
}

#[test]
fn asset_symbols() {
    assert_eq!(Asset::BTC.symbol(), "BTC");
    assert_eq!(Asset::ETH.symbol(), "ETH");
    assert_eq!(Asset::SOL.symbol(), "SOL");
}

#[test]
fn error_texts() {
    assert_eq!(AttestError::ProviderAbsent.text(), "provider absent");
    assert_eq!(AttestError::UserRejected.text(), "user rejected");
    assert_eq!(AttestError::SigningRejected.text(), "signing rejected");
    assert_eq!(AttestError::SigningFailed.text(), "signing failed");
}
