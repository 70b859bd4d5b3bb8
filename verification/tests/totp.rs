//! TOTP derivation and window verification against the published RFC 6238
//! SHA-1 test vectors and concrete skew scenarios.

use mfa_core::totp::{derive_code, verify_window};
use mfa_core::{MfaConfig, MfaService};

fn rfc_key() -> Vec<u8> {
    b"12345678901234567890".to_vec()
}

// Base32 (RFC 4648, no padding) of the RFC 6238 SHA-1 test key.
const RFC_KEY_B32: &str = "GEZDGNBVGY3TQOJQGEZDGNBVGY3TQOJQ";

#[test]
fn rfc6238_sha1_vectors_eight_digits() {
    let key = rfc_key();
    // (unix time, expected 8-digit code), step 30
    let cases: [(u64, &str); 6] = [
        (59, "94287082"),
        (1111111109, "07081804"),
        (1111111111, "14050471"),
        (1234567890, "89005924"),
        (2000000000, "69279037"),
        (20000000000, "65353130"),
    ];
    for (t, expected) in cases {
        let code = derive_code(&key, t / 30, 8);
        assert_eq!(code, *expected);
    }
}

#[test]
fn rfc6238_sha1_vector_six_digits() {
    let key = rfc_key();
    assert_eq!(derive_code(&key, 59 / 30, 6), "287082");
}

#[test]
fn derive_code_is_deterministic() {
    let key = rfc_key();
    assert_eq!(derive_code(&key, 12345, 6), derive_code(&key, 12345, 6));
}

#[test]
fn derive_code_zero_pads_to_length() {
    let key = rfc_key();
    for counter in 0..50 {
        let code = derive_code(&key, counter, 6);
        assert_eq!(code.len(), 6);
        assert!(code.chars().all(|c| c.is_ascii_digit()));
    }
}

#[test]
fn window_accepts_one_step_slow_client() {
    let key = rfc_key();
    let now: u64 = 30 * 1000 + 15;
    let current = now / 30;
    let slow = derive_code(&key, current - 1, 6);
    assert!(verify_window(&key, &slow, now, 30, 1, 6));
}

#[test]
fn window_rejects_two_steps_slow_client() {
    let key = rfc_key();
    let now: u64 = 30 * 1000 + 15;
    let current = now / 30;
    let too_slow = derive_code(&key, current - 2, 6);
    assert!(!verify_window(&key, &too_slow, now, 30, 1, 6));
}

#[test]
fn window_covers_current_and_one_step_fast() {
    let key = rfc_key();
    let now: u64 = 30 * 1000 + 15;
    let current = now / 30;
    assert!(verify_window(&key, &derive_code(&key, current, 6), now, 30, 1, 6));
    assert!(verify_window(&key, &derive_code(&key, current + 1, 6), now, 30, 1, 6));
    assert!(!verify_window(&key, &derive_code(&key, current + 2, 6), now, 30, 1, 6));
}

#[test]
fn zero_skew_accepts_only_current_counter() {
    let key = rfc_key();
    let now: u64 = 30 * 1000 + 15;
    let current = now / 30;
    assert!(verify_window(&key, &derive_code(&key, current, 6), now, 30, 0, 6));
    assert!(!verify_window(&key, &derive_code(&key, current - 1, 6), now, 30, 0, 6));
    assert!(!verify_window(&key, &derive_code(&key, current + 1, 6), now, 30, 0, 6));
}

#[test]
fn window_clamps_at_counter_zero() {
    let key = rfc_key();
    // at instant 0 the window cannot reach below counter 0
    assert!(verify_window(&key, &derive_code(&key, 0, 6), 0, 30, 1, 6));
    assert!(verify_window(&key, &derive_code(&key, 1, 6), 0, 30, 1, 6));
    assert!(!verify_window(&key, &derive_code(&key, 2, 6), 0, 30, 1, 6));
}

#[test]
fn service_verifies_code_within_window() {
    let service = MfaService::new(MfaConfig::default());
    let key = rfc_key();
    let now: u64 = 59;
    let code = derive_code(&key, now / 30, 6);
    assert_eq!(service.verify_totp_code_at(RFC_KEY_B32, &code, now).unwrap(), true);
}

#[test]
fn service_rejects_code_outside_window() {
    let service = MfaService::new(MfaConfig::default());
    let key = rfc_key();
    let now: u64 = 30 * 1000 + 15;
    let too_old = derive_code(&key, now / 30 - 2, 6);
    assert_eq!(service.verify_totp_code_at(RFC_KEY_B32, &too_old, now).unwrap(), false);
}

#[test]
fn malformed_secret_fails_distinctly_from_mismatch() {
    let service = MfaService::new(MfaConfig::default());
    // not base32: fails with the malformed-code error, not a false verdict
    let malformed = service.verify_totp_code_at("!!!not-base32!!!", "123456", 59);
    assert!(matches!(malformed, Err(mfa_core::MfaError::InvalidCode)));
    // well-formed but wrong code: a plain false verdict, no error
    let mismatch = service.verify_totp_code_at(RFC_KEY_B32, "000001", 59);
    assert_eq!(mismatch.unwrap(), false);
}

#[test]
fn undersized_secret_fails_as_setup_error() {
    let service = MfaService::new(MfaConfig::default());
    // "GEZDGNBV" decodes to the five bytes "12345": under 128 bits
    let r = service.verify_totp_code_at("GEZDGNBV", "123456", 59);
    assert!(matches!(r, Err(mfa_core::MfaError::SetupFailed)));
}

#[test]
fn clock_based_verification_accepts_fresh_code() {
    let service = MfaService::new(MfaConfig::default());
    let key = rfc_key();
    let now = std::time::SystemTime::now()
        .duration_since(std::time::UNIX_EPOCH)
        .unwrap()
        .as_secs();
    let code = derive_code(&key, now / 30, 6);
    assert_eq!(service.verify_totp_code(RFC_KEY_B32, &code).unwrap(), true);
}
