//! Backup codes, enrollment material, and the store-verdict decisions.

use mfa_core::codec::svg_data_url;
use mfa_core::enroll::{resolve_delete, resolve_pending_secret, resolve_setup_write, PendingLookup};
use mfa_core::{BackupCodeGenerator, MfaConfig, MfaError, MfaService};
use std::collections::HashMap;

#[test]
fn config_defaults() {
    let c = MfaConfig::default();
    assert_eq!(c.product_id, "novaskyn");
    assert_eq!(c.totp_algorithm, "SHA1");
    assert_eq!(c.totp_digits, 6);
    assert_eq!(c.totp_step, 30);
    assert_eq!(c.totp_skew, 1);
    assert_eq!(c.backup_code_count, 10);
    assert_eq!(c.backup_code_length, 8);
    assert_eq!(c.setup_secret_ttl, 600);
}

#[test]
fn backup_codes_have_count_and_length() {
    let service = MfaService::new(MfaConfig::default());
    let codes = service.generate_backup_codes();
    assert_eq!(codes.len(), 10);
    for code in &codes {
        assert_eq!(code.len(), 8);
        assert!(code.chars().all(|c| c.is_ascii_digit()));
    }
}

#[test]
fn backup_code_batches_differ() {
    let generator = BackupCodeGenerator::new(8, 10);
    let first = generator.generate();
    let second = generator.generate();
    assert_ne!(first, second);
}

#[test]
fn backup_code_validation_is_exact() {
    let service = MfaService::new(MfaConfig::default());
    let codes = vec!["12345678".to_string(), "87654321".to_string()];
    assert!(service.verify_backup_code("12345678", &codes));
    assert!(service.verify_backup_code("87654321", &codes));
    // near-matches: partial, whitespace-padded, and absent codes all fail
    assert!(!service.verify_backup_code("1234567", &codes));
    assert!(!service.verify_backup_code("12345678 ", &codes));
    assert!(!service.verify_backup_code(" 12345678", &codes));
    assert!(!service.verify_backup_code("12345679", &codes));
}

#[test]
fn literal_zeros_absent_from_set_is_invalid() {
    let service = MfaService::new(MfaConfig::default());
    let codes = vec!["12345678".to_string()];
    assert!(!service.verify_backup_code("00000000", &codes));
}

#[test]
fn generated_secret_is_base32_of_twenty_bytes() {
    let service = MfaService::new(MfaConfig::default());
    let secret = service.generate_secret();
    // 20 bytes encode to 32 base32 characters without padding
    assert_eq!(secret.len(), 32);
    let decoded = totp_rs::Secret::Encoded(secret.clone()).to_bytes().unwrap();
    assert_eq!(decoded.len(), 20);
}

#[test]
fn setup_key_shape() {
    let service = MfaService::new(MfaConfig::default());
    let key = service.mfa_setup_key("2c18f486-0e49-4e69-ae6a-034b4f27bfd7");
    assert_eq!(key, "novaskyn:auth:mfa_setup:2c18f486-0e49-4e69-ae6a-034b4f27bfd7");
}

#[test]
fn enrollment_round_trip_through_store() {
    let service = MfaService::new(MfaConfig::default());
    let material = service
        .setup_totp_material("user-1", "user@example.com")
        .unwrap();
    assert_eq!(material.key, "novaskyn:auth:mfa_setup:user-1");
    assert_eq!(material.ttl_seconds, 600);

    // the provisioning URI embeds issuer, label, and the secret's encoding
    let expected_uri = format!(
        "otpauth://totp/novaskyn:user@example.com?secret={}&issuer=novaskyn",
        material.secret
    );
    assert_eq!(material.uri, expected_uri);

    // a faithful store hands back exactly what was put in
    let mut store: HashMap<String, String> = HashMap::new();
    store.insert(material.key.clone(), material.secret.clone());
    let fetched = store.get(&material.key).cloned().unwrap();
    let got = resolve_pending_secret(PendingLookup::Found(fetched)).unwrap();
    assert_eq!(got, material.secret);
}

#[test]
fn enrollment_image_is_svg_data_url() {
    let service = MfaService::new(MfaConfig::default());
    let material = service
        .setup_totp_material("user-1", "user@example.com")
        .unwrap();
    let prefix = "data:image/svg+xml;base64,";
    assert!(material.qr_data_url.starts_with(prefix));
    let body = &material.qr_data_url[prefix.len()..];
    let svg = base64::Engine::decode(&base64::engine::general_purpose::STANDARD, body).unwrap();
    let svg = String::from_utf8(svg).unwrap();
    assert!(svg.contains("<svg"));
    assert!(svg.contains("#000000"));
}

#[test]
fn svg_data_url_encodes_exactly() {
    assert_eq!(svg_data_url("hello"), "data:image/svg+xml;base64,aGVsbG8=");
    assert_eq!(svg_data_url(""), "data:image/svg+xml;base64,");
}

#[test]
fn missing_pending_secret_is_expired() {
    let r = resolve_pending_secret(PendingLookup::Missing);
    assert!(matches!(r, Err(MfaError::SetupExpired)));
}

#[test]
fn unreachable_store_is_setup_failure() {
    let r = resolve_pending_secret(PendingLookup::StoreError);
    assert!(matches!(r, Err(MfaError::SetupFailed)));
}

#[test]
fn cancel_is_idempotent_and_fetch_after_cancel_expires() {
    // deleting with no store failure succeeds, whether or not an entry
    // existed — so cancelling twice is not an error
    assert!(resolve_delete(None).is_ok());
    assert!(resolve_delete(None).is_ok());
    // after the entry is gone, a fetch sees nothing and reports expiry
    let r = resolve_pending_secret(PendingLookup::Missing);
    assert!(matches!(r, Err(MfaError::SetupExpired)));
}

#[test]
fn delete_store_failure_carries_message() {
    let r = resolve_delete(Some("connection reset".to_string()));
    match r {
        Err(MfaError::Redis(msg)) => assert_eq!(msg, "connection reset"),
        other => panic!("expected a store error, got {:?}", other),
    }
}

#[test]
fn setup_write_verdicts() {
    let ok = resolve_setup_write(true, "data:image/svg+xml;base64,Zm9v".to_string());
    assert_eq!(ok.unwrap(), "data:image/svg+xml;base64,Zm9v");
    let failed = resolve_setup_write(false, "unused".to_string());
    assert!(matches!(failed, Err(MfaError::SetupFailed)));
}

#[test]
fn empty_code_list_validates_nothing() {
    let service = MfaService::new(MfaConfig::default());
    let codes: Vec<String> = Vec::new();
    assert!(!service.verify_backup_code("12345678", &codes));
    assert!(!service.verify_backup_code("", &codes));
}

#[test]
fn empty_batch_when_count_is_zero() {
    let generator = BackupCodeGenerator::new(8, 0);
    assert!(generator.generate().is_empty());
}

#[test]
fn oversized_enrollment_data_fails_as_image_error() {
    let service = MfaService::new(MfaConfig::default());
    // a label far beyond QR capacity makes the image construction fail
    let label = "x".repeat(8000);
    let r = service.setup_totp_material("user-1", &label);
    assert!(matches!(r, Err(MfaError::QrCodeFailed)));
}

#[test]
fn fresh_enrollments_use_fresh_secrets() {
    let service = MfaService::new(MfaConfig::default());
    let a = service.setup_totp_material("u", "u@example.com").unwrap();
    let b = service.setup_totp_material("u", "u@example.com").unwrap();
    assert_ne!(a.secret, b.secret);
}
