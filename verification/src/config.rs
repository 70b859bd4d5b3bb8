//! Service configuration.

use vstd::prelude::*;

verus! {

/// Configuration of the MFA service: issuer identity, TOTP parameters,
/// backup-code shape, and the lifetime of a pending enrollment secret.
#[derive(Debug, Clone)]
pub struct MfaConfig {
    /// Product identifier, used as the provisioning issuer and as the prefix
    /// of storage keys.
    pub product_id: String,
    /// Label of the TOTP digest algorithm. The verifier itself always uses
    /// HMAC-SHA-1, the digest with the widest authenticator-app support;
    /// this field is informational.
    pub totp_algorithm: String,
    /// Number of decimal digits in a derived code.
    pub totp_digits: usize,
    /// Length of a time step, in seconds.
    pub totp_step: u64,
    /// Clock-skew tolerance, in steps on each side of the current one.
    pub totp_skew: u8,
    /// Number of backup codes generated in one batch.
    pub backup_code_count: usize,
    /// Number of decimal digits in a backup code.
    pub backup_code_length: usize,
    /// Lifetime of a pending enrollment secret, in seconds.
    pub setup_secret_ttl: u64,
}

impl Default for MfaConfig {
    /// The default configuration: 6-digit codes over 30-second steps with one
    /// step of skew on each side, ten 8-digit backup codes, and a 10-minute
    /// pending-secret lifetime.
    fn default() -> (c: MfaConfig)
        ensures
            c.product_id@ == "novaskyn"@,
            c.totp_algorithm@ == "SHA1"@,
            c.totp_digits == 6,
            c.totp_step == 30,
            c.totp_skew == 1,
            c.backup_code_count == 10,
            c.backup_code_length == 8,
            c.setup_secret_ttl == 600,
    {
        MfaConfig {
            product_id: String::from_str("novaskyn"),
            totp_algorithm: String::from_str("SHA1"),
            totp_digits: 6,
            totp_step: 30,
            totp_skew: 1,
            backup_code_count: 10,
            backup_code_length: 8,
            setup_secret_ttl: 600,
        }
    }
}

} // verus!
