//! The MFA service: fresh enrollment material, TOTP code verification with
//! an exact failure taxonomy, and backup-code generation and validation,
//! all driven by one configuration.

use vstd::prelude::*;
use crate::backup_codes::BackupCodeGenerator;
use crate::codec::{
    base32_decode, base32_decode_of, base32_encode, base32_of, data_url_spec, qr_code_data_url,
    qr_encodable, qr_svg_of,
};
use crate::config::MfaConfig;
use crate::digits::is_dec_char;
use crate::enroll::{provisioning_uri, provisioning_uri_spec, setup_key, setup_key_spec};
use crate::error::MfaError;
use crate::totp::{code_in_window, verify_window};

verus! {

/// Everything a fresh enrollment computes before the store write: the
/// storage key, the secret's text encoding, the provisioning URI, the
/// scannable image as a data URL, and the pending entry's lifetime.
pub struct SetupMaterial {
    pub key: String,
    pub secret: String,
    pub uri: String,
    pub qr_data_url: String,
    pub ttl_seconds: u64,
}

/// Relies on `rand::RngCore::fill_bytes` over `rand::thread_rng` for a
/// fresh 160-bit secret; nothing can be promised of random bytes but their
/// count.
#[verifier::external_body]
fn random_secret_bytes() -> (r: Vec<u8>)
    ensures
        r@.len() == 20,
{
    let mut bytes = [0u8; 20];
    rand::RngCore::fill_bytes(&mut rand::thread_rng(), &mut bytes);
    bytes.to_vec()
}

/// Relies on `std::time::SystemTime::now`: the seconds since the Unix
/// epoch. Nothing can be promised of the clock's value.
#[verifier::external_body]
fn unix_now() -> (t: u64) {
    match std::time::SystemTime::now().duration_since(std::time::UNIX_EPOCH) {
        Ok(d) => d.as_secs(),
        Err(_) => 0,
    }
}

/// The MFA service. It holds no mutable state: every operation is a
/// function of the configuration and its arguments, and the expiring store
/// lives with the caller.
pub struct MfaService {
    config: MfaConfig,
}

impl MfaService {
    /// The configuration this service was built with.
    pub closed spec fn spec_config(&self) -> MfaConfig {
        self.config
    }

    /// Creates the service over a configuration.
    pub fn new(config: MfaConfig) -> (s: Self)
        ensures
            s.spec_config() == config,
    {
        Self { config }
    }

    /// The storage key for a user's pending enrollment secret.
    pub fn mfa_setup_key(&self, user_id: &str) -> (key: String)
        ensures
            key@ == setup_key_spec(self.spec_config().product_id@, user_id@),
    {
        setup_key(self.config.product_id.as_str(), user_id)
    }

    /// Computes fresh enrollment material for a user: a random 160-bit
    /// secret in its base32 text encoding, the provisioning URI embedding
    /// it, the scannable image as a data URL, and the storage key and
    /// lifetime for the pending entry. The caller stores `secret` under
    /// `key` for `ttl_seconds`, overwriting any prior pending entry, and
    /// renders the image. Fails, with the image-construction error, exactly
    /// when the drawn secret's provisioning URI exceeds the QR capacity.
    pub fn setup_totp_material(&self, user_id: &str, user_email: &str) -> (r: Result<
        SetupMaterial,
        MfaError,
    >)
        ensures
            r matches Ok(m) ==> ({
                &&& m.key@ == setup_key_spec(self.spec_config().product_id@, user_id@)
                &&& exists|b: Seq<u8>| b.len() == 20 && m.secret@ == base32_of(b)
                &&& m.secret@.len() == 32
                &&& m.uri@ == provisioning_uri_spec(
                    self.spec_config().product_id@,
                    user_email@,
                    m.secret@,
                )
                &&& qr_encodable(m.uri@)
                &&& m.qr_data_url@ == data_url_spec(qr_svg_of(m.uri@))
                &&& m.ttl_seconds == self.spec_config().setup_secret_ttl
            }),
            r matches Err(e) ==> ({
                &&& e == MfaError::QrCodeFailed
                &&& exists|b: Seq<u8>|
                    b.len() == 20 && !qr_encodable(
                        provisioning_uri_spec(
                            self.spec_config().product_id@,
                            user_email@,
                            base32_of(b),
                        ),
                    )
            }),
    {
        let bytes = random_secret_bytes();
        let secret = base32_encode(&bytes);
        let uri = provisioning_uri(self.config.product_id.as_str(), user_email, secret.as_str());
        let qr = match qr_code_data_url(uri.as_str()) {
            Ok(q) => q,
            Err(e) => {
                proof {
                    assert(bytes@.len() == 20 && !qr_encodable(
                        provisioning_uri_spec(
                            self.spec_config().product_id@,
                            user_email@,
                            base32_of(bytes@),
                        ),
                    ));
                }
                return Err(e);
            },
        };
        let key = self.mfa_setup_key(user_id);
        Ok(
            SetupMaterial {
                key,
                secret,
                uri,
                qr_data_url: qr,
                ttl_seconds: self.config.setup_secret_ttl,
            },
        )
    }

    /// Verifies a presented TOTP code against an encoded secret at the
    /// instant `now`. A secret that does not decode fails with the
    /// malformed-code error, distinctly from a mismatch; a digit count
    /// outside six to eight, or a decoded secret under 128 bits, fails as a
    /// setup error; otherwise the verdict is whether the code matches some
    /// counter in the clock-skew window.
    pub fn verify_totp_code_at(&self, secret: &str, totp_code: &str, now: u64) -> (r: Result<
        bool,
        MfaError,
    >)
        requires
            self.spec_config().totp_step > 0,
        ensures
            match base32_decode_of(secret@) {
                None => r == Err::<bool, MfaError>(MfaError::InvalidCode),
                Some(b) => if 6 <= self.spec_config().totp_digits <= 8 && b.len() >= 16 {
                    r == Ok::<bool, MfaError>(
                        code_in_window(
                            b,
                            totp_code@,
                            now,
                            self.spec_config().totp_step,
                            self.spec_config().totp_skew,
                            self.spec_config().totp_digits as nat,
                        ),
                    )
                } else {
                    r == Err::<bool, MfaError>(MfaError::SetupFailed)
                },
            },
    {
        match base32_decode(secret) {
            None => Err(MfaError::InvalidCode),
            Some(bytes) => {
                if self.config.totp_digits < 6 || self.config.totp_digits > 8 || bytes.len() < 16 {
                    Err(MfaError::SetupFailed)
                } else {
                    Ok(
                        verify_window(
                            &bytes,
                            totp_code,
                            now,
                            self.config.totp_step,
                            self.config.totp_skew,
                            self.config.totp_digits,
                        ),
                    )
                }
            },
        }
    }

    /// Verifies a presented TOTP code against the clock: the failure
    /// taxonomy is exact, and a success verdict is the window check at the
    /// instant the clock returned.
    pub fn verify_totp_code(&self, secret: &str, totp_code: &str) -> (r: Result<bool, MfaError>)
        requires
            self.spec_config().totp_step > 0,
        ensures
            match base32_decode_of(secret@) {
                None => r == Err::<bool, MfaError>(MfaError::InvalidCode),
                Some(b) => if 6 <= self.spec_config().totp_digits <= 8 && b.len() >= 16 {
                    exists|t: u64|
                        r == Ok::<bool, MfaError>(
                            code_in_window(
                                b,
                                totp_code@,
                                t,
                                self.spec_config().totp_step,
                                self.spec_config().totp_skew,
                                self.spec_config().totp_digits as nat,
                            ),
                        )
                } else {
                    r == Err::<bool, MfaError>(MfaError::SetupFailed)
                },
            },
    {
        let now = unix_now();
        self.verify_totp_code_at(secret, totp_code, now)
    }

    /// Generates the configured batch of backup codes: exactly the
    /// configured count, each of exactly the configured length in decimal
    /// digits.
    pub fn generate_backup_codes(&self) -> (codes: Vec<String>)
        ensures
            codes@.len() == self.spec_config().backup_code_count,
            forall|i: int| 0 <= i < codes@.len() ==> (#[trigger] codes@[i])@.len()
                == self.spec_config().backup_code_length,
            forall|i: int, j: int|
                0 <= i < codes@.len() && 0 <= j < (#[trigger] codes@[i])@.len() ==> is_dec_char(
                    #[trigger] codes@[i]@[j],
                ),
    {
        let generator = BackupCodeGenerator::new(
            self.config.backup_code_length,
            self.config.backup_code_count,
        );
        generator.generate()
    }

    /// Generates a fresh random 160-bit secret in its base32 text encoding,
    /// for flows that enable MFA without the enrollment image.
    pub fn generate_secret(&self) -> (s: String)
        ensures
            exists|b: Seq<u8>| b.len() == 20 && s@ == base32_of(b),
            s@.len() == 32,
    {
        let bytes = random_secret_bytes();
        base32_encode(&bytes)
    }

    /// True exactly when the presented backup code is, character for
    /// character, a member of the list.
    pub fn verify_backup_code(&self, code: &str, backup_codes: &[String]) -> (r: bool)
        ensures
            r == exists|i: int| 0 <= i < backup_codes@.len() && (#[trigger] backup_codes@[i])@
                == code@,
    {
        let generator = BackupCodeGenerator::new(
            self.config.backup_code_length,
            self.config.backup_code_count,
        );
        generator.is_valid(code, backup_codes)
    }
}

} // verus!
