//! The pending-enrollment lifecycle: the storage key and provisioning URI a
//! fresh enrollment produces, and the verdicts over what the caller's
//! expiring store returned. The store itself — atomic set-with-expiry, get,
//! delete-by-key — lives with the caller.

use vstd::prelude::*;
use crate::error::MfaError;

verus! {

/// The storage key under which a user's pending secret lives.
pub open spec fn setup_key_spec(product_id: Seq<char>, user_id: Seq<char>) -> Seq<char> {
    product_id + ":auth:mfa_setup:"@ + user_id
}

/// Derives the storage key for a user's pending enrollment secret.
pub fn setup_key(product_id: &str, user_id: &str) -> (key: String)
    ensures
        key@ == setup_key_spec(product_id@, user_id@),
{
    let mut key = product_id.to_owned();
    key.append(":auth:mfa_setup:");
    key.append(user_id);
    proof {
        assert(key@ =~= setup_key_spec(product_id@, user_id@));
    }
    key
}

/// The URI an authenticator app scans to adopt a secret.
pub open spec fn provisioning_uri_spec(
    issuer: Seq<char>,
    label: Seq<char>,
    secret: Seq<char>,
) -> Seq<char> {
    "otpauth://totp/"@ + issuer + ":"@ + label + "?secret="@ + secret + "&issuer="@ + issuer
}

/// Builds the provisioning URI embedding the issuer, the user's display
/// label, and the secret's text encoding.
pub fn provisioning_uri(issuer: &str, label: &str, secret: &str) -> (uri: String)
    ensures
        uri@ == provisioning_uri_spec(issuer@, label@, secret@),
{
    let mut uri = String::from_str("otpauth://totp/");
    uri.append(issuer);
    uri.append(":");
    uri.append(label);
    uri.append("?secret=");
    uri.append(secret);
    uri.append("&issuer=");
    uri.append(issuer);
    proof {
        assert(uri@ =~= provisioning_uri_spec(issuer@, label@, secret@));
    }
    uri
}

/// What one fetch from the expiring store produced, as handed in by the
/// caller that performed it.
pub enum PendingLookup {
    /// The store held this value under the key.
    Found(String),
    /// The store holds nothing under the key: enrollment was never begun,
    /// was cancelled, or the entry's lifetime elapsed.
    Missing,
    /// The store could not be reached.
    StoreError,
}

/// The verdict for a pending-secret fetch.
pub open spec fn resolve_pending_spec(lookup: PendingLookup) -> Result<String, MfaError> {
    match lookup {
        PendingLookup::Found(s) => Ok(s),
        PendingLookup::Missing => Err(MfaError::SetupExpired),
        PendingLookup::StoreError => Err(MfaError::SetupFailed),
    }
}

/// Decides `getPendingSecret` from what the store returned: the stored text
/// encoding exactly as found; the distinct expired-or-absent failure when
/// the store holds nothing; the generic setup failure when the store could
/// not be reached.
pub fn resolve_pending_secret(lookup: PendingLookup) -> (r: Result<String, MfaError>)
    ensures
        r == resolve_pending_spec(lookup),
{
    match lookup {
        PendingLookup::Found(s) => Ok(s),
        PendingLookup::Missing => Err(MfaError::SetupExpired),
        PendingLookup::StoreError => Err(MfaError::SetupFailed),
    }
}

/// The verdict for cancelling an enrollment.
pub open spec fn resolve_delete_spec(store_error: Option<String>) -> Result<(), MfaError> {
    match store_error {
        Some(msg) => Err(MfaError::Redis(msg)),
        None => Ok(()),
    }
}

/// Decides `cancelEnrollment` from what the store's delete returned. The
/// delete is unconditional and idempotent: with no store failure it
/// succeeds whether or not an entry existed, so cancelling twice is not an
/// error. A store failure is reported distinctly, with the store's message,
/// so that callers can treat cleanup failure as non-fatal.
pub fn resolve_delete(store_error: Option<String>) -> (r: Result<(), MfaError>)
    ensures
        r == resolve_delete_spec(store_error),
{
    match store_error {
        Some(msg) => Err(MfaError::Redis(msg)),
        None => Ok(()),
    }
}

/// The verdict for persisting a fresh pending secret: success hands back
/// the enrollment image; a store failure is the generic setup failure.
pub fn resolve_setup_write(stored: bool, qr_data_url: String) -> (r: Result<String, MfaError>)
    ensures
        stored ==> r == Ok::<String, MfaError>(qr_data_url),
        !stored ==> r == Err::<String, MfaError>(MfaError::SetupFailed),
{
    if stored {
        Ok(qr_data_url)
    } else {
        Err(MfaError::SetupFailed)
    }
}

/// Law: the enrollment round trip. When the store hands back exactly the
/// text encoding that `beginEnrollment` stored, `getPendingSecret` returns
/// it unchanged, and it is the very substring embedded as the `secret`
/// parameter of the provisioning URI.
pub proof fn lemma_enrollment_round_trip(
    issuer: Seq<char>,
    label: Seq<char>,
    secret: String,
    uri: Seq<char>,
)
    requires
        uri == provisioning_uri_spec(issuer, label, secret@),
    ensures
        resolve_pending_spec(PendingLookup::Found(secret)) == Ok::<String, MfaError>(secret),
        ({
            let start = ("otpauth://totp/"@.len() + issuer.len() + ":"@.len() + label.len()
                + "?secret="@.len()) as int;
            uri.subrange(start, start + secret@.len() as int) == secret@
        }),
{
    let start = ("otpauth://totp/"@.len() + issuer.len() + ":"@.len() + label.len()
        + "?secret="@.len()) as int;
    assert(uri.subrange(start, start + secret@.len() as int) =~= secret@);
}

} // verus!
