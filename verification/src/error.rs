//! Failure taxonomy of the MFA service.

use vstd::prelude::*;

verus! {

/// Every way an MFA operation can fail. Code mismatch, malformed input and
/// expiry are deliberately distinct, so that callers can prompt the user
/// accordingly instead of conflating them.
#[derive(Debug, Clone)]
pub enum MfaError {
    /// Enrollment could not be initiated or its secret not persisted.
    SetupFailed,
    /// No pending enrollment secret exists for the user: enrollment was
    /// never started, was cancelled, or its lifetime elapsed.
    SetupExpired,
    /// The presented code is malformed or does not match.
    InvalidCode,
    /// MFA was never confirmed for the user. Reserved for callers that share
    /// this taxonomy; the core never returns it.
    NotEnabled,
    /// The backing store failed during cleanup; carries the store's message.
    Redis(String),
    /// The scannable enrollment image could not be built.
    QrCodeFailed,
}

} // verus!
