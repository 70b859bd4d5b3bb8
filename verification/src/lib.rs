//! Verified core of a second-factor authentication service: time-based
//! one-time-password (TOTP) derivation and verification, backup recovery
//! codes, and the decisions of the pending-enrollment lifecycle.
//!
//! The service computes provisioning material and verdicts; the caller owns
//! the expiring key-value store and the network around it.

pub mod backup_codes;
pub mod codec;
pub mod config;
pub mod digits;
pub mod enroll;
pub mod error;
pub mod service;
pub mod totp;

pub use backup_codes::BackupCodeGenerator;
pub use config::MfaConfig;
pub use error::MfaError;
pub use service::MfaService;
