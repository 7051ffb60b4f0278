//! The error taxonomy of the verification layer.
//!
//! Failures reported by the external path-validation and
//! Certificate-Transparency engines are carried opaquely, collapsed to one
//! wrapped kind each; the remaining kinds are produced by this crate's own
//! policy checks.
use vstd::prelude::*;

use crate::schemes::SignatureScheme;

verus! {

/// Declares `webpki::Error`, the error enum of the path-validation engine,
/// so that values of it can be carried and matched by verified code. All of
/// its variants are public unit variants.
#[verifier::external_type_specification]
pub struct ExWebpkiError(webpki::Error);

/// Declares `sct::Error`, the error enum of the Certificate-Transparency
/// engine. All of its variants are public unit variants.
#[verifier::external_type_specification]
pub struct ExSctError(sct::Error);

/// An error that aborts certificate, signature or SCT verification.
#[derive(Debug, Clone, Copy, PartialEq)]
pub enum TlsError {
    /// A certificate chain was required but the peer presented none.
    NoCertificatesPresented,
    /// The path-validation engine rejected the chain, the end-entity
    /// certificate, or the name binding; the engine's own error is kept
    /// for diagnostics.
    WebPKIError(webpki::Error),
    /// The peer negotiated a signature scheme that is not on the allow-list
    /// for the protocol version in use; the offending scheme is kept.
    PeerMisbehavedError(SignatureScheme),
    /// The time source could not produce a usable value.
    FailedToGetCurrentTime,
    /// Certificate-Transparency evidence was present but unacceptable:
    /// either one record failed fatally, or none validated although both
    /// trusted logs and records were supplied.
    InvalidSCT(sct::Error),
    /// The caller invoked an operation that the chosen policy explicitly
    /// does not support. This reports a defect in the caller, not a
    /// peer-supplied-data error.
    ContractViolation,
}

} // verus!
