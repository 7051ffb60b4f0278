//! The scheme gate: pure functions deciding whether a negotiated signature
//! scheme is acceptable for the protocol version in use.
//!
//! TLS 1.2 and TLS 1.3 have distinct allow-lists because TLS 1.3 forbids
//! PKCS#1 v1.5 signatures and fixes the curve-to-hash binding implicitly.
use vstd::prelude::*;

use crate::error::TlsError;

verus! {

/// A TLS `SignatureScheme` identifier, as negotiated during the handshake.
#[allow(non_camel_case_types)]
#[derive(Debug, Clone, Copy, PartialEq, Eq)]
pub enum SignatureScheme {
    RSA_PKCS1_SHA1,
    ECDSA_SHA1_Legacy,
    RSA_PKCS1_SHA256,
    ECDSA_NISTP256_SHA256,
    RSA_PKCS1_SHA384,
    ECDSA_NISTP384_SHA384,
    RSA_PKCS1_SHA512,
    ECDSA_NISTP521_SHA512,
    RSA_PSS_SHA256,
    RSA_PSS_SHA384,
    RSA_PSS_SHA512,
    ED25519,
    ED448,
    Unknown(u16),
}

/// The schemes the TLS 1.2 gate accepts: ECDSA P-256/P-384, RSA-PKCS1
/// with SHA-2, and RSA-PSS.
pub open spec fn tls12_scheme_ok(s: SignatureScheme) -> bool {
    match s {
        SignatureScheme::ECDSA_NISTP256_SHA256 => true,
        SignatureScheme::ECDSA_NISTP384_SHA384 => true,
        SignatureScheme::RSA_PKCS1_SHA256 => true,
        SignatureScheme::RSA_PKCS1_SHA384 => true,
        SignatureScheme::RSA_PKCS1_SHA512 => true,
        SignatureScheme::RSA_PSS_SHA256 => true,
        SignatureScheme::RSA_PSS_SHA384 => true,
        SignatureScheme::RSA_PSS_SHA512 => true,
        _ => false,
    }
}

/// The schemes the TLS 1.3 gate accepts: ECDSA and RSA-PSS only; no
/// PKCS#1 v1.5.
pub open spec fn tls13_scheme_ok(s: SignatureScheme) -> bool {
    match s {
        SignatureScheme::ECDSA_NISTP256_SHA256 => true,
        SignatureScheme::ECDSA_NISTP384_SHA384 => true,
        SignatureScheme::RSA_PSS_SHA256 => true,
        SignatureScheme::RSA_PSS_SHA384 => true,
        SignatureScheme::RSA_PSS_SHA512 => true,
        _ => false,
    }
}

/// An RSA PKCS#1 v1.5 scheme with a SHA-2 digest.
pub open spec fn is_pkcs1_sha2(s: SignatureScheme) -> bool {
    ||| s == SignatureScheme::RSA_PKCS1_SHA256
    ||| s == SignatureScheme::RSA_PKCS1_SHA384
    ||| s == SignatureScheme::RSA_PKCS1_SHA512
}

/// An ECDSA scheme on the curves this layer supports.
pub open spec fn is_supported_ecdsa(s: SignatureScheme) -> bool {
    ||| s == SignatureScheme::ECDSA_NISTP256_SHA256
    ||| s == SignatureScheme::ECDSA_NISTP384_SHA384
}

/// An RSA-PSS scheme.
pub open spec fn is_rsa_pss(s: SignatureScheme) -> bool {
    ||| s == SignatureScheme::RSA_PSS_SHA256
    ||| s == SignatureScheme::RSA_PSS_SHA384
    ||| s == SignatureScheme::RSA_PSS_SHA512
}

/// The TLS 1.2 gate: accepts exactly the schemes on the TLS 1.2
/// allow-list and rejects every other scheme, naming it in the error.
/// For TLS 1.2 the curve is not fixed by the scheme identifier.
pub fn convert_scheme(scheme: SignatureScheme) -> (r: Result<(), TlsError>)
    ensures
        r is Ok <==> tls12_scheme_ok(scheme),
        !tls12_scheme_ok(scheme) ==> r == Err::<(), TlsError>(
            TlsError::PeerMisbehavedError(scheme),
        ),
{
    match scheme {
        SignatureScheme::ECDSA_NISTP256_SHA256
        | SignatureScheme::ECDSA_NISTP384_SHA384
        | SignatureScheme::RSA_PKCS1_SHA256
        | SignatureScheme::RSA_PKCS1_SHA384
        | SignatureScheme::RSA_PKCS1_SHA512
        | SignatureScheme::RSA_PSS_SHA256
        | SignatureScheme::RSA_PSS_SHA384
        | SignatureScheme::RSA_PSS_SHA512 => Ok(()),
        _ => Err(TlsError::PeerMisbehavedError(scheme)),
    }
}

/// The TLS 1.3 gate: accepts exactly ECDSA and RSA-PSS schemes and
/// rejects every other scheme, naming it in the error.
pub fn convert_alg_tls13(scheme: SignatureScheme) -> (r: Result<(), TlsError>)
    ensures
        r is Ok <==> tls13_scheme_ok(scheme),
        !tls13_scheme_ok(scheme) ==> r == Err::<(), TlsError>(
            TlsError::PeerMisbehavedError(scheme),
        ),
{
    match scheme {
        SignatureScheme::ECDSA_NISTP256_SHA256
        | SignatureScheme::ECDSA_NISTP384_SHA384
        | SignatureScheme::RSA_PSS_SHA256
        | SignatureScheme::RSA_PSS_SHA384
        | SignatureScheme::RSA_PSS_SHA512 => Ok(()),
        _ => Err(TlsError::PeerMisbehavedError(scheme)),
    }
}

/// Law: each gate accepts only its own allow-list. PKCS#1 v1.5 schemes
/// pass the TLS 1.2 gate and are refused by the TLS 1.3 gate; everything
/// the TLS 1.3 gate accepts is ECDSA or RSA-PSS, and is also acceptable
/// to the TLS 1.2 gate.
pub proof fn lemma_scheme_gates(s: SignatureScheme)
    ensures
        is_pkcs1_sha2(s) ==> tls12_scheme_ok(s) && !tls13_scheme_ok(s),
        tls13_scheme_ok(s) ==> is_supported_ecdsa(s) || is_rsa_pss(s),
        tls13_scheme_ok(s) ==> tls12_scheme_ok(s),
{
}

/// The spec-level list of schemes this layer can verify, in the order the
/// handshake advertises them.
pub open spec fn spec_supported_verify_schemes() -> Seq<SignatureScheme> {
    seq![
        SignatureScheme::ECDSA_NISTP384_SHA384,
        SignatureScheme::ECDSA_NISTP256_SHA256,
        SignatureScheme::RSA_PSS_SHA512,
        SignatureScheme::RSA_PSS_SHA384,
        SignatureScheme::RSA_PSS_SHA256,
        SignatureScheme::RSA_PKCS1_SHA512,
        SignatureScheme::RSA_PKCS1_SHA384,
        SignatureScheme::RSA_PKCS1_SHA256,
    ]
}

/// The signature schemes this layer can verify, for the handshake to
/// advertise. Every listed scheme passes the TLS 1.2 gate.
pub fn supported_verify_schemes() -> (r: Vec<SignatureScheme>)
    ensures
        r@ == spec_supported_verify_schemes(),
        forall|i: int| 0 <= i < r@.len() ==> tls12_scheme_ok(#[trigger] r@[i]),
{
    let mut v: Vec<SignatureScheme> = Vec::new();
    v.push(SignatureScheme::ECDSA_NISTP384_SHA384);
    v.push(SignatureScheme::ECDSA_NISTP256_SHA256);
    v.push(SignatureScheme::RSA_PSS_SHA512);
    v.push(SignatureScheme::RSA_PSS_SHA384);
    v.push(SignatureScheme::RSA_PSS_SHA256);
    v.push(SignatureScheme::RSA_PKCS1_SHA512);
    v.push(SignatureScheme::RSA_PKCS1_SHA384);
    v.push(SignatureScheme::RSA_PKCS1_SHA256);
    proof {
        assert(v@ =~= spec_supported_verify_schemes());
    }
    v
}

} // verus!
