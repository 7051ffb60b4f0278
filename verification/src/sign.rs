//! Handshake-signature verification, one entry point per protocol
//! version's signing convention.
//!
//! Both entry points gate the negotiated scheme first, then delegate the
//! cryptographic check to the external signature engine. The certificate
//! must already have passed chain verification; that is a documented
//! precondition of the callers' protocol, deliberately not re-checked
//! here.
use vstd::prelude::*;

use crate::cert::Certificate;
use crate::cert::DigitallySignedStruct;
use crate::engine;
use crate::engine::SigCheck;
use crate::engine::WebpkiAlg;
use crate::engine::parses_as_end_entity;
use crate::engine::sig_check;
use crate::error::TlsError;
use crate::schemes::SignatureScheme;
use crate::schemes::convert_alg_tls13;
use crate::schemes::convert_scheme;
use crate::schemes::tls12_scheme_ok;
use crate::schemes::tls13_scheme_ok;
use crate::tokens::HandshakeSignatureValid;

verus! {

/// The engine algorithms a scheme may stand for. In the TLS 1.2
/// convention the scheme does not fix the curve, so an ECDSA scheme maps
/// to both supported curves with its hash; in the TLS 1.3 convention the
/// mapping is one-to-one. Schemes outside the respective gate map to no
/// algorithm at all.
pub open spec fn spec_algs_for(scheme: SignatureScheme, tls13: bool) -> Seq<WebpkiAlg> {
    if tls13 {
        match scheme {
            SignatureScheme::ECDSA_NISTP256_SHA256 => seq![WebpkiAlg::EcdsaP256Sha256],
            SignatureScheme::ECDSA_NISTP384_SHA384 => seq![WebpkiAlg::EcdsaP384Sha384],
            SignatureScheme::RSA_PSS_SHA256 => seq![WebpkiAlg::RsaPssSha256],
            SignatureScheme::RSA_PSS_SHA384 => seq![WebpkiAlg::RsaPssSha384],
            SignatureScheme::RSA_PSS_SHA512 => seq![WebpkiAlg::RsaPssSha512],
            _ => Seq::empty(),
        }
    } else {
        match scheme {
            SignatureScheme::ECDSA_NISTP256_SHA256 => seq![
                WebpkiAlg::EcdsaP256Sha256,
                WebpkiAlg::EcdsaP384Sha256,
            ],
            SignatureScheme::ECDSA_NISTP384_SHA384 => seq![
                WebpkiAlg::EcdsaP256Sha384,
                WebpkiAlg::EcdsaP384Sha384,
            ],
            SignatureScheme::RSA_PKCS1_SHA256 => seq![WebpkiAlg::RsaPkcs1Sha256],
            SignatureScheme::RSA_PKCS1_SHA384 => seq![WebpkiAlg::RsaPkcs1Sha384],
            SignatureScheme::RSA_PKCS1_SHA512 => seq![WebpkiAlg::RsaPkcs1Sha512],
            SignatureScheme::RSA_PSS_SHA256 => seq![WebpkiAlg::RsaPssSha256],
            SignatureScheme::RSA_PSS_SHA384 => seq![WebpkiAlg::RsaPssSha384],
            SignatureScheme::RSA_PSS_SHA512 => seq![WebpkiAlg::RsaPssSha512],
            _ => Seq::empty(),
        }
    }
}

/// The engine algorithms a scheme may stand for, as `spec_algs_for`.
fn algs_for(scheme: SignatureScheme, tls13: bool) -> (r: Vec<WebpkiAlg>)
    ensures
        r@ == spec_algs_for(scheme, tls13),
{
    let mut v: Vec<WebpkiAlg> = Vec::new();
    if tls13 {
        match scheme {
            SignatureScheme::ECDSA_NISTP256_SHA256 => v.push(WebpkiAlg::EcdsaP256Sha256),
            SignatureScheme::ECDSA_NISTP384_SHA384 => v.push(WebpkiAlg::EcdsaP384Sha384),
            SignatureScheme::RSA_PSS_SHA256 => v.push(WebpkiAlg::RsaPssSha256),
            SignatureScheme::RSA_PSS_SHA384 => v.push(WebpkiAlg::RsaPssSha384),
            SignatureScheme::RSA_PSS_SHA512 => v.push(WebpkiAlg::RsaPssSha512),
            _ => {},
        }
    } else {
        match scheme {
            SignatureScheme::ECDSA_NISTP256_SHA256 => {
                v.push(WebpkiAlg::EcdsaP256Sha256);
                v.push(WebpkiAlg::EcdsaP384Sha256);
            },
            SignatureScheme::ECDSA_NISTP384_SHA384 => {
                v.push(WebpkiAlg::EcdsaP256Sha384);
                v.push(WebpkiAlg::EcdsaP384Sha384);
            },
            SignatureScheme::RSA_PKCS1_SHA256 => v.push(WebpkiAlg::RsaPkcs1Sha256),
            SignatureScheme::RSA_PKCS1_SHA384 => v.push(WebpkiAlg::RsaPkcs1Sha384),
            SignatureScheme::RSA_PKCS1_SHA512 => v.push(WebpkiAlg::RsaPkcs1Sha512),
            SignatureScheme::RSA_PSS_SHA256 => v.push(WebpkiAlg::RsaPssSha256),
            SignatureScheme::RSA_PSS_SHA384 => v.push(WebpkiAlg::RsaPssSha384),
            SignatureScheme::RSA_PSS_SHA512 => v.push(WebpkiAlg::RsaPssSha512),
            _ => {},
        }
    }
    proof {
        assert(v@ =~= spec_algs_for(scheme, tls13));
    }
    v
}

/// The engine's combined verdict when each algorithm of `algs` is tried
/// in order against the same signature: the first algorithm that fits the
/// key decides; algorithms that do not fit the key are passed over; an
/// empty list counts as "no algorithm fits the key".
pub open spec fn any_alg_verdict(
    algs: Seq<WebpkiAlg>,
    cert_der: Seq<u8>,
    msg: Seq<u8>,
    sig: Seq<u8>,
) -> SigCheck
    decreases algs.len(),
{
    if algs.len() == 0 {
        SigCheck::KeyMismatch
    } else {
        match sig_check(algs[0], cert_der, msg, sig) {
            SigCheck::Accepted => SigCheck::Accepted,
            SigCheck::Rejected => SigCheck::Rejected,
            SigCheck::KeyMismatch => any_alg_verdict(algs.skip(1), cert_der, msg, sig),
        }
    }
}

/// Try each candidate algorithm in order; an algorithm that does not fit
/// the certificate's key is passed over, the first fitting one decides.
/// The TLS 1.2 scheme identifier does not carry enough information to
/// pick a single engine algorithm, hence the candidate list.
fn verify_sig_using_any_alg(
    cert_der: &[u8],
    algs: &Vec<WebpkiAlg>,
    msg: &[u8],
    sig: &[u8],
) -> (r: Result<(), webpki::Error>)
    requires
        parses_as_end_entity(cert_der@),
    ensures
        r is Ok <==> any_alg_verdict(algs@, cert_der@, msg@, sig@) is Accepted,
        any_alg_verdict(algs@, cert_der@, msg@, sig@) is KeyMismatch ==> r == Err::<
            (),
            webpki::Error,
        >(webpki::Error::UnsupportedSignatureAlgorithmForPublicKey),
{
    let mut i: usize = 0;
    proof {
        assert(algs@.skip(0) =~= algs@);
    }
    while i < algs.len()
        invariant
            parses_as_end_entity(cert_der@),
            i <= algs@.len(),
            any_alg_verdict(algs@.skip(i as int), cert_der@, msg@, sig@)
                == any_alg_verdict(algs@, cert_der@, msg@, sig@),
        decreases algs@.len() - i,
    {
        proof {
            assert(algs@.skip(i as int)[0] == algs@[i as int]);
        }
        match engine::webpki_verify_signature(cert_der, algs[i], msg, sig) {
            Ok(()) => {
                return Ok(());
            },
            Err(e) => {
                if matches!(e, webpki::Error::UnsupportedSignatureAlgorithmForPublicKey) {
                    proof {
                        assert(algs@.skip(i as int).skip(1) =~= algs@.skip(i as int + 1));
                    }
                    i = i + 1;
                } else {
                    return Err(e);
                }
            },
        }
    }
    proof {
        assert(algs@.skip(i as int) =~= Seq::<WebpkiAlg>::empty());
    }
    Err(webpki::Error::UnsupportedSignatureAlgorithmForPublicKey)
}

/// Check one raw handshake signature with the external engine: the scheme
/// (under the given protocol convention) selects the candidate
/// algorithms, and the signature is checked over `msg` with the public
/// key of `cert_der`.
pub(crate) fn verify_certificate_signature(
    sig: &[u8],
    msg: &[u8],
    cert_der: &[u8],
    scheme: SignatureScheme,
    tls13: bool,
) -> (r: Result<(), webpki::Error>)
    ensures
        r is Ok <==> parses_as_end_entity(cert_der@) && any_alg_verdict(
            spec_algs_for(scheme, tls13),
            cert_der@,
            msg@,
            sig@,
        ) is Accepted,
{
    match engine::parse_end_entity(cert_der) {
        Ok(()) => {},
        Err(e) => {
            return Err(e);
        },
    }
    let algs = algs_for(scheme, tls13);
    verify_sig_using_any_alg(cert_der, &algs, msg, sig)
}

/// Verify the signed `message` using the public key quoted in `cert` and
/// the scheme and signature in `dss`, under the TLS 1.2 signing
/// convention (no added padding or context).
///
/// The scheme must pass the TLS 1.2 gate; a scheme off that allow-list is
/// rejected as `PeerMisbehavedError` without consulting the engine. A
/// proof token is returned exactly when the engine accepts the signature.
///
/// `cert` MUST have been authenticated before using this function.
pub fn verify_signed_struct(
    message: &[u8],
    cert: &Certificate,
    dss: &DigitallySignedStruct,
) -> (r: Result<HandshakeSignatureValid, TlsError>)
    ensures
        !tls12_scheme_ok(dss.scheme) ==> r == Err::<HandshakeSignatureValid, TlsError>(
            TlsError::PeerMisbehavedError(dss.scheme),
        ),
        tls12_scheme_ok(dss.scheme) ==> (r is Ok <==> parses_as_end_entity(cert@)
            && any_alg_verdict(
            spec_algs_for(dss.scheme, false),
            cert@,
            message@,
            dss.sig@,
        ) is Accepted),
        r matches Err(e) ==> (e matches TlsError::PeerMisbehavedError(_)
            || e matches TlsError::WebPKIError(_)),
{
    match convert_scheme(dss.scheme) {
        Ok(()) => {},
        Err(e) => {
            return Err(e);
        },
    }
    match verify_certificate_signature(
        dss.sig.as_slice(),
        message,
        cert.0.as_slice(),
        dss.scheme,
        false,
    ) {
        Ok(()) => Ok(HandshakeSignatureValid::assertion()),
        Err(e) => Err(TlsError::WebPKIError(e)),
    }
}

/// The exact payload whose signature TLS 1.3 requires: 64 bytes of the
/// ASCII space character, then the context string (carrying its own
/// terminator), then the transcript hash. The fixed prefix prevents
/// cross-protocol signature confusion.
pub open spec fn tls13_transcript_message(context: Seq<u8>, hash: Seq<u8>) -> Seq<u8> {
    Seq::new(64, |i: int| 0x20u8) + context + hash
}

/// Law: the constructed TLS 1.3 payload is, byte for byte, a 64-byte
/// 0x20 prefix, then the context string, then the transcript hash, for
/// any context and hash.
pub proof fn lemma_tls13_message_shape(context: Seq<u8>, hash: Seq<u8>)
    ensures
        tls13_transcript_message(context, hash).len() == 64 + context.len() + hash.len(),
        forall|i: int| 0 <= i < 64 ==> tls13_transcript_message(context, hash)[i] == 0x20u8,
        forall|i: int| 0 <= i < context.len()
            ==> tls13_transcript_message(context, hash)[64 + i] == context[i],
        forall|i: int| 0 <= i < hash.len()
            ==> tls13_transcript_message(context, hash)[64 + context.len() + i] == hash[i],
{
}

/// Build the TLS 1.3 signed payload from the context string and the
/// transcript hash.
pub fn construct_tls13_message(context_string_with_0: &[u8], handshake_hash: &[u8]) -> (m: Vec<u8>)
    ensures
        m@ == tls13_transcript_message(context_string_with_0@, handshake_hash@),
{
    let mut msg: Vec<u8> = Vec::new();
    let mut i: usize = 0;
    while i < 64
        invariant
            i <= 64,
            msg@.len() == i,
            forall|j: int| 0 <= j < i ==> msg@[j] == 0x20u8,
        decreases 64 - i,
    {
        msg.push(0x20u8);
        i = i + 1;
    }
    let mut c: usize = 0;
    while c < context_string_with_0.len()
        invariant
            c <= context_string_with_0@.len(),
            msg@.len() == 64 + c,
            forall|j: int| 0 <= j < 64 ==> msg@[j] == 0x20u8,
            forall|j: int| 0 <= j < c ==> msg@[64 + j] == context_string_with_0@[j],
        decreases context_string_with_0@.len() - c,
    {
        msg.push(context_string_with_0[c]);
        c = c + 1;
    }
    let mut h: usize = 0;
    while h < handshake_hash.len()
        invariant
            h <= handshake_hash@.len(),
            msg@.len() == 64 + context_string_with_0@.len() + h,
            forall|j: int| 0 <= j < 64 ==> msg@[j] == 0x20u8,
            forall|j: int| 0 <= j < context_string_with_0@.len()
                ==> msg@[64 + j] == context_string_with_0@[j],
            forall|j: int| 0 <= j < h
                ==> msg@[64 + context_string_with_0@.len() + j] == handshake_hash@[j],
        decreases handshake_hash@.len() - h,
    {
        msg.push(handshake_hash[h]);
        h = h + 1;
    }
    proof {
        assert(msg@ =~= tls13_transcript_message(context_string_with_0@, handshake_hash@));
    }
    msg
}

/// Verify a TLS 1.3 handshake signature: gate the scheme with the TLS
/// 1.3 allow-list, construct the mandated payload — 64 bytes of 0x20,
/// the context string (which must already include its trailing
/// terminator byte), then the transcript hash — and ask the engine to
/// check the signature over exactly that payload.
///
/// `cert` MUST have been authenticated before using this function.
pub fn verify_tls13(
    cert: &Certificate,
    dss: &DigitallySignedStruct,
    handshake_hash: &[u8],
    context_string_with_0: &[u8],
) -> (r: Result<HandshakeSignatureValid, TlsError>)
    ensures
        !tls13_scheme_ok(dss.scheme) ==> r == Err::<HandshakeSignatureValid, TlsError>(
            TlsError::PeerMisbehavedError(dss.scheme),
        ),
        tls13_scheme_ok(dss.scheme) ==> (r is Ok <==> parses_as_end_entity(cert@)
            && any_alg_verdict(
            spec_algs_for(dss.scheme, true),
            cert@,
            tls13_transcript_message(context_string_with_0@, handshake_hash@),
            dss.sig@,
        ) is Accepted),
        r matches Err(e) ==> (e matches TlsError::PeerMisbehavedError(_)
            || e matches TlsError::WebPKIError(_)),
{
    match convert_alg_tls13(dss.scheme) {
        Ok(()) => {},
        Err(e) => {
            return Err(e);
        },
    }

    let msg = construct_tls13_message(context_string_with_0, handshake_hash);

    match verify_certificate_signature(
        dss.sig.as_slice(),
        msg.as_slice(),
        cert.0.as_slice(),
        dss.scheme,
        true,
    ) {
        Ok(()) => Ok(HandshakeSignatureValid::assertion()),
        Err(e) => Err(TlsError::WebPKIError(e)),
    }
}

} // verus!
