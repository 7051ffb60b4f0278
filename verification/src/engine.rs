//! The trusted interface to the external path-validation and signature
//! engine (webpki).
//!
//! Each function marked `external_body` performs one engine operation; its
//! contract states what the engine's source shows, over plain byte views.
//! Engine verdicts that are deterministic functions of the arguments but
//! far too large to state (parsing, path building, cryptographic signature
//! checking) are given names by bodiless spec functions, and the verified
//! logic around them is exact in terms of those names. The engine's parsed
//! certificate handle is rebuilt from the same bytes inside each operation;
//! the engine documents that conversion as inexpensive and deterministic.
use vstd::prelude::*;

verus! {

/// Declares `webpki::SignatureAlgorithm`, the engine's description of one
/// signature algorithm. Opaque; values are selected through `WebpkiAlg`.
#[verifier::external_type_specification]
#[verifier::external_body]
pub struct ExSignatureAlgorithm(webpki::SignatureAlgorithm);

/// Declares `webpki::TrustAnchor`: the engine's minimized trust-anchor
/// representation. Its fields are public byte slices, so verified code can
/// build and inspect anchors directly.
#[verifier::external_type_specification]
pub struct ExTrustAnchor<'a>(webpki::TrustAnchor<'a>);

/// Declares `webpki::DNSName`, an owned, syntactically valid DNS name.
#[verifier::external_type_specification]
#[verifier::external_body]
pub struct ExDNSName(webpki::DNSName);

/// The engine's certificate-signature algorithms that this layer may
/// request, mirroring the engine's own catalogue: ECDSA on P-256/P-384
/// with SHA-256/384, RSA-PKCS1 2048-8192 with SHA-256/384/512 and
/// 3072-8192 with SHA-384, and RSA-PSS 2048-8192 with SHA-256/384/512
/// (tolerating legacy key encodings).
#[derive(Debug, Clone, Copy, PartialEq, Eq)]
pub enum WebpkiAlg {
    EcdsaP256Sha256,
    EcdsaP256Sha384,
    EcdsaP384Sha256,
    EcdsaP384Sha384,
    RsaPkcs1Sha256,
    RsaPkcs1Sha384,
    RsaPkcs1Sha512,
    RsaPkcs13072Sha384,
    RsaPssSha256,
    RsaPssSha384,
    RsaPssSha512,
}

/// The outcome of asking the engine to check one signature with one
/// algorithm: accepted; refused because the algorithm does not fit the
/// certificate's key; or refused as invalid.
#[derive(Debug, Clone, Copy, PartialEq, Eq)]
pub enum SigCheck {
    Accepted,
    KeyMismatch,
    Rejected,
}

/// Names the verdict of `webpki::EndEntityCert::from` on some bytes:
/// whether they parse as a DER-encoded end-entity certificate.
pub uninterp spec fn parses_as_end_entity(der: Seq<u8>) -> bool;

/// Names the verdict of `webpki::EndEntityCert::verify_signature`: whether
/// `sig` is a valid signature over `msg` under algorithm `alg` and the
/// public key of the certificate encoded by `cert_der`, or the algorithm
/// does not fit that key, or the signature is invalid.
pub uninterp spec fn sig_check(alg: WebpkiAlg, cert_der: Seq<u8>, msg: Seq<u8>, sig: Seq<u8>) -> SigCheck;

/// Names the verdict of
/// `webpki::EndEntityCert::verify_is_valid_tls_server_cert`: whether a
/// valid server-certificate path exists from the end-entity certificate
/// over the intermediates to one of the anchors, under the given
/// algorithms, at the given time (in seconds since the Unix epoch).
pub uninterp spec fn server_chain_ok(
    ee_der: Seq<u8>,
    intermediates: Seq<Seq<u8>>,
    anchors: Seq<(Seq<u8>, Seq<u8>, Option<Seq<u8>>)>,
    algs: Seq<WebpkiAlg>,
    time_secs: u64,
) -> bool;

/// Names the verdict of
/// `webpki::EndEntityCert::verify_is_valid_tls_client_cert`, as
/// `server_chain_ok` but with client-certificate semantics.
pub uninterp spec fn client_chain_ok(
    ee_der: Seq<u8>,
    intermediates: Seq<Seq<u8>>,
    anchors: Seq<(Seq<u8>, Seq<u8>, Option<Seq<u8>>)>,
    algs: Seq<WebpkiAlg>,
    time_secs: u64,
) -> bool;

/// Names the verdict of `webpki::DNSNameRef::try_from_ascii_str`: whether
/// the characters form a syntactically valid DNS name.
pub uninterp spec fn valid_dns_name(name: Seq<char>) -> bool;

/// Names the characters of an owned, already validated engine DNS name.
pub uninterp spec fn dns_name_chars(name: webpki::DNSName) -> Seq<char>;

/// One character with an ASCII capital letter folded to lower case.
pub open spec fn lower_char(c: char) -> char {
    if 'A' <= c && c <= 'Z' {
        ((c as u8) + 32) as char
    } else {
        c
    }
}

/// The characters with ASCII capital letters folded to lower case. The
/// engine folds a DNS name this way when it takes ownership of it.
pub open spec fn ascii_lower(s: Seq<char>) -> Seq<char> {
    s.map_values(|c: char| lower_char(c))
}

/// Names the verdict of
/// `webpki::EndEntityCert::verify_is_valid_for_dns_name`: whether the
/// certificate encoded by `ee_der` is valid for the given DNS name.
pub uninterp spec fn dns_name_matches(ee_der: Seq<u8>, name: Seq<char>) -> bool;

/// The contents of a `webpki::TrustAnchor` as plain values: subject, SPKI,
/// and optional name constraints.
pub open spec fn anchor_data(t: webpki::TrustAnchor) -> (Seq<u8>, Seq<u8>, Option<Seq<u8>>) {
    (
        t.subject@,
        t.spki@,
        match t.name_constraints {
            Some(n) => Some(n@),
            None => None,
        },
    )
}

/// The contents of a sequence of trust anchors, element-wise.
pub open spec fn anchors_data(ts: Seq<webpki::TrustAnchor>) -> Seq<(Seq<u8>, Seq<u8>, Option<Seq<u8>>)> {
    ts.map_values(|t: webpki::TrustAnchor| anchor_data(t))
}

/// The bytes of a sequence of byte slices, element-wise.
pub open spec fn slices_data(ss: Seq<&[u8]>) -> Seq<Seq<u8>> {
    ss.map_values(|s: &[u8]| s@)
}

/// A target DNS name that has already passed the engine's syntax check.
/// It carries the engine's own validated-name type, so holding a value of
/// this type proves the name was validated.
pub struct DnsName {
    pub inner: webpki::DNSName,
}

impl View for DnsName {
    type V = Seq<char>;

    closed spec fn view(&self) -> Seq<char> {
        dns_name_chars(self.inner)
    }
}

impl DnsName {
    /// Validates `name` as a DNS name for use as a verification target.
    ///
    /// Relies on `webpki::DNSNameRef::try_from_ascii_str`: acceptance is
    /// deterministic over the characters, named by `valid_dns_name`. The
    /// engine folds ASCII capital letters to lower case when it takes
    /// ownership of the name, so the owned name holds the lower-cased
    /// characters.
    #[verifier::external_body]
    pub fn try_from_ascii_str(name: &str) -> (r: Option<DnsName>)
        ensures
            r is Some <==> valid_dns_name(name@),
            r matches Some(n) ==> dns_name_chars(n.inner) == ascii_lower(name@),
    {
        match webpki::DNSNameRef::try_from_ascii_str(name) {
            Ok(n) => Some(DnsName { inner: n.to_owned() }),
            Err(_) => None,
        }
    }
}

/// Relies on `webpki::EndEntityCert::from`: checks that `cert_der` parses
/// as a DER-encoded end-entity certificate; parsing is deterministic over
/// the bytes, named by `parses_as_end_entity`.
#[verifier::external_body]
pub(crate) fn parse_end_entity(cert_der: &[u8]) -> (r: Result<(), webpki::Error>)
    ensures
        r is Ok <==> parses_as_end_entity(cert_der@),
{
    webpki::EndEntityCert::from(cert_der).map(|_| ())
}

/// Relies on the engine's signature-algorithm statics: selects the
/// engine's algorithm corresponding to each `WebpkiAlg`.
#[verifier::external_body]
fn alg_ref(alg: WebpkiAlg) -> &'static webpki::SignatureAlgorithm {
    match alg {
        WebpkiAlg::EcdsaP256Sha256 => &webpki::ECDSA_P256_SHA256,
        WebpkiAlg::EcdsaP256Sha384 => &webpki::ECDSA_P256_SHA384,
        WebpkiAlg::EcdsaP384Sha256 => &webpki::ECDSA_P384_SHA256,
        WebpkiAlg::EcdsaP384Sha384 => &webpki::ECDSA_P384_SHA384,
        WebpkiAlg::RsaPkcs1Sha256 => &webpki::RSA_PKCS1_2048_8192_SHA256,
        WebpkiAlg::RsaPkcs1Sha384 => &webpki::RSA_PKCS1_2048_8192_SHA384,
        WebpkiAlg::RsaPkcs1Sha512 => &webpki::RSA_PKCS1_2048_8192_SHA512,
        WebpkiAlg::RsaPkcs13072Sha384 => &webpki::RSA_PKCS1_3072_8192_SHA384,
        WebpkiAlg::RsaPssSha256 => &webpki::RSA_PSS_2048_8192_SHA256_LEGACY_KEY,
        WebpkiAlg::RsaPssSha384 => &webpki::RSA_PSS_2048_8192_SHA384_LEGACY_KEY,
        WebpkiAlg::RsaPssSha512 => &webpki::RSA_PSS_2048_8192_SHA512_LEGACY_KEY,
    }
}

/// Relies on `webpki::EndEntityCert::verify_signature`: checks `signature`
/// over `msg` with the certificate's public key under the given algorithm.
/// The verdict is deterministic over the arguments, named by `sig_check`;
/// the engine reports an algorithm that does not fit the key as
/// `UnsupportedSignatureAlgorithmForPublicKey`.
#[verifier::external_body]
pub(crate) fn webpki_verify_signature(
    cert_der: &[u8],
    alg: WebpkiAlg,
    msg: &[u8],
    signature: &[u8],
) -> (r: Result<(), webpki::Error>)
    requires
        parses_as_end_entity(cert_der@),
    ensures
        r is Ok <==> sig_check(alg, cert_der@, msg@, signature@) is Accepted,
        (r == Err::<(), webpki::Error>(webpki::Error::UnsupportedSignatureAlgorithmForPublicKey))
            <==> sig_check(alg, cert_der@, msg@, signature@) is KeyMismatch,
{
    let ee = match webpki::EndEntityCert::from(cert_der) {
        Ok(c) => c,
        Err(e) => return Err(e),
    };
    ee.verify_signature(alg_ref(alg), msg, signature)
}

/// Relies on `webpki::EndEntityCert::verify_is_valid_tls_server_cert`:
/// builds and validates a server-certificate path from the end-entity
/// certificate over `intermediates` to one of `anchors` at time
/// `time_secs`, allowing the algorithms in `algs`. The verdict is
/// deterministic over those values, named by `server_chain_ok`;
/// `time_secs` is converted to the engine's time representation by
/// `webpki::Time::from_seconds_since_unix_epoch`.
#[verifier::external_body]
pub(crate) fn webpki_check_server_chain(
    ee_der: &[u8],
    anchors: &Vec<webpki::TrustAnchor>,
    intermediates: &Vec<&[u8]>,
    algs: &Vec<WebpkiAlg>,
    time_secs: u64,
) -> (r: Result<(), webpki::Error>)
    requires
        parses_as_end_entity(ee_der@),
    ensures
        r is Ok <==> server_chain_ok(
            ee_der@,
            slices_data(intermediates@),
            anchors_data(anchors@),
            algs@,
            time_secs,
        ),
{
    let ee = match webpki::EndEntityCert::from(ee_der) {
        Ok(c) => c,
        Err(e) => return Err(e),
    };
    let alg_refs: Vec<&webpki::SignatureAlgorithm> = algs.iter().map(|a| alg_ref(*a)).collect();
    ee.verify_is_valid_tls_server_cert(
        &alg_refs,
        &webpki::TLSServerTrustAnchors(anchors.as_slice()),
        intermediates.as_slice(),
        webpki::Time::from_seconds_since_unix_epoch(time_secs),
    )
}

/// Relies on `webpki::EndEntityCert::verify_is_valid_tls_client_cert`: as
/// the server check but with client-certificate semantics; the verdict is
/// named by `client_chain_ok`.
#[verifier::external_body]
pub(crate) fn webpki_check_client_chain(
    ee_der: &[u8],
    anchors: &Vec<webpki::TrustAnchor>,
    intermediates: &Vec<&[u8]>,
    algs: &Vec<WebpkiAlg>,
    time_secs: u64,
) -> (r: Result<(), webpki::Error>)
    requires
        parses_as_end_entity(ee_der@),
    ensures
        r is Ok <==> client_chain_ok(
            ee_der@,
            slices_data(intermediates@),
            anchors_data(anchors@),
            algs@,
            time_secs,
        ),
{
    let ee = match webpki::EndEntityCert::from(ee_der) {
        Ok(c) => c,
        Err(e) => return Err(e),
    };
    let alg_refs: Vec<&webpki::SignatureAlgorithm> = algs.iter().map(|a| alg_ref(*a)).collect();
    ee.verify_is_valid_tls_client_cert(
        &alg_refs,
        &webpki::TLSClientTrustAnchors(anchors.as_slice()),
        intermediates.as_slice(),
        webpki::Time::from_seconds_since_unix_epoch(time_secs),
    )
}

/// Relies on `webpki::EndEntityCert::verify_is_valid_for_dns_name`: checks
/// that the certificate's subject or subject-alternative names cover the
/// given DNS name. The verdict is deterministic over the certificate bytes
/// and the name, named by `dns_name_matches`.
#[verifier::external_body]
pub(crate) fn webpki_check_dns_name(ee_der: &[u8], dns_name: &DnsName) -> (r: Result<(), webpki::Error>)
    requires
        parses_as_end_entity(ee_der@),
    ensures
        r is Ok <==> dns_name_matches(ee_der@, dns_name@),
{
    let ee = match webpki::EndEntityCert::from(ee_der) {
        Ok(c) => c,
        Err(e) => return Err(e),
    };
    ee.verify_is_valid_for_dns_name(dns_name.inner.as_ref().into())
}

/// The spec-level algorithm allow-list used for chain validation: the
/// superset spanning TLS 1.2 and 1.3 needs.
pub open spec fn spec_supported_sig_algs() -> Seq<WebpkiAlg> {
    seq![
        WebpkiAlg::EcdsaP256Sha256,
        WebpkiAlg::EcdsaP256Sha384,
        WebpkiAlg::EcdsaP384Sha256,
        WebpkiAlg::EcdsaP384Sha384,
        WebpkiAlg::RsaPssSha256,
        WebpkiAlg::RsaPssSha384,
        WebpkiAlg::RsaPssSha512,
        WebpkiAlg::RsaPkcs1Sha256,
        WebpkiAlg::RsaPkcs1Sha384,
        WebpkiAlg::RsaPkcs1Sha512,
        WebpkiAlg::RsaPkcs13072Sha384,
    ]
}

/// The signature-verification algorithms chain validation accepts. No
/// particular order.
pub fn supported_sig_algs() -> (r: Vec<WebpkiAlg>)
    ensures
        r@ == spec_supported_sig_algs(),
{
    let mut v: Vec<WebpkiAlg> = Vec::new();
    v.push(WebpkiAlg::EcdsaP256Sha256);
    v.push(WebpkiAlg::EcdsaP256Sha384);
    v.push(WebpkiAlg::EcdsaP384Sha256);
    v.push(WebpkiAlg::EcdsaP384Sha384);
    v.push(WebpkiAlg::RsaPssSha256);
    v.push(WebpkiAlg::RsaPssSha384);
    v.push(WebpkiAlg::RsaPssSha512);
    v.push(WebpkiAlg::RsaPkcs1Sha256);
    v.push(WebpkiAlg::RsaPkcs1Sha384);
    v.push(WebpkiAlg::RsaPkcs1Sha512);
    v.push(WebpkiAlg::RsaPkcs13072Sha384);
    proof {
        assert(v@ =~= spec_supported_sig_algs());
    }
    v
}

} // verus!
