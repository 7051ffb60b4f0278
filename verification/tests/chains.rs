use tls_trust::AllowAnyAnonymousOrAuthenticatedClient;
use tls_trust::AllowAnyAuthenticatedClient;
use tls_trust::Certificate;
use tls_trust::DigitallySignedStruct;
use tls_trust::DnsName;
use tls_trust::NoClientAuth;
use tls_trust::RootCertStore;
use tls_trust::SignatureScheme;
use tls_trust::TlsError;
use tls_trust::WebPKIVerifier;
use tls_trust::verify_signed_struct;
use tls_trust::verify_tls13;

/// A self-signed root, a leaf certificate for "localhost" signed by it,
/// and the leaf's key pair (PKCS#8 DER).
fn make_chain() -> (Vec<u8>, Vec<u8>, Vec<u8>) {
    let ca_key = rcgen::KeyPair::generate().unwrap();
    let mut ca_params = rcgen::CertificateParams::new(Vec::<String>::new()).unwrap();
    ca_params.is_ca = rcgen::IsCa::Ca(rcgen::BasicConstraints::Unconstrained);
    let ca_cert = ca_params.self_signed(&ca_key).unwrap();
    let ca_der = ca_cert.der().as_ref().to_vec();

    let issuer = rcgen::Issuer::new(ca_params, ca_key);
    let leaf_key = rcgen::KeyPair::generate().unwrap();
    let leaf_params = rcgen::CertificateParams::new(vec!["localhost".to_string()]).unwrap();
    let leaf_cert = leaf_params.signed_by(&leaf_key, &issuer).unwrap();
    let leaf_der = leaf_cert.der().as_ref().to_vec();

    (ca_der, leaf_der, leaf_key.serialize_der())
}

fn store_with(root_der: &[u8]) -> RootCertStore {
    let mut store = RootCertStore::empty();
    store.add(&Certificate(root_der.to_vec())).unwrap();
    store
}

fn ecdsa_sign(pkcs8: &[u8], msg: &[u8]) -> Vec<u8> {
    let rng = ring::rand::SystemRandom::new();
    let key = ring::signature::EcdsaKeyPair::from_pkcs8(
        &ring::signature::ECDSA_P256_SHA256_ASN1_SIGNING,
        pkcs8,
    )
    .unwrap();
    key.sign(&rng, msg).unwrap().as_ref().to_vec()
}

/// A root, an intermediate signed by it, and a leaf for "localhost"
/// signed by the intermediate.
fn make_three_level_chain() -> (Vec<u8>, Vec<u8>, Vec<u8>) {
    let root_key = rcgen::KeyPair::generate().unwrap();
    let mut root_params = rcgen::CertificateParams::new(Vec::<String>::new()).unwrap();
    root_params.is_ca = rcgen::IsCa::Ca(rcgen::BasicConstraints::Unconstrained);
    let root_cert = root_params.self_signed(&root_key).unwrap();
    let root_der = root_cert.der().as_ref().to_vec();
    let root_issuer = rcgen::Issuer::new(root_params, root_key);

    let int_key = rcgen::KeyPair::generate().unwrap();
    let mut int_params = rcgen::CertificateParams::new(Vec::<String>::new()).unwrap();
    int_params.is_ca = rcgen::IsCa::Ca(rcgen::BasicConstraints::Unconstrained);
    int_params
        .distinguished_name
        .push(rcgen::DnType::CommonName, "test intermediate");
    let int_cert = int_params.signed_by(&int_key, &root_issuer).unwrap();
    let int_der = int_cert.der().as_ref().to_vec();
    let int_issuer = rcgen::Issuer::new(int_params, int_key);

    let leaf_key = rcgen::KeyPair::generate().unwrap();
    let leaf_params = rcgen::CertificateParams::new(vec!["localhost".to_string()]).unwrap();
    let leaf_cert = leaf_params.signed_by(&leaf_key, &int_issuer).unwrap();
    let leaf_der = leaf_cert.der().as_ref().to_vec();

    (root_der, int_der, leaf_der)
}

#[test]
fn chain_with_intermediate_verifies_in_wire_order() {
    let (root, intermediate, leaf) = make_three_level_chain();
    let store = store_with(&root);
    let verifier = WebPKIVerifier::new();
    let dns = DnsName::try_from_ascii_str("localhost").unwrap();
    let r = verifier.verify_server_cert(
        &store,
        &[Certificate(leaf), Certificate(intermediate)],
        &dns,
        &[],
    );
    assert!(r.is_ok());
}

#[test]
fn chain_out_of_wire_order_fails() {
    let (root, intermediate, leaf) = make_three_level_chain();
    let store = store_with(&root);
    let verifier = WebPKIVerifier::new();
    let dns = DnsName::try_from_ascii_str("localhost").unwrap();
    // The end-entity certificate is always taken to be first; a chain
    // sent the other way round does not validate.
    let r = verifier.verify_server_cert(
        &store,
        &[Certificate(intermediate), Certificate(leaf)],
        &dns,
        &[],
    );
    assert!(r.is_err());
}

#[test]
fn empty_chain_fails_regardless_of_store() {
    let (ca, _leaf, _key) = make_chain();
    let verifier = WebPKIVerifier::new();
    let dns = DnsName::try_from_ascii_str("localhost").unwrap();

    let empty_store = RootCertStore::empty();
    let full_store = store_with(&ca);
    assert_eq!(
        verifier.verify_server_cert(&empty_store, &[], &dns, &[]),
        Err(TlsError::NoCertificatesPresented)
    );
    assert_eq!(
        verifier.verify_server_cert(&full_store, &[], &dns, &[]),
        Err(TlsError::NoCertificatesPresented)
    );

    let client = AllowAnyAuthenticatedClient::new(full_store);
    assert_eq!(
        client.verify_client_cert(&[], None),
        Err(TlsError::NoCertificatesPresented)
    );
}

#[test]
fn server_chain_with_matching_name_verifies() {
    let (ca, leaf, _key) = make_chain();
    let store = store_with(&ca);
    let verifier = WebPKIVerifier::new();
    let dns = DnsName::try_from_ascii_str("localhost").unwrap();
    let r = verifier.verify_server_cert(&store, &[Certificate(leaf)], &dns, &[]);
    assert!(r.is_ok());
}

#[test]
fn server_chain_with_wrong_name_fails_name_class() {
    let (ca, leaf, _key) = make_chain();
    let store = store_with(&ca);
    let verifier = WebPKIVerifier::new();
    let dns = DnsName::try_from_ascii_str("other.example").unwrap();
    let r = verifier.verify_server_cert(&store, &[Certificate(leaf)], &dns, &[]);
    assert_eq!(
        r.map(|_| ()),
        Err(TlsError::WebPKIError(webpki::Error::CertNotValidForName))
    );
}

#[test]
fn server_chain_with_untrusted_root_fails() {
    let (_ca1, leaf, _key) = make_chain();
    let (ca2, _leaf2, _key2) = make_chain();
    let store = store_with(&ca2);
    let verifier = WebPKIVerifier::new();
    let dns = DnsName::try_from_ascii_str("localhost").unwrap();
    let r = verifier.verify_server_cert(&store, &[Certificate(leaf)], &dns, &[]);
    assert_eq!(
        r.map(|_| ()),
        Err(TlsError::WebPKIError(webpki::Error::UnknownIssuer))
    );
}

#[test]
fn malformed_end_entity_fails_wrapped() {
    let (ca, _leaf, _key) = make_chain();
    let store = store_with(&ca);
    let verifier = WebPKIVerifier::new();
    let dns = DnsName::try_from_ascii_str("localhost").unwrap();
    let r = verifier.verify_server_cert(&store, &[Certificate(vec![0xde, 0xad])], &dns, &[]);
    assert!(matches!(r, Err(TlsError::WebPKIError(_))));
}

#[test]
fn expired_chain_fails_at_fixed_time() {
    let (ca, leaf, _key) = make_chain();
    let store = store_with(&ca);
    // rcgen's default validity begins in 1975; one second after the
    // epoch is before it.
    let verifier = WebPKIVerifier::new_with_time(tls_trust::TimeSource::Fixed(1));
    let dns = DnsName::try_from_ascii_str("localhost").unwrap();
    let r = verifier.verify_server_cert(&store, &[Certificate(leaf)], &dns, &[]);
    assert_eq!(
        r.map(|_| ()),
        Err(TlsError::WebPKIError(webpki::Error::CertNotValidYet))
    );
}

#[test]
fn store_add_rejects_garbage_and_keeps_store() {
    let mut store = RootCertStore::empty();
    let r = store.add(&Certificate(vec![1, 2, 3]));
    assert!(matches!(r, Err(TlsError::WebPKIError(_))));
    assert_eq!(store.len(), 0);
    assert!(store.is_empty());
}

#[test]
fn store_subjects_follow_store_order() {
    let (ca1, _l1, _k1) = make_chain();
    let (ca2, _l2, _k2) = make_chain();
    let mut store = RootCertStore::empty();
    store.add(&Certificate(ca1)).unwrap();
    store.add(&Certificate(ca2)).unwrap();
    let subjects = store.get_subjects();
    assert_eq!(subjects.len(), 2);
    assert_eq!(subjects[0], store.roots[0].subject);
    assert_eq!(subjects[1], store.roots[1].subject);
}

#[test]
fn require_auth_policy_answers() {
    let (ca, _leaf, _key) = make_chain();
    let policy = AllowAnyAuthenticatedClient::new(store_with(&ca));
    assert!(policy.offer_client_auth());
    assert_eq!(policy.client_auth_mandatory(None), Some(true));
    let subjects = policy.client_auth_root_subjects(None).unwrap();
    assert_eq!(subjects.len(), 1);
}

#[test]
fn client_chain_verifies_under_require_policy() {
    let (ca, leaf, _key) = make_chain();
    let policy = AllowAnyAuthenticatedClient::new(store_with(&ca));
    let r = policy.verify_client_cert(&[Certificate(leaf)], None);
    assert!(r.is_ok());
}

#[test]
fn client_chain_fails_at_fixed_time_before_validity() {
    let (ca, leaf, _key) = make_chain();
    let policy = AllowAnyAuthenticatedClient::new_with_time(
        store_with(&ca),
        tls_trust::TimeSource::Fixed(1),
    );
    let r = policy.verify_client_cert(&[Certificate(leaf)], None);
    assert_eq!(
        r.map(|_| ()),
        Err(TlsError::WebPKIError(webpki::Error::CertNotValidYet))
    );
}

#[test]
fn client_chain_verifies_at_fixed_time_inside_validity() {
    let (ca, leaf, _key) = make_chain();
    // Inside rcgen's default validity window (1975 to 4096): 2020-01-01.
    let policy = AllowAnyAnonymousOrAuthenticatedClient::new_with_time(
        store_with(&ca),
        tls_trust::TimeSource::Fixed(1_577_836_800),
    );
    let r = policy.verify_client_cert(&[Certificate(leaf)], None);
    assert!(r.is_ok());
}

#[test]
fn anonymous_or_authenticated_policy_is_optional_for_every_hint() {
    let (ca, leaf, _key) = make_chain();
    let policy = AllowAnyAnonymousOrAuthenticatedClient::new(store_with(&ca));
    assert!(policy.offer_client_auth());
    assert_eq!(policy.client_auth_mandatory(None), Some(false));
    let hint = DnsName::try_from_ascii_str("virtual.example").unwrap();
    assert_eq!(policy.client_auth_mandatory(Some(&hint)), Some(false));
    assert_eq!(policy.client_auth_root_subjects(None).unwrap().len(), 1);
    assert!(policy.verify_client_cert(&[Certificate(leaf)], None).is_ok());
}

#[test]
fn no_client_auth_policy_refuses_verification() {
    let policy = NoClientAuth::new();
    assert!(!policy.offer_client_auth());
    assert_eq!(policy.client_auth_mandatory(None), Some(false));
    assert_eq!(policy.client_auth_root_subjects(None), None);
    assert_eq!(
        policy.verify_client_cert(&[], None),
        Err(TlsError::ContractViolation)
    );
    assert_eq!(
        policy.verify_client_cert(&[Certificate(vec![1])], None),
        Err(TlsError::ContractViolation)
    );
}

#[test]
fn signed_struct_round_trip_verifies() {
    let (_ca, leaf, key) = make_chain();
    let message = b"interesting handshake transcript bytes";
    let sig = ecdsa_sign(&key, message);
    let dss = DigitallySignedStruct::new(SignatureScheme::ECDSA_NISTP256_SHA256, sig);
    let r = verify_signed_struct(message, &Certificate(leaf), &dss);
    assert!(r.is_ok());
}

#[test]
fn signed_struct_rejects_tampered_message() {
    let (_ca, leaf, key) = make_chain();
    let message = b"interesting handshake transcript bytes";
    let sig = ecdsa_sign(&key, message);
    let dss = DigitallySignedStruct::new(SignatureScheme::ECDSA_NISTP256_SHA256, sig);
    let r = verify_signed_struct(b"a different message", &Certificate(leaf), &dss);
    assert!(matches!(r, Err(TlsError::WebPKIError(_))));
}

#[test]
fn signed_struct_rejects_unlisted_scheme_without_engine() {
    let dss = DigitallySignedStruct::new(SignatureScheme::RSA_PKCS1_SHA1, vec![0; 64]);
    // Certificate bytes that do not parse: the scheme gate rejects
    // before the engine is consulted.
    let r = verify_signed_struct(b"msg", &Certificate(vec![0]), &dss);
    assert_eq!(
        r.map(|_| ()),
        Err(TlsError::PeerMisbehavedError(SignatureScheme::RSA_PKCS1_SHA1))
    );
}

#[test]
fn tls13_round_trip_verifies_and_pkcs1_is_refused() {
    let (_ca, leaf, key) = make_chain();
    let context = b"TLS 1.3, server CertificateVerify\x00";
    let hash = [7u8; 32];
    let payload = tls_trust::construct_tls13_message(context, &hash);
    let sig = ecdsa_sign(&key, &payload);
    let dss = DigitallySignedStruct::new(SignatureScheme::ECDSA_NISTP256_SHA256, sig.clone());
    let r = verify_tls13(&Certificate(leaf.clone()), &dss, &hash, context);
    assert!(r.is_ok());

    let pkcs1 = DigitallySignedStruct::new(SignatureScheme::RSA_PKCS1_SHA256, sig);
    let r2 = verify_tls13(&Certificate(leaf), &pkcs1, &hash, context);
    assert_eq!(
        r2.map(|_| ()),
        Err(TlsError::PeerMisbehavedError(SignatureScheme::RSA_PKCS1_SHA256))
    );
}

#[test]
fn tls13_signature_over_wrong_payload_fails() {
    let (_ca, leaf, key) = make_chain();
    let context = b"TLS 1.3, server CertificateVerify\x00";
    let hash = [7u8; 32];
    // Signed the bare hash instead of the mandated 0x20-prefixed payload.
    let sig = ecdsa_sign(&key, &hash);
    let dss = DigitallySignedStruct::new(SignatureScheme::ECDSA_NISTP256_SHA256, sig);
    let r = verify_tls13(&Certificate(leaf), &dss, &hash, context);
    assert!(matches!(r, Err(TlsError::WebPKIError(_))));
}
