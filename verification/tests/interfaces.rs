use tls_trust::AllowAnyAnonymousOrAuthenticatedClient;
use tls_trust::AllowAnyAuthenticatedClient;
use tls_trust::Certificate;
use tls_trust::ClientCertVerifier;
use tls_trust::DnsName;
use tls_trust::NoClientAuth;
use tls_trust::RootCertStore;
use tls_trust::ServerCertVerifier;
use tls_trust::TlsError;
use tls_trust::WebPKIVerifier;

fn policy_answers<V: ClientCertVerifier>(v: &V) -> (bool, Option<bool>, bool) {
    (
        v.offer_client_auth(),
        v.client_auth_mandatory(None),
        v.client_auth_root_subjects(None).is_some(),
    )
}

fn verify_through_trait<V: ServerCertVerifier>(
    v: &V,
    roots: &RootCertStore,
    certs: &[Certificate],
    dns: &DnsName,
) -> Result<(), TlsError> {
    v.verify_server_cert(roots, certs, dns, &[]).map(|_| ())
}

#[test]
fn client_policies_answer_through_the_trait() {
    let store = RootCertStore::empty();
    assert_eq!(
        policy_answers(&AllowAnyAuthenticatedClient::new(store.clone())),
        (true, Some(true), true)
    );
    assert_eq!(
        policy_answers(&AllowAnyAnonymousOrAuthenticatedClient::new(store)),
        (true, Some(false), true)
    );
    assert_eq!(policy_answers(&NoClientAuth::new()), (false, Some(false), false));
}

#[test]
fn no_client_auth_refuses_through_the_trait() {
    let policy = NoClientAuth::new();
    let r = ClientCertVerifier::verify_client_cert(&policy, &[], None);
    assert_eq!(r, Err(TlsError::ContractViolation));
}

#[test]
fn server_verifier_rejects_empty_chain_through_the_trait() {
    let verifier = WebPKIVerifier::new();
    let store = RootCertStore::empty();
    let dns = DnsName::try_from_ascii_str("localhost").unwrap();
    assert_eq!(
        verify_through_trait(&verifier, &store, &[], &dns),
        Err(TlsError::NoCertificatesPresented)
    );
}
