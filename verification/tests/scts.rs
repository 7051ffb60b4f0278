use ring::signature::KeyPair;
use tls_trust::Certificate;
use tls_trust::Sct;
use tls_trust::TlsError;
use tls_trust::verify_scts;

const LOG_ID: [u8; 32] = [0x42; 32];

fn leaf_cert() -> Vec<u8> {
    let key = rcgen::KeyPair::generate().unwrap();
    let params = rcgen::CertificateParams::new(vec!["localhost".to_string()]).unwrap();
    params.self_signed(&key).unwrap().der().as_ref().to_vec()
}

/// A log key pair for signing test SCTs: (PKCS#8 private key, raw public
/// key bytes as the log publishes them).
fn log_key() -> (Vec<u8>, Vec<u8>) {
    let rng = ring::rand::SystemRandom::new();
    let pkcs8 = ring::signature::EcdsaKeyPair::generate_pkcs8(
        &ring::signature::ECDSA_P256_SHA256_ASN1_SIGNING,
        &rng,
    )
    .unwrap();
    let key = ring::signature::EcdsaKeyPair::from_pkcs8(
        &ring::signature::ECDSA_P256_SHA256_ASN1_SIGNING,
        pkcs8.as_ref(),
    )
    .unwrap();
    let public = key.public_key().as_ref().to_vec();
    (pkcs8.as_ref().to_vec(), public)
}

fn trusted_log<'a>(public: &'a [u8]) -> sct::Log<'a> {
    sct::Log {
        description: "test log",
        url: "https://log.test",
        operated_by: "tests",
        key: public,
        id: LOG_ID,
        max_merge_delay: 86400,
    }
}

/// Encode a version-1 SCT for `cert`, signed with the log's key, at the
/// given timestamp (milliseconds since the Unix epoch).
fn encode_sct(pkcs8: &[u8], cert: &[u8], timestamp: u64) -> Vec<u8> {
    // The digitally-signed data: version, timestamp signature type,
    // timestamp, X.509 entry marker, 24-bit certificate length, the
    // certificate, then empty extensions.
    let mut data = vec![0u8, 0u8];
    data.extend_from_slice(&timestamp.to_be_bytes());
    data.extend_from_slice(&[0u8, 0u8]);
    let len = cert.len() as u32;
    data.extend_from_slice(&[(len >> 16) as u8, (len >> 8) as u8, len as u8]);
    data.extend_from_slice(cert);
    data.extend_from_slice(&[0u8, 0u8]);

    let rng = ring::rand::SystemRandom::new();
    let key = ring::signature::EcdsaKeyPair::from_pkcs8(
        &ring::signature::ECDSA_P256_SHA256_ASN1_SIGNING,
        pkcs8,
    )
    .unwrap();
    let sig = key.sign(&rng, &data).unwrap();

    // The SCT encoding: version, log id, timestamp, extensions,
    // signature algorithm (ECDSA with SHA-256), signature.
    let mut out = vec![0u8];
    out.extend_from_slice(&LOG_ID);
    out.extend_from_slice(&timestamp.to_be_bytes());
    out.extend_from_slice(&[0u8, 0u8]);
    out.extend_from_slice(&[0x04, 0x03]);
    let sig_len = sig.as_ref().len() as u16;
    out.extend_from_slice(&sig_len.to_be_bytes());
    out.extend_from_slice(sig.as_ref());
    out
}

#[test]
fn empty_sct_list_succeeds_trivially() {
    let cert = Certificate(leaf_cert());
    let (_pkcs8, public) = log_key();
    let log = trusted_log(&public);
    let logs = [&log];
    assert_eq!(verify_scts(&cert, &Vec::new(), &logs), Ok(()));
}

#[test]
fn empty_log_set_succeeds_trivially() {
    let cert = Certificate(leaf_cert());
    // Even a malformed record is not examined when no log is trusted.
    let scts = vec![Sct(vec![0xff, 0xff])];
    assert_eq!(verify_scts(&cert, &scts, &[]), Ok(()));
}

#[test]
fn one_valid_sct_among_unknown_logs_suffices() {
    let cert_der = leaf_cert();
    let cert = Certificate(cert_der.clone());
    let (pkcs8, public) = log_key();
    let log = trusted_log(&public);
    let logs = [&log];

    let valid = encode_sct(&pkcs8, &cert_der, 1_000_000);
    // The same record claimed for a log id nobody trusts: unknown log,
    // passed over as non-fatal.
    let mut unknown = valid.clone();
    unknown[1] ^= 0xff;
    let scts = vec![Sct(unknown), Sct(valid)];
    assert_eq!(verify_scts(&cert, &scts, &logs), Ok(()));
}

#[test]
fn all_valid_scts_succeed() {
    let cert_der = leaf_cert();
    let cert = Certificate(cert_der.clone());
    let (pkcs8, public) = log_key();
    let log = trusted_log(&public);
    let logs = [&log];
    let scts = vec![
        Sct(encode_sct(&pkcs8, &cert_der, 1_000_000)),
        Sct(encode_sct(&pkcs8, &cert_der, 2_000_000)),
    ];
    assert_eq!(verify_scts(&cert, &scts, &logs), Ok(()));
}

#[test]
fn fatal_sct_aborts_immediately_with_its_error() {
    let cert_der = leaf_cert();
    let cert = Certificate(cert_der.clone());
    let (pkcs8, public) = log_key();
    let log = trusted_log(&public);
    let logs = [&log];

    // A truncated record is a fatal, malformed SCT; the valid record
    // after it must not rescue the outcome.
    let valid = encode_sct(&pkcs8, &cert_der, 1_000_000);
    let scts = vec![Sct(vec![0u8, 0x42]), Sct(valid)];
    assert_eq!(
        verify_scts(&cert, &scts, &logs),
        Err(TlsError::InvalidSCT(sct::Error::MalformedSCT))
    );
}

#[test]
fn nothing_validated_reports_last_nonfatal_error() {
    let cert_der = leaf_cert();
    let cert = Certificate(cert_der.clone());
    let (pkcs8, public) = log_key();
    let log = trusted_log(&public);
    let logs = [&log];

    // An unknown-log record, then an unsupported-version record: both
    // non-fatal, nothing validates, the last error is reported.
    let mut unknown = encode_sct(&pkcs8, &cert_der, 1_000_000);
    unknown[1] ^= 0xff;
    let mut wrong_version = encode_sct(&pkcs8, &cert_der, 1_000_000);
    wrong_version[0] = 1;
    let scts = vec![Sct(unknown), Sct(wrong_version)];
    assert_eq!(
        verify_scts(&cert, &scts, &logs),
        Err(TlsError::InvalidSCT(sct::Error::UnsupportedSCTVersion))
    );
}

#[test]
fn fixed_time_decides_sct_timestamp_acceptance() {
    let cert_der = leaf_cert();
    let cert = Certificate(cert_der.clone());
    let (pkcs8, public) = log_key();
    let log = trusted_log(&public);
    let logs = [&log];

    // One record stamped at t=2'000'000 ms: valid when checked at or
    // after its timestamp, fatally in-the-future when checked before it.
    let scts = vec![Sct(encode_sct(&pkcs8, &cert_der, 2_000_000))];
    assert_eq!(tls_trust::verify_scts_at(&cert, &scts, &logs, 2_000_000), Ok(()));
    assert_eq!(tls_trust::verify_scts_at(&cert, &scts, &logs, 3_000_000), Ok(()));
    assert_eq!(
        tls_trust::verify_scts_at(&cert, &scts, &logs, 1_000_000),
        Err(TlsError::InvalidSCT(sct::Error::TimestampInFuture))
    );
}

#[test]
fn sct_signed_in_the_future_is_fatal() {
    let cert_der = leaf_cert();
    let cert = Certificate(cert_der.clone());
    let (pkcs8, public) = log_key();
    let log = trusted_log(&public);
    let logs = [&log];

    // A timestamp far in the future (year ~5138).
    let scts = vec![Sct(encode_sct(&pkcs8, &cert_der, 99_960_000_000_000))];
    assert_eq!(
        verify_scts(&cert, &scts, &logs),
        Err(TlsError::InvalidSCT(sct::Error::TimestampInFuture))
    );
}
