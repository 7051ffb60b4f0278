use tls_trust::DigitallySignedStruct;
use tls_trust::DnsName;
use tls_trust::SignatureScheme;
use tls_trust::TimeSource;
use tls_trust::TlsError;
use tls_trust::construct_tls13_message;
use tls_trust::convert_alg_tls13;
use tls_trust::convert_scheme;
use tls_trust::supported_verify_schemes;
use tls_trust::unix_time_millis;

#[test]
fn tls12_gate_accepts_allow_list() {
    let accepted = [
        SignatureScheme::ECDSA_NISTP256_SHA256,
        SignatureScheme::ECDSA_NISTP384_SHA384,
        SignatureScheme::RSA_PKCS1_SHA256,
        SignatureScheme::RSA_PKCS1_SHA384,
        SignatureScheme::RSA_PKCS1_SHA512,
        SignatureScheme::RSA_PSS_SHA256,
        SignatureScheme::RSA_PSS_SHA384,
        SignatureScheme::RSA_PSS_SHA512,
    ];
    for s in accepted {
        assert_eq!(convert_scheme(s), Ok(()));
    }
}

#[test]
fn tls12_gate_rejects_and_names_offending_scheme() {
    let rejected = [
        SignatureScheme::RSA_PKCS1_SHA1,
        SignatureScheme::ECDSA_SHA1_Legacy,
        SignatureScheme::ECDSA_NISTP521_SHA512,
        SignatureScheme::ED25519,
        SignatureScheme::ED448,
        SignatureScheme::Unknown(0x1234),
    ];
    for s in rejected {
        assert_eq!(convert_scheme(s), Err(TlsError::PeerMisbehavedError(s)));
    }
}

#[test]
fn tls13_gate_accepts_only_ecdsa_and_pss() {
    let accepted = [
        SignatureScheme::ECDSA_NISTP256_SHA256,
        SignatureScheme::ECDSA_NISTP384_SHA384,
        SignatureScheme::RSA_PSS_SHA256,
        SignatureScheme::RSA_PSS_SHA384,
        SignatureScheme::RSA_PSS_SHA512,
    ];
    for s in accepted {
        assert_eq!(convert_alg_tls13(s), Ok(()));
    }
    let rejected = [
        SignatureScheme::RSA_PKCS1_SHA1,
        SignatureScheme::ECDSA_SHA1_Legacy,
        SignatureScheme::ECDSA_NISTP521_SHA512,
        SignatureScheme::ED25519,
        SignatureScheme::ED448,
        SignatureScheme::Unknown(0xfe0f),
    ];
    for s in rejected {
        assert_eq!(convert_alg_tls13(s), Err(TlsError::PeerMisbehavedError(s)));
    }
}

#[test]
fn pkcs1_passes_tls12_gate_and_fails_tls13_gate() {
    let pkcs1 = [
        SignatureScheme::RSA_PKCS1_SHA256,
        SignatureScheme::RSA_PKCS1_SHA384,
        SignatureScheme::RSA_PKCS1_SHA512,
    ];
    for s in pkcs1 {
        assert_eq!(convert_scheme(s), Ok(()));
        assert_eq!(convert_alg_tls13(s), Err(TlsError::PeerMisbehavedError(s)));
    }
}

#[test]
fn supported_verify_schemes_exact_list() {
    let schemes = supported_verify_schemes();
    assert_eq!(
        schemes,
        vec![
            SignatureScheme::ECDSA_NISTP384_SHA384,
            SignatureScheme::ECDSA_NISTP256_SHA256,
            SignatureScheme::RSA_PSS_SHA512,
            SignatureScheme::RSA_PSS_SHA384,
            SignatureScheme::RSA_PSS_SHA256,
            SignatureScheme::RSA_PKCS1_SHA512,
            SignatureScheme::RSA_PKCS1_SHA384,
            SignatureScheme::RSA_PKCS1_SHA256,
        ]
    );
}

#[test]
fn tls13_message_has_64_space_prefix_then_context_then_hash() {
    let context = b"TLS 1.3, server CertificateVerify\x00";
    let hash = [0xabu8, 0xcd, 0xef, 0x01];
    let m = construct_tls13_message(context, &hash);
    assert_eq!(m.len(), 64 + context.len() + hash.len());
    for i in 0..64 {
        assert_eq!(m[i], 0x20);
    }
    assert_eq!(&m[64..64 + context.len()], context.as_slice());
    assert_eq!(&m[64 + context.len()..], hash.as_slice());
}

#[test]
fn tls13_message_shape_for_minimal_inputs() {
    let context = [0u8];
    let hash = [0x5au8];
    let m = construct_tls13_message(&context, &hash);
    assert_eq!(m.len(), 66);
    assert!(m[..64].iter().all(|b| *b == 0x20));
    assert_eq!(m[64], 0x00);
    assert_eq!(m[65], 0x5a);
}

#[test]
fn dns_name_accepts_valid_and_rejects_invalid() {
    assert!(DnsName::try_from_ascii_str("localhost").is_some());
    assert!(DnsName::try_from_ascii_str("example.com").is_some());
    // Capital letters are accepted; the owned name holds them folded to
    // lower case.
    assert!(DnsName::try_from_ascii_str("EXAMPLE.Com").is_some());
    assert!(DnsName::try_from_ascii_str("").is_none());
    assert!(DnsName::try_from_ascii_str("bad name with spaces").is_none());
    assert!(DnsName::try_from_ascii_str("1.2.3.4").is_none());
}

#[test]
fn seconds_to_millis_scales_and_checks_overflow() {
    assert_eq!(tls_trust::seconds_to_millis(0), Ok(0));
    assert_eq!(tls_trust::seconds_to_millis(5), Ok(5000));
    assert_eq!(
        tls_trust::seconds_to_millis(u64::MAX / 1000),
        Ok((u64::MAX / 1000) * 1000)
    );
    assert_eq!(
        tls_trust::seconds_to_millis(u64::MAX / 1000 + 1),
        Err(TlsError::FailedToGetCurrentTime)
    );
    assert_eq!(
        tls_trust::seconds_to_millis(u64::MAX),
        Err(TlsError::FailedToGetCurrentTime)
    );
}

#[test]
fn unix_time_millis_is_whole_seconds() {
    let ms = unix_time_millis().unwrap();
    assert_eq!(ms % 1000, 0);
    // After 2020-01-01 and far before the year 10000.
    assert!(ms > 1_577_836_800_000);
    assert!(ms < 253_402_300_800_000);
}

#[test]
fn fixed_time_source_resolves_to_its_value() {
    assert_eq!(TimeSource::Fixed(123_456).resolve(), Ok(123_456));
    assert!(TimeSource::WallClock.resolve().unwrap() > 1_577_836_800);
}

#[test]
fn digitally_signed_struct_keeps_scheme_and_bytes() {
    let dss = DigitallySignedStruct::new(SignatureScheme::RSA_PSS_SHA256, vec![1, 2, 3]);
    assert_eq!(dss.scheme, SignatureScheme::RSA_PSS_SHA256);
    assert_eq!(dss.sig, vec![1, 2, 3]);
}
