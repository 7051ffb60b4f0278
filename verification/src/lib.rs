//! Certificate-trust verification layer for a TLS stack.
//!
//! This crate decides whether a presented certificate chain, a handshake
//! signature, and optional Certificate-Transparency evidence are acceptable.
//! Successful verification produces a proof token that downstream code
//! requires, so a forgotten check is a type error rather than a runtime
//! oversight. A token has no public fields and no other constructor, so
//! every place one can originate is found by auditing the calls of its
//! `assertion` constructor.

mod anchors;
mod cert;
mod client;
mod engine;
mod error;
mod schemes;
mod server;
mod sign;
mod time;
mod tokens;
mod transparency;

pub use anchors::DistinguishedNames;
pub use anchors::OwnedTrustAnchor;
pub use anchors::RootCertStore;
pub use anchors::trust_anchor_of;

pub use cert::Certificate;
pub use cert::DigitallySignedStruct;

pub use client::AllowAnyAnonymousOrAuthenticatedClient;
pub use client::AllowAnyAuthenticatedClient;
pub use client::ClientCertVerifier;
pub use client::NoClientAuth;
pub use client::sni_chars;

pub use engine::DnsName;
pub use engine::SigCheck;
pub use engine::WebpkiAlg;
pub use engine::anchor_data;
pub use engine::anchors_data;
pub use engine::client_chain_ok;
pub use engine::dns_name_matches;
pub use engine::parses_as_end_entity;
pub use engine::server_chain_ok;
pub use engine::sig_check;
pub use engine::slices_data;
pub use engine::spec_supported_sig_algs;
pub use engine::supported_sig_algs;
pub use engine::valid_dns_name;

pub use error::TlsError;

pub use schemes::SignatureScheme;
pub use schemes::convert_alg_tls13;
pub use schemes::convert_scheme;
pub use schemes::is_pkcs1_sha2;
pub use schemes::is_rsa_pss;
pub use schemes::is_supported_ecdsa;
pub use schemes::lemma_scheme_gates;
pub use schemes::spec_supported_verify_schemes;
pub use schemes::supported_verify_schemes;
pub use schemes::tls12_scheme_ok;
pub use schemes::tls13_scheme_ok;

pub use server::ServerCertVerifier;
pub use server::WebPKIVerifier;
pub use server::cert_views;
pub use server::store_data;

pub use sign::any_alg_verdict;
pub use sign::construct_tls13_message;
pub use sign::lemma_tls13_message_shape;
pub use sign::spec_algs_for;
pub use sign::tls13_transcript_message;
pub use sign::verify_signed_struct;
pub use sign::verify_tls13;

pub use time::TimeSource;
pub use time::seconds_to_millis;
pub use time::try_now;
pub use time::unix_time_millis;

pub use tokens::ClientCertVerified;
pub use tokens::FinishedMessageVerified;
pub use tokens::HandshakeSignatureValid;
pub use tokens::ServerCertVerified;

pub use transparency::Sct;
pub use transparency::SctList;
pub use transparency::SctScan;
pub use transparency::decision_of;
pub use transparency::fatal_outcome;
pub use transparency::lemma_fatal_short_circuit;
pub use transparency::lemma_one_valid_suffices;
pub use transparency::lemma_scan_no_fatal;
pub use transparency::logs_data;
pub use transparency::scan;
pub use transparency::sct_outcomes;
pub use transparency::sct_verdict;
pub use transparency::sct_views;
pub use transparency::spec_sct_fatal;
pub use transparency::verify_scts;
pub use transparency::verify_scts_at;
