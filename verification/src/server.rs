//! Chain preparation and the built-in server-certificate verifier.
use vstd::prelude::*;

use crate::anchors::RootCertStore;
use crate::cert::Certificate;
use crate::engine;
use crate::engine::DnsName;
use crate::engine::anchors_data;
use crate::engine::dns_name_matches;
use crate::engine::parses_as_end_entity;
use crate::engine::server_chain_ok;
use crate::engine::slices_data;
use crate::engine::spec_supported_sig_algs;
use crate::error::TlsError;
use crate::time::TimeSource;
use crate::tokens::ServerCertVerified;

verus! {

/// The byte views of a sequence of certificates, element-wise.
pub open spec fn cert_views(certs: Seq<Certificate>) -> Seq<Seq<u8>> {
    certs.map_values(|c: Certificate| c@)
}

/// The anchor contents of a root store, element-wise, in store order.
pub open spec fn store_data(roots: RootCertStore) -> Seq<(Seq<u8>, Seq<u8>, Option<Seq<u8>>)> {
    roots.roots@.map_values(|a: crate::anchors::OwnedTrustAnchor| a.spec_data())
}

/// Adapt a presented certificate sequence and a trust-anchor store into
/// the external engine's input shapes: the end-entity certificate bytes
/// (always the first element, by wire convention), the intermediate
/// certificates in their given order, and the store's anchors in the
/// engine's borrowed representation, in store order. Fails with
/// `NoCertificatesPresented` exactly when the sequence is empty —
/// whatever the store holds — and with a wrapped engine error exactly
/// when the first certificate does not parse.
pub(crate) fn prepare<'a, 'b>(
    roots: &'b RootCertStore,
    presented_certs: &'a [Certificate],
) -> (r: Result<(&'a [u8], Vec<&'a [u8]>, Vec<webpki::TrustAnchor<'b>>), TlsError>)
    ensures
        presented_certs@.len() == 0 <==> r == Err::<(&'a [u8], Vec<&'a [u8]>, Vec<webpki::TrustAnchor<'b>>), TlsError>(
            TlsError::NoCertificatesPresented,
        ),
        r is Ok <==> presented_certs@.len() > 0 && parses_as_end_entity(presented_certs@[0]@),
        presented_certs@.len() > 0 && !parses_as_end_entity(presented_certs@[0]@)
            ==> (r matches Err(e) && e matches TlsError::WebPKIError(_)),
        r matches Ok(t) ==> {
            &&& t.0@ == presented_certs@[0]@
            &&& slices_data(t.1@) == cert_views(presented_certs@).skip(1)
            &&& anchors_data(t.2@) == store_data(*roots)
        },
{
    if presented_certs.len() == 0 {
        return Err(TlsError::NoCertificatesPresented);
    }

    // EE cert must appear first.
    let ee: &'a [u8] = presented_certs[0].0.as_slice();
    match engine::parse_end_entity(ee) {
        Ok(()) => {},
        Err(e) => {
            return Err(TlsError::WebPKIError(e));
        },
    }

    let mut chain: Vec<&'a [u8]> = Vec::new();
    let mut i: usize = 1;
    while i < presented_certs.len()
        invariant
            1 <= i <= presented_certs@.len(),
            chain@.len() == i - 1,
            forall|j: int| 0 <= j < chain@.len() ==> chain@[j]@ == presented_certs@[j + 1]@,
        decreases presented_certs@.len() - i,
    {
        chain.push(presented_certs[i].0.as_slice());
        i = i + 1;
    }

    let mut trustroots: Vec<webpki::TrustAnchor<'b>> = Vec::new();
    let mut k: usize = 0;
    while k < roots.roots.len()
        invariant
            k <= roots.roots@.len(),
            trustroots@.len() == k,
            forall|j: int| 0 <= j < trustroots@.len()
                ==> engine::anchor_data(#[trigger] trustroots@[j]) == roots.roots@[j].spec_data(),
        decreases roots.roots@.len() - k,
    {
        trustroots.push(roots.roots[k].to_trust_anchor());
        k = k + 1;
    }

    proof {
        assert(slices_data(chain@) =~= cert_views(presented_certs@).skip(1));
        assert(anchors_data(trustroots@) =~= store_data(*roots));
    }
    Ok((ee, chain, trustroots))
}

/// Something that can verify a server certificate chain against a set of
/// trusted roots, binding the chain to a target DNS name.
pub trait ServerCertVerifier {
    /// Verify the certificate chain `presented_certs` against the roots
    /// configured in `roots`, and that `dns_name` is quoted by the top
    /// certificate in the chain. No implementation accepts an empty
    /// chain.
    fn verify_server_cert(
        &self,
        roots: &RootCertStore,
        presented_certs: &[Certificate],
        dns_name: &DnsName,
        ocsp_response: &[u8],
    ) -> (r: Result<ServerCertVerified, TlsError>)
        ensures
            presented_certs@.len() == 0 ==> r is Err,
    ;
}

/// The default server-certificate verifier, backed by the external
/// path-validation engine.
pub struct WebPKIVerifier {
    /// Where verification takes its notion of "now" from.
    pub time: TimeSource,
}

impl WebPKIVerifier {
    /// Make a verifier that reads the wall clock.
    pub fn new() -> (r: WebPKIVerifier)
        ensures
            r.time is WallClock,
    {
        WebPKIVerifier { time: TimeSource::WallClock }
    }

    /// Make a verifier with an explicit time source.
    pub fn new_with_time(time: TimeSource) -> (r: WebPKIVerifier)
        ensures
            r.time == time,
    {
        WebPKIVerifier { time }
    }

    /// Verify the certificate chain `presented_certs` against the roots
    /// configured in `roots`, and that `dns_name` is quoted by the top
    /// certificate in the chain; that is:
    /// - the chain is signed by a trusted root of the store, and
    /// - valid at the current time of this verifier's source, and
    /// - the end-entity certificate is valid for the DNS entry.
    ///
    /// `ocsp_response` is accepted but not validated — a deferred
    /// feature of this design, deliberately not part of the verdict.
    ///
    /// A proof token is returned only when chain validation and the name
    /// binding both succeed; the name check cannot be skipped.
    pub fn verify_server_cert(
        &self,
        roots: &RootCertStore,
        presented_certs: &[Certificate],
        dns_name: &DnsName,
        ocsp_response: &[u8],
    ) -> (r: Result<ServerCertVerified, TlsError>)
        ensures
            presented_certs@.len() == 0 <==> r == Err::<ServerCertVerified, TlsError>(
                TlsError::NoCertificatesPresented,
            ),
            r is Ok ==> {
                &&& presented_certs@.len() > 0
                &&& parses_as_end_entity(presented_certs@[0]@)
                &&& dns_name_matches(presented_certs@[0]@, dns_name@)
                &&& exists|now: u64|
                    server_chain_ok(
                        presented_certs@[0]@,
                        cert_views(presented_certs@).skip(1),
                        store_data(*roots),
                        spec_supported_sig_algs(),
                        now,
                    )
            },
            self.time matches TimeSource::Fixed(now) ==> (r is Ok <==> {
                &&& presented_certs@.len() > 0
                &&& parses_as_end_entity(presented_certs@[0]@)
                &&& server_chain_ok(
                    presented_certs@[0]@,
                    cert_views(presented_certs@).skip(1),
                    store_data(*roots),
                    spec_supported_sig_algs(),
                    now,
                )
                &&& dns_name_matches(presented_certs@[0]@, dns_name@)
            }),
            r matches Err(e) ==> (e matches TlsError::WebPKIError(_)
                || e == TlsError::NoCertificatesPresented
                || e == TlsError::FailedToGetCurrentTime),
            r == Err::<ServerCertVerified, TlsError>(TlsError::FailedToGetCurrentTime)
                ==> self.time is WallClock && presented_certs@.len() > 0
                && parses_as_end_entity(presented_certs@[0]@),
    {
        let (ee, chain, trustroots) = match prepare(roots, presented_certs) {
            Ok(t) => t,
            Err(e) => {
                return Err(e);
            },
        };
        let now = match self.time.resolve() {
            Ok(t) => t,
            Err(e) => {
                return Err(e);
            },
        };
        let algs = engine::supported_sig_algs();
        match engine::webpki_check_server_chain(ee, &trustroots, &chain, &algs, now) {
            Ok(()) => {},
            Err(e) => {
                return Err(TlsError::WebPKIError(e));
            },
        }

        // `ocsp_response` is carried to this point and intentionally not
        // validated; nothing of the verdict may depend on it.
        let _ = ocsp_response;

        match engine::webpki_check_dns_name(ee, dns_name) {
            Ok(()) => Ok(ServerCertVerified::assertion()),
            Err(e) => Err(TlsError::WebPKIError(e)),
        }
    }
}

impl ServerCertVerifier for WebPKIVerifier {
    fn verify_server_cert(
        &self,
        roots: &RootCertStore,
        presented_certs: &[Certificate],
        dns_name: &DnsName,
        ocsp_response: &[u8],
    ) -> Result<ServerCertVerified, TlsError> {
        WebPKIVerifier::verify_server_cert(self, roots, presented_certs, dns_name, ocsp_response)
    }
}

} // verus!
