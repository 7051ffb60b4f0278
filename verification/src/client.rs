//! The built-in client-certificate policies.
//!
//! A policy answers four questions per connection: whether to request a
//! client certificate at all; whether one is then mandatory (`None`
//! aborts the connection — callers must not read it as "optional"); which
//! trust-anchor subjects to advertise; and how to verify a presented
//! chain. The server-name hint lets one verifier apply per-virtual-host
//! policy; the built-in policies answer uniformly for every hint.
use vstd::prelude::*;

use crate::anchors::DistinguishedNames;
use crate::anchors::OwnedTrustAnchor;
use crate::anchors::RootCertStore;
use crate::cert::Certificate;
use crate::engine;
use crate::engine::DnsName;
use crate::engine::client_chain_ok;
use crate::engine::parses_as_end_entity;
use crate::engine::spec_supported_sig_algs;
use crate::error::TlsError;
use crate::server::cert_views;
use crate::server::prepare;
use crate::server::store_data;
use crate::time::TimeSource;
use crate::tokens::ClientCertVerified;

verus! {

/// The characters of an optional server-name hint.
pub open spec fn sni_chars(sni: Option<&DnsName>) -> Option<Seq<char>> {
    match sni {
        Some(n) => Some(n@),
        None => None,
    }
}

/// Something that can decide whether to request, and how to verify,
/// client certificates. One verifier instance serves many connections;
/// the server-name hint allows per-virtual-host answers.
pub trait ClientCertVerifier {
    /// Whether this policy has the server request a client certificate.
    spec fn spec_offer(&self) -> bool;

    /// This policy's answer per hint: `Some(true)` requires a client
    /// certificate, `Some(false)` makes it optional, and `None` tells
    /// the caller to abort the connection.
    spec fn spec_mandatory(&self, sni: Option<Seq<char>>) -> Option<bool>;

    /// The trust-anchor subjects this policy advertises per hint, or
    /// `None` to tell the caller to abort the connection.
    spec fn spec_root_subjects(&self, sni: Option<Seq<char>>) -> Option<Seq<Seq<u8>>>;

    /// Whether the server should request a client certificate.
    fn offer_client_auth(&self) -> (r: bool)
        ensures
            r == self.spec_offer(),
    ;

    /// Whether a client certificate is then mandatory, optional, or
    /// (`None`) the connection must be aborted.
    fn client_auth_mandatory(&self, sni: Option<&DnsName>) -> (r: Option<bool>)
        ensures
            r == self.spec_mandatory(sni_chars(sni)),
    ;

    /// The subject names to advertise when requesting client
    /// authentication; `None` means abort.
    fn client_auth_root_subjects(&self, sni: Option<&DnsName>) -> (r: Option<DistinguishedNames>)
        ensures
            r is Some <==> self.spec_root_subjects(sni_chars(sni)) is Some,
            r matches Some(names) ==> Some(names@.map_values(|n: Vec<u8>| n@))
                == self.spec_root_subjects(sni_chars(sni)),
    ;

    /// Verify a certificate chain presented by the client. No
    /// implementation accepts an empty chain.
    fn verify_client_cert(&self, presented_certs: &[Certificate], sni: Option<&DnsName>) -> (r:
        Result<ClientCertVerified, TlsError>)
        ensures
            presented_certs@.len() == 0 ==> r is Err,
    ;
}

/// A policy that requires every client to present a certificate chain
/// rooted in one of the configured trust anchors; no name checking is
/// done, since client certificates are not validated against a hostname.
pub struct AllowAnyAuthenticatedClient {
    pub roots: RootCertStore,
    /// Where chain validation takes its notion of "now" from.
    pub time: TimeSource,
}

impl AllowAnyAuthenticatedClient {
    /// Construct the policy over the given trust anchors, validating at
    /// the wall-clock time.
    pub fn new(roots: RootCertStore) -> (r: AllowAnyAuthenticatedClient)
        ensures
            r.roots == roots,
            r.time is WallClock,
    {
        AllowAnyAuthenticatedClient { roots, time: TimeSource::WallClock }
    }

    /// Construct the policy with an explicit time source.
    pub fn new_with_time(roots: RootCertStore, time: TimeSource) -> (r:
        AllowAnyAuthenticatedClient)
        ensures
            r.roots == roots,
            r.time == time,
    {
        AllowAnyAuthenticatedClient { roots, time }
    }

    /// This policy always requests a client certificate.
    pub fn offer_client_auth(&self) -> (r: bool)
        ensures
            r == true,
    {
        true
    }

    /// This policy always requires a client certificate, for every
    /// server-name hint.
    pub fn client_auth_mandatory(&self, _sni: Option<&DnsName>) -> (r: Option<bool>)
        ensures
            r == Some(true),
    {
        Some(true)
    }

    /// Advertise the subjects of the configured trust anchors, in store
    /// order.
    pub fn client_auth_root_subjects(&self, _sni: Option<&DnsName>) -> (r: Option<DistinguishedNames>)
        ensures
            r matches Some(names) && names@.len() == self.roots.roots@.len(),
            r matches Some(names) ==> forall|i: int|
                0 <= i < names@.len() ==> names@[i]@ == self.roots.roots@[i].subject@,
    {
        Some(self.roots.get_subjects())
    }

    /// Verify a client's certificate chain against the configured roots
    /// at the current time of this policy's source, with
    /// client-certificate semantics and no name binding; the server-name
    /// hint plays no part in the verdict.
    pub fn verify_client_cert(
        &self,
        presented_certs: &[Certificate],
        _sni: Option<&DnsName>,
    ) -> (r: Result<ClientCertVerified, TlsError>)
        ensures
            presented_certs@.len() == 0 <==> r == Err::<ClientCertVerified, TlsError>(
                TlsError::NoCertificatesPresented,
            ),
            r is Ok ==> {
                &&& presented_certs@.len() > 0
                &&& parses_as_end_entity(presented_certs@[0]@)
                &&& exists|now: u64|
                    client_chain_ok(
                        presented_certs@[0]@,
                        cert_views(presented_certs@).skip(1),
                        store_data(self.roots),
                        spec_supported_sig_algs(),
                        now,
                    )
            },
            self.time matches TimeSource::Fixed(now) ==> (r is Ok <==> {
                &&& presented_certs@.len() > 0
                &&& parses_as_end_entity(presented_certs@[0]@)
                &&& client_chain_ok(
                    presented_certs@[0]@,
                    cert_views(presented_certs@).skip(1),
                    store_data(self.roots),
                    spec_supported_sig_algs(),
                    now,
                )
            }),
            r matches Err(e) ==> (e matches TlsError::WebPKIError(_)
                || e == TlsError::NoCertificatesPresented
                || e == TlsError::FailedToGetCurrentTime),
            r == Err::<ClientCertVerified, TlsError>(TlsError::FailedToGetCurrentTime)
                ==> self.time is WallClock && presented_certs@.len() > 0
                && parses_as_end_entity(presented_certs@[0]@),
    {
        let (ee, chain, trustroots) = match prepare(&self.roots, presented_certs) {
            Ok(t) => t,
            Err(e) => {
                return Err(e);
            },
        };
        let now = match self.time.resolve() {
            Ok(t) => t,
            Err(e) => {
                return Err(e);
            },
        };
        let algs = engine::supported_sig_algs();
        match engine::webpki_check_client_chain(ee, &trustroots, &chain, &algs, now) {
            Ok(()) => Ok(ClientCertVerified::assertion()),
            Err(e) => Err(TlsError::WebPKIError(e)),
        }
    }
}

/// A policy that requests client authentication but allows both anonymous
/// and authenticated clients. If the client offers a certificate chain it
/// is verified exactly as by `AllowAnyAuthenticatedClient`; the handshake
/// layer is expected to treat "zero certificates presented" as the
/// anonymous case and not call `verify_client_cert` for it.
pub struct AllowAnyAnonymousOrAuthenticatedClient {
    pub inner: AllowAnyAuthenticatedClient,
}

impl AllowAnyAnonymousOrAuthenticatedClient {
    /// Construct the policy over the given trust anchors, validating at
    /// the wall-clock time.
    pub fn new(roots: RootCertStore) -> (r: AllowAnyAnonymousOrAuthenticatedClient)
        ensures
            r.inner.roots == roots,
            r.inner.time is WallClock,
    {
        AllowAnyAnonymousOrAuthenticatedClient {
            inner: AllowAnyAuthenticatedClient { roots, time: TimeSource::WallClock },
        }
    }

    /// Construct the policy with an explicit time source.
    pub fn new_with_time(roots: RootCertStore, time: TimeSource) -> (r:
        AllowAnyAnonymousOrAuthenticatedClient)
        ensures
            r.inner.roots == roots,
            r.inner.time == time,
    {
        AllowAnyAnonymousOrAuthenticatedClient {
            inner: AllowAnyAuthenticatedClient { roots, time },
        }
    }

    /// Requests a client certificate, as the inner policy does.
    pub fn offer_client_auth(&self) -> (r: bool)
        ensures
            r == true,
    {
        self.inner.offer_client_auth()
    }

    /// A client certificate is optional, for every server-name hint.
    pub fn client_auth_mandatory(&self, _sni: Option<&DnsName>) -> (r: Option<bool>)
        ensures
            r == Some(false),
    {
        Some(false)
    }

    /// Advertise the inner policy's trust-anchor subjects.
    pub fn client_auth_root_subjects(&self, sni: Option<&DnsName>) -> (r: Option<DistinguishedNames>)
        ensures
            r matches Some(names) && names@.len() == self.inner.roots.roots@.len(),
            r matches Some(names) ==> forall|i: int|
                0 <= i < names@.len() ==> names@[i]@ == self.inner.roots.roots@[i].subject@,
    {
        self.inner.client_auth_root_subjects(sni)
    }

    /// Verify a presented chain exactly as the inner policy does.
    pub fn verify_client_cert(
        &self,
        presented_certs: &[Certificate],
        sni: Option<&DnsName>,
    ) -> (r: Result<ClientCertVerified, TlsError>)
        ensures
            presented_certs@.len() == 0 <==> r == Err::<ClientCertVerified, TlsError>(
                TlsError::NoCertificatesPresented,
            ),
            r is Ok ==> {
                &&& presented_certs@.len() > 0
                &&& parses_as_end_entity(presented_certs@[0]@)
                &&& exists|now: u64|
                    client_chain_ok(
                        presented_certs@[0]@,
                        cert_views(presented_certs@).skip(1),
                        store_data(self.inner.roots),
                        spec_supported_sig_algs(),
                        now,
                    )
            },
            self.inner.time matches TimeSource::Fixed(now) ==> (r is Ok <==> {
                &&& presented_certs@.len() > 0
                &&& parses_as_end_entity(presented_certs@[0]@)
                &&& client_chain_ok(
                    presented_certs@[0]@,
                    cert_views(presented_certs@).skip(1),
                    store_data(self.inner.roots),
                    spec_supported_sig_algs(),
                    now,
                )
            }),
            r matches Err(e) ==> (e matches TlsError::WebPKIError(_)
                || e == TlsError::NoCertificatesPresented
                || e == TlsError::FailedToGetCurrentTime),
            r == Err::<ClientCertVerified, TlsError>(TlsError::FailedToGetCurrentTime)
                ==> self.inner.time is WallClock && presented_certs@.len() > 0
                && parses_as_end_entity(presented_certs@[0]@),
    {
        self.inner.verify_client_cert(presented_certs, sni)
    }
}

/// The policy that turns client authentication off entirely.
pub struct NoClientAuth;

impl NoClientAuth {
    /// Construct the policy.
    pub fn new() -> NoClientAuth {
        NoClientAuth
    }

    /// This policy never requests a client certificate.
    pub fn offer_client_auth(&self) -> (r: bool)
        ensures
            r == false,
    {
        false
    }

    /// Not consulted when client authentication is off; answers
    /// "optional" for every hint, consistent with never offering.
    pub fn client_auth_mandatory(&self, _sni: Option<&DnsName>) -> (r: Option<bool>)
        ensures
            r == Some(false),
    {
        Some(false)
    }

    /// Calling this on a policy that never requests client authentication
    /// is a contract violation by the caller; `None` makes the caller
    /// abort the connection rather than proceed unauthenticated.
    pub fn client_auth_root_subjects(&self, _sni: Option<&DnsName>) -> (r: Option<DistinguishedNames>)
        ensures
            r is None,
    {
        None
    }

    /// Calling this on a policy that never requests client authentication
    /// is a contract violation by the caller: it always fails with
    /// `ContractViolation`, and never yields a proof token.
    pub fn verify_client_cert(
        &self,
        _presented_certs: &[Certificate],
        _sni: Option<&DnsName>,
    ) -> (r: Result<ClientCertVerified, TlsError>)
        ensures
            r == Err::<ClientCertVerified, TlsError>(TlsError::ContractViolation),
    {
        Err(TlsError::ContractViolation)
    }
}

impl ClientCertVerifier for AllowAnyAuthenticatedClient {
    open spec fn spec_offer(&self) -> bool {
        true
    }

    open spec fn spec_mandatory(&self, sni: Option<Seq<char>>) -> Option<bool> {
        Some(true)
    }

    open spec fn spec_root_subjects(&self, sni: Option<Seq<char>>) -> Option<Seq<Seq<u8>>> {
        Some(self.roots.roots@.map_values(|a: OwnedTrustAnchor| a.subject@))
    }

    fn offer_client_auth(&self) -> bool {
        true
    }

    fn client_auth_mandatory(&self, sni: Option<&DnsName>) -> Option<bool> {
        Some(true)
    }

    fn client_auth_root_subjects(&self, sni: Option<&DnsName>) -> Option<DistinguishedNames> {
        let names = self.roots.get_subjects();
        proof {
            assert(names@.map_values(|n: Vec<u8>| n@) =~= self.roots.roots@.map_values(
                |a: OwnedTrustAnchor| a.subject@,
            ));
        }
        Some(names)
    }

    fn verify_client_cert(&self, presented_certs: &[Certificate], sni: Option<&DnsName>) -> Result<
        ClientCertVerified,
        TlsError,
    > {
        AllowAnyAuthenticatedClient::verify_client_cert(self, presented_certs, sni)
    }
}

impl ClientCertVerifier for AllowAnyAnonymousOrAuthenticatedClient {
    open spec fn spec_offer(&self) -> bool {
        true
    }

    open spec fn spec_mandatory(&self, sni: Option<Seq<char>>) -> Option<bool> {
        Some(false)
    }

    open spec fn spec_root_subjects(&self, sni: Option<Seq<char>>) -> Option<Seq<Seq<u8>>> {
        Some(self.inner.roots.roots@.map_values(|a: OwnedTrustAnchor| a.subject@))
    }

    fn offer_client_auth(&self) -> bool {
        true
    }

    fn client_auth_mandatory(&self, sni: Option<&DnsName>) -> Option<bool> {
        Some(false)
    }

    fn client_auth_root_subjects(&self, sni: Option<&DnsName>) -> Option<DistinguishedNames> {
        let names = self.inner.roots.get_subjects();
        proof {
            assert(names@.map_values(|n: Vec<u8>| n@) =~= self.inner.roots.roots@.map_values(
                |a: OwnedTrustAnchor| a.subject@,
            ));
        }
        Some(names)
    }

    fn verify_client_cert(&self, presented_certs: &[Certificate], sni: Option<&DnsName>) -> Result<
        ClientCertVerified,
        TlsError,
    > {
        AllowAnyAnonymousOrAuthenticatedClient::verify_client_cert(self, presented_certs, sni)
    }
}

impl ClientCertVerifier for NoClientAuth {
    open spec fn spec_offer(&self) -> bool {
        false
    }

    open spec fn spec_mandatory(&self, sni: Option<Seq<char>>) -> Option<bool> {
        Some(false)
    }

    open spec fn spec_root_subjects(&self, sni: Option<Seq<char>>) -> Option<Seq<Seq<u8>>> {
        None
    }

    fn offer_client_auth(&self) -> bool {
        false
    }

    fn client_auth_mandatory(&self, sni: Option<&DnsName>) -> Option<bool> {
        Some(false)
    }

    fn client_auth_root_subjects(&self, sni: Option<&DnsName>) -> Option<DistinguishedNames> {
        None
    }

    fn verify_client_cert(&self, presented_certs: &[Certificate], sni: Option<&DnsName>) -> Result<
        ClientCertVerified,
        TlsError,
    > {
        Err(TlsError::ContractViolation)
    }
}

} // verus!
