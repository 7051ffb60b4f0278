//! The trust-anchor store: the owned form of the caller's trusted roots,
//! plus the conversion to the external engine's borrowed representation.
use vstd::prelude::*;

use crate::cert::Certificate;
use crate::engine::anchor_data;
use crate::error::TlsError;

verus! {

/// The subject names of trusted roots, advertised to a peer during
/// client-certificate negotiation.
pub type DistinguishedNames = Vec<Vec<u8>>;

/// Names the verdict of `webpki::trust_anchor_util::cert_der_as_trust_anchor`
/// on some bytes: the subject, SPKI and optional name constraints the
/// engine extracts from them, or nothing if they cannot serve as a trust
/// anchor. Extraction is deterministic over the bytes.
pub uninterp spec fn trust_anchor_of(der: Seq<u8>) -> Option<(Seq<u8>, Seq<u8>, Option<Seq<u8>>)>;

/// Relies on `webpki::trust_anchor_util::cert_der_as_trust_anchor`:
/// extracts the essential elements of a DER root certificate; the result
/// is named by `trust_anchor_of` and kept in owned form.
#[verifier::external_body]
fn parse_trust_anchor(der: &[u8]) -> (r: Result<OwnedTrustAnchor, webpki::Error>)
    ensures
        r is Ok <==> trust_anchor_of(der@) is Some,
        r matches Ok(a) ==> Some(a.spec_data()) == trust_anchor_of(der@),
{
    let ta = webpki::trust_anchor_util::cert_der_as_trust_anchor(der)?;
    Ok(OwnedTrustAnchor {
        subject: ta.subject.to_vec(),
        spki: ta.spki.to_vec(),
        name_constraints: ta.name_constraints.map(|n| n.to_vec()),
    })
}

/// A trust anchor in owned form: the subject, SPKI and optional name
/// constraints extracted from a root certificate.
#[derive(Debug, Clone, PartialEq, Eq)]
pub struct OwnedTrustAnchor {
    pub subject: Vec<u8>,
    pub spki: Vec<u8>,
    pub name_constraints: Option<Vec<u8>>,
}

impl OwnedTrustAnchor {
    /// The anchor's contents as plain values.
    pub open spec fn spec_data(&self) -> (Seq<u8>, Seq<u8>, Option<Seq<u8>>) {
        (
            self.subject@,
            self.spki@,
            match self.name_constraints {
                Some(n) => Some(n@),
                None => None,
            },
        )
    }

    /// Borrow this anchor in the external engine's representation,
    /// preserving its contents exactly.
    pub fn to_trust_anchor<'a>(&'a self) -> (r: webpki::TrustAnchor<'a>)
        ensures
            anchor_data(r) == self.spec_data(),
    {
        webpki::TrustAnchor {
            subject: self.subject.as_slice(),
            spki: self.spki.as_slice(),
            name_constraints: match &self.name_constraints {
                Some(n) => Some(n.as_slice()),
                None => None,
            },
        }
    }
}

/// A collection of trusted root certificates in minimized anchor form,
/// owned by the caller and never mutated by verification.
#[derive(Debug, Clone, PartialEq, Eq)]
pub struct RootCertStore {
    pub roots: Vec<OwnedTrustAnchor>,
}

impl RootCertStore {
    /// Make a store with no trusted roots.
    pub fn empty() -> (r: RootCertStore)
        ensures
            r.roots@.len() == 0,
    {
        RootCertStore { roots: Vec::new() }
    }

    /// The number of trusted roots.
    pub fn len(&self) -> (r: usize)
        ensures
            r == self.roots@.len(),
    {
        self.roots.len()
    }

    /// Whether the store holds no roots.
    pub fn is_empty(&self) -> (r: bool)
        ensures
            r == (self.roots@.len() == 0),
    {
        self.roots.len() == 0
    }

    /// Add one DER-encoded root certificate to the store. Succeeds
    /// exactly when the engine can extract a trust anchor from the bytes,
    /// appending that anchor; a store is never changed by a failed add.
    pub fn add(&mut self, der: &Certificate) -> (r: Result<(), TlsError>)
        ensures
            r is Ok <==> trust_anchor_of(der@) is Some,
            r matches Err(e) ==> e matches TlsError::WebPKIError(_),
            r is Err ==> *final(self) == *old(self),
            r is Ok ==> {
                &&& final(self).roots@.len() == old(self).roots@.len() + 1
                &&& final(self).roots@.subrange(0, old(self).roots@.len() as int)
                    == old(self).roots@
                &&& Some(final(self).roots@.last().spec_data()) == trust_anchor_of(der@)
            },
    {
        match parse_trust_anchor(der.0.as_slice()) {
            Ok(anchor) => {
                let ghost prior = self.roots@;
                self.roots.push(anchor);
                proof {
                    assert(self.roots@.subrange(0, prior.len() as int) =~= prior);
                }
                Ok(())
            },
            Err(e) => Err(TlsError::WebPKIError(e)),
        }
    }

    /// The subjects of all roots, in store order.
    pub fn get_subjects(&self) -> (r: DistinguishedNames)
        ensures
            r@.len() == self.roots@.len(),
            forall|i: int| 0 <= i < r@.len() ==> r@[i]@ == self.roots@[i].subject@,
    {
        let mut subjects: DistinguishedNames = Vec::new();
        let mut i: usize = 0;
        while i < self.roots.len()
            invariant
                i <= self.roots@.len(),
                subjects@.len() == i,
                forall|j: int| 0 <= j < i ==> subjects@[j]@ == self.roots@[j].subject@,
            decreases self.roots@.len() - i,
        {
            subjects.push(self.roots[i].subject.clone());
            i = i + 1;
        }
        subjects
    }
}

} // verus!
