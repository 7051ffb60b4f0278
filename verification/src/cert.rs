//! Plain payload types carried through verification: certificates and
//! digitally-signed structs. Their bytes are opaque credentials; this
//! layer never parses them itself, it hands them to the external engine.
use vstd::prelude::*;

use crate::schemes::SignatureScheme;

verus! {

/// An opaque, DER-encoded X.509 certificate.
#[derive(Debug, Clone, PartialEq, Eq)]
pub struct Certificate(pub Vec<u8>);

impl View for Certificate {
    type V = Seq<u8>;

    open spec fn view(&self) -> Seq<u8> {
        self.0@
    }
}

/// A signature scheme identifier paired with the raw signature bytes, as
/// produced by handshake parsing.
#[derive(Debug, Clone, PartialEq, Eq)]
pub struct DigitallySignedStruct {
    pub scheme: SignatureScheme,
    pub sig: Vec<u8>,
}

impl DigitallySignedStruct {
    /// Pair a negotiated scheme with raw signature bytes.
    pub fn new(scheme: SignatureScheme, sig: Vec<u8>) -> (r: DigitallySignedStruct)
        ensures
            r.scheme == scheme,
            r.sig@ == sig@,
    {
        DigitallySignedStruct { scheme, sig }
    }
}

} // verus!
