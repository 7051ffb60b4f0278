//! Proof tokens: zero-sized marker types that bind the fact that some
//! verification (certificate chain or handshake signature) has taken place
//! into protocol states. Each has a private unit field, so no code outside
//! this crate can build one by a struct literal; the only source of a value
//! is the `assertion` constructor, invoked on the successful path of the
//! corresponding verification function.
use vstd::prelude::*;

verus! {

/// Proof that a handshake signature was checked against the peer's
/// certificate and found valid.
#[derive(Debug, PartialEq, Eq)]
pub struct HandshakeSignatureValid(());

impl HandshakeSignatureValid {
    /// Make a `HandshakeSignatureValid`.
    pub fn assertion() -> Self {
        HandshakeSignatureValid(())
    }
}

/// Proof that a finished message was checked and found valid.
#[derive(Debug, PartialEq, Eq)]
pub struct FinishedMessageVerified(());

impl FinishedMessageVerified {
    /// Make a `FinishedMessageVerified`.
    pub fn assertion() -> Self {
        FinishedMessageVerified(())
    }
}

/// Proof that a server certificate chain was verified.
#[derive(Debug, PartialEq, Eq)]
pub struct ServerCertVerified(());

impl ServerCertVerified {
    /// Make a `ServerCertVerified`.
    pub fn assertion() -> Self {
        ServerCertVerified(())
    }
}

/// Proof that a client certificate chain was verified.
#[derive(Debug, PartialEq, Eq)]
pub struct ClientCertVerified(());

impl ClientCertVerified {
    /// Make a `ClientCertVerified`.
    pub fn assertion() -> Self {
        ClientCertVerified(())
    }
}

} // verus!
