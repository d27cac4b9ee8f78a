//! Why a handshake attempt failed.
use vstd::prelude::*;

verus! {

/// The four classes of handshake failure; each ends the attempt.
#[derive(Clone, Copy, Debug, PartialEq, Eq, Structural)]
pub enum HandshakeError {
    /// A decoded message has the wrong length.
    MalformedMessage,
    /// An AEAD tag did not verify.
    CryptoFailure,
    /// A signature or a MAC did not match.
    AuthenticationFailure,
    /// A call out of order, or a second use of a consumed secret.
    ProtocolViolation,
}

} // verus!
