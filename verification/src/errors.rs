//! The ways in which a handshake attempt can fail.

use vstd::prelude::*;

verus! {

/// Why a handshake attempt ended without an outcome. `E` is the error type of
/// the caller's transport.
#[derive(Debug)]
pub enum HandshakeError<E> {
    /// The transport reported an error of its own.
    Transport(E),
    /// The transport accepted a write of zero bytes while part of a message was
    /// still unsent.
    WriteZero,
    /// The transport reached its end before a message was complete.
    UnexpectedEof,
    /// A received message did not pass cryptographic verification. Which of
    /// the checks failed is deliberately not told.
    CryptoError,
}

impl<E> HandshakeError<E> {
    /// Whether the failure came from the transport rather than from the peer's
    /// messages.
    pub fn is_transport_failure(&self) -> (b: bool)
        ensures
            b == !(*self is CryptoError),
    {
        match self {
            HandshakeError::CryptoError => false,
            _ => true,
        }
    }

    /// A short description of the failure.
    pub fn description(&self) -> (s: &'static str)
        ensures
            s@ == spec_description(*self),
    {
        match self {
            HandshakeError::Transport(_) => "transport error",
            HandshakeError::WriteZero => "failed to write whole message",
            HandshakeError::UnexpectedEof => "unexpected end of stream",
            HandshakeError::CryptoError => "cryptographic verification failed",
        }
    }
}

/// The text that [`HandshakeError::description`] returns.
pub open spec fn spec_description<E>(e: HandshakeError<E>) -> Seq<char> {
    match e {
        HandshakeError::Transport(_) => "transport error"@,
        HandshakeError::WriteZero => "failed to write whole message"@,
        HandshakeError::UnexpectedEof => "unexpected end of stream"@,
        HandshakeError::CryptoError => "cryptographic verification failed"@,
    }
}

} // verus!
