use secret_handshake::errors::HandshakeError;

#[test]
fn crypto_error_is_no_transport_failure() {
    let e: HandshakeError<()> = HandshakeError::CryptoError;
    assert!(!e.is_transport_failure());
    assert_eq!(e.description(), "cryptographic verification failed");
}

#[test]
fn transport_failures_are_told_apart() {
    let e: HandshakeError<u32> = HandshakeError::Transport(5);
    assert!(e.is_transport_failure());
    assert_eq!(e.description(), "transport error");
    let e: HandshakeError<u32> = HandshakeError::WriteZero;
    assert!(e.is_transport_failure());
    assert_eq!(e.description(), "failed to write whole message");
    let e: HandshakeError<u32> = HandshakeError::UnexpectedEof;
    assert!(e.is_transport_failure());
    assert_eq!(e.description(), "unexpected end of stream");
    assert_eq!(format!("{:?}", e), "UnexpectedEof");
}
