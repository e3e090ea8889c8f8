//! The handshake of the secret-handshake protocol, version 1: two parties that
//! share a network identifier authenticate each other's long-term signing keys
//! and agree on a pair of session keys.
//!
//! The library performs no I/O. A handshake attempt says which transport
//! operation it waits for, the caller performs it on its own stream and hands
//! the result back. What is done with the session keys afterwards is up to the
//! caller.
//!
//! The cryptographic primitives are those of libsodium. A program should call
//! `sodiumoxide::init()` once before it starts its first handshake.

pub mod bytes;
pub mod client;
pub mod crypto;
pub mod errors;
pub mod handshake;
pub mod primitives;
pub mod server;
pub mod session;

pub use client::ClientHandshaker;
pub use crypto::Outcome;
pub use errors::HandshakeError;
pub use handshake::{Action, Progress, Transfer};
pub use server::ServerHandshaker;

