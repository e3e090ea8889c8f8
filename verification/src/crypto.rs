//! The cryptographic engine of the handshake: what each of the four messages
//! holds, when a received message is accepted, and which session keys follow.
//!
//! In the formulas below `K` is the network identifier, `A` and `B` are the
//! long-term signing keys of client and server, `a` and `b` their ephemeral
//! key-exchange keys, and `a.b`, `a.B`, `A.b` the three shared secrets.

use crate::bytes::{window, zeros};
use crate::primitives::{
    authenticate, memzero, sha256, spec_authenticate, spec_seal, spec_sha256,
    verify_authenticator,
};
use vstd::prelude::*;

pub mod client;
pub mod server;

pub use client::Client;
pub use server::Server;

verus! {

/// Length in bytes of the network identifier.
pub const NETWORK_IDENTIFIER_BYTES: usize = 32;

/// Length in bytes of the client's hello.
pub const MSG1_BYTES: usize = 64;

/// Length in bytes of the server's hello.
pub const MSG2_BYTES: usize = 64;

/// Length in bytes of the client's sealed proof of identity.
pub const MSG3_BYTES: usize = 112;

/// Length in bytes of the server's sealed acceptance.
pub const MSG4_BYTES: usize = 80;

/// The nonce under which both sealed messages are boxed. Each box key is
/// derived for one message of one handshake, so the nonce never repeats under
/// a key.
pub open spec fn spec_nonce() -> Seq<u8> {
    zeros(24)
}

/// A hello: the authenticator of the sender's ephemeral public key under the
/// network identifier, followed by that key.
pub open spec fn spec_hello(network: Seq<u8>, ephemeral_pk: Seq<u8>) -> Seq<u8> {
    spec_authenticate(ephemeral_pk, network)@ + ephemeral_pk
}

/// The ephemeral public key that a hello carries.
pub open spec fn spec_hello_key(msg: Seq<u8>) -> Seq<u8> {
    msg.subrange(32, 64)
}

/// Whether a received hello is authentic within the network: its first half is
/// the authenticator of its second half.
pub open spec fn spec_hello_authentic(network: Seq<u8>, msg: Seq<u8>) -> bool {
    msg.len() == 64 && msg.subrange(0, 32) == spec_authenticate(spec_hello_key(msg), network)@
}

/// The key of a sealed message: the digest of the network identifier followed
/// by the shared secrets known so far.
pub open spec fn spec_box_key(network: Seq<u8>, secrets: Seq<u8>) -> Seq<u8> {
    spec_sha256(network + secrets)@
}

/// What the client signs to prove its identity: `K | B | sha256(a.b)`.
pub open spec fn spec_proof_text(network: Seq<u8>, server_pk: Seq<u8>, shared_ephemeral: Seq<u8>)
    -> Seq<u8> {
    network + server_pk + spec_sha256(shared_ephemeral)@
}

/// What the server signs to accept the client: `K | proof | A | sha256(a.b)`.
pub open spec fn spec_acceptance_text(
    network: Seq<u8>,
    proof: Seq<u8>,
    client_pk: Seq<u8>,
    shared_ephemeral: Seq<u8>,
) -> Seq<u8> {
    network + proof + client_pk + spec_sha256(shared_ephemeral)@
}

/// The third message: the client's proof and long-term public key, sealed
/// under the key of `K | a.b | a.B`.
pub open spec fn spec_sealed_proof(
    network: Seq<u8>,
    proof: Seq<u8>,
    client_pk: Seq<u8>,
    shared_ephemeral: Seq<u8>,
    shared_server: Seq<u8>,
) -> Seq<u8> {
    spec_seal(
        proof + client_pk,
        spec_nonce(),
        spec_box_key(network, shared_ephemeral + shared_server),
    )
}

/// The fourth message: the server's signature, sealed under the key of
/// `K | a.b | a.B | A.b`.
pub open spec fn spec_sealed_acceptance(
    network: Seq<u8>,
    acceptance: Seq<u8>,
    shared_ephemeral: Seq<u8>,
    shared_server: Seq<u8>,
    shared_client: Seq<u8>,
) -> Seq<u8> {
    spec_seal(
        acceptance,
        spec_nonce(),
        spec_box_key(network, shared_ephemeral + shared_server + shared_client),
    )
}

/// The session key of one direction: the digest of the twice-hashed box key of
/// the last message followed by the long-term public key of the receiver.
pub open spec fn spec_session_key(
    network: Seq<u8>,
    shared_ephemeral: Seq<u8>,
    shared_server: Seq<u8>,
    shared_client: Seq<u8>,
    receiver_pk: Seq<u8>,
) -> Seq<u8> {
    spec_sha256(
        spec_sha256(
            spec_box_key(network, shared_ephemeral + shared_server + shared_client),
        )@ + receiver_pk,
    )@
}

/// The result of a handshake: one key for each direction and the long-term
/// public key that the peer has proved to hold.
pub struct Outcome {
    send_key: [u8; 32],
    receive_key: [u8; 32],
    peer_longterm_pk: [u8; 32],
}

/// An outcome as byte sequences.
pub struct OutcomeView {
    /// Key for what this party sends.
    pub send_key: Seq<u8>,
    /// Key for what this party receives.
    pub receive_key: Seq<u8>,
    /// The peer's verified long-term public key.
    pub peer_longterm_pk: Seq<u8>,
}

impl View for Outcome {
    type V = OutcomeView;

    closed spec fn view(&self) -> OutcomeView {
        OutcomeView {
            send_key: self.send_key@,
            receive_key: self.receive_key@,
            peer_longterm_pk: self.peer_longterm_pk@,
        }
    }
}

impl Outcome {
    /// Puts the three parts of an outcome together.
    pub(crate) fn new(
        send_key: [u8; 32],
        receive_key: [u8; 32],
        peer_longterm_pk: [u8; 32],
    ) -> (o: Outcome)
        ensures
            o@ == (OutcomeView {
                send_key: send_key@,
                receive_key: receive_key@,
                peer_longterm_pk: peer_longterm_pk@,
            }),
    {
        Outcome { send_key, receive_key, peer_longterm_pk }
    }

    /// The key for what this party sends.
    pub fn send_key(&self) -> (k: &[u8; 32])
        ensures
            k@ == self@.send_key,
    {
        &self.send_key
    }

    /// The key for what this party receives.
    pub fn receive_key(&self) -> (k: &[u8; 32])
        ensures
            k@ == self@.receive_key,
    {
        &self.receive_key
    }

    /// The peer's verified long-term public key.
    pub fn peer_longterm_pk(&self) -> (k: &[u8; 32])
        ensures
            k@ == self@.peer_longterm_pk,
    {
        &self.peer_longterm_pk
    }
}

impl Drop for Outcome {
    /// Clears the session keys.
    fn drop(&mut self)
        ensures
            final(self)@.send_key == zeros(32),
            final(self)@.receive_key == zeros(32),
        opens_invariants none
        no_unwind
    {
        memzero(&mut self.send_key);
        memzero(&mut self.receive_key);
    }
}

/// The fixed nonce of the sealed messages.
pub(crate) fn nonce() -> (n: [u8; 24])
    ensures
        n@ == spec_nonce(),
{
    let n: [u8; 24] = [0u8; 24];
    assert(n@ =~= spec_nonce());
    n
}

/// Computes the key of a sealed message from the network identifier and up to
/// three shared secrets.
pub(crate) fn box_key(
    network: &[u8; 32],
    first: &[u8; 32],
    second: &[u8; 32],
    third: Option<&[u8; 32]>,
) -> (key: [u8; 32])
    ensures
        key@ == spec_box_key(
            network@,
            match third {
                Some(t) => first@ + second@ + t@,
                None => first@ + second@,
            },
        ),
{
    let mut text: Vec<u8> = Vec::new();
    text.extend_from_slice(network);
    text.extend_from_slice(first);
    text.extend_from_slice(second);
    match third {
        Some(t) => {
            text.extend_from_slice(t);
            assert(text@ =~= network@ + (first@ + second@ + t@));
        },
        None => {
            assert(text@ =~= network@ + (first@ + second@));
        },
    }
    let key = sha256(&text);
    memzero(&mut text);
    key
}

/// Computes the session key of the direction whose receiver holds
/// `receiver_pk`.
pub(crate) fn session_key(last_box_key: &[u8; 32], receiver_pk: &[u8; 32]) -> (key: [u8; 32])
    ensures
        key@ == spec_sha256(spec_sha256(last_box_key@)@ + receiver_pk@)@,
{
    let mut secret = sha256(last_box_key);
    let mut text: Vec<u8> = Vec::new();
    text.extend_from_slice(&secret);
    text.extend_from_slice(receiver_pk);
    assert(text@ =~= secret@ + receiver_pk@);
    let key = sha256(&text);
    memzero(&mut text);
    memzero(&mut secret);
    key
}

/// Builds a hello for the given network identifier and ephemeral public key.
pub(crate) fn hello(network: &[u8; 32], ephemeral_pk: &[u8; 32]) -> (msg: [u8; 64])
    ensures
        msg@ == spec_hello(network@, ephemeral_pk@),
{
    let tag = authenticate(ephemeral_pk, network);
    let mut text: Vec<u8> = Vec::new();
    text.extend_from_slice(&tag);
    text.extend_from_slice(ephemeral_pk);
    window::<64>(&text, 0)
}

/// Verifies a received hello and returns the ephemeral public key that it
/// carries.
pub(crate) fn verify_hello(network: &[u8; 32], msg: &[u8; 64]) -> (peer: Option<[u8; 32]>)
    ensures
        match peer {
            Some(k) => spec_hello_authentic(network@, msg@) && k@ == spec_hello_key(msg@),
            None => !spec_hello_authentic(network@, msg@),
        },
{
    let tag = window::<32>(msg, 0);
    let key = window::<32>(msg, 32);
    if verify_authenticator(&tag, &key, network) {
        Some(key)
    } else {
        None
    }
}

/// Builds `K | middle | pk | sha256(a.b)` where `middle` may be empty: the text
/// of the client's proof or of the server's acceptance.
pub(crate) fn signed_text(
    network: &[u8; 32],
    middle: &[u8],
    pk: &[u8; 32],
    shared_ephemeral: &[u8; 32],
) -> (text: Vec<u8>)
    ensures
        text@ == network@ + middle@ + pk@ + spec_sha256(shared_ephemeral@)@,
{
    let digest = sha256(shared_ephemeral);
    let mut text: Vec<u8> = Vec::new();
    text.extend_from_slice(network);
    text.extend_from_slice(middle);
    text.extend_from_slice(pk);
    text.extend_from_slice(&digest);
    text
}

} // verus!
