//! The client's side of the cryptographic engine.

use crate::bytes::{is_zero, lemma_all_zero, window, zeros};
use crate::crypto::{
    box_key, hello, nonce, session_key, signed_text, spec_acceptance_text, spec_box_key,
    spec_hello, spec_hello_authentic, spec_hello_key, spec_nonce, spec_proof_text,
    spec_sealed_proof, spec_session_key, verify_hello, Outcome, OutcomeView,
    NETWORK_IDENTIFIER_BYTES,
};
use crate::primitives::{
    memzero, open, scalarmult, seal, sign_detached, spec_open, spec_scalarmult,
    spec_sign_detached, spec_to_curve25519_pk, spec_to_curve25519_sk, spec_verify_detached,
    to_curve25519_pk, to_curve25519_sk, verify_detached,
};
use vstd::prelude::*;

verus! {

/// What a client's engine holds, as byte sequences.
pub struct ClientView {
    pub network: Seq<u8>,
    pub longterm_pk: Seq<u8>,
    pub longterm_sk: Seq<u8>,
    pub ephemeral_pk: Seq<u8>,
    pub ephemeral_sk: Seq<u8>,
    pub server_longterm_pk: Seq<u8>,
    /// The server's ephemeral public key, once its hello was accepted.
    pub server_ephemeral_pk: Seq<u8>,
    /// `a.b`
    pub shared_ephemeral: Seq<u8>,
    /// `a.B`
    pub shared_server: Seq<u8>,
    /// `A.b`
    pub shared_client: Seq<u8>,
    /// The signature sent in the third message.
    pub proof: Seq<u8>,
}

/// The engine of a client that has all fields cleared.
pub open spec fn spec_client_wiped() -> ClientView {
    ClientView {
        network: zeros(32),
        longterm_pk: zeros(32),
        longterm_sk: zeros(64),
        ephemeral_pk: zeros(32),
        ephemeral_sk: zeros(32),
        server_longterm_pk: zeros(32),
        server_ephemeral_pk: zeros(32),
        shared_ephemeral: zeros(32),
        shared_server: zeros(32),
        shared_client: zeros(32),
        proof: zeros(64),
    }
}

/// The engine of a client that has its keys and has seen no message yet.
pub open spec fn spec_client_new(
    network: Seq<u8>,
    longterm_pk: Seq<u8>,
    longterm_sk: Seq<u8>,
    ephemeral_pk: Seq<u8>,
    ephemeral_sk: Seq<u8>,
    server_longterm_pk: Seq<u8>,
) -> ClientView {
    ClientView {
        network,
        longterm_pk,
        longterm_sk,
        ephemeral_pk,
        ephemeral_sk,
        server_longterm_pk,
        ..spec_client_wiped()
    }
}

/// The first message, from the client.
pub open spec fn spec_msg1(c: ClientView) -> Seq<u8> {
    spec_hello(c.network, c.ephemeral_pk)
}

/// The client's engine after it has accepted `msg` as the server's hello, or
/// `None` where it rejects the message: the hello must be authentic, and each of
/// the three shared secrets must exist.
pub open spec fn spec_client_verify_msg2(c: ClientView, msg: Seq<u8>) -> Option<ClientView> {
    let b = spec_hello_key(msg);
    if !spec_hello_authentic(c.network, msg) {
        None
    } else if spec_scalarmult(c.ephemeral_sk, b) is None {
        None
    } else if spec_to_curve25519_pk(c.server_longterm_pk) is None {
        None
    } else if spec_scalarmult(c.ephemeral_sk, spec_to_curve25519_pk(c.server_longterm_pk)->0@)
        is None {
        None
    } else if spec_to_curve25519_sk(c.longterm_sk) is None {
        None
    } else if spec_scalarmult(spec_to_curve25519_sk(c.longterm_sk)->0@, b) is None {
        None
    } else {
        Some(
            ClientView {
                server_ephemeral_pk: b,
                shared_ephemeral: spec_scalarmult(c.ephemeral_sk, b)->0@,
                shared_server: spec_scalarmult(
                    c.ephemeral_sk,
                    spec_to_curve25519_pk(c.server_longterm_pk)->0@,
                )->0@,
                shared_client: spec_scalarmult(spec_to_curve25519_sk(c.longterm_sk)->0@, b)->0@,
                ..c
            },
        )
    }
}

/// The signature by which the client proves its identity.
pub open spec fn spec_client_proof(c: ClientView) -> Seq<u8> {
    spec_sign_detached(
        spec_proof_text(c.network, c.server_longterm_pk, c.shared_ephemeral),
        c.longterm_sk,
    )@
}

/// The third message, from the client.
pub open spec fn spec_msg3(c: ClientView) -> Seq<u8> {
    spec_sealed_proof(
        c.network,
        spec_client_proof(c),
        c.longterm_pk,
        c.shared_ephemeral,
        c.shared_server,
    )
}

/// Whether the client accepts `msg` as the server's acceptance: the box opens
/// and holds the server's signature of the acceptance text.
pub open spec fn spec_client_verify_msg4(c: ClientView, msg: Seq<u8>) -> bool {
    match spec_open(
        msg,
        spec_nonce(),
        spec_box_key(c.network, c.shared_ephemeral + c.shared_server + c.shared_client),
    ) {
        Some(sig) => sig.len() == 64 && spec_verify_detached(
            sig,
            spec_acceptance_text(c.network, c.proof, c.longterm_pk, c.shared_ephemeral),
            c.server_longterm_pk,
        ),
        None => false,
    }
}

/// The outcome that the client derives: it sends under the key of the
/// server's identity and receives under the key of its own.
pub open spec fn spec_client_outcome(c: ClientView) -> OutcomeView {
    OutcomeView {
        send_key: spec_session_key(
            c.network,
            c.shared_ephemeral,
            c.shared_server,
            c.shared_client,
            c.server_longterm_pk,
        ),
        receive_key: spec_session_key(
            c.network,
            c.shared_ephemeral,
            c.shared_server,
            c.shared_client,
            c.longterm_pk,
        ),
        peer_longterm_pk: c.server_longterm_pk,
    }
}

/// The keys and shared secrets of a client for one handshake.
pub struct Client {
    network: [u8; 32],
    longterm_pk: [u8; 32],
    longterm_sk: [u8; 64],
    ephemeral_pk: [u8; 32],
    ephemeral_sk: [u8; 32],
    server_longterm_pk: [u8; 32],
    server_ephemeral_pk: [u8; 32],
    shared_ephemeral: [u8; 32],
    shared_server: [u8; 32],
    shared_client: [u8; 32],
    proof: [u8; 64],
}

impl View for Client {
    type V = ClientView;

    closed spec fn view(&self) -> ClientView {
        ClientView {
            network: self.network@,
            longterm_pk: self.longterm_pk@,
            longterm_sk: self.longterm_sk@,
            ephemeral_pk: self.ephemeral_pk@,
            ephemeral_sk: self.ephemeral_sk@,
            server_longterm_pk: self.server_longterm_pk@,
            server_ephemeral_pk: self.server_ephemeral_pk@,
            shared_ephemeral: self.shared_ephemeral@,
            shared_server: self.shared_server@,
            shared_client: self.shared_client@,
            proof: self.proof@,
        }
    }
}

impl Client {
    /// Copies the keys of one handshake: the network identifier, the client's
    /// long-term and ephemeral key pairs, and the long-term public key of the
    /// server that it expects.
    pub fn new(
        network_identifier: &[u8; NETWORK_IDENTIFIER_BYTES],
        client_longterm_pk: &[u8; 32],
        client_longterm_sk: &[u8; 64],
        client_ephemeral_pk: &[u8; 32],
        client_ephemeral_sk: &[u8; 32],
        server_longterm_pk: &[u8; 32],
    ) -> (c: Client)
        ensures
            c@ == spec_client_new(
                network_identifier@,
                client_longterm_pk@,
                client_longterm_sk@,
                client_ephemeral_pk@,
                client_ephemeral_sk@,
                server_longterm_pk@,
            ),
    {
        let c = Client {
            network: *network_identifier,
            longterm_pk: *client_longterm_pk,
            longterm_sk: *client_longterm_sk,
            ephemeral_pk: *client_ephemeral_pk,
            ephemeral_sk: *client_ephemeral_sk,
            server_longterm_pk: *server_longterm_pk,
            server_ephemeral_pk: [0u8; 32],
            shared_ephemeral: [0u8; 32],
            shared_server: [0u8; 32],
            shared_client: [0u8; 32],
            proof: [0u8; 64],
        };
        assert(c.server_ephemeral_pk@ =~= zeros(32));
        assert(c.shared_ephemeral@ =~= zeros(32));
        assert(c.shared_server@ =~= zeros(32));
        assert(c.shared_client@ =~= zeros(32));
        assert(c.proof@ =~= zeros(64));
        c
    }

    /// Builds the first message.
    pub fn create_msg1(&self) -> (msg: [u8; 64])
        ensures
            msg@ == spec_msg1(self@),
    {
        hello(&self.network, &self.ephemeral_pk)
    }

    /// Verifies the server's hello and derives the three shared secrets from
    /// it: the server's ephemeral public key, then `a.b`, `a.B` and `A.b`.
    pub(crate) fn hello_secrets(&self, msg: &[u8; 64]) -> (secrets: Option<
        ([u8; 32], [u8; 32], [u8; 32], [u8; 32]),
    >)
        ensures
            match secrets {
                Some(s) => spec_client_verify_msg2(self@, msg@) == Some(
                    ClientView {
                        server_ephemeral_pk: s.0@,
                        shared_ephemeral: s.1@,
                        shared_server: s.2@,
                        shared_client: s.3@,
                        ..self@
                    },
                ),
                None => spec_client_verify_msg2(self@, msg@) is None,
            },
    {
        let server_ephemeral_pk = match verify_hello(&self.network, msg) {
            Some(k) => k,
            None => { return None; },
        };
        let shared_ephemeral = match scalarmult(&self.ephemeral_sk, &server_ephemeral_pk) {
            Some(s) => s,
            None => { return None; },
        };
        let server_curve = match to_curve25519_pk(&self.server_longterm_pk) {
            Some(k) => k,
            None => { return None; },
        };
        let shared_server = match scalarmult(&self.ephemeral_sk, &server_curve) {
            Some(s) => s,
            None => { return None; },
        };
        let mut client_curve = match to_curve25519_sk(&self.longterm_sk) {
            Some(k) => k,
            None => { return None; },
        };
        let derived = scalarmult(&client_curve, &server_ephemeral_pk);
        memzero(&mut client_curve);
        match derived {
            Some(shared_client) => Some(
                (server_ephemeral_pk, shared_ephemeral, shared_server, shared_client),
            ),
            None => None,
        }
    }

    /// Keeps what was derived from the server's hello.
    pub(crate) fn keep_secrets(&mut self, secrets: ([u8; 32], [u8; 32], [u8; 32], [u8; 32]))
        ensures
            final(self)@ == (ClientView {
                server_ephemeral_pk: secrets.0@,
                shared_ephemeral: secrets.1@,
                shared_server: secrets.2@,
                shared_client: secrets.3@,
                ..old(self)@
            }),
        no_unwind
    {
        self.server_ephemeral_pk = secrets.0;
        self.shared_ephemeral = secrets.1;
        self.shared_server = secrets.2;
        self.shared_client = secrets.3;
    }

    /// Verifies the server's hello. On success the three shared secrets are
    /// kept; on failure nothing changes.
    pub fn verify_msg2(&mut self, msg: &[u8; 64]) -> (ok: bool)
        ensures
            match spec_client_verify_msg2(old(self)@, msg@) {
                Some(after) => ok && final(self)@ == after,
                None => !ok && final(self)@ == old(self)@,
            },
    {
        match self.hello_secrets(msg) {
            Some(secrets) => {
                let mut secrets = secrets;
                self.keep_secrets(secrets);
                memzero(&mut secrets.1);
                memzero(&mut secrets.2);
                memzero(&mut secrets.3);
                true
            },
            None => false,
        }
    }

    /// Signs the proof of identity.
    pub(crate) fn sign_proof(&self) -> (proof: [u8; 64])
        ensures
            proof@ == spec_client_proof(self@),
    {
        let text = signed_text(
            &self.network,
            &[],
            &self.server_longterm_pk,
            &self.shared_ephemeral,
        );
        assert(text@ =~= spec_proof_text(
            self@.network,
            self@.server_longterm_pk,
            self@.shared_ephemeral,
        ));
        sign_detached(&text, &self.longterm_sk)
    }

    /// Keeps the signature that goes into the third message.
    pub(crate) fn keep_proof(&mut self, proof: [u8; 64])
        ensures
            final(self)@ == (ClientView { proof: proof@, ..old(self)@ }),
        no_unwind
    {
        self.proof = proof;
    }

    /// Seals the kept signature and the client's long-term public key into the
    /// third message.
    pub(crate) fn seal_proof(&self) -> (msg: [u8; 112])
        ensures
            msg@ == spec_sealed_proof(
                self@.network,
                self@.proof,
                self@.longterm_pk,
                self@.shared_ephemeral,
                self@.shared_server,
            ),
    {
        let mut content: Vec<u8> = Vec::new();
        content.extend_from_slice(&self.proof);
        content.extend_from_slice(&self.longterm_pk);
        assert(content@ =~= self.proof@ + self.longterm_pk@);
        let mut key = box_key(&self.network, &self.shared_ephemeral, &self.shared_server, None);
        let boxed = seal(&content, &nonce(), &key);
        memzero(&mut key);
        let msg = window::<112>(&boxed, 0);
        assert(msg@ =~= boxed@);
        msg
    }

    /// Signs the proof of identity, keeps the signature and returns the third
    /// message.
    pub fn create_msg3(&mut self) -> (msg: [u8; 112])
        ensures
            msg@ == spec_msg3(old(self)@),
            final(self)@ == (ClientView { proof: spec_client_proof(old(self)@), ..old(self)@ }),
    {
        let proof = self.sign_proof();
        self.keep_proof(proof);
        self.seal_proof()
    }

    /// Verifies the server's acceptance.
    pub fn verify_msg4(&self, msg: &[u8; 80]) -> (ok: bool)
        ensures
            ok == spec_client_verify_msg4(self@, msg@),
    {
        let mut key = box_key(
            &self.network,
            &self.shared_ephemeral,
            &self.shared_server,
            Some(&self.shared_client),
        );
        let opened = open(msg, &nonce(), &key);
        memzero(&mut key);
        match opened {
            Some(content) => {
                let sig = window::<64>(&content, 0);
                assert(sig@ =~= content@);
                let text = signed_text(
                    &self.network,
                    &self.proof,
                    &self.longterm_pk,
                    &self.shared_ephemeral,
                );
                verify_detached(&sig, &text, &self.server_longterm_pk)
            },
            None => false,
        }
    }

    /// Derives the session keys. They are those of a completed handshake only
    /// after the server's acceptance was verified.
    pub fn outcome(&self) -> (o: Outcome)
        ensures
            o@ == spec_client_outcome(self@),
    {
        let mut key = box_key(
            &self.network,
            &self.shared_ephemeral,
            &self.shared_server,
            Some(&self.shared_client),
        );
        let send_key = session_key(&key, &self.server_longterm_pk);
        let receive_key = session_key(&key, &self.longterm_pk);
        memzero(&mut key);
        Outcome::new(send_key, receive_key, self.server_longterm_pk)
    }

    /// Overwrites every key and secret with zero bytes.
    pub fn wipe(&mut self)
        ensures
            final(self)@ == spec_client_wiped(),
        opens_invariants none
        no_unwind
    {
        memzero(&mut self.network);
        memzero(&mut self.longterm_pk);
        memzero(&mut self.longterm_sk);
        memzero(&mut self.ephemeral_pk);
        memzero(&mut self.ephemeral_sk);
        memzero(&mut self.server_longterm_pk);
        memzero(&mut self.server_ephemeral_pk);
        memzero(&mut self.shared_ephemeral);
        memzero(&mut self.shared_server);
        memzero(&mut self.shared_client);
        memzero(&mut self.proof);
        assert(self.network@ =~= zeros(32));
        assert(self.longterm_pk@ =~= zeros(32));
        assert(self.longterm_sk@ =~= zeros(64));
        assert(self.ephemeral_pk@ =~= zeros(32));
        assert(self.ephemeral_sk@ =~= zeros(32));
        assert(self.server_longterm_pk@ =~= zeros(32));
        assert(self.server_ephemeral_pk@ =~= zeros(32));
        assert(self.shared_ephemeral@ =~= zeros(32));
        assert(self.shared_server@ =~= zeros(32));
        assert(self.shared_client@ =~= zeros(32));
        assert(self.proof@ =~= zeros(64));
    }
    /// Whether every key and secret is zero.
    pub fn is_wiped(&self) -> (wiped: bool)
        ensures
            wiped == (self@ == spec_client_wiped()),
    {
        proof {
            lemma_all_zero(self.network@);
            lemma_all_zero(self.longterm_pk@);
            lemma_all_zero(self.longterm_sk@);
            lemma_all_zero(self.ephemeral_pk@);
            lemma_all_zero(self.ephemeral_sk@);
            lemma_all_zero(self.server_longterm_pk@);
            lemma_all_zero(self.server_ephemeral_pk@);
            lemma_all_zero(self.shared_ephemeral@);
            lemma_all_zero(self.shared_server@);
            lemma_all_zero(self.shared_client@);
            lemma_all_zero(self.proof@);
        }
        is_zero(&self.network)
            && is_zero(&self.longterm_pk)
            && is_zero(&self.longterm_sk)
            && is_zero(&self.ephemeral_pk)
            && is_zero(&self.ephemeral_sk)
            && is_zero(&self.server_longterm_pk)
            && is_zero(&self.server_ephemeral_pk)
            && is_zero(&self.shared_ephemeral)
            && is_zero(&self.shared_server)
            && is_zero(&self.shared_client)
            && is_zero(&self.proof)
    }
}

impl Drop for Client {
    /// Clears the keys and secrets.
    fn drop(&mut self)
        ensures
            final(self)@ == spec_client_wiped(),
        opens_invariants none
        no_unwind
    {
        self.wipe();
    }
}

} // verus!
