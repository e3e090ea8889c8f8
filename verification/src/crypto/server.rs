//! The server's side of the cryptographic engine.

use crate::bytes::{is_zero, lemma_all_zero, window, zeros};
use crate::crypto::{
    box_key, hello, nonce, session_key, signed_text, spec_acceptance_text, spec_box_key,
    spec_hello, spec_hello_authentic, spec_hello_key, spec_nonce, spec_proof_text,
    spec_sealed_acceptance, spec_session_key, verify_hello, Outcome, OutcomeView,
    NETWORK_IDENTIFIER_BYTES,
};
use crate::primitives::{
    memzero, open, scalarmult, seal, sign_detached, spec_open, spec_scalarmult,
    spec_sign_detached, spec_to_curve25519_pk, spec_to_curve25519_sk, spec_verify_detached,
    to_curve25519_pk, to_curve25519_sk, verify_detached,
};
use vstd::prelude::*;

verus! {

/// What a server's engine holds, as byte sequences.
pub struct ServerView {
    pub network: Seq<u8>,
    pub longterm_pk: Seq<u8>,
    pub longterm_sk: Seq<u8>,
    pub ephemeral_pk: Seq<u8>,
    pub ephemeral_sk: Seq<u8>,
    /// The client's ephemeral public key, once its hello was accepted.
    pub client_ephemeral_pk: Seq<u8>,
    /// The client's long-term public key, once its proof was accepted.
    pub client_longterm_pk: Seq<u8>,
    /// `a.b`
    pub shared_ephemeral: Seq<u8>,
    /// `a.B`
    pub shared_server: Seq<u8>,
    /// `A.b`
    pub shared_client: Seq<u8>,
    /// The signature received in the third message.
    pub proof: Seq<u8>,
}

/// The engine of a server that has all fields cleared.
pub open spec fn spec_server_wiped() -> ServerView {
    ServerView {
        network: zeros(32),
        longterm_pk: zeros(32),
        longterm_sk: zeros(64),
        ephemeral_pk: zeros(32),
        ephemeral_sk: zeros(32),
        client_ephemeral_pk: zeros(32),
        client_longterm_pk: zeros(32),
        shared_ephemeral: zeros(32),
        shared_server: zeros(32),
        shared_client: zeros(32),
        proof: zeros(64),
    }
}

/// The engine of a server that has its keys and has seen no message yet.
pub open spec fn spec_server_new(
    network: Seq<u8>,
    longterm_pk: Seq<u8>,
    longterm_sk: Seq<u8>,
    ephemeral_pk: Seq<u8>,
    ephemeral_sk: Seq<u8>,
) -> ServerView {
    ServerView {
        network,
        longterm_pk,
        longterm_sk,
        ephemeral_pk,
        ephemeral_sk,
        ..spec_server_wiped()
    }
}

/// The server's engine after it has accepted `msg` as the client's hello, or
/// `None` where it rejects the message: the hello must be authentic, and the two
/// shared secrets that need no client identity must exist.
pub open spec fn spec_server_verify_msg1(s: ServerView, msg: Seq<u8>) -> Option<ServerView> {
    let a = spec_hello_key(msg);
    if !spec_hello_authentic(s.network, msg) {
        None
    } else if spec_scalarmult(s.ephemeral_sk, a) is None {
        None
    } else if spec_to_curve25519_sk(s.longterm_sk) is None {
        None
    } else if spec_scalarmult(spec_to_curve25519_sk(s.longterm_sk)->0@, a) is None {
        None
    } else {
        Some(
            ServerView {
                client_ephemeral_pk: a,
                shared_ephemeral: spec_scalarmult(s.ephemeral_sk, a)->0@,
                shared_server: spec_scalarmult(spec_to_curve25519_sk(s.longterm_sk)->0@, a)->0@,
                ..s
            },
        )
    }
}

/// The second message, from the server.
pub open spec fn spec_msg2(s: ServerView) -> Seq<u8> {
    spec_hello(s.network, s.ephemeral_pk)
}

/// The server's engine after it has accepted `msg` as the client's proof of
/// identity, or `None` where it rejects the message: the box must open to a
/// signature and a public key, the signature must be that key's signature of
/// the proof text, and the third shared secret must exist.
pub open spec fn spec_server_verify_msg3(s: ServerView, msg: Seq<u8>) -> Option<ServerView> {
    match spec_open(
        msg,
        spec_nonce(),
        spec_box_key(s.network, s.shared_ephemeral + s.shared_server),
    ) {
        None => None,
        Some(content) => {
            let proof = content.subrange(0, 64);
            let client_pk = content.subrange(64, 96);
            if content.len() != 96 {
                None
            } else if !spec_verify_detached(
                proof,
                spec_proof_text(s.network, s.longterm_pk, s.shared_ephemeral),
                client_pk,
            ) {
                None
            } else if spec_to_curve25519_pk(client_pk) is None {
                None
            } else if spec_scalarmult(s.ephemeral_sk, spec_to_curve25519_pk(client_pk)->0@)
                is None {
                None
            } else {
                Some(
                    ServerView {
                        client_longterm_pk: client_pk,
                        proof,
                        shared_client: spec_scalarmult(
                            s.ephemeral_sk,
                            spec_to_curve25519_pk(client_pk)->0@,
                        )->0@,
                        ..s
                    },
                )
            }
        },
    }
}

/// The signature by which the server accepts the client.
pub open spec fn spec_server_acceptance(s: ServerView) -> Seq<u8> {
    spec_sign_detached(
        spec_acceptance_text(s.network, s.proof, s.client_longterm_pk, s.shared_ephemeral),
        s.longterm_sk,
    )@
}

/// The fourth message, from the server.
pub open spec fn spec_msg4(s: ServerView) -> Seq<u8> {
    spec_sealed_acceptance(
        s.network,
        spec_server_acceptance(s),
        s.shared_ephemeral,
        s.shared_server,
        s.shared_client,
    )
}

/// The outcome that the server derives: it sends under the key of the
/// client's identity and receives under the key of its own.
pub open spec fn spec_server_outcome(s: ServerView) -> OutcomeView {
    OutcomeView {
        send_key: spec_session_key(
            s.network,
            s.shared_ephemeral,
            s.shared_server,
            s.shared_client,
            s.client_longterm_pk,
        ),
        receive_key: spec_session_key(
            s.network,
            s.shared_ephemeral,
            s.shared_server,
            s.shared_client,
            s.longterm_pk,
        ),
        peer_longterm_pk: s.client_longterm_pk,
    }
}

/// The keys and shared secrets of a server for one handshake.
pub struct Server {
    network: [u8; 32],
    longterm_pk: [u8; 32],
    longterm_sk: [u8; 64],
    ephemeral_pk: [u8; 32],
    ephemeral_sk: [u8; 32],
    client_ephemeral_pk: [u8; 32],
    client_longterm_pk: [u8; 32],
    shared_ephemeral: [u8; 32],
    shared_server: [u8; 32],
    shared_client: [u8; 32],
    proof: [u8; 64],
}

impl View for Server {
    type V = ServerView;

    closed spec fn view(&self) -> ServerView {
        ServerView {
            network: self.network@,
            longterm_pk: self.longterm_pk@,
            longterm_sk: self.longterm_sk@,
            ephemeral_pk: self.ephemeral_pk@,
            ephemeral_sk: self.ephemeral_sk@,
            client_ephemeral_pk: self.client_ephemeral_pk@,
            client_longterm_pk: self.client_longterm_pk@,
            shared_ephemeral: self.shared_ephemeral@,
            shared_server: self.shared_server@,
            shared_client: self.shared_client@,
            proof: self.proof@,
        }
    }
}

impl Server {
    /// Copies the keys of one handshake: the network identifier and the
    /// server's long-term and ephemeral key pairs.
    pub fn new(
        network_identifier: &[u8; NETWORK_IDENTIFIER_BYTES],
        server_longterm_pk: &[u8; 32],
        server_longterm_sk: &[u8; 64],
        server_ephemeral_pk: &[u8; 32],
        server_ephemeral_sk: &[u8; 32],
    ) -> (s: Server)
        ensures
            s@ == spec_server_new(
                network_identifier@,
                server_longterm_pk@,
                server_longterm_sk@,
                server_ephemeral_pk@,
                server_ephemeral_sk@,
            ),
    {
        let s = Server {
            network: *network_identifier,
            longterm_pk: *server_longterm_pk,
            longterm_sk: *server_longterm_sk,
            ephemeral_pk: *server_ephemeral_pk,
            ephemeral_sk: *server_ephemeral_sk,
            client_ephemeral_pk: [0u8; 32],
            client_longterm_pk: [0u8; 32],
            shared_ephemeral: [0u8; 32],
            shared_server: [0u8; 32],
            shared_client: [0u8; 32],
            proof: [0u8; 64],
        };
        assert(s.client_ephemeral_pk@ =~= zeros(32));
        assert(s.client_longterm_pk@ =~= zeros(32));
        assert(s.shared_ephemeral@ =~= zeros(32));
        assert(s.shared_server@ =~= zeros(32));
        assert(s.shared_client@ =~= zeros(32));
        assert(s.proof@ =~= zeros(64));
        s
    }

    /// Verifies the client's hello and derives from it what needs no client
    /// identity: the client's ephemeral public key, then `a.b` and `a.B`.
    pub(crate) fn hello_secrets(&self, msg: &[u8; 64]) -> (secrets: Option<
        ([u8; 32], [u8; 32], [u8; 32]),
    >)
        ensures
            match secrets {
                Some(s) => spec_server_verify_msg1(self@, msg@) == Some(
                    ServerView {
                        client_ephemeral_pk: s.0@,
                        shared_ephemeral: s.1@,
                        shared_server: s.2@,
                        ..self@
                    },
                ),
                None => spec_server_verify_msg1(self@, msg@) is None,
            },
    {
        let client_ephemeral_pk = match verify_hello(&self.network, msg) {
            Some(k) => k,
            None => { return None; },
        };
        let shared_ephemeral = match scalarmult(&self.ephemeral_sk, &client_ephemeral_pk) {
            Some(s) => s,
            None => { return None; },
        };
        let mut server_curve = match to_curve25519_sk(&self.longterm_sk) {
            Some(k) => k,
            None => { return None; },
        };
        let derived = scalarmult(&server_curve, &client_ephemeral_pk);
        memzero(&mut server_curve);
        match derived {
            Some(shared_server) => Some((client_ephemeral_pk, shared_ephemeral, shared_server)),
            None => None,
        }
    }

    /// Keeps what was derived from the client's hello.
    pub(crate) fn keep_secrets(&mut self, secrets: ([u8; 32], [u8; 32], [u8; 32]))
        ensures
            final(self)@ == (ServerView {
                client_ephemeral_pk: secrets.0@,
                shared_ephemeral: secrets.1@,
                shared_server: secrets.2@,
                ..old(self)@
            }),
        no_unwind
    {
        self.client_ephemeral_pk = secrets.0;
        self.shared_ephemeral = secrets.1;
        self.shared_server = secrets.2;
    }

    /// Verifies the client's hello. On success two of the shared secrets are
    /// kept; on failure nothing changes.
    pub fn verify_msg1(&mut self, msg: &[u8; 64]) -> (ok: bool)
        ensures
            match spec_server_verify_msg1(old(self)@, msg@) {
                Some(after) => ok && final(self)@ == after,
                None => !ok && final(self)@ == old(self)@,
            },
    {
        match self.hello_secrets(msg) {
            Some(secrets) => {
                let mut secrets = secrets;
                self.keep_secrets(secrets);
                memzero(&mut secrets.1);
                memzero(&mut secrets.2);
                true
            },
            None => false,
        }
    }

    /// Builds the second message.
    pub fn create_msg2(&self) -> (msg: [u8; 64])
        ensures
            msg@ == spec_msg2(self@),
    {
        hello(&self.network, &self.ephemeral_pk)
    }

    /// Verifies the client's proof of identity and returns what it shows: the
    /// client's long-term public key, its signature, and `A.b`.
    pub(crate) fn proof_secrets(&self, msg: &[u8; 112]) -> (secrets: Option<
        ([u8; 32], [u8; 64], [u8; 32]),
    >)
        ensures
            match secrets {
                Some(s) => spec_server_verify_msg3(self@, msg@) == Some(
                    ServerView {
                        client_longterm_pk: s.0@,
                        proof: s.1@,
                        shared_client: s.2@,
                        ..self@
                    },
                ),
                None => spec_server_verify_msg3(self@, msg@) is None,
            },
    {
        let mut key = box_key(&self.network, &self.shared_ephemeral, &self.shared_server, None);
        let opened = open(msg, &nonce(), &key);
        memzero(&mut key);
        let content = match opened {
            Some(c) => c,
            None => { return None; },
        };
        let proof = window::<64>(&content, 0);
        let client_longterm_pk = window::<32>(&content, 64);
        let text = signed_text(&self.network, &[], &self.longterm_pk, &self.shared_ephemeral);
        assert(text@ =~= spec_proof_text(self@.network, self@.longterm_pk, self@.shared_ephemeral));
        if !verify_detached(&proof, &text, &client_longterm_pk) {
            return None;
        }
        let client_curve = match to_curve25519_pk(&client_longterm_pk) {
            Some(k) => k,
            None => { return None; },
        };
        match scalarmult(&self.ephemeral_sk, &client_curve) {
            Some(shared_client) => Some((client_longterm_pk, proof, shared_client)),
            None => None,
        }
    }

    /// Keeps what the client's proof of identity has shown.
    pub(crate) fn keep_proof(&mut self, secrets: ([u8; 32], [u8; 64], [u8; 32]))
        ensures
            final(self)@ == (ServerView {
                client_longterm_pk: secrets.0@,
                proof: secrets.1@,
                shared_client: secrets.2@,
                ..old(self)@
            }),
        no_unwind
    {
        self.client_longterm_pk = secrets.0;
        self.proof = secrets.1;
        self.shared_client = secrets.2;
    }

    /// Verifies the client's proof of identity. On success the client's
    /// long-term public key, its signature and the third shared secret are
    /// kept; on failure nothing changes.
    pub fn verify_msg3(&mut self, msg: &[u8; 112]) -> (ok: bool)
        ensures
            match spec_server_verify_msg3(old(self)@, msg@) {
                Some(after) => ok && final(self)@ == after,
                None => !ok && final(self)@ == old(self)@,
            },
    {
        match self.proof_secrets(msg) {
            Some(secrets) => {
                let mut secrets = secrets;
                self.keep_proof(secrets);
                memzero(&mut secrets.2);
                true
            },
            None => false,
        }
    }

    /// Signs the acceptance and returns the fourth message.
    pub fn create_msg4(&self) -> (msg: [u8; 80])
        ensures
            msg@ == spec_msg4(self@),
    {
        let text = signed_text(
            &self.network,
            &self.proof,
            &self.client_longterm_pk,
            &self.shared_ephemeral,
        );
        let acceptance = sign_detached(&text, &self.longterm_sk);
        let mut key = box_key(
            &self.network,
            &self.shared_ephemeral,
            &self.shared_server,
            Some(&self.shared_client),
        );
        let boxed = seal(&acceptance, &nonce(), &key);
        memzero(&mut key);
        let msg = window::<80>(&boxed, 0);
        assert(msg@ =~= boxed@);
        msg
    }

    /// Derives the session keys. They are those of a completed handshake only
    /// after the client's proof was verified.
    pub fn outcome(&self) -> (o: Outcome)
        ensures
            o@ == spec_server_outcome(self@),
    {
        let mut key = box_key(
            &self.network,
            &self.shared_ephemeral,
            &self.shared_server,
            Some(&self.shared_client),
        );
        let send_key = session_key(&key, &self.client_longterm_pk);
        let receive_key = session_key(&key, &self.longterm_pk);
        memzero(&mut key);
        Outcome::new(send_key, receive_key, self.client_longterm_pk)
    }

    /// Overwrites every key and secret with zero bytes.
    pub fn wipe(&mut self)
        ensures
            final(self)@ == spec_server_wiped(),
        opens_invariants none
        no_unwind
    {
        memzero(&mut self.network);
        memzero(&mut self.longterm_pk);
        memzero(&mut self.longterm_sk);
        memzero(&mut self.ephemeral_pk);
        memzero(&mut self.ephemeral_sk);
        memzero(&mut self.client_ephemeral_pk);
        memzero(&mut self.client_longterm_pk);
        memzero(&mut self.shared_ephemeral);
        memzero(&mut self.shared_server);
        memzero(&mut self.shared_client);
        memzero(&mut self.proof);
        assert(self.network@ =~= zeros(32));
        assert(self.longterm_pk@ =~= zeros(32));
        assert(self.longterm_sk@ =~= zeros(64));
        assert(self.ephemeral_pk@ =~= zeros(32));
        assert(self.ephemeral_sk@ =~= zeros(32));
        assert(self.client_ephemeral_pk@ =~= zeros(32));
        assert(self.client_longterm_pk@ =~= zeros(32));
        assert(self.shared_ephemeral@ =~= zeros(32));
        assert(self.shared_server@ =~= zeros(32));
        assert(self.shared_client@ =~= zeros(32));
        assert(self.proof@ =~= zeros(64));
    }
    /// Whether every key and secret is zero.
    pub fn is_wiped(&self) -> (wiped: bool)
        ensures
            wiped == (self@ == spec_server_wiped()),
    {
        proof {
            lemma_all_zero(self.network@);
            lemma_all_zero(self.longterm_pk@);
            lemma_all_zero(self.longterm_sk@);
            lemma_all_zero(self.ephemeral_pk@);
            lemma_all_zero(self.ephemeral_sk@);
            lemma_all_zero(self.client_ephemeral_pk@);
            lemma_all_zero(self.client_longterm_pk@);
            lemma_all_zero(self.shared_ephemeral@);
            lemma_all_zero(self.shared_server@);
            lemma_all_zero(self.shared_client@);
            lemma_all_zero(self.proof@);
        }
        is_zero(&self.network)
            && is_zero(&self.longterm_pk)
            && is_zero(&self.longterm_sk)
            && is_zero(&self.ephemeral_pk)
            && is_zero(&self.ephemeral_sk)
            && is_zero(&self.client_ephemeral_pk)
            && is_zero(&self.client_longterm_pk)
            && is_zero(&self.shared_ephemeral)
            && is_zero(&self.shared_server)
            && is_zero(&self.shared_client)
            && is_zero(&self.proof)
    }
}

impl Drop for Server {
    /// Clears the keys and secrets.
    fn drop(&mut self)
        ensures
            final(self)@ == spec_server_wiped(),
        opens_invariants none
        no_unwind
    {
        self.wipe();
    }
}

} // verus!
