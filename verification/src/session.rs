//! What holds of a client and a server that run the handshake against each
//! other, stated over the engines and the two state machines.

use crate::client;
use crate::crypto::client::{
    spec_client_new, spec_client_outcome, spec_client_proof, spec_client_verify_msg2,
    spec_client_verify_msg4, spec_msg1, spec_msg3, ClientView,
};
use crate::crypto::server::{
    spec_msg2, spec_msg4, spec_server_acceptance, spec_server_new, spec_server_outcome,
    spec_server_verify_msg1, spec_server_verify_msg3, ServerView,
};
use crate::crypto::{
    spec_box_key, spec_hello, spec_hello_authentic, spec_hello_key, spec_nonce, OutcomeView,
};
use crate::errors::HandshakeError;
use crate::handshake::{Step, Transfer};
use crate::primitives::{
    spec_authenticate, spec_open, spec_scalarmult, spec_seal, spec_sign_detached,
    spec_to_curve25519_pk, spec_to_curve25519_sk, spec_verify_detached,
};
use crate::server;
use vstd::prelude::*;

verus! {

/// The keys of the two parties of one handshake.
pub struct Configuration {
    pub network: [u8; 32],
    pub client_longterm_pk: [u8; 32],
    pub client_longterm_sk: [u8; 64],
    pub client_ephemeral_pk: [u8; 32],
    pub client_ephemeral_sk: [u8; 32],
    pub server_longterm_pk: [u8; 32],
    pub server_longterm_sk: [u8; 64],
    pub server_ephemeral_pk: [u8; 32],
    pub server_ephemeral_sk: [u8; 32],
}

impl Configuration {
    /// The client's engine before the first message.
    pub open spec fn client(self) -> ClientView {
        spec_client_new(
            self.network@,
            self.client_longterm_pk@,
            self.client_longterm_sk@,
            self.client_ephemeral_pk@,
            self.client_ephemeral_sk@,
            self.server_longterm_pk@,
        )
    }

    /// The server's engine before the first message.
    pub open spec fn server(self) -> ServerView {
        spec_server_new(
            self.network@,
            self.server_longterm_pk@,
            self.server_longterm_sk@,
            self.server_ephemeral_pk@,
            self.server_ephemeral_sk@,
        )
    }

    /// Each public key belongs to its secret key, as far as the handshake
    /// relies on it: both parties derive the same three shared secrets, and
    /// what one long-term key signs verifies under its public key.
    pub open spec fn keys_match(self) -> bool {
        let client_curve_pk = spec_to_curve25519_pk(self.client_longterm_pk@);
        let client_curve_sk = spec_to_curve25519_sk(self.client_longterm_sk@);
        let server_curve_pk = spec_to_curve25519_pk(self.server_longterm_pk@);
        let server_curve_sk = spec_to_curve25519_sk(self.server_longterm_sk@);
        &&& spec_scalarmult(self.client_ephemeral_sk@, self.server_ephemeral_pk@) is Some
        &&& spec_scalarmult(self.client_ephemeral_sk@, self.server_ephemeral_pk@)
            == spec_scalarmult(self.server_ephemeral_sk@, self.client_ephemeral_pk@)
        &&& server_curve_pk is Some
        &&& server_curve_sk is Some
        &&& spec_scalarmult(self.client_ephemeral_sk@, server_curve_pk->0@) is Some
        &&& spec_scalarmult(self.client_ephemeral_sk@, server_curve_pk->0@) == spec_scalarmult(
            server_curve_sk->0@,
            self.client_ephemeral_pk@,
        )
        &&& client_curve_pk is Some
        &&& client_curve_sk is Some
        &&& spec_scalarmult(client_curve_sk->0@, self.server_ephemeral_pk@) is Some
        &&& spec_scalarmult(client_curve_sk->0@, self.server_ephemeral_pk@) == spec_scalarmult(
            self.server_ephemeral_sk@,
            client_curve_pk->0@,
        )
        &&& forall|text: Seq<u8>|
            spec_verify_detached(
                #[trigger] spec_sign_detached(text, self.client_longterm_sk@)@,
                text,
                self.client_longterm_pk@,
            )
        &&& forall|text: Seq<u8>|
            spec_verify_detached(
                #[trigger] spec_sign_detached(text, self.server_longterm_sk@)@,
                text,
                self.server_longterm_pk@,
            )
    }
}

/// A secret box is sixteen bytes longer than its content and opens, under the
/// nonce and key that sealed it, to that content.
pub open spec fn spec_boxes_open() -> bool {
    forall|content: Seq<u8>, key: Seq<u8>|
        {
            &&& (#[trigger] spec_seal(content, spec_nonce(), key)).len() == content.len() + 16
            &&& spec_open(spec_seal(content, spec_nonce(), key), spec_nonce(), key) == Some(
                content,
            )
        }
}

/// The engines of both parties after each has accepted the other's messages,
/// or `None` where one of the four messages is rejected.
pub open spec fn spec_exchange(k: Configuration) -> Option<(ClientView, ServerView)> {
    match spec_server_verify_msg1(k.server(), spec_msg1(k.client())) {
        None => None,
        Some(server_greeted) => match spec_client_verify_msg2(
            k.client(),
            spec_msg2(server_greeted),
        ) {
            None => None,
            Some(client_greeted) => {
                let client_proved = ClientView {
                    proof: spec_client_proof(client_greeted),
                    ..client_greeted
                };
                match spec_server_verify_msg3(server_greeted, spec_msg3(client_greeted)) {
                    None => None,
                    Some(server_done) => if spec_client_verify_msg4(
                        client_proved,
                        spec_msg4(server_done),
                    ) {
                        Some((client_proved, server_done))
                    } else {
                        None
                    },
                }
            },
        },
    }
}

/// Whether two outcomes belong to the two ends of one session between the
/// holders of the two long-term public keys.
pub open spec fn spec_outcomes_match(
    k: Configuration,
    client: OutcomeView,
    server: OutcomeView,
) -> bool {
    &&& client.send_key == server.receive_key
    &&& client.receive_key == server.send_key
    &&& client.peer_longterm_pk == k.server_longterm_pk@
    &&& server.peer_longterm_pk == k.client_longterm_pk@
}

/// With matching keys and boxes that open, each party accepts both messages
/// of the other, the key under which one sends is the key under which the
/// other receives, and each learns the long-term public key of the other.
pub proof fn lemma_engines_agree(k: Configuration)
    requires
        k.keys_match(),
        spec_boxes_open(),
    ensures
        match spec_exchange(k) {
            Some((client, server)) => spec_outcomes_match(
                k,
                spec_client_outcome(client),
                spec_server_outcome(server),
            ),
            None => false,
        },
{
    let c0 = k.client();
    let s0 = k.server();
    let m1 = spec_msg1(c0);
    assert(m1.subrange(0, 32) =~= spec_authenticate(c0.ephemeral_pk, c0.network)@);
    assert(m1.subrange(32, 64) =~= c0.ephemeral_pk);
    let s1 = spec_server_verify_msg1(s0, m1)->0;
    let m2 = spec_msg2(s1);
    assert(m2.subrange(0, 32) =~= spec_authenticate(s0.ephemeral_pk, s0.network)@);
    assert(m2.subrange(32, 64) =~= s0.ephemeral_pk);
    let c1 = spec_client_verify_msg2(c0, m2)->0;
    let c2 = ClientView { proof: spec_client_proof(c1), ..c1 };
    let m3 = spec_msg3(c1);
    let content = spec_client_proof(c1) + c1.longterm_pk;
    assert(spec_open(
        m3,
        spec_nonce(),
        spec_box_key(s1.network, s1.shared_ephemeral + s1.shared_server),
    ) == Some(content));
    assert(content.subrange(0, 64) =~= spec_client_proof(c1));
    assert(content.subrange(64, 96) =~= c1.longterm_pk);
    let s2 = spec_server_verify_msg3(s1, m3)->0;
    assert(spec_server_verify_msg3(s1, m3) is Some);
    let m4 = spec_msg4(s2);
    assert(spec_open(
        m4,
        spec_nonce(),
        spec_box_key(c2.network, c2.shared_ephemeral + c2.shared_server + c2.shared_client),
    ) == Some(spec_server_acceptance(s2)));
    assert(spec_client_verify_msg4(c2, m4));
}

/// The client's attempt once it has written and flushed the message in its
/// buffer in one operation each.
pub open spec fn spec_client_sent<E>(a: client::Attempt) -> client::Attempt {
    client::spec_resume::<E>(
        client::spec_resume::<E>(a, Transfer::Ready(a.outgoing().len() as usize)).0,
        Transfer::Ready(0),
    ).0
}

/// The server's attempt once it has written the message in its buffer in one
/// operation, and what follows its flush.
pub open spec fn spec_server_sent<E>(a: server::Attempt) -> (server::Attempt, Step<E>) {
    server::spec_resume::<E>(
        server::spec_resume::<E>(a, Transfer::Ready(a.outgoing().len() as usize)).0,
        Transfer::Ready(0),
    )
}

/// How the attempts of a client and a server end when each message is
/// written, flushed and read in one operation and reaches the peer as it was
/// written: the client's answer first.
pub open spec fn spec_session<E>(k: Configuration) -> (Step<E>, Step<E>) {
    let client_hello = client::spec_begin(k.client());
    let server_hello = server::spec_deliver::<E>(
        server::spec_begin(k.server()),
        client_hello.outgoing(),
    ).0;
    let client_proof = client::spec_deliver::<E>(
        spec_client_sent::<E>(client_hello),
        server_hello.outgoing(),
    ).0;
    let server_acceptance = server::spec_deliver::<E>(
        spec_server_sent::<E>(server_hello).0,
        client_proof.outgoing(),
    ).0;
    (
        client::spec_deliver::<E>(
            spec_client_sent::<E>(client_proof),
            server_acceptance.outgoing(),
        ).1,
        spec_server_sent::<E>(server_acceptance).1,
    )
}

/// With matching keys and boxes that open, a client and a server that are
/// run against each other both complete the handshake, the key under which
/// one sends is the key under which the other receives, and each reports the
/// long-term public key of the other.
pub proof fn lemma_session_completes<E>(k: Configuration)
    requires
        k.keys_match(),
        spec_boxes_open(),
    ensures
        match spec_session::<E>(k) {
            (Step::Done(client), Step::Done(server)) => spec_outcomes_match(k, client, server),
            _ => false,
        },
{
    lemma_engines_agree(k);
    let c0 = k.client();
    let s0 = k.server();
    let m1 = spec_msg1(c0);
    let client_hello = client::spec_begin(c0);
    assert(client_hello.outgoing() =~= m1);
    let server_waiting = server::spec_begin(s0);
    assert(server_waiting.filled(m1).data.subrange(0, 64) =~= m1);
    let server_hello = server::spec_deliver::<E>(server_waiting, m1).0;
    let s1 = spec_server_verify_msg1(s0, m1)->0;
    let m2 = spec_msg2(s1);
    assert(server_hello.outgoing() =~= m2);
    let client_waiting = spec_client_sent::<E>(client_hello);
    assert(client_waiting.filled(m2).data.subrange(0, 64) =~= m2);
    let client_proof = client::spec_deliver::<E>(client_waiting, m2).0;
    let c1 = spec_client_verify_msg2(c0, m2)->0;
    let m3 = spec_msg3(c1);
    assert(m3.len() == 112);
    assert(client_proof.outgoing() =~= m3);
    let server_waiting = spec_server_sent::<E>(server_hello).0;
    assert(server_waiting.filled(m3).data =~= m3);
    let server_acceptance = server::spec_deliver::<E>(server_waiting, m3).0;
    let s2 = spec_server_verify_msg3(s1, m3)->0;
    let m4 = spec_msg4(s2);
    assert(m4.len() == 80);
    assert(server_acceptance.outgoing() =~= m4);
    let client_waiting = spec_client_sent::<E>(client_proof);
    assert(client_waiting.filled(m4).data.subrange(0, 80) =~= m4);
}

/// A hello in which one byte was changed on the way is rejected. Where the
/// byte lies in the ephemeral key, this holds unless the authenticator of the
/// changed key happens to be the authenticator of the key that was sent.
pub proof fn lemma_corrupt_hello_is_rejected(
    network: Seq<u8>,
    ephemeral_pk: Seq<u8>,
    at: int,
    byte: u8,
)
    requires
        ephemeral_pk.len() == 32,
        0 <= at < 64,
        byte != spec_hello(network, ephemeral_pk)[at],
        at >= 32 ==> spec_authenticate(ephemeral_pk.update(at - 32, byte), network)@
            != spec_authenticate(ephemeral_pk, network)@,
    ensures
        spec_hello_authentic(network, spec_hello(network, ephemeral_pk)),
        !spec_hello_authentic(network, spec_hello(network, ephemeral_pk).update(at, byte)),
{
    let sent = spec_hello(network, ephemeral_pk);
    let received = sent.update(at, byte);
    let tag = spec_authenticate(ephemeral_pk, network)@;
    assert(sent.subrange(0, 32) =~= tag);
    assert(spec_hello_key(sent) =~= ephemeral_pk);
    if at < 32 {
        assert(spec_hello_key(received) =~= ephemeral_pk);
        assert(received.subrange(0, 32)[at] == byte);
        assert(sent.subrange(0, 32)[at] == sent[at]);
    } else {
        assert(spec_hello_key(received) =~= ephemeral_pk.update(at - 32, byte));
        assert(received.subrange(0, 32) =~= tag);
    }
}

/// A hello that was made for one network is rejected within another, unless
/// the two network identifiers happen to give the ephemeral key the same
/// authenticator.
pub proof fn lemma_other_network_is_rejected(own: Seq<u8>, other: Seq<u8>, ephemeral_pk: Seq<u8>)
    requires
        ephemeral_pk.len() == 32,
        spec_authenticate(ephemeral_pk, own)@ != spec_authenticate(ephemeral_pk, other)@,
    ensures
        !spec_hello_authentic(own, spec_hello(other, ephemeral_pk)),
{
    let hello = spec_hello(other, ephemeral_pk);
    assert(hello.subrange(0, 32) =~= spec_authenticate(ephemeral_pk, other)@);
    assert(spec_hello_key(hello) =~= ephemeral_pk);
}

/// What a server reads is verified before anything follows from it: once a
/// message is complete, the attempt fails with a cryptographic error, ended and
/// cleared, exactly when the engine rejects the message, and goes on to write
/// its answer otherwise.
pub proof fn lemma_server_read_is_verified<E>(a: server::Attempt, bytes: Seq<u8>)
    requires
        a.wf(),
        a.state is ReadMsg1 || a.state is ReadMsg3,
        0 < bytes.len() == a.wanted(),
    ensures
        ({
            let msg = a.data.subrange(0, a.offset as int) + bytes;
            let after = server::spec_deliver::<E>(a, bytes);
            let accepted = if a.state is ReadMsg1 {
                spec_server_verify_msg1(a.engine, msg) is Some
            } else {
                spec_server_verify_msg3(a.engine, msg) is Some
            };
            &&& !accepted <==> after == (
                server::spec_finished(),
                Step::<E>::Failed(HandshakeError::CryptoError),
            )
            &&& accepted <==> after.1 is Continue
            &&& accepted ==> after.0.state == server::spec_next(a.state)
        }),
{
    let msg = a.data.subrange(0, a.offset as int) + bytes;
    if a.state is ReadMsg1 {
        assert(a.filled(bytes).data.subrange(0, 64) =~= msg);
    } else {
        assert(a.filled(bytes).data =~= msg);
    }
}

/// What a client reads is verified before anything follows from it: once a
/// message is complete, the attempt fails with a cryptographic error, ended and
/// cleared, exactly when the engine rejects the message. Otherwise it goes on
/// to write its proof, or completes with the outcome.
pub proof fn lemma_client_read_is_verified<E>(a: client::Attempt, bytes: Seq<u8>)
    requires
        a.wf(),
        a.state is ReadMsg2 || a.state is ReadMsg4,
        0 < bytes.len() == a.wanted(),
    ensures
        ({
            let msg = a.data.subrange(0, a.offset as int) + bytes;
            let after = client::spec_deliver::<E>(a, bytes);
            let accepted = if a.state is ReadMsg2 {
                spec_client_verify_msg2(a.engine, msg) is Some
            } else {
                spec_client_verify_msg4(a.engine, msg)
            };
            &&& !accepted <==> after == (
                client::spec_finished(),
                Step::<E>::Failed(HandshakeError::CryptoError),
            )
            &&& accepted && a.state is ReadMsg2 ==> after.1 is Continue && after.0.state
                is WriteMsg3
            &&& accepted && a.state is ReadMsg4 ==> after == (
                client::spec_finished(),
                Step::<E>::Done(spec_client_outcome(a.engine)),
            )
        }),
{
    let msg = a.data.subrange(0, a.offset as int) + bytes;
    if a.state is ReadMsg2 {
        assert(a.filled(bytes).data.subrange(0, 64) =~= msg);
    } else {
        assert(a.filled(bytes).data.subrange(0, 80) =~= msg);
    }
}

/// A server never accepts the hello of a client of another network: it fails
/// with a cryptographic error at the first message, unless the two network
/// identifiers happen to give the client's ephemeral key the same
/// authenticator.
pub proof fn lemma_server_stops_at_other_network<E>(k: Configuration, other: Seq<u8>)
    requires
        spec_authenticate(k.client_ephemeral_pk@, k.network@)@ != spec_authenticate(
            k.client_ephemeral_pk@,
            other,
        )@,
    ensures
        server::spec_deliver::<E>(
            server::spec_begin(k.server()),
            spec_hello(other, k.client_ephemeral_pk@),
        ) == (server::spec_finished(), Step::<E>::Failed(HandshakeError::CryptoError)),
{
    let hello = spec_hello(other, k.client_ephemeral_pk@);
    lemma_other_network_is_rejected(k.network@, other, k.client_ephemeral_pk@);
    let a = server::spec_begin(k.server());
    assert(a.data.subrange(0, 0) + hello =~= hello);
    lemma_server_read_is_verified::<E>(a, hello);
}

/// A client never accepts the hello of a server of another network: it fails
/// with a cryptographic error at the second message, unless the two network
/// identifiers happen to give the server's ephemeral key the same
/// authenticator.
pub proof fn lemma_client_stops_at_other_network<E>(k: Configuration, other: Seq<u8>)
    requires
        spec_authenticate(k.server_ephemeral_pk@, k.network@)@ != spec_authenticate(
            k.server_ephemeral_pk@,
            other,
        )@,
    ensures
        client::spec_deliver::<E>(
            spec_client_sent::<E>(client::spec_begin(k.client())),
            spec_hello(other, k.server_ephemeral_pk@),
        ) == (client::spec_finished(), Step::<E>::Failed(HandshakeError::CryptoError)),
{
    let hello = spec_hello(other, k.server_ephemeral_pk@);
    lemma_other_network_is_rejected(k.network@, other, k.server_ephemeral_pk@);
    let begin = client::spec_begin(k.client());
    assert(begin.outgoing().len() == 64);
    let a = spec_client_sent::<E>(begin);
    assert(a.data.subrange(0, 0) + hello =~= hello);
    lemma_client_read_is_verified::<E>(a, hello);
}

} // verus!
