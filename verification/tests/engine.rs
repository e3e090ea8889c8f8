use secret_handshake::crypto::{Client, Server};
use sodiumoxide::crypto::auth::hmacsha512256;
use sodiumoxide::crypto::hash::sha256;
use sodiumoxide::crypto::scalarmult::curve25519;
use sodiumoxide::crypto::secretbox::xsalsa20poly1305;
use sodiumoxide::crypto::{box_, sign};

struct Keys {
    network: [u8; 32],
    client_pk: [u8; 32],
    client_sk: [u8; 64],
    client_eph_pk: [u8; 32],
    client_eph_sk: [u8; 32],
    server_pk: [u8; 32],
    server_sk: [u8; 64],
    server_eph_pk: [u8; 32],
    server_eph_sk: [u8; 32],
}

fn keys(seed: u8) -> Keys {
    sodiumoxide::init().unwrap();
    let (client_pk, client_sk) = sign::keypair_from_seed(&sign::Seed([seed; 32]));
    let (server_pk, server_sk) = sign::keypair_from_seed(&sign::Seed([seed.wrapping_add(1); 32]));
    let (client_eph_pk, client_eph_sk) =
        box_::keypair_from_seed(&box_::Seed([seed.wrapping_add(2); 32]));
    let (server_eph_pk, server_eph_sk) =
        box_::keypair_from_seed(&box_::Seed([seed.wrapping_add(3); 32]));
    Keys {
        network: [seed.wrapping_add(4); 32],
        client_pk: client_pk.0,
        client_sk: client_sk.0,
        client_eph_pk: client_eph_pk.0,
        client_eph_sk: client_eph_sk.0,
        server_pk: server_pk.0,
        server_sk: server_sk.0,
        server_eph_pk: server_eph_pk.0,
        server_eph_sk: server_eph_sk.0,
    }
}

fn client(k: &Keys) -> Client {
    Client::new(
        &k.network,
        &k.client_pk,
        &k.client_sk,
        &k.client_eph_pk,
        &k.client_eph_sk,
        &k.server_pk,
    )
}

fn server(k: &Keys) -> Server {
    Server::new(&k.network, &k.server_pk, &k.server_sk, &k.server_eph_pk, &k.server_eph_sk)
}

fn cat(parts: &[&[u8]]) -> Vec<u8> {
    let mut v = Vec::new();
    for p in parts {
        v.extend_from_slice(p);
    }
    v
}

fn dh(n: &[u8; 32], p: &[u8; 32]) -> [u8; 32] {
    curve25519::scalarmult(&curve25519::Scalar(*n), &curve25519::GroupElement(*p)).unwrap().0
}

/// The three shared secrets, computed from the client's side.
fn secrets(k: &Keys) -> ([u8; 32], [u8; 32], [u8; 32]) {
    let ab = dh(&k.client_eph_sk, &k.server_eph_pk);
    let server_curve = sign::to_curve25519_pk(&sign::PublicKey(k.server_pk)).unwrap();
    let a_server = dh(&k.client_eph_sk, &server_curve.0);
    let client_curve = sign::to_curve25519_sk(&sign::SecretKey(k.client_sk)).unwrap();
    let client_b = dh(&client_curve.0, &k.server_eph_pk);
    (ab, a_server, client_b)
}

fn zero_nonce() -> xsalsa20poly1305::Nonce {
    xsalsa20poly1305::Nonce([0; 24])
}

#[test]
fn msg1_is_the_authenticator_followed_by_the_ephemeral_key() {
    let k = keys(1);
    let msg1 = client(&k).create_msg1();
    let tag = hmacsha512256::authenticate(&k.client_eph_pk, &hmacsha512256::Key(k.network));
    assert_eq!(&msg1[..32], &tag.0[..]);
    assert_eq!(&msg1[32..], &k.client_eph_pk[..]);
}

#[test]
fn msg2_is_the_authenticator_followed_by_the_ephemeral_key() {
    let k = keys(2);
    let msg2 = server(&k).create_msg2();
    let tag = hmacsha512256::authenticate(&k.server_eph_pk, &hmacsha512256::Key(k.network));
    assert_eq!(&msg2[..32], &tag.0[..]);
    assert_eq!(&msg2[32..], &k.server_eph_pk[..]);
}

#[test]
fn msg3_is_the_sealed_proof_of_identity() {
    let k = keys(3);
    let mut c = client(&k);
    assert!(c.verify_msg2(&server(&k).create_msg2()));
    let msg3 = c.create_msg3();

    let (ab, a_server, _) = secrets(&k);
    let key = sha256::hash(&cat(&[&k.network, &ab, &a_server]));
    let content =
        xsalsa20poly1305::open(&msg3, &zero_nonce(), &xsalsa20poly1305::Key(key.0)).unwrap();
    assert_eq!(content.len(), 96);
    assert_eq!(&content[64..], &k.client_pk[..]);
    let text = cat(&[&k.network, &k.server_pk, &sha256::hash(&ab).0]);
    let proof = sign::sign_detached(&text, &sign::SecretKey(k.client_sk));
    assert_eq!(&content[..64], &proof.to_bytes()[..]);
    let sealed = xsalsa20poly1305::seal(&content, &zero_nonce(), &xsalsa20poly1305::Key(key.0));
    assert_eq!(&sealed[..], &msg3[..]);
}

#[test]
fn msg4_is_the_sealed_acceptance() {
    let k = keys(4);
    let mut c = client(&k);
    let mut s = server(&k);
    assert!(s.verify_msg1(&c.create_msg1()));
    assert!(c.verify_msg2(&s.create_msg2()));
    assert!(s.verify_msg3(&c.create_msg3()));
    let msg4 = s.create_msg4();

    let (ab, a_server, client_b) = secrets(&k);
    let key = sha256::hash(&cat(&[&k.network, &ab, &a_server, &client_b]));
    let content =
        xsalsa20poly1305::open(&msg4, &zero_nonce(), &xsalsa20poly1305::Key(key.0)).unwrap();
    let proof = sign::sign_detached(
        &cat(&[&k.network, &k.server_pk, &sha256::hash(&ab).0]),
        &sign::SecretKey(k.client_sk),
    );
    let text = cat(&[&k.network, &proof.to_bytes(), &k.client_pk, &sha256::hash(&ab).0]);
    let acceptance = sign::sign_detached(&text, &sign::SecretKey(k.server_sk));
    assert_eq!(&content[..], &acceptance.to_bytes()[..]);
    assert!(c.verify_msg4(&msg4));
}

#[test]
fn session_keys_are_digests_of_the_hashed_box_key_and_the_receiver() {
    let k = keys(5);
    let mut c = client(&k);
    let mut s = server(&k);
    assert!(s.verify_msg1(&c.create_msg1()));
    assert!(c.verify_msg2(&s.create_msg2()));
    assert!(s.verify_msg3(&c.create_msg3()));
    assert!(c.verify_msg4(&s.create_msg4()));

    let (ab, a_server, client_b) = secrets(&k);
    let key = sha256::hash(&cat(&[&k.network, &ab, &a_server, &client_b]));
    let secret = sha256::hash(&key.0);
    let to_server = sha256::hash(&cat(&[&secret.0, &k.server_pk]));
    let to_client = sha256::hash(&cat(&[&secret.0, &k.client_pk]));

    let co = c.outcome();
    assert_eq!(co.send_key(), &to_server.0);
    assert_eq!(co.receive_key(), &to_client.0);
    assert_eq!(co.peer_longterm_pk(), &k.server_pk);
    let so = s.outcome();
    assert_eq!(so.send_key(), &to_client.0);
    assert_eq!(so.receive_key(), &to_server.0);
    assert_eq!(so.peer_longterm_pk(), &k.client_pk);
}

#[test]
fn both_sides_derive_the_same_secrets() {
    let k = keys(6);
    let (ab, a_server, client_b) = secrets(&k);
    assert_eq!(ab, dh(&k.server_eph_sk, &k.client_eph_pk));
    let server_curve = sign::to_curve25519_sk(&sign::SecretKey(k.server_sk)).unwrap();
    assert_eq!(a_server, dh(&server_curve.0, &k.client_eph_pk));
    let client_curve = sign::to_curve25519_pk(&sign::PublicKey(k.client_pk)).unwrap();
    assert_eq!(client_b, dh(&k.server_eph_sk, &client_curve.0));
}

#[test]
fn a_hello_with_a_changed_authenticator_is_rejected() {
    let k = keys(7);
    let mut msg1 = client(&k).create_msg1();
    msg1[5] ^= 0x80;
    let mut s = server(&k);
    assert!(!s.verify_msg1(&msg1));
    let mut msg2 = server(&k).create_msg2();
    msg2[31] ^= 0x01;
    let mut c = client(&k);
    assert!(!c.verify_msg2(&msg2));
}

#[test]
fn a_hello_with_a_changed_key_is_rejected() {
    let k = keys(8);
    let mut msg1 = client(&k).create_msg1();
    msg1[40] ^= 0x01;
    assert!(!server(&k).verify_msg1(&msg1));
    let mut msg2 = server(&k).create_msg2();
    msg2[63] ^= 0x40;
    assert!(!client(&k).verify_msg2(&msg2));
}

#[test]
fn a_hello_of_another_network_is_rejected() {
    let k = keys(9);
    let mut other = keys(9);
    other.network[0] ^= 1;
    assert!(!server(&other).verify_msg1(&client(&k).create_msg1()));
    assert!(!client(&other).verify_msg2(&server(&k).create_msg2()));
    assert!(server(&k).verify_msg1(&client(&k).create_msg1()));
    assert!(client(&k).verify_msg2(&server(&k).create_msg2()));
}

#[test]
fn a_hello_with_the_zero_key_is_rejected() {
    // The authenticator is right, but no shared secret exists with the zero point.
    let k = keys(10);
    let zero = [0u8; 32];
    let tag = hmacsha512256::authenticate(&zero, &hmacsha512256::Key(k.network));
    let mut msg = [0u8; 64];
    msg[..32].copy_from_slice(&tag.0);
    assert!(!server(&k).verify_msg1(&msg));
    assert!(!client(&k).verify_msg2(&msg));
}

#[test]
fn a_proof_signed_by_another_key_is_rejected() {
    let k = keys(11);
    let mut forged = keys(11);
    // The client claims the right public key but signs with another secret key.
    forged.client_sk = keys(77).client_sk;
    let mut c = client(&forged);
    let mut s = server(&k);
    assert!(s.verify_msg1(&c.create_msg1()));
    assert!(c.verify_msg2(&s.create_msg2()));
    assert!(!s.verify_msg3(&c.create_msg3()));
}

#[test]
fn an_acceptance_by_another_server_is_rejected() {
    let k = keys(12);
    let mut c = client(&k);
    let mut s = server(&k);
    assert!(s.verify_msg1(&c.create_msg1()));
    assert!(c.verify_msg2(&s.create_msg2()));
    let msg3 = c.create_msg3();
    assert!(s.verify_msg3(&msg3));
    let msg4 = s.create_msg4();
    let mut changed = msg4;
    changed[79] ^= 0x01;
    assert!(!c.verify_msg4(&changed));
    assert!(!c.verify_msg4(&[0u8; 80]));
    assert!(c.verify_msg4(&msg4));
}

#[test]
fn a_failed_verification_leaves_the_engine_as_it_was() {
    let k = keys(13);
    let mut c = client(&k);
    let mut bad = server(&k).create_msg2();
    bad[0] ^= 1;
    assert!(!c.verify_msg2(&bad));
    assert!(c.verify_msg2(&server(&k).create_msg2()));
    let mut fresh = client(&k);
    assert!(fresh.verify_msg2(&server(&k).create_msg2()));
    assert_eq!(&c.create_msg3()[..], &fresh.create_msg3()[..]);
}

#[test]
fn wipe_clears_the_engine() {
    let k = keys(14);
    let mut c = client(&k);
    assert!(!c.is_wiped());
    c.wipe();
    assert!(c.is_wiped());
    let mut s = server(&k);
    assert!(!s.is_wiped());
    s.wipe();
    assert!(s.is_wiped());
    // A wiped engine is an engine of zero keys.
    let zero = Client::new(&[0; 32], &[0; 32], &[0; 64], &[0; 32], &[0; 32], &[0; 32]);
    assert_eq!(&c.create_msg1()[..], &zero.create_msg1()[..]);
}
