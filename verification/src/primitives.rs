//! The cryptographic primitives of the handshake, all of them provided by
//! libsodium through `sodiumoxide`.
//!
//! Each primitive has a name in specifications, a function of its arguments
//! whose value is not defined here, and a private function that makes the
//! call. Nothing in this file is proved: what the contracts say is taken from
//! the sources of `sodiumoxide` and libsodium.

use vstd::prelude::*;

verus! {

/// Length of the authenticator that is appended to a sealed message.
pub const SEAL_OVERHEAD: usize = 16;

/// The HMAC-SHA-512-256 authenticator of `msg` under `key`.
pub uninterp spec fn spec_authenticate(msg: Seq<u8>, key: Seq<u8>) -> [u8; 32];

/// The SHA-256 digest of `msg`.
pub uninterp spec fn spec_sha256(msg: Seq<u8>) -> [u8; 32];

/// The Curve25519 product of the scalar `n` and the group element `p`, or
/// `None` where libsodium rejects the result for being all zero.
pub uninterp spec fn spec_scalarmult(n: Seq<u8>, p: Seq<u8>) -> Option<[u8; 32]>;

/// The Curve25519 form of an Ed25519 public key, where it has one.
pub uninterp spec fn spec_to_curve25519_pk(pk: Seq<u8>) -> Option<[u8; 32]>;

/// The Curve25519 form of an Ed25519 secret key, where it has one.
pub uninterp spec fn spec_to_curve25519_sk(sk: Seq<u8>) -> Option<[u8; 32]>;

/// The detached Ed25519 signature of `msg` under the secret key `sk`.
pub uninterp spec fn spec_sign_detached(msg: Seq<u8>, sk: Seq<u8>) -> [u8; 64];

/// Whether `sig` is a well-formed Ed25519 signature of `msg` that verifies
/// under the public key `pk`.
pub uninterp spec fn spec_verify_detached(sig: Seq<u8>, msg: Seq<u8>, pk: Seq<u8>) -> bool;

/// The XSalsa20-Poly1305 secret box of `msg` under `nonce` and `key`.
pub uninterp spec fn spec_seal(msg: Seq<u8>, nonce: Seq<u8>, key: Seq<u8>) -> Seq<u8>;

/// The content of the secret box `boxed` under `nonce` and `key`, or `None`
/// where the box does not authenticate.
pub uninterp spec fn spec_open(boxed: Seq<u8>, nonce: Seq<u8>, key: Seq<u8>) -> Option<Seq<u8>>;

/// Calls `sodiumoxide::crypto::auth::hmacsha512256::authenticate`. The result
/// is taken to depend on the message and the key alone.
#[verifier::external_body]
pub(crate) fn authenticate(msg: &[u8], key: &[u8; 32]) -> (tag: [u8; 32])
    ensures
        tag == spec_authenticate(msg@, key@),
{
    let key = sodiumoxide::crypto::auth::hmacsha512256::Key(*key);
    sodiumoxide::crypto::auth::hmacsha512256::authenticate(msg, &key).0
}

/// Calls `sodiumoxide::crypto::auth::hmacsha512256::verify`, which recomputes
/// the authenticator of `msg` and compares it with `tag` in constant time: it
/// is taken to answer whether the two are equal.
#[verifier::external_body]
pub(crate) fn verify_authenticator(tag: &[u8; 32], msg: &[u8], key: &[u8; 32]) -> (ok: bool)
    ensures
        ok == (tag@ == spec_authenticate(msg@, key@)@),
{
    let key = sodiumoxide::crypto::auth::hmacsha512256::Key(*key);
    let tag = sodiumoxide::crypto::auth::hmacsha512256::Tag(*tag);
    sodiumoxide::crypto::auth::hmacsha512256::verify(&tag, msg, &key)
}

/// Calls `sodiumoxide::crypto::hash::sha256::hash`. The result is taken to
/// depend on the message alone.
#[verifier::external_body]
pub(crate) fn sha256(msg: &[u8]) -> (digest: [u8; 32])
    ensures
        digest == spec_sha256(msg@),
{
    sodiumoxide::crypto::hash::sha256::hash(msg).0
}

/// Calls `sodiumoxide::crypto::scalarmult::curve25519::scalarmult`. Its error
/// becomes `None`; the result is taken to depend on the two arguments alone.
#[verifier::external_body]
pub(crate) fn scalarmult(n: &[u8; 32], p: &[u8; 32]) -> (q: Option<[u8; 32]>)
    ensures
        q == spec_scalarmult(n@, p@),
{
    let n = sodiumoxide::crypto::scalarmult::curve25519::Scalar(*n);
    let p = sodiumoxide::crypto::scalarmult::curve25519::GroupElement(*p);
    match sodiumoxide::crypto::scalarmult::curve25519::scalarmult(&n, &p) {
        Ok(q) => Some(q.0),
        Err(()) => None,
    }
}

/// Calls `sodiumoxide::crypto::sign::ed25519::to_curve25519_pk`. Its error
/// becomes `None`; the result is taken to depend on the key alone.
#[verifier::external_body]
pub(crate) fn to_curve25519_pk(pk: &[u8; 32]) -> (curve: Option<[u8; 32]>)
    ensures
        curve == spec_to_curve25519_pk(pk@),
{
    let pk = sodiumoxide::crypto::sign::ed25519::PublicKey(*pk);
    match sodiumoxide::crypto::sign::ed25519::to_curve25519_pk(&pk) {
        Ok(curve) => Some(curve.0),
        Err(()) => None,
    }
}

/// Calls `sodiumoxide::crypto::sign::ed25519::to_curve25519_sk`. Its error
/// becomes `None`; the result is taken to depend on the key alone.
#[verifier::external_body]
pub(crate) fn to_curve25519_sk(sk: &[u8; 64]) -> (curve: Option<[u8; 32]>)
    ensures
        curve == spec_to_curve25519_sk(sk@),
{
    let sk = sodiumoxide::crypto::sign::ed25519::SecretKey(*sk);
    match sodiumoxide::crypto::sign::ed25519::to_curve25519_sk(&sk) {
        Ok(curve) => Some(curve.0),
        Err(()) => None,
    }
}

/// Calls `sodiumoxide::crypto::sign::ed25519::sign_detached`. Ed25519
/// signatures are deterministic: the result is taken to depend on the message
/// and the key alone.
#[verifier::external_body]
pub(crate) fn sign_detached(msg: &[u8], sk: &[u8; 64]) -> (sig: [u8; 64])
    ensures
        sig == spec_sign_detached(msg@, sk@),
{
    let sk = sodiumoxide::crypto::sign::ed25519::SecretKey(*sk);
    sodiumoxide::crypto::sign::ed25519::sign_detached(msg, &sk).to_bytes()
}

/// Calls `sodiumoxide::crypto::sign::ed25519::verify_detached` on the
/// signature that `ed25519::Signature::from_bytes` makes of `sig`; bytes that
/// it refuses count as a signature that does not verify.
#[verifier::external_body]
pub(crate) fn verify_detached(sig: &[u8; 64], msg: &[u8], pk: &[u8; 32]) -> (ok: bool)
    ensures
        ok == spec_verify_detached(sig@, msg@, pk@),
{
    let pk = sodiumoxide::crypto::sign::ed25519::PublicKey(*pk);
    match sodiumoxide::crypto::sign::ed25519::Signature::from_bytes(sig) {
        Ok(sig) => sodiumoxide::crypto::sign::ed25519::verify_detached(&sig, msg, &pk),
        Err(_) => false,
    }
}

/// Calls `sodiumoxide::crypto::secretbox::xsalsa20poly1305::seal`, which
/// returns the message's length and sixteen bytes more.
#[verifier::external_body]
pub(crate) fn seal(msg: &[u8], nonce: &[u8; 24], key: &[u8; 32]) -> (boxed: Vec<u8>)
    requires
        msg@.len() + SEAL_OVERHEAD <= usize::MAX,
    ensures
        boxed@ == spec_seal(msg@, nonce@, key@),
        boxed@.len() == msg@.len() + SEAL_OVERHEAD,
{
    let nonce = sodiumoxide::crypto::secretbox::xsalsa20poly1305::Nonce(*nonce);
    let key = sodiumoxide::crypto::secretbox::xsalsa20poly1305::Key(*key);
    sodiumoxide::crypto::secretbox::xsalsa20poly1305::seal(msg, &nonce, &key)
}

/// Calls `sodiumoxide::crypto::secretbox::xsalsa20poly1305::open`. Its error
/// becomes `None`; a content that it returns is sixteen bytes shorter than
/// the box.
#[verifier::external_body]
pub(crate) fn open(boxed: &[u8], nonce: &[u8; 24], key: &[u8; 32]) -> (content: Option<Vec<u8>>)
    ensures
        match content {
            Some(m) => spec_open(boxed@, nonce@, key@) == Some(m@) && m@.len() + SEAL_OVERHEAD
                == boxed@.len(),
            None => spec_open(boxed@, nonce@, key@) is None,
        },
{
    let nonce = sodiumoxide::crypto::secretbox::xsalsa20poly1305::Nonce(*nonce);
    let key = sodiumoxide::crypto::secretbox::xsalsa20poly1305::Key(*key);
    match sodiumoxide::crypto::secretbox::xsalsa20poly1305::open(boxed, &nonce, &key) {
        Ok(m) => Some(m),
        Err(()) => None,
    }
}

/// Calls `sodiumoxide::utils::memzero`, which overwrites the slice with zero
/// bytes.
#[verifier::external_body]
pub(crate) fn memzero(x: &mut [u8])
    ensures
        final(x)@.len() == old(x)@.len(),
        forall|i: int| 0 <= i < final(x)@.len() ==> final(x)@[i] == 0u8,
    opens_invariants none
    no_unwind
{
    sodiumoxide::utils::memzero(x);
}

} // verus!
