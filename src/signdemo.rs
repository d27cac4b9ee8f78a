//! Ed25519 signing keys, as plain 32-byte secrets and verifying keys.
use vstd::prelude::*;

use crate::primitives::{
    ed25519_public,
    ed25519_public_of,
    ed25519_sign,
    ed25519_sign_of,
    ed25519_verify,
    ed25519_verify_of,
    random_bytes32,
};

verus! {

/// An Ed25519 key pair: `pk` is the verifying key of `sk`.
pub struct Keypair {
    pub sk: [u8; 32],
    pub pk: [u8; 32],
}

/// The key pair of a given secret key.
pub fn keypair_from_secret(sk: [u8; 32]) -> (r: Keypair)
    ensures
        r.sk == sk,
        r.pk@ == ed25519_public_of(sk@),
{
    let pk = ed25519_public(&sk);
    Keypair { sk, pk }
}

/// A fresh key pair from the random number generator.
pub fn keygen() -> (r: Keypair)
    ensures
        r.pk@ == ed25519_public_of(r.sk@),
{
    keypair_from_secret(random_bytes32())
}

/// The 64-byte signature of `msg` under `sk`.
pub fn sign(sk: &[u8; 32], msg: &[u8]) -> (r: [u8; 64])
    ensures
        r@ == ed25519_sign_of(sk@, msg@),
{
    ed25519_sign(sk, msg)
}

/// Whether `sig` is a valid signature of `msg` under `pk`.
pub fn verify(pk: &[u8; 32], msg: &[u8], sig: &[u8; 64]) -> (r: bool)
    ensures
        r == ed25519_verify_of(pk@, msg@, sig@),
{
    ed25519_verify(pk, msg, sig)
}

} // verus!
