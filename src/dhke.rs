//! Ephemeral X25519 key agreement. A secret is consumed by the one
//! agreement it takes part in: it is neither `Clone` nor `Copy`.
use vstd::prelude::*;

use crate::primitives::{random_bytes32, x25519, x25519_of};

verus! {

/// The X25519 base point, u = 9.
pub open spec fn basepoint() -> Seq<u8> {
    seq![9u8] + Seq::new(31, |i: int| 0u8)
}

/// The X25519 public key of a secret scalar.
pub open spec fn dh_public_of(sk: Seq<u8>) -> Seq<u8> {
    x25519_of(sk, basepoint())
}

/// A private X25519 scalar, usable for one agreement.
pub struct DhSecret {
    bytes: [u8; 32],
}

impl DhSecret {
    pub closed spec fn value(&self) -> Seq<u8> {
        self.bytes@
    }
}

/// An X25519 key pair.
pub struct DHkeypair {
    pub sk: DhSecret,
    pub pk: [u8; 32],
}

fn basepoint_bytes() -> (r: [u8; 32])
    ensures
        r@ == basepoint(),
{
    let mut u: [u8; 32] = [0u8; 32];
    u[0] = 9u8;
    proof {
        assert(u@ =~= basepoint());
    }
    u
}

impl DHkeypair {
    /// A fresh key pair from the random number generator.
    pub fn keygen() -> (r: Self)
        ensures
            r.pk@ == dh_public_of(r.sk.value()),
    {
        Self::from_secret_bytes(random_bytes32())
    }

    /// The key pair of a given secret scalar.
    pub fn from_secret_bytes(bytes: [u8; 32]) -> (r: Self)
        ensures
            r.sk.value() == bytes@,
            r.pk@ == dh_public_of(bytes@),
    {
        let pk = x25519(bytes, basepoint_bytes());
        DHkeypair { sk: DhSecret { bytes }, pk }
    }
}

/// The shared secret sk * pk_peer; `sk` is consumed.
pub fn shared_secret(sk: DhSecret, pk_peer: &[u8; 32]) -> (r: [u8; 32])
    ensures
        r@ == x25519_of(sk.value(), pk_peer@),
{
    x25519(sk.bytes, *pk_peer)
}

} // verus!
