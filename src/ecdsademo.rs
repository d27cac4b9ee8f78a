//! ECDSA over secp256k1 with a caller-chosen or random nonce. Scalars are
//! 32-byte big-endian strings read modulo the group order; points are SEC1
//! uncompressed encodings.
use vstd::prelude::*;

use k256::elliptic_curve::bigint::U256;
use k256::elliptic_curve::ops::Reduce;
use k256::elliptic_curve::sec1::ToEncodedPoint;

use crate::primitives::{sha256_digest, sha256_of};
use crate::vec_bytes::take_array;

verus! {

use vstd::arithmetic::div_mod::{
    lemma_add_mod_noop_right,
    lemma_fundamental_div_mod_converse,
    lemma_mod_twice,
    lemma_mul_mod_noop_right,
    lemma_small_mod,
};
use vstd::arithmetic::mul::{lemma_mul_is_associative, lemma_mul_is_commutative};

/// The order n of the secp256k1 group.
pub open spec fn order() -> nat {
    0xFFFFFFFFFFFFFFFFFFFFFFFFFFFFFFFEBAAEDCE6AF48A03BBFD25E8CD0364141nat
}

/// The number a big-endian byte string denotes.
pub open spec fn be_value(b: Seq<u8>) -> nat
    decreases b.len(),
{
    if b.len() == 0 {
        0
    } else {
        be_value(b.drop_last()) * 256 + b.last() as nat
    }
}

/// The scalar a byte string denotes, reduced modulo n.
pub open spec fn scalar_of(b: Seq<u8>) -> nat {
    be_value(b) % order()
}

/// The inverse of `x` modulo n.
pub open spec fn inverse_of(x: nat) -> nat {
    choose|y: nat| y < order() && #[trigger] (y * x) % order() == 1
}

/// The message digest as a scalar.
pub open spec fn digest_scalar(msg: Seq<u8>) -> nat {
    scalar_of(sha256_of(msg))
}

/// The x-coordinate of an uncompressed point, as a scalar.
pub open spec fn x_scalar(enc: Seq<u8>) -> nat {
    scalar_of(enc.subrange(1, 33))
}

/// SEC1 uncompressed encoding of k·G, for a scalar k.
pub uninterp spec fn secp256k1_base_mul_of(k: nat) -> Seq<u8>;

/// SEC1 uncompressed encoding of u1·G + u2·Q, where `q` encodes a valid
/// public key Q; nothing where it does not.
pub uninterp spec fn secp256k1_lincomb_of(u1: nat, u2: nat, q: Seq<u8>) -> Option<Seq<u8>>;

/// Relies on Scalar::reduce of U256::from_be_slice (one conditional
/// subtraction of n, which suffices below 2^256) and Scalar::to_bytes.
#[verifier::external_body]
fn scalar_reduce(b: &[u8; 32]) -> (r: [u8; 32])
    ensures
        be_value(r@) == scalar_of(b@),
{
    <k256::Scalar as Reduce<U256>>::reduce(U256::from_be_slice(b)).to_bytes().into()
}

/// Relies on k256's Scalar multiplication modulo n.
#[verifier::external_body]
fn scalar_mul(a: &[u8; 32], b: &[u8; 32]) -> (r: [u8; 32])
    ensures
        be_value(r@) == (be_value(a@) * be_value(b@)) % order(),
{
    let x = <k256::Scalar as Reduce<U256>>::reduce(U256::from_be_slice(a));
    let y = <k256::Scalar as Reduce<U256>>::reduce(U256::from_be_slice(b));
    (x * y).to_bytes().into()
}

/// Relies on k256's Scalar addition modulo n.
#[verifier::external_body]
fn scalar_add(a: &[u8; 32], b: &[u8; 32]) -> (r: [u8; 32])
    ensures
        be_value(r@) == (be_value(a@) + be_value(b@)) % order(),
{
    let x = <k256::Scalar as Reduce<U256>>::reduce(U256::from_be_slice(a));
    let y = <k256::Scalar as Reduce<U256>>::reduce(U256::from_be_slice(b));
    (x + y).to_bytes().into()
}

/// Relies on Scalar::invert, which succeeds on every nonzero scalar.
#[verifier::external_body]
fn scalar_invert(a: &[u8; 32]) -> (r: [u8; 32])
    requires
        scalar_of(a@) != 0,
    ensures
        be_value(r@) < order(),
        (be_value(r@) * scalar_of(a@)) % order() == 1,
{
    <k256::Scalar as Reduce<U256>>::reduce(U256::from_be_slice(a)).invert().unwrap().to_bytes().into()
}

/// Relies on Scalar::generate_vartime, which returns a canonical scalar.
#[verifier::external_body]
fn random_scalar() -> (r: [u8; 32])
    ensures
        be_value(r@) < order(),
{
    k256::Scalar::generate_vartime(&mut rand::rngs::OsRng).to_bytes().into()
}

/// Relies on ProjectivePoint::GENERATOR multiplication and
/// to_encoded_point(false); a point other than the identity takes 65 bytes.
#[verifier::external_body]
fn base_mul_encoded(k: &[u8; 32]) -> (r: Vec<u8>)
    ensures
        r@ == secp256k1_base_mul_of(scalar_of(k@)),
        scalar_of(k@) != 0 ==> r@.len() == 65,
{
    let k = <k256::Scalar as Reduce<U256>>::reduce(U256::from_be_slice(k));
    let p = k256::AffinePoint::from(k256::ProjectivePoint::GENERATOR * k);
    p.to_encoded_point(false).as_bytes().to_vec()
}

/// Relies on PublicKey::from_sec1_bytes and the point arithmetic of
/// ProjectivePoint, encoded by to_encoded_point(false).
#[verifier::external_body]
fn lincomb_encoded(u1: &[u8; 32], u2: &[u8; 32], q: &[u8]) -> (r: Option<Vec<u8>>)
    ensures
        (r is Some) == (secp256k1_lincomb_of(scalar_of(u1@), scalar_of(u2@), q@) is Some),
        r is Some ==> secp256k1_lincomb_of(scalar_of(u1@), scalar_of(u2@), q@) == Some(r->Some_0@),
{
    match k256::PublicKey::from_sec1_bytes(q) {
        Ok(pk) => {
            let a = <k256::Scalar as Reduce<U256>>::reduce(U256::from_be_slice(u1));
            let b = <k256::Scalar as Reduce<U256>>::reduce(U256::from_be_slice(u2));
            let p = k256::ProjectivePoint::GENERATOR * a + k256::ProjectivePoint::from(*pk.as_affine()) * b;
            Some(k256::AffinePoint::from(p).to_encoded_point(false).as_bytes().to_vec())
        },
        Err(_) => None,
    }
}

/// A big-endian string denotes zero exactly when all its bytes are zero.
proof fn lemma_be_zero(b: Seq<u8>)
    ensures
        (be_value(b) == 0) == (forall|i: int| 0 <= i < b.len() ==> b[i] == 0),
    decreases b.len(),
{
    if b.len() > 0 {
        let p = b.drop_last();
        lemma_be_zero(p);
        if be_value(b) == 0 {
            assert forall|i: int| 0 <= i < b.len() implies b[i] == 0 by {
                if i < b.len() - 1 {
                    assert(b[i] == p[i]);
                }
            }
        }
        if forall|i: int| 0 <= i < b.len() ==> b[i] == 0 {
            assert forall|i: int| 0 <= i < p.len() implies p[i] == 0 by {
                assert(p[i] == b[i]);
            }
            assert(b[b.len() - 1] == 0);
        }
    }
}

/// Two strings of one length denote the same number only if they are equal.
proof fn lemma_be_injective(a: Seq<u8>, b: Seq<u8>)
    requires
        a.len() == b.len(),
        be_value(a) == be_value(b),
    ensures
        a == b,
    decreases a.len(),
{
    if a.len() > 0 {
        let x = be_value(a) as int;
        lemma_fundamental_div_mod_converse(x, 256, be_value(a.drop_last()) as int, a.last() as int);
        lemma_fundamental_div_mod_converse(x, 256, be_value(b.drop_last()) as int, b.last() as int);
        lemma_be_injective(a.drop_last(), b.drop_last());
        assert(a =~= a.drop_last().push(a.last()));
        assert(b =~= b.drop_last().push(b.last()));
    } else {
        assert(a =~= b);
    }
}

/// A residue has at most one inverse modulo n.
proof fn lemma_inverse_unique(a: nat, b: nat, x: nat)
    requires
        a < order(),
        b < order(),
        (a * x) % order() == 1,
        (b * x) % order() == 1,
    ensures
        a == b,
{
    let ghost n = order() as int;
    lemma_small_mod(a, order());
    lemma_small_mod(b, order());
    lemma_mul_mod_noop_right(a as int, (b * x) as int, n);
    lemma_mul_is_associative(a as int, b as int, x as int);
    lemma_mul_is_commutative(a as int, b as int);
    lemma_mul_is_associative(b as int, a as int, x as int);
    lemma_mul_mod_noop_right(b as int, (a * x) as int, n);
}

/// Where the inverse exists, `inverse_of` is it.
proof fn lemma_inverse_of(w: nat, x: nat)
    requires
        w < order(),
        (w * x) % order() == 1,
    ensures
        inverse_of(x) == w,
{
    let y = inverse_of(x);
    assert(y < order() && (y * x) % order() == 1);
    lemma_inverse_unique(y, w, x);
}

/// Whether a 32-byte string denotes zero.
fn is_zero32(b: &[u8; 32]) -> (r: bool)
    ensures
        r == (be_value(b@) == 0),
{
    proof {
        lemma_be_zero(b@);
    }
    let mut i: usize = 0;
    while i < 32
        invariant
            0 <= i <= 32,
            b@.len() == 32,
            forall|j: int| 0 <= j < i ==> b@[j] == 0,
        decreases 32 - i,
    {
        if b[i] != 0 {
            proof {
                lemma_be_zero(b@);
                assert(b@[i as int] != 0);
            }
            return false;
        }
        i = i + 1;
    }
    true
}

/// Whether two 32-byte strings are equal.
fn eq32(a: &[u8; 32], b: &[u8; 32]) -> (r: bool)
    ensures
        r == (a@ == b@),
{
    let mut i: usize = 0;
    while i < 32
        invariant
            0 <= i <= 32,
            a@.len() == 32,
            b@.len() == 32,
            forall|j: int| 0 <= j < i ==> a@[j] == b@[j],
        decreases 32 - i,
    {
        if a[i] != b[i] {
            return false;
        }
        i = i + 1;
    }
    assert(a@ =~= b@);
    true
}

/// Why a signature could not be made with the given nonce.
#[derive(Clone, Copy, Debug, PartialEq, Eq, Structural)]
pub enum EcdsaError {
    /// The nonce k is zero modulo n.
    ZeroNonce,
    /// r, the x-coordinate of k·G modulo n, is zero: choose another k.
    ZeroR,
    /// s is zero: choose another k.
    ZeroS,
}

/// The signature (r, s) of `msg` under private scalar `d` and nonce `k`:
/// r = x(k·G) mod n and s = k⁻¹·(H(msg) + r·d) mod n, or why there is none.
pub open spec fn signature_of(d: Seq<u8>, msg: Seq<u8>, k: Seq<u8>) -> Result<(nat, nat), EcdsaError> {
    let kk = scalar_of(k);
    if kk == 0 {
        Err(EcdsaError::ZeroNonce)
    } else {
        let rr = x_scalar(secp256k1_base_mul_of(kk));
        if rr == 0 {
            Err(EcdsaError::ZeroR)
        } else {
            let ss = (inverse_of(kk) * ((digest_scalar(msg) + rr * scalar_of(d)) % order())) % order();
            if ss == 0 {
                Err(EcdsaError::ZeroS)
            } else {
                Ok((rr, ss))
            }
        }
    }
}

/// Whether an outcome of signing agrees with `signature_of`.
pub open spec fn signing_outcome(
    r: Result<([u8; 32], [u8; 32]), EcdsaError>,
    expected: Result<(nat, nat), EcdsaError>,
) -> bool {
    match expected {
        Ok((rr, ss)) => r is Ok && be_value(r->Ok_0.0@) == rr && be_value(r->Ok_0.1@) == ss,
        Err(e) => r == Err::<([u8; 32], [u8; 32]), EcdsaError>(e),
    }
}

/// Whether (r, s) is a valid signature of `msg` under the public key
/// encoded by `q`: with w = s⁻¹, the point H(msg)·w·G + r·w·Q has x ≡ r.
pub open spec fn signature_valid(q: Seq<u8>, msg: Seq<u8>, r: Seq<u8>, s: Seq<u8>) -> bool {
    let rr = scalar_of(r);
    let ss = scalar_of(s);
    rr != 0 && ss != 0 && {
        let w = inverse_of(ss);
        let u1 = (digest_scalar(msg) * w) % order();
        let u2 = (rr * w) % order();
        match secp256k1_lincomb_of(u1, u2, q) {
            Some(p) => p.len() == 65 && x_scalar(p) == rr,
            None => false,
        }
    }
}

/// A secp256k1 key pair: private scalar `d` (big-endian, below n) and the
/// SEC1 uncompressed encoding `q` of d·G.
#[derive(Debug)]
pub struct Keypair {
    pub d: [u8; 32],
    pub q: Vec<u8>,
}

impl Keypair {
    /// A fresh key pair from the operating system's random source.
    pub fn generate() -> (r: Self)
        ensures
            be_value(r.d@) < order(),
            r.q@ == secp256k1_base_mul_of(scalar_of(r.d@)),
    {
        Self::from_private(random_scalar())
    }

    /// The key pair of the private scalar `d`.
    pub fn from_private(d: [u8; 32]) -> (r: Self)
        ensures
            r.d == d,
            r.q@ == secp256k1_base_mul_of(scalar_of(d@)),
    {
        let q = base_mul_encoded(&d);
        Keypair { d, q }
    }

    /// The public key in uncompressed SEC1 bytes.
    pub fn public_bytes_uncompressed(&self) -> (r: Vec<u8>)
        ensures
            r@ == self.q@,
    {
        let mut out: Vec<u8> = Vec::new();
        crate::transcript::append_bytes(&mut out, self.q.as_slice());
        out
    }

    /// The private scalar, 32 bytes big-endian.
    pub fn private_bytes(&self) -> (r: [u8; 32])
        ensures
            r == self.d,
    {
        self.d
    }
}

/// Signs `msg` with private scalar `d` and nonce `k`.
pub fn sign_with_nonce(d: &[u8; 32], msg: &[u8], k: &[u8; 32]) -> (r: Result<([u8; 32], [u8; 32]), EcdsaError>)
    ensures
        signing_outcome(r, signature_of(d@, msg@, k@)),
{
    let ghost n = order() as int;
    let kr = scalar_reduce(k);
    if is_zero32(&kr) {
        return Err(EcdsaError::ZeroNonce);
    }
    proof {
        lemma_mod_twice(be_value(k@) as int, n);
    }
    let digest = sha256_digest(msg);
    let e = scalar_reduce(&digest);
    let point = base_mul_encoded(&kr);
    let x: [u8; 32] = take_array(point.as_slice(), 1);
    let r = scalar_reduce(&x);
    if is_zero32(&r) {
        return Err(EcdsaError::ZeroR);
    }
    let k_inv = scalar_invert(&kr);
    let rd = scalar_mul(&r, d);
    let e_plus_rd = scalar_add(&e, &rd);
    let s = scalar_mul(&k_inv, &e_plus_rd);
    proof {
        let kk = scalar_of(k@);
        let rr = be_value(r@);
        lemma_small_mod(be_value(kr@), order());
        lemma_inverse_of(be_value(k_inv@), kk);
        lemma_mul_mod_noop_right(rr as int, be_value(d@) as int, n);
        lemma_add_mod_noop_right(be_value(e@) as int, (rr * be_value(d@)) as int, n);
        lemma_add_mod_noop_right(be_value(e@) as int, (rr * scalar_of(d@)) as int, n);
        lemma_mul_mod_noop_right(rr as int, be_value(d@) as int, n);
    }
    if is_zero32(&s) {
        return Err(EcdsaError::ZeroS);
    }
    Ok((r, s))
}

/// Signs `msg` with private scalar `d` and a fresh random nonce.
pub fn sign(d: &[u8; 32], msg: &[u8]) -> (r: Result<([u8; 32], [u8; 32]), EcdsaError>)
    ensures
        exists|k: Seq<u8>| k.len() == 32 && signing_outcome(r, #[trigger] signature_of(d@, msg@, k)),
{
    let k = random_scalar();
    sign_with_nonce(d, msg, &k)
}

/// Verifies the signature (r, s) of `msg` under the public key encoded by `q`.
pub fn verify(q: &[u8], msg: &[u8], r_bytes: &[u8; 32], s_bytes: &[u8; 32]) -> (ok: bool)
    ensures
        ok == signature_valid(q@, msg@, r_bytes@, s_bytes@),
{
    let ghost n = order() as int;
    let r = scalar_reduce(r_bytes);
    let s = scalar_reduce(s_bytes);
    if is_zero32(&r) || is_zero32(&s) {
        return false;
    }
    let digest = sha256_digest(msg);
    let e = scalar_reduce(&digest);
    proof {
        lemma_mod_twice(be_value(s_bytes@) as int, n);
        lemma_small_mod(be_value(s@), order());
    }
    let s_inv = scalar_invert(&s);
    let u1 = scalar_mul(&e, &s_inv);
    let u2 = scalar_mul(&r, &s_inv);
    proof {
        lemma_inverse_of(be_value(s_inv@), scalar_of(s_bytes@));
        lemma_small_mod(be_value(u1@), order());
        lemma_small_mod(be_value(u2@), order());
    }
    match lincomb_encoded(&u1, &u2, q) {
        None => false,
        Some(p) => {
            if p.len() != 65 {
                false
            } else {
                let x: [u8; 32] = take_array(p.as_slice(), 1);
                let xr = scalar_reduce(&x);
                let same = eq32(&xr, &r);
                proof {
                    if be_value(xr@) == be_value(r@) {
                        lemma_be_injective(xr@, r@);
                    }
                }
                same
            }
        },
    }
}

} // verus!
