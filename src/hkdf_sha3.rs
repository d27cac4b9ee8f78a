//! HKDF over SHA3-256, for deriving AES-256-GCM keys of arbitrary length
//! requests: a request longer than the expand limit fails instead of being
//! truncated or padded.
use vstd::prelude::*;

use crate::key_extract::zeros32;

verus! {

/// HKDF-SHA3-256 extract: the pseudorandom key of a salt and input keying material.
pub uninterp spec fn hkdf_sha3_extract_of(salt: Seq<u8>, ikm: Seq<u8>) -> Seq<u8>;

/// HKDF-SHA3-256 expand: `len` bytes of output keying material.
pub uninterp spec fn hkdf_sha3_expand_of(prk: Seq<u8>, info: Seq<u8>, len: nat) -> Seq<u8>;

/// The most output one expand can give: 255 blocks of 32 bytes.
pub const MAX_OUTPUT: usize = 8160;

#[verifier::external_type_specification]
#[verifier::external_body]
pub struct ExInvalidLength(hkdf::InvalidLength);

/// The salt used: the one given, or 32 zero bytes.
pub open spec fn salt_bytes(salt: Option<&[u8]>) -> Seq<u8> {
    match salt {
        Some(s) => s@,
        None => zeros32(),
    }
}

/// Relies on hkdf::Hkdf::<Sha3_256>::extract, which takes a missing salt as
/// a hash length of zero bytes.
#[verifier::external_body]
fn sha3_extract(salt: Option<&[u8]>, ikm: &[u8]) -> (r: [u8; 32])
    ensures
        r@ == hkdf_sha3_extract_of(salt_bytes(salt), ikm@),
{
    let (prk, _) = hkdf::Hkdf::<sha3::Sha3_256>::extract(salt, ikm);
    prk.into()
}

/// Relies on hkdf::Hkdf::<Sha3_256>::from_prk (a 32-byte key is long
/// enough) and expand, which refuses more than 255 hash lengths of output.
#[verifier::external_body]
fn sha3_expand<const N: usize>(prk: &[u8; 32], info: &[u8]) -> (r: Result<[u8; N], hkdf::InvalidLength>)
    ensures
        r is Ok <==> N <= MAX_OUTPUT,
        r is Ok ==> r->Ok_0@ == hkdf_sha3_expand_of(prk@, info@, N as nat),
{
    let hk = hkdf::Hkdf::<sha3::Sha3_256>::from_prk(prk).expect("a 32-byte key is long enough");
    let mut out = [0u8; N];
    hk.expand(info, &mut out)?;
    Ok(out)
}

/// The requested output is longer than expand can give.
#[derive(Clone, Copy, Debug, PartialEq, Eq, Structural)]
pub struct OutputTooLong;

/// The pseudorandom key of `ikm` under `salt` (32 zero bytes if none).
pub fn extract(salt: Option<&[u8]>, ikm: &[u8]) -> (r: [u8; 32])
    ensures
        r@ == hkdf_sha3_extract_of(salt_bytes(salt), ikm@),
{
    sha3_extract(salt, ikm)
}

/// `N` bytes expanded from `prk` for `info`; fails when `N` exceeds the limit.
pub fn expand<const N: usize>(prk: &[u8; 32], info: &[u8]) -> (r: Result<[u8; N], OutputTooLong>)
    ensures
        r is Ok <==> N <= MAX_OUTPUT,
        r is Ok ==> r->Ok_0@ == hkdf_sha3_expand_of(prk@, info@, N as nat),
{
    match sha3_expand::<N>(prk, info) {
        Ok(out) => Ok(out),
        Err(_) => Err(OutputTooLong),
    }
}

/// A 32-byte AES-256-GCM key derived from `seed` under `salt` for `context`.
pub fn derive_aes256gcm_key(seed: &[u8], salt: Option<&[u8]>, context: &[u8]) -> (r: [u8; 32])
    ensures
        r@ == hkdf_sha3_expand_of(hkdf_sha3_extract_of(salt_bytes(salt), seed@), context@, 32),
{
    let prk = extract(salt, seed);
    match expand::<32>(&prk, context) {
        Ok(key) => key,
        Err(_) => [0u8; 32],
    }
}

} // verus!
