//! HMAC-SHA-256 tags over transcripts.
use vstd::prelude::*;

use crate::primitives::{hmac_sha256, hmac_sha256_of, hmac_sha256_verify};

verus! {

/// The HMAC-SHA-256 tag of `message` under `key`.
pub fn compute_hmac_sha256(key: &[u8], message: &[u8]) -> (r: [u8; 32])
    ensures
        r@ == hmac_sha256_of(key@, message@),
{
    hmac_sha256(key, message)
}

/// Whether `expected_hmac` is the tag of `message` under `key`; compared in
/// constant time.
pub fn verify_hmac_sha256(key: &[u8], message: &[u8], expected_hmac: &[u8]) -> (r: bool)
    ensures
        r == (expected_hmac@ == hmac_sha256_of(key@, message@)),
{
    hmac_sha256_verify(key, message, expected_hmac)
}

} // verus!
