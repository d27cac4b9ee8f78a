//! AES-256-GCM encryption of handshake flights.
use vstd::prelude::*;

use crate::primitives::{aes_gcm_open, aes_gcm_seal, aes_gcm_seal_of, AEAD_MAX_LEN};

verus! {

/// 32-byte AES-256 key.
pub type Key = [u8; 32];

/// 96-bit (12-byte) AES-GCM nonce.
pub type Nonce = [u8; 12];

/// Encryption refused (input too long) or decryption failed (bad tag).
#[derive(Clone, Copy, Debug, PartialEq, Eq, Structural)]
pub struct AeadError;

/// Whether AES-GCM accepts a plaintext and associated data of these lengths.
pub open spec fn within_limits(pt: Seq<u8>, ad: Seq<u8>) -> bool {
    pt.len() <= AEAD_MAX_LEN && ad.len() <= AEAD_MAX_LEN
}

/// Whether `ct` is the sealing of some plaintext under key, nonce and `ad`.
pub open spec fn opens(key: Seq<u8>, nonce: Seq<u8>, ct: Seq<u8>, ad: Seq<u8>) -> bool {
    exists|p: Seq<u8>| within_limits(p, ad) && #[trigger] aes_gcm_seal_of(key, nonce, p, ad) == ct
}

/// The plaintext that `ct` seals, where `opens` holds.
pub open spec fn opened(key: Seq<u8>, nonce: Seq<u8>, ct: Seq<u8>, ad: Seq<u8>) -> Seq<u8> {
    choose|p: Seq<u8>| within_limits(p, ad) && #[trigger] aes_gcm_seal_of(key, nonce, p, ad) == ct
}

/// Encrypts `plaintext` under `key` and `nonce`, authenticating `ad`;
/// the result is ciphertext || tag.
pub fn encrypt(key: &Key, nonce: &Nonce, plaintext: &[u8], ad: &[u8]) -> (r: Result<Vec<u8>, AeadError>)
    ensures
        r is Ok <==> within_limits(plaintext@, ad@),
        r is Ok ==> r->Ok_0@ == aes_gcm_seal_of(key@, nonce@, plaintext@, ad@),
{
    match aes_gcm_seal(key, nonce, plaintext, ad) {
        Ok(ct) => Ok(ct),
        Err(_) => Err(AeadError),
    }
}

/// Decrypts `ciphertext` under `key` and `nonce` with `ad`. On what
/// `encrypt` produces it succeeds and returns that plaintext; it succeeds on
/// nothing else of at most `AEAD_MAX_LEN` bytes.
pub fn decrypt(key: &Key, nonce: &Nonce, ciphertext: &[u8], ad: &[u8]) -> (r: Result<Vec<u8>, AeadError>)
    ensures
        ciphertext@.len() <= AEAD_MAX_LEN ==> (r is Ok <==> opens(key@, nonce@, ciphertext@, ad@)),
        ciphertext@.len() <= AEAD_MAX_LEN && r is Ok ==> r->Ok_0@ == opened(key@, nonce@, ciphertext@, ad@),
        r is Ok ==> aes_gcm_seal_of(key@, nonce@, r->Ok_0@, ad@) == ciphertext@,
        forall|p: Seq<u8>|
            within_limits(p, ad@) && #[trigger] aes_gcm_seal_of(key@, nonce@, p, ad@) == ciphertext@
                ==> (r is Ok && r->Ok_0@ == p),
{
    let res = aes_gcm_open(key, nonce, ciphertext, ad);
    proof {
        if opens(key@, nonce@, ciphertext@, ad@) {
            let p = opened(key@, nonce@, ciphertext@, ad@);
            assert(within_limits(p, ad@) && aes_gcm_seal_of(key@, nonce@, p, ad@) == ciphertext@);
        }
        if res is Ok && ciphertext@.len() <= AEAD_MAX_LEN {
            let v = res->Ok_0@;
            assert(within_limits(v, ad@) && aes_gcm_seal_of(key@, nonce@, v, ad@) == ciphertext@);
        }
    }
    match res {
        Ok(pt) => Ok(pt),
        Err(_) => Err(AeadError),
    }
}

} // verus!
