//! The cryptographic primitives the protocol is built on. Each function here
//! makes one call into an outside crate; its contract names the result.
use vstd::prelude::*;

use aes_gcm::aead::{Aead, KeyInit, Payload};
use ed25519_dalek::{Signer, Verifier};
use hmac::Mac;
use sha2::Digest;

verus! {

/// SHA-256 of a message.
pub uninterp spec fn sha256_of(msg: Seq<u8>) -> Seq<u8>;

/// HKDF-SHA-256 extract: the pseudorandom key of a salt and input keying material.
pub uninterp spec fn hkdf_extract_of(salt: Seq<u8>, ikm: Seq<u8>) -> Seq<u8>;

/// HKDF-SHA-256 expand of a pseudorandom key and an info string, 32 bytes of output.
pub uninterp spec fn hkdf_expand_of(prk: Seq<u8>, info: Seq<u8>) -> Seq<u8>;

/// HMAC-SHA-256 tag of a message under a key.
pub uninterp spec fn hmac_sha256_of(key: Seq<u8>, msg: Seq<u8>) -> Seq<u8>;

/// AES-256-GCM ciphertext followed by its tag.
pub uninterp spec fn aes_gcm_seal_of(key: Seq<u8>, nonce: Seq<u8>, pt: Seq<u8>, ad: Seq<u8>) -> Seq<u8>;

/// The X25519 function on a scalar and a u-coordinate.
pub uninterp spec fn x25519_of(k: Seq<u8>, u: Seq<u8>) -> Seq<u8>;

/// The Ed25519 verifying key of a secret key.
pub uninterp spec fn ed25519_public_of(sk: Seq<u8>) -> Seq<u8>;

/// The (deterministic) Ed25519 signature of a message under a secret key.
pub uninterp spec fn ed25519_sign_of(sk: Seq<u8>, msg: Seq<u8>) -> Seq<u8>;

/// Whether an Ed25519 signature verifies for a message under an encoded verifying key.
pub uninterp spec fn ed25519_verify_of(pk: Seq<u8>, msg: Seq<u8>, sig: Seq<u8>) -> bool;

/// Largest plaintext and associated data that AES-GCM accepts, in bytes.
pub const AEAD_MAX_LEN: u64 = 0x10_0000_0000;

#[verifier::external_type_specification]
#[verifier::external_body]
pub struct ExAeadError(aes_gcm::Error);

/// Relies on sha2::Sha256::digest.
#[verifier::external_body]
pub(crate) fn sha256_digest(msg: &[u8]) -> (r: [u8; 32])
    ensures
        r@ == sha256_of(msg@),
{
    sha2::Sha256::digest(msg).into()
}

/// Relies on hkdf::Hkdf::<Sha256>::extract: the pseudorandom key it returns.
#[verifier::external_body]
pub(crate) fn hkdf_extract(salt: &[u8], ikm: &[u8]) -> (r: [u8; 32])
    ensures
        r@ == hkdf_extract_of(salt@, ikm@),
{
    let (prk, _) = hkdf::Hkdf::<sha2::Sha256>::extract(Some(salt), ikm);
    prk.into()
}

/// Relies on hkdf::Hkdf::<Sha256>::from_prk and expand. Neither fails here:
/// the key is 32 bytes, the hash length, and 32 bytes of output are far
/// below the limit of 255 hash lengths.
#[verifier::external_body]
pub(crate) fn hkdf_expand(prk: &[u8; 32], info: &[u8]) -> (r: [u8; 32])
    ensures
        r@ == hkdf_expand_of(prk@, info@),
{
    let hk = hkdf::Hkdf::<sha2::Sha256>::from_prk(prk).expect("a 32-byte key is long enough");
    let mut okm = [0u8; 32];
    hk.expand(info, &mut okm).expect("32 bytes are within the output limit");
    okm
}

/// Relies on hmac::Hmac::<Sha256>: new_from_slice (which takes a key of any
/// length), update and finalize.
#[verifier::external_body]
pub(crate) fn hmac_sha256(key: &[u8], msg: &[u8]) -> (r: [u8; 32])
    ensures
        r@ == hmac_sha256_of(key@, msg@),
{
    let mut mac = <hmac::Hmac<sha2::Sha256> as Mac>::new_from_slice(key).expect("any key length");
    mac.update(msg);
    mac.finalize().into_bytes().into()
}

/// Relies on hmac::Mac::verify_slice: it accepts exactly the tag that
/// finalize would give, of the same length, compared in constant time.
#[verifier::external_body]
pub(crate) fn hmac_sha256_verify(key: &[u8], msg: &[u8], tag: &[u8]) -> (r: bool)
    ensures
        r == (tag@ == hmac_sha256_of(key@, msg@)),
{
    let mut mac = <hmac::Hmac<sha2::Sha256> as Mac>::new_from_slice(key).expect("any key length");
    mac.update(msg);
    mac.verify_slice(tag).is_ok()
}

/// Relies on aes_gcm::Aes256Gcm::encrypt: it refuses a plaintext or
/// associated data longer than 2^36 bytes and otherwise returns the sealed
/// message.
#[verifier::external_body]
pub(crate) fn aes_gcm_seal(key: &[u8; 32], nonce: &[u8; 12], pt: &[u8], ad: &[u8]) -> (r: Result<Vec<u8>, aes_gcm::Error>)
    ensures
        r is Ok <==> (pt@.len() <= AEAD_MAX_LEN && ad@.len() <= AEAD_MAX_LEN),
        r is Ok ==> r->Ok_0@ == aes_gcm_seal_of(key@, nonce@, pt@, ad@),
{
    let cipher = aes_gcm::Aes256Gcm::new(aes_gcm::Key::<aes_gcm::Aes256Gcm>::from_slice(key));
    cipher.encrypt(aes_gcm::Nonce::from_slice(nonce), Payload { msg: pt, aad: ad })
}

/// Relies on aes_gcm::Aes256Gcm::decrypt: it returns the plaintext exactly
/// when the ciphertext and tag are what encrypt gives for it under the same
/// key, nonce and associated data; the plaintext is the ciphertext less its
/// 16-byte tag.
#[verifier::external_body]
pub(crate) fn aes_gcm_open(key: &[u8; 32], nonce: &[u8; 12], ct: &[u8], ad: &[u8]) -> (r: Result<Vec<u8>, aes_gcm::Error>)
    ensures
        forall|p: Seq<u8>|
            p.len() <= AEAD_MAX_LEN && ad@.len() <= AEAD_MAX_LEN
                && #[trigger] aes_gcm_seal_of(key@, nonce@, p, ad@) == ct@
                ==> (r is Ok && r->Ok_0@ == p),
        r is Ok ==> ad@.len() <= AEAD_MAX_LEN && r->Ok_0@.len() + 16 == ct@.len()
            && aes_gcm_seal_of(key@, nonce@, r->Ok_0@, ad@) == ct@,
{
    let cipher = aes_gcm::Aes256Gcm::new(aes_gcm::Key::<aes_gcm::Aes256Gcm>::from_slice(key));
    cipher.decrypt(aes_gcm::Nonce::from_slice(nonce), Payload { msg: ct, aad: ad })
}

/// Relies on x25519_dalek::x25519, the byte-level X25519 function.
#[verifier::external_body]
pub(crate) fn x25519(k: [u8; 32], u: [u8; 32]) -> (r: [u8; 32])
    ensures
        r@ == x25519_of(k@, u@),
{
    x25519_dalek::x25519(k, u)
}

/// Relies on rand::random: 32 bytes from the thread-local generator.
#[verifier::external_body]
pub(crate) fn random_bytes32() -> (r: [u8; 32]) {
    rand::random()
}

/// Relies on ed25519_dalek::SigningKey::from_bytes and verifying_key.
#[verifier::external_body]
pub(crate) fn ed25519_public(sk: &[u8; 32]) -> (r: [u8; 32])
    ensures
        r@ == ed25519_public_of(sk@),
{
    ed25519_dalek::SigningKey::from_bytes(sk).verifying_key().to_bytes()
}

/// Relies on ed25519_dalek::SigningKey::sign, which is deterministic.
#[verifier::external_body]
pub(crate) fn ed25519_sign(sk: &[u8; 32], msg: &[u8]) -> (r: [u8; 64])
    ensures
        r@ == ed25519_sign_of(sk@, msg@),
{
    ed25519_dalek::SigningKey::from_bytes(sk).sign(msg).to_bytes()
}

/// Relies on ed25519_dalek::VerifyingKey::from_bytes and verify; a key that
/// does not decode verifies nothing.
#[verifier::external_body]
pub(crate) fn ed25519_verify(pk: &[u8; 32], msg: &[u8], sig: &[u8; 64]) -> (r: bool)
    ensures
        r == ed25519_verify_of(pk@, msg@, sig@),
{
    match ed25519_dalek::VerifyingKey::from_bytes(pk) {
        Ok(vk) => vk.verify(msg, &ed25519_dalek::Signature::from_bytes(sig)).is_ok(),
        Err(_) => false,
    }
}

} // verus!
