//! A mutually authenticated key-exchange handshake in the style of TLS 1.3:
//! ephemeral X25519 agreement, an HKDF key schedule over SHA-256 transcripts,
//! an Ed25519-certified server, HMAC transcript binding and AES-256-GCM flights.
use vstd::prelude::*;

pub mod primitives;
pub mod transcript;
pub mod key_extract;
pub mod error;
pub mod vec_bytes;
pub mod aead;
pub mod hmac;
pub mod dhke;
pub mod signdemo;
pub mod handshake;
pub mod encode_b64;
pub mod ecdsademo;
pub mod hkdf_sha3;
