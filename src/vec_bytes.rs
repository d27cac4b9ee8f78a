//! The message codec: the fixed-width concatenation
//! certificate || signature || MAC carried in the server flight.
use vstd::prelude::*;

use crate::error::HandshakeError;

verus! {

/// Certificate: the server's signing key (32 bytes) and the authority's signature over it (64 bytes).
pub const PK_LEN: usize = 96;
/// An Ed25519 signature.
pub const SIG_LEN: usize = 64;
/// An HMAC-SHA-256 tag.
pub const MAC_LEN: usize = 32;
/// The length of an encoded message.
pub const MSG_LEN: usize = 192;

/// Copies `N` bytes of `src` from `start` into an array.
pub fn take_array<const N: usize>(src: &[u8], start: usize) -> (r: [u8; N])
    requires
        start + N <= src@.len(),
    ensures
        r@ == src@.subrange(start as int, start + N),
{
    let mut out: [u8; N] = [0u8; N];
    let src_len: usize = src.len();
    let mut i: usize = 0;
    while i < N
        invariant
            0 <= i <= N,
            start + N <= src@.len(),
            src@.len() == src_len,
            out@.len() == N,
            forall|j: int| 0 <= j < i ==> out@[j] == src@[start + j],
        decreases N - i,
    {
        out[i] = src[start + i];
        i = i + 1;
    }
    proof {
        assert(out@ =~= src@.subrange(start as int, start + N));
    }
    out
}

/// The encoded message.
pub open spec fn encoded(cert: Seq<u8>, sig: Seq<u8>, mac: Seq<u8>) -> Seq<u8> {
    cert + sig + mac
}

/// Concatenates the three fields in their fixed order.
pub fn encode(cert: &[u8; PK_LEN], sig: &[u8; SIG_LEN], mac: &[u8; MAC_LEN]) -> (r: Vec<u8>)
    ensures
        r@ == encoded(cert@, sig@, mac@),
        r@.len() == MSG_LEN,
{
    let mut out: Vec<u8> = Vec::new();
    crate::transcript::append_bytes(&mut out, cert);
    crate::transcript::append_bytes(&mut out, sig);
    crate::transcript::append_bytes(&mut out, mac);
    out
}

/// Splits a decrypted server message into certificate, signature and MAC.
pub fn split_decrypted(plaintext: Vec<u8>) -> (r: Result<([u8; PK_LEN], [u8; SIG_LEN], [u8; MAC_LEN]), HandshakeError>)
    ensures
        r is Err <==> plaintext@.len() != MSG_LEN,
        r is Err ==> r == Err::<([u8; PK_LEN], [u8; SIG_LEN], [u8; MAC_LEN]), HandshakeError>(HandshakeError::MalformedMessage),
        r is Ok ==> ({
            let (pk, sig, mac) = r->Ok_0;
            &&& pk@ == plaintext@.subrange(0, 96)
            &&& sig@ == plaintext@.subrange(96, 160)
            &&& mac@ == plaintext@.subrange(160, 192)
        }),
{
    if plaintext.len() != MSG_LEN {
        return Err(HandshakeError::MalformedMessage);
    }
    let pk: [u8; PK_LEN] = take_array(plaintext.as_slice(), 0);
    let sig: [u8; SIG_LEN] = take_array(plaintext.as_slice(), PK_LEN);
    let mac: [u8; MAC_LEN] = take_array(plaintext.as_slice(), PK_LEN + SIG_LEN);
    Ok((pk, sig, mac))
}

/// Decoding an encoded message gives back its three fields; any other
/// length is refused.
pub proof fn lemma_codec_inverse(cert: Seq<u8>, sig: Seq<u8>, mac: Seq<u8>)
    requires
        cert.len() == PK_LEN,
        sig.len() == SIG_LEN,
        mac.len() == MAC_LEN,
    ensures
        encoded(cert, sig, mac).len() == MSG_LEN,
        encoded(cert, sig, mac).subrange(0, 96) == cert,
        encoded(cert, sig, mac).subrange(96, 160) == sig,
        encoded(cert, sig, mac).subrange(160, 192) == mac,
{
    assert(encoded(cert, sig, mac).subrange(0, 96) =~= cert);
    assert(encoded(cert, sig, mac).subrange(96, 160) =~= sig);
    assert(encoded(cert, sig, mac).subrange(160, 192) =~= mac);
}

} // verus!
