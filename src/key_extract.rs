//! The key schedule: three tiers of directional keys derived from the DH
//! shared secret and the transcript, through HKDF-SHA-256.
use vstd::prelude::*;

use crate::primitives::{hkdf_expand, hkdf_expand_of, hkdf_extract, hkdf_extract_of, sha256_digest, sha256_of};
use crate::transcript::{append_bytes, exchange_fields, exchange_transcript, transcript_hash, transcript_hash_of, Label};

verus! {

pub open spec fn zeros32() -> Seq<u8> {
    Seq::new(32, |i: int| 0u8)
}

/// Extract(0^32, 0^32).
pub open spec fn early_secret() -> Seq<u8> {
    hkdf_extract_of(zeros32(), zeros32())
}

/// HS = Extract(Expand(EarlySecret, "DerivedES"), shared secret).
pub open spec fn handshake_secret(ss: Seq<u8>) -> Seq<u8> {
    hkdf_extract_of(hkdf_expand_of(early_secret(), Label::DerivedES.spec_bytes()), ss)
}

/// MS = Extract(0^32, Expand(HS, "DerivedHS")).
pub open spec fn master_secret(ss: Seq<u8>) -> Seq<u8> {
    hkdf_extract_of(zeros32(), hkdf_expand_of(handshake_secret(ss), Label::DerivedHS.spec_bytes()))
}

/// Tier 1, the handshake encryption keys (client, server).
pub open spec fn tier1(ss: Seq<u8>) -> (Seq<u8>, Seq<u8>) {
    (
        hkdf_expand_of(handshake_secret(ss), Label::ClientKE.spec_bytes()),
        hkdf_expand_of(handshake_secret(ss), Label::ServerKE.spec_bytes()),
    )
}

/// Tier 2, the MAC keys (client, server), bound to the exchanged values.
pub open spec fn tier2(nonce_c: Seq<u8>, pk_c: Seq<u8>, nonce_s: Seq<u8>, pk_s: Seq<u8>, ss: Seq<u8>) -> (Seq<u8>, Seq<u8>) {
    let fields = exchange_fields(nonce_c, pk_c, nonce_s, pk_s);
    (
        hkdf_expand_of(handshake_secret(ss), transcript_hash_of(fields, Label::ClientKC)),
        hkdf_expand_of(handshake_secret(ss), transcript_hash_of(fields, Label::ServerKC)),
    )
}

/// Tier 3, the finished and application keys (client, server), bound to the
/// whole server flight.
pub open spec fn tier3(
    nonce_c: Seq<u8>,
    pk_c: Seq<u8>,
    nonce_s: Seq<u8>,
    pk_s: Seq<u8>,
    ss: Seq<u8>,
    sigma: Seq<u8>,
    cert: Seq<u8>,
    mac_s: Seq<u8>,
) -> (Seq<u8>, Seq<u8>) {
    let fields = exchange_fields(nonce_c, pk_c, nonce_s, pk_s) + sigma + cert + mac_s;
    (
        hkdf_expand_of(master_secret(ss), transcript_hash_of(fields, Label::ClientEnck)),
        hkdf_expand_of(master_secret(ss), transcript_hash_of(fields, Label::ServerEnck)),
    )
}

/// SHA-256 of `plaintext`.
#[allow(non_snake_case)]
pub fn hashValue(plaintext: &[u8]) -> (r: [u8; 32])
    ensures
        r@ == sha256_of(plaintext@),
{
    sha256_digest(plaintext)
}

/// The handshake secret of a DH shared secret.
#[allow(non_snake_case)]
pub fn DeriveHS(shared_secret: &[u8]) -> (r: [u8; 32])
    ensures
        r@ == handshake_secret(shared_secret@),
{
    let zeros: [u8; 32] = [0u8; 32];
    proof {
        assert(zeros@ =~= zeros32());
    }
    let es = hkdf_extract(&zeros, &zeros);
    let derived_label = Label::DerivedES.bytes();
    let des = hkdf_expand(&es, derived_label.as_slice());
    hkdf_extract(&des, shared_secret)
}

/// Tier-1 keys (client, server).
#[allow(non_snake_case)]
pub fn KeySchedule_1(shared_secret: &[u8]) -> (r: ([u8; 32], [u8; 32]))
    ensures
        (r.0@, r.1@) == tier1(shared_secret@),
{
    let hs = DeriveHS(shared_secret);
    let client_label = Label::ClientKE.bytes();
    let server_label = Label::ServerKE.bytes();
    let k_1_c = hkdf_expand(&hs, client_label.as_slice());
    let k_1_s = hkdf_expand(&hs, server_label.as_slice());
    (k_1_c, k_1_s)
}

/// Tier-2 keys (client, server).
#[allow(non_snake_case)]
pub fn KeySchedule_2(nonce_c: &[u8], pk_A: &[u8], nonce_s: &[u8], pk_B: &[u8], shared_secret: &[u8]) -> (r: ([u8; 32], [u8; 32]))
    ensures
        (r.0@, r.1@) == tier2(nonce_c@, pk_A@, nonce_s@, pk_B@, shared_secret@),
{
    let hs = DeriveHS(shared_secret);
    let fields = exchange_transcript(nonce_c, pk_A, nonce_s, pk_B);
    let client_kc = transcript_hash(fields.as_slice(), Label::ClientKC);
    let server_kc = transcript_hash(fields.as_slice(), Label::ServerKC);
    let k_2_c = hkdf_expand(&hs, &client_kc);
    let k_2_s = hkdf_expand(&hs, &server_kc);
    (k_2_c, k_2_s)
}

/// Tier-3 keys (client, server).
#[allow(non_snake_case)]
pub fn KeySchedule_3(
    nonce_c: &[u8],
    pk_A: &[u8],
    nonce_s: &[u8],
    pk_B: &[u8],
    shared_secret: &[u8],
    sigma: &[u8],
    cert: &[u8],
    mac_s: &[u8],
) -> (r: ([u8; 32], [u8; 32]))
    ensures
        (r.0@, r.1@) == tier3(nonce_c@, pk_A@, nonce_s@, pk_B@, shared_secret@, sigma@, cert@, mac_s@),
{
    let zeros: [u8; 32] = [0u8; 32];
    proof {
        assert(zeros@ =~= zeros32());
    }
    let hs = DeriveHS(shared_secret);
    let derived_label = Label::DerivedHS.bytes();
    let dhs = hkdf_expand(&hs, derived_label.as_slice());
    let ms = hkdf_extract(&zeros, &dhs);
    let mut fields = exchange_transcript(nonce_c, pk_A, nonce_s, pk_B);
    append_bytes(&mut fields, sigma);
    append_bytes(&mut fields, cert);
    append_bytes(&mut fields, mac_s);
    let client_skh = transcript_hash(fields.as_slice(), Label::ClientEnck);
    let server_skh = transcript_hash(fields.as_slice(), Label::ServerEnck);
    let k_3_c = hkdf_expand(&ms, &client_skh);
    let k_3_s = hkdf_expand(&ms, &server_skh);
    (k_3_c, k_3_s)
}

/// Two parties that hold equal shared secrets and equal transcript inputs
/// derive equal keys in every tier and direction.
pub proof fn lemma_key_schedule_agreement(
    ss_a: Seq<u8>,
    ss_b: Seq<u8>,
    nonce_c: Seq<u8>,
    pk_c: Seq<u8>,
    nonce_s: Seq<u8>,
    pk_s: Seq<u8>,
    sigma: Seq<u8>,
    cert: Seq<u8>,
    mac_s: Seq<u8>,
)
    requires
        ss_a == ss_b,
    ensures
        tier1(ss_a) == tier1(ss_b),
        tier2(nonce_c, pk_c, nonce_s, pk_s, ss_a) == tier2(nonce_c, pk_c, nonce_s, pk_s, ss_b),
        tier3(nonce_c, pk_c, nonce_s, pk_s, ss_a, sigma, cert, mac_s)
            == tier3(nonce_c, pk_c, nonce_s, pk_s, ss_b, sigma, cert, mac_s),
{
}

} // verus!
