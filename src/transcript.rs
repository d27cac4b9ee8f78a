//! Domain-separation labels and the transcript builder: an ordered
//! concatenation of byte fields, closed by a label and hashed.
use vstd::prelude::*;

use crate::primitives::{sha256_digest, sha256_of};

verus! {

/// The fixed ASCII tags that separate every use of a derived value.
#[derive(Clone, Copy, Debug, PartialEq, Eq, Structural)]
pub enum Label {
    /// "DerivedES"
    DerivedES,
    /// "DerivedHS"
    DerivedHS,
    /// "ClientKE"
    ClientKE,
    /// "ServerKE"
    ServerKE,
    /// "ClientKC"
    ClientKC,
    /// "ServerKC"
    ServerKC,
    /// "ClientEnck"
    ClientEnck,
    /// "ServerEnck"
    ServerEnck,
    /// "ServerMAC"
    ServerMAC,
    /// "ClientMAC"
    ClientMAC,
    /// "ServerSig"
    ServerSig,
}

impl Label {
    /// The ASCII bytes of the label.
    pub open spec fn spec_bytes(self) -> Seq<u8> {
        match self {
            Label::DerivedES => seq![68u8, 101, 114, 105, 118, 101, 100, 69, 83],
            Label::DerivedHS => seq![68u8, 101, 114, 105, 118, 101, 100, 72, 83],
            Label::ClientKE => seq![67u8, 108, 105, 101, 110, 116, 75, 69],
            Label::ServerKE => seq![83u8, 101, 114, 118, 101, 114, 75, 69],
            Label::ClientKC => seq![67u8, 108, 105, 101, 110, 116, 75, 67],
            Label::ServerKC => seq![83u8, 101, 114, 118, 101, 114, 75, 67],
            Label::ClientEnck => seq![67u8, 108, 105, 101, 110, 116, 69, 110, 99, 107],
            Label::ServerEnck => seq![83u8, 101, 114, 118, 101, 114, 69, 110, 99, 107],
            Label::ServerMAC => seq![83u8, 101, 114, 118, 101, 114, 77, 65, 67],
            Label::ClientMAC => seq![67u8, 108, 105, 101, 110, 116, 77, 65, 67],
            Label::ServerSig => seq![83u8, 101, 114, 118, 101, 114, 83, 105, 103],
        }
    }

    pub fn bytes(&self) -> (r: Vec<u8>)
        ensures
            r@ == self.spec_bytes(),
    {
        let r = match self {
            Label::DerivedES => vec![68u8, 101, 114, 105, 118, 101, 100, 69, 83],
            Label::DerivedHS => vec![68u8, 101, 114, 105, 118, 101, 100, 72, 83],
            Label::ClientKE => vec![67u8, 108, 105, 101, 110, 116, 75, 69],
            Label::ServerKE => vec![83u8, 101, 114, 118, 101, 114, 75, 69],
            Label::ClientKC => vec![67u8, 108, 105, 101, 110, 116, 75, 67],
            Label::ServerKC => vec![83u8, 101, 114, 118, 101, 114, 75, 67],
            Label::ClientEnck => vec![67u8, 108, 105, 101, 110, 116, 69, 110, 99, 107],
            Label::ServerEnck => vec![83u8, 101, 114, 118, 101, 114, 69, 110, 99, 107],
            Label::ServerMAC => vec![83u8, 101, 114, 118, 101, 114, 77, 65, 67],
            Label::ClientMAC => vec![67u8, 108, 105, 101, 110, 116, 77, 65, 67],
            Label::ServerSig => vec![83u8, 101, 114, 118, 101, 114, 83, 105, 103],
        };
        proof {
            assert(r@ =~= self.spec_bytes());
        }
        r
    }
}

/// Distinct labels have distinct bytes.
pub proof fn lemma_labels_distinct(a: Label, b: Label)
    requires
        a != b,
    ensures
        a.spec_bytes() != b.spec_bytes(),
{
    if a.spec_bytes() == b.spec_bytes() {
        assert(a.spec_bytes()[0] == b.spec_bytes()[0]);
        assert(a.spec_bytes()[6] == b.spec_bytes()[6]);
        assert(a.spec_bytes()[7] == b.spec_bytes()[7]);
    }
}

/// The same fields closed by two different labels never give the same
/// hashed input: no derived value can stand in for another role.
pub proof fn lemma_transcript_label_separation(fields: Seq<u8>, a: Label, b: Label)
    requires
        a != b,
    ensures
        fields + a.spec_bytes() != fields + b.spec_bytes(),
{
    lemma_labels_distinct(a, b);
    if fields + a.spec_bytes() == fields + b.spec_bytes() {
        let n = fields.len();
        let m = (fields + a.spec_bytes()).len();
        assert((fields + a.spec_bytes()).subrange(n as int, m as int) =~= a.spec_bytes());
        assert((fields + b.spec_bytes()).subrange(n as int, m as int) =~= b.spec_bytes());
    }
}

/// Appends `field` to `buf`, byte by byte, in order.
pub fn append_bytes(buf: &mut Vec<u8>, field: &[u8])
    ensures
        final(buf)@ == old(buf)@ + field@,
{
    let mut i: usize = 0;
    while i < field.len()
        invariant
            0 <= i <= field@.len(),
            buf@ == old(buf)@ + field@.subrange(0, i as int),
        decreases field@.len() - i,
    {
        buf.push(field[i]);
        i = i + 1;
        proof {
            assert(field@.subrange(0, i as int) =~= field@.subrange(0, i - 1 as int).push(field@[i - 1]));
        }
    }
    proof {
        assert(field@.subrange(0, field@.len() as int) =~= field@);
    }
}

/// The digest of a transcript: the hash of its fields followed by its label.
pub open spec fn transcript_hash_of(fields: Seq<u8>, label: Label) -> Seq<u8> {
    sha256_of(fields + label.spec_bytes())
}

/// Hashes the already concatenated `fields` followed by `label`.
pub fn transcript_hash(fields: &[u8], label: Label) -> (r: [u8; 32])
    ensures
        r@ == transcript_hash_of(fields@, label),
{
    let mut msg: Vec<u8> = Vec::new();
    append_bytes(&mut msg, fields);
    let tag = label.bytes();
    append_bytes(&mut msg, tag.as_slice());
    sha256_digest(msg.as_slice())
}

/// The fields that the key exchange fixes: both nonces and both DH public keys.
pub open spec fn exchange_fields(nonce_c: Seq<u8>, pk_c: Seq<u8>, nonce_s: Seq<u8>, pk_s: Seq<u8>) -> Seq<u8> {
    nonce_c + pk_c + nonce_s + pk_s
}

/// Concatenates the key-exchange fields in their canonical order.
pub fn exchange_transcript(nonce_c: &[u8], pk_c: &[u8], nonce_s: &[u8], pk_s: &[u8]) -> (r: Vec<u8>)
    ensures
        r@ == exchange_fields(nonce_c@, pk_c@, nonce_s@, pk_s@),
{
    let mut t: Vec<u8> = Vec::new();
    append_bytes(&mut t, nonce_c);
    append_bytes(&mut t, pk_c);
    append_bytes(&mut t, nonce_s);
    append_bytes(&mut t, pk_s);
    proof {
        assert(t@ =~= exchange_fields(nonce_c@, pk_c@, nonce_s@, pk_s@));
    }
    t
}

} // verus!
