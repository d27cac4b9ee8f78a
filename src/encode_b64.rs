//! Standard, padded Base64 text for byte strings.
use vstd::prelude::*;

use base64::Engine;

verus! {

/// Standard Base64 with canonical padding.
pub uninterp spec fn base64_of(data: Seq<u8>) -> Seq<char>;

#[verifier::external_type_specification]
#[verifier::external_body]
pub struct ExDecodeError(base64::DecodeError);

/// Relies on base64's STANDARD engine, encode.
#[verifier::external_body]
fn standard_encode(data: &[u8]) -> (r: String)
    ensures
        r@ == base64_of(data@),
{
    base64::engine::general_purpose::STANDARD.encode(data)
}

/// Relies on base64's STANDARD engine, decode: it requires canonical padding
/// and refuses trailing bits, so it accepts exactly the strings that encode
/// produces, and returns their bytes.
#[verifier::external_body]
fn standard_decode(s: &str) -> (r: Result<Vec<u8>, base64::DecodeError>)
    ensures
        r is Ok ==> base64_of(r->Ok_0@) == s@,
        forall|b: Seq<u8>| #[trigger] base64_of(b) == s@ ==> (r is Ok && r->Ok_0@ == b),
{
    base64::engine::general_purpose::STANDARD.decode(s)
}

/// The text is not the Base64 encoding of any byte string.
#[derive(Clone, Copy, Debug, PartialEq, Eq, Structural)]
pub struct Base64Error;

/// Encodes bytes to standard Base64.
pub fn b64(data: &[u8]) -> (r: String)
    ensures
        r@ == base64_of(data@),
{
    standard_encode(data)
}

/// Decodes standard Base64 text; it succeeds exactly on encoded text.
pub fn from_b64(s: &str) -> (r: Result<Vec<u8>, Base64Error>)
    ensures
        r is Ok <==> exists|b: Seq<u8>| #[trigger] base64_of(b) == s@,
        r is Ok ==> base64_of(r->Ok_0@) == s@,
        forall|b: Seq<u8>| #[trigger] base64_of(b) == s@ ==> (r is Ok && r->Ok_0@ == b),
{
    let res = standard_decode(s);
    proof {
        if res is Ok {
            assert(base64_of(res->Ok_0@) == s@);
        }
    }
    match res {
        Ok(v) => Ok(v),
        Err(_) => Err(Base64Error),
    }
}

} // verus!
