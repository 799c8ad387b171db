//! Base64, SHA-256 and hexadecimal.
use crate::text::{cat2, trim_text, trimmed};
use base64::Engine;
use sha2::Digest;
use vstd::prelude::*;
use vstd::string::*;
use zeroize::Zeroize;

verus! {

/// Bytes in standard Base64 with padding.
pub uninterp spec fn base64_text(data: Seq<u8>) -> Seq<char>;

/// The bytes that a text stands for in standard Base64 with padding, or the
/// message of the decoder.
pub uninterp spec fn base64_bytes(text: Seq<char>) -> Result<Seq<u8>, Seq<char>>;

/// The SHA-256 digest of bytes.
pub uninterp spec fn sha256_digest(data: Seq<u8>) -> Seq<u8>;

/// A character of Base64.
pub open spec fn is_base64_char(c: char) -> bool {
    'a' <= c <= 'z' || 'A' <= c <= 'Z' || '0' <= c <= '9' || c == '+' || c == '/' || c == '='
}

/// `encode` of `base64::engine::general_purpose::STANDARD`: the result holds
/// characters of Base64 alone, and decoding it gives the bytes back.
#[verifier::external_body]
pub(crate) fn encode_base64(data: &[u8]) -> (r: String)
    ensures
        r@ == base64_text(data@),
        base64_bytes(r@) is Ok && base64_bytes(r@)->Ok_0 == data@,
        forall|i: int| 0 <= i < r@.len() ==> is_base64_char(#[trigger] r@[i]),
{
    base64::engine::general_purpose::STANDARD.encode(data)
}

/// `decode` of `base64::engine::general_purpose::STANDARD`.
#[verifier::external_body]
pub(crate) fn decode_base64(text: &str) -> (r: Result<Vec<u8>, String>)
    ensures
        match r {
            Ok(data) => base64_bytes(text@) == Ok::<Seq<u8>, Seq<char>>(data@),
            Err(e) => base64_bytes(text@) == Err::<Seq<u8>, Seq<char>>(e@),
        },
{
    base64::engine::general_purpose::STANDARD.decode(text).map_err(|e| e.to_string())
}

/// `sha2::Sha256::digest`: thirty-two bytes.
#[verifier::external_body]
fn sha256(data: &[u8]) -> (r: Vec<u8>)
    ensures
        r@ == sha256_digest(data@),
        r@.len() == 32,
{
    sha2::Sha256::digest(data).to_vec()
}

/// A hexadecimal digit, in lower case.
pub open spec fn hex_digit(n: nat) -> char {
    if n < 10 {
        (('0' as u32 + n) as u32) as char
    } else {
        (('a' as u32 + (n - 10)) as u32) as char
    }
}

/// Bytes in hexadecimal: two digits for each, the higher one first.
pub open spec fn hex_text(data: Seq<u8>) -> Seq<char>
    decreases data.len(),
{
    if data.len() == 0 {
        Seq::empty()
    } else {
        hex_text(data.drop_last()).push(hex_digit(data.last() as nat / 16)).push(
            hex_digit(data.last() as nat % 16),
        )
    }
}

/// `hex::encode`: lower-case hexadecimal.
#[verifier::external_body]
fn hex_encode(data: &[u8]) -> (r: String)
    ensures
        r@ == hex_text(data@),
{
    hex::encode(data)
}

/// `zeroize` on a vector of bytes: overwrites them with zeroes and empties it.
#[verifier::external_body]
fn zeroize_vec(data: &mut Vec<u8>)
    ensures
        final(data)@.len() == 0,
{
    data.zeroize()
}

/// Wipes secret bytes from memory.
pub fn wipe(data: &mut Vec<u8>)
    ensures
        final(data)@.len() == 0,
{
    zeroize_vec(data)
}

/// The SHA-256 digest of a file, in hexadecimal.
pub fn compute_sha256(data: &[u8]) -> (r: String)
    ensures
        r@ == hex_text(sha256_digest(data@)),
        r@.len() == 64,
{
    let digest = sha256(data);
    proof {
        lemma_hex_len(digest@);
    }
    hex_encode(digest.as_slice())
}

/// Hexadecimal takes two digits for each byte.
pub proof fn lemma_hex_len(data: Seq<u8>)
    ensures
        hex_text(data).len() == 2 * data.len(),
    decreases data.len(),
{
    if data.len() > 0 {
        lemma_hex_len(data.drop_last());
    }
}

/// Different bytes have different texts in hexadecimal.
pub proof fn lemma_hex_tells_apart(a: Seq<u8>, b: Seq<u8>)
    requires
        hex_text(a) == hex_text(b),
    ensures
        a == b,
    decreases a.len(),
{
    lemma_hex_len(a);
    lemma_hex_len(b);
    if a.len() > 0 {
        let n = hex_text(a).len() as int;
        let s = hex_text(a.drop_last());
        let t = hex_text(b.drop_last());
        lemma_hex_len(a.drop_last());
        lemma_hex_len(b.drop_last());
        assert(s =~= hex_text(a).take(n - 2));
        assert(t =~= hex_text(b).take(n - 2));
        lemma_hex_tells_apart(a.drop_last(), b.drop_last());
        assert(hex_text(a)[n - 1] == hex_digit(a.last() as nat % 16));
        assert(hex_text(b)[n - 1] == hex_digit(b.last() as nat % 16));
        assert(hex_text(a)[n - 2] == hex_digit(a.last() as nat / 16));
        assert(hex_text(b)[n - 2] == hex_digit(b.last() as nat / 16));
        assert(a =~= a.drop_last().push(a.last()));
        assert(b =~= b.drop_last().push(b.last()));
    } else {
        assert(a =~= b);
    }
}

/// The bytes of a text in Base64 with blanks around it, or a message that says
/// what was being decoded.
pub open spec fn decoded(text: Seq<char>, failure: Seq<char>) -> Result<Seq<u8>, Seq<char>> {
    match base64_bytes(trimmed(text)) {
        Ok(data) => Ok(data),
        Err(e) => Err(failure + e),
    }
}

/// What a decoding came to.
pub open spec fn bytes_verdict(r: Result<Vec<u8>, String>) -> Result<Seq<u8>, Seq<char>> {
    match r {
        Ok(data) => Ok(data@),
        Err(e) => Err(e@),
    }
}

/// Decodes Base64 with blanks around it.
pub fn decode_trimmed(text: &str, failure: &str) -> (r: Result<Vec<u8>, String>)
    ensures
        bytes_verdict(r) == decoded(text@, failure@),
{
    match decode_base64(&trim_text(text)) {
        Ok(data) => Ok(data),
        Err(e) => Err(cat2(failure, &e)),
    }
}

} // verus!
