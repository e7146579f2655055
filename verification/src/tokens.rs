//! Application tokens: the lowercase hex SHA3-512 digest of a fresh CUID.
use vstd::prelude::*;
use vstd::string::*;
use vstd::utf8::*;
use crate::text::{previewable, token_preview};

verus! {

/// The error type of the CUID generator, carried through unchanged.
#[verifier::external_type_specification]
#[verifier::external_body]
pub struct ExCuidError(cuid::CuidError);

/// The SHA3-512 digest of `data`.
pub uninterp spec fn sha3_512_digest(data: Seq<u8>) -> Seq<u8>;

/// Calls `cuid::cuid()`. Nothing is claimed of the result: it depends on the
/// clock, a counter, the host and random numbers.
#[verifier::external_body]
#[allow(deprecated)]
fn new_cuid() -> (r: Result<String, cuid::CuidError>) {
    cuid::cuid()
}

/// Calls `Digest::digest` of `sha3::Sha3_512`. Claimed: the result is
/// `sha3_512_digest` of the data, and it is 64 bytes long (the output size of
/// SHA3-512).
#[verifier::external_body]
fn sha3_512(data: &[u8]) -> (d: Vec<u8>)
    ensures
        d@ == sha3_512_digest(data@),
        d@.len() == 64,
{
    <sha3::Sha3_512 as sha3::Digest>::digest(data).to_vec()
}

/// The lowercase hex digit of `n` (below 16).
pub open spec fn hex_digit(n: u8) -> char {
    if n < 10 {
        ((n + 48) as u8) as char
    } else {
        ((n + 87) as u8) as char
    }
}

/// Two lowercase hex digits per byte, high half first.
pub open spec fn hex_lower(bytes: Seq<u8>) -> Seq<char> {
    Seq::new(
        2 * bytes.len(),
        |i: int| if i % 2 == 0 { hex_digit(bytes[i / 2] / 16) } else { hex_digit(bytes[i / 2] % 16) },
    )
}

/// A character is a lowercase hex digit.
pub open spec fn is_hex_char(c: char) -> bool {
    ('0' <= c && c <= '9') || ('a' <= c && c <= 'f')
}

/// The shape of every application token: 128 lowercase hex digits.
pub open spec fn is_app_token(t: Seq<char>) -> bool {
    t.len() == 128 && forall|i: int| 0 <= i < t.len() ==> is_hex_char(#[trigger] t[i])
}

fn hex_digit_exec(n: u8) -> (c: char)
    requires
        n < 16,
    ensures
        c == hex_digit(n),
{
    if n < 10 {
        (n + 48) as char
    } else {
        (n + 87) as char
    }
}

/// The lowercase hex encoding of `bytes`.
pub fn hex_encode(bytes: &[u8]) -> (r: String)
    ensures
        r@ == hex_lower(bytes@),
{
    let mut r = String::new();
    let n = bytes.len();
    for i in 0..n
        invariant
            n == bytes@.len(),
            r@ == hex_lower(bytes@).take(2 * i),
    {
        let b = bytes[i];
        r.push(hex_digit_exec(b / 16));
        r.push(hex_digit_exec(b % 16));
        assert(r@ =~= hex_lower(bytes@).take(2 * (i + 1)));
    }
    assert(hex_lower(bytes@).take(2 * n) =~= hex_lower(bytes@));
    r
}

/// The token derived from a CUID: the hex SHA3-512 digest of its UTF-8 bytes.
pub fn token_from_cuid(cuid: &str) -> (t: String)
    ensures
        t@ == hex_lower(sha3_512_digest(cuid.spec_bytes())),
        is_app_token(t@),
{
    let digest = sha3_512(cuid.as_bytes());
    let t = hex_encode(digest.as_slice());
    assert forall|i: int| 0 <= i < t@.len() implies is_hex_char(#[trigger] t@[i]) by {
        let b = digest@[i / 2];
        assert(b / 16 < 16 && b % 16 < 16);
    }
    t
}

/// A fresh application token. Only generating the CUID can fail.
pub fn create_token() -> (r: Result<String, cuid::CuidError>)
    ensures
        r matches Ok(t) ==> is_app_token(t@)
            && exists|seed: Seq<char>| t@ == hex_lower(sha3_512_digest(encode_utf8(seed))),
{
    match new_cuid() {
        Ok(cuid) => {
            let t = token_from_cuid(cuid.as_str());
            assert(t@ == hex_lower(sha3_512_digest(encode_utf8(cuid@))));
            Ok(t)
        },
        Err(e) => Err(e),
    }
}

/// Every application token can be shown in a token listing, and the listing
/// shows its first five characters followed by `...`.
pub proof fn app_tokens_preview_their_first_five_characters(t: Seq<char>)
    requires
        is_app_token(t),
    ensures
        previewable(t),
        token_preview(t) == t.take(5) + "..."@,
{
    assert(is_ascii_chars(t));
    is_ascii_chars_encode_utf8(t);
    let bytes = encode_utf8(t);
    encode_utf8_valid_utf8(t);
    assert(bytes[5] == t[5] as u8);
    is_char_boundary_iff_is_leading_byte(bytes, 5);
    let head = t.take(5);
    assert(is_ascii_chars(head));
    is_ascii_chars_encode_utf8(head);
    assert(encode_utf8(head) =~= bytes.take(5));
    encode_utf8_decode_utf8(head);
}

} // verus!
