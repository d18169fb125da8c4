//! Calls into std and outside crates, each with the contract this library
//! relies on. Verus does not check these bodies; each contract is what the
//! called function's documentation or source states.

use vstd::prelude::*;
use vstd::utf8::{decode_utf8, encode_utf8, valid_utf8};
use base64::Engine;
use md5::Digest;

verus! {

/// What base64 decoding with the URL-safe alphabet and required canonical
/// padding (`base64::engine::general_purpose::URL_SAFE`) gives for the
/// input bytes, or `None` where the input is not such base64.
pub uninterp spec fn base64_url_safe_decoded(input: Seq<u8>) -> Option<Seq<u8>>;

/// What base64 decoding with the standard alphabet and required canonical
/// padding (`base64::engine::general_purpose::STANDARD`) gives for the
/// input bytes, or `None` where the input is not such base64.
pub uninterp spec fn base64_standard_decoded(input: Seq<u8>) -> Option<Seq<u8>>;

/// The MD5 digest of the input bytes.
pub uninterp spec fn md5_digest(input: Seq<u8>) -> Seq<u8>;

/// The value of an ASCII hexadecimal digit byte, in either case.
pub open spec fn hex_byte_value(c: u8) -> Option<int> {
    if 48 <= c <= 57 {
        Some(c - 48)
    } else if 97 <= c <= 102 {
        Some(c - 87)
    } else if 65 <= c <= 70 {
        Some(c - 55)
    } else {
        None
    }
}

/// The 16 bytes that 32 hexadecimal digits spell, high digit first; `None`
/// where a byte is no hexadecimal digit.
pub open spec fn hex32_bytes(h: Seq<u8>) -> Option<Seq<u8>> {
    if h.len() == 32 && forall|i: int| 0 <= i < 32 ==> #[trigger] hex_byte_value(h[i]) is Some {
        Some(Seq::new(16, |j: int| (hex_byte_value(h[2 * j])->0 * 16 + hex_byte_value(h[2 * j + 1])->0) as u8))
    } else {
        None
    }
}

/// The bytes of a hyphenated UUID: 36 bytes with hyphens at 8, 13, 18 and
/// 23 and hexadecimal digits elsewhere.
pub open spec fn hyphenated_uuid_bytes(s: Seq<u8>) -> Option<Seq<u8>> {
    if s.len() == 36 && s[8] == 45 && s[13] == 45 && s[18] == 45 && s[23] == 45 {
        hex32_bytes(s.subrange(0, 8) + s.subrange(9, 13) + s.subrange(14, 18) + s.subrange(19, 23)
            + s.subrange(24, 36))
    } else {
        None
    }
}

/// ASCII lower case of a byte.
pub open spec fn ascii_lower(c: u8) -> u8 {
    if 65 <= c <= 90 { (c + 32) as u8 } else { c }
}

/// The 16 bytes of the UUID that `uuid::Uuid::parse_str` reads from the
/// UTF-8 bytes of a text: 32 hexadecimal digits; the hyphenated form; the
/// hyphenated form in braces; or the hyphenated form after `urn:uuid:` in
/// any case. `None` for anything else.
pub open spec fn uuid_text_bytes(t: Seq<u8>) -> Option<Seq<u8>> {
    if t.len() == 32 {
        hex32_bytes(t)
    } else if t.len() == 36 {
        hyphenated_uuid_bytes(t)
    } else if t.len() == 38 && t[0] == 123 && t[37] == 125 {
        hyphenated_uuid_bytes(t.subrange(1, 37))
    } else if t.len() == 45 && Seq::new(9, |i: int| ascii_lower(t[i])) == seq![117u8, 114, 110, 58, 117, 117, 105, 100, 58] {
        hyphenated_uuid_bytes(t.subrange(9, 45))
    } else {
        None
    }
}

/// The 16 bytes of the UUID that `uuid::Uuid::parse_str` reads from the
/// text, or `None` where it reads none.
pub open spec fn uuid_parsed(text: Seq<char>) -> Option<Seq<u8>> {
    uuid_text_bytes(encode_utf8(text))
}

/// Calls `URL_SAFE.decode` of the base64 crate. The contract names its
/// result (`base64_url_safe_decoded`); the decoding rules are not stated.
#[verifier::external_body]
pub fn base64_url_safe_decode(input: &[u8]) -> (r: Option<Vec<u8>>)
    ensures
        match base64_url_safe_decoded(input@) {
            Some(d) => r matches Some(v) && v@ == d,
            None => r is None,
        },
{
    base64::engine::general_purpose::URL_SAFE.decode(input).ok()
}

/// Calls `STANDARD.decode` of the base64 crate. The contract names its
/// result (`base64_standard_decoded`); the decoding rules are not stated.
#[verifier::external_body]
pub fn base64_standard_decode(input: &[u8]) -> (r: Option<Vec<u8>>)
    ensures
        match base64_standard_decoded(input@) {
            Some(d) => r matches Some(v) && v@ == d,
            None => r is None,
        },
{
    base64::engine::general_purpose::STANDARD.decode(input).ok()
}

/// Calls `String::from_utf8` of std: it succeeds exactly on valid UTF-8,
/// and the string holds the characters the bytes encode.
#[verifier::external_body]
pub fn utf8_string(bytes: Vec<u8>) -> (r: Option<String>)
    ensures
        r is Some <==> valid_utf8(bytes@),
        r matches Some(s) ==> s@ == decode_utf8(bytes@),
{
    String::from_utf8(bytes).ok()
}

/// Calls `String::push` of std: appends one character.
#[verifier::external_body]
pub fn push_char(s: &mut String, c: char)
    ensures
        final(s)@ == old(s)@.push(c),
{
    s.push(c);
}

/// Calls `Md5::digest` of the md-5 crate. The contract names the digest
/// (`md5_digest`); the digest is 16 bytes.
#[verifier::external_body]
pub fn md5_of(data: &[u8]) -> (r: [u8; 16])
    ensures
        r@ == md5_digest(data@),
{
    md5::Md5::digest(data).into()
}

/// Calls `uuid::Uuid::parse_str`: the bytes of the UUID the text spells
/// (`uuid_parsed` states the forms it reads), or `None`.
#[verifier::external_body]
pub fn uuid_parse(text: &str) -> (r: Option<[u8; 16]>)
    ensures
        match uuid_parsed(text@) {
            Some(b) => r matches Some(a) && a@ == b,
            None => r is None,
        },
{
    uuid::Uuid::parse_str(text).ok().map(|u| *u.as_bytes())
}

/// The lower-case hexadecimal digit of a number below 16.
pub open spec fn hex_digit(n: int) -> char {
    if n < 10 { (48 + n) as char } else { (87 + n) as char }
}

/// Two lower-case hexadecimal digits per byte, high nibble first.
pub open spec fn hex_lower(b: Seq<u8>) -> Seq<char> {
    Seq::new(2 * b.len(), |i: int| if i % 2 == 0 { hex_digit(b[i / 2] as int / 16) } else { hex_digit(b[i / 2] as int % 16) })
}

/// The hyphenated form of a UUID: its hex digits in groups of 8-4-4-4-12.
pub open spec fn uuid_hyphenated(b: Seq<u8>) -> Seq<char> {
    let h = hex_lower(b);
    h.subrange(0, 8) + seq!['-'] + h.subrange(8, 12) + seq!['-'] + h.subrange(12, 16) + seq!['-']
        + h.subrange(16, 20) + seq!['-'] + h.subrange(20, 32)
}

/// Calls `Uuid::from_bytes(..).simple().to_string()` of the uuid crate:
/// the 32 lower-case hexadecimal digits of the bytes.
#[verifier::external_body]
pub fn uuid_simple_string(b: &[u8; 16]) -> (s: String)
    ensures
        s@ == hex_lower(b@),
{
    uuid::Uuid::from_bytes(*b).simple().to_string()
}

/// Calls `Uuid::from_bytes(..).hyphenated().to_string()` of the uuid
/// crate: the lower-case hexadecimal digits in groups of 8-4-4-4-12.
#[verifier::external_body]
pub fn uuid_hyphenated_string(b: &[u8; 16]) -> (s: String)
    ensures
        s@ == uuid_hyphenated(b@),
{
    uuid::Uuid::from_bytes(*b).hyphenated().to_string()
}

} // verus!

