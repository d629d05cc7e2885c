//! Percent-encoding of query-parameter values, through the
//! `urlencoding` crate, against an exact specification of its output.
//!
//! A deliberate choice: values are percent-encoded (a space becomes
//! `%20`), not form-encoded (where a space becomes `+`); the platform
//! decodes both in query strings.
use vstd::prelude::*;
use vstd::utf8::encode_utf8;

verus! {

/// A byte the encoder passes through unchanged: an ASCII alphanumeric
/// or one of `-`, `.`, `_`, `~`.
pub open spec fn is_url_unreserved(b: u8) -> bool {
    (48 <= b <= 57) || (65 <= b <= 90) || (97 <= b <= 122) || b == 45 || b == 46 || b == 95
        || b == 126
}

/// The upper-case hex digit for a value below sixteen.
pub open spec fn upper_hex_char(d: int) -> char {
    if d == 0 {
        '0'
    } else if d == 1 {
        '1'
    } else if d == 2 {
        '2'
    } else if d == 3 {
        '3'
    } else if d == 4 {
        '4'
    } else if d == 5 {
        '5'
    } else if d == 6 {
        '6'
    } else if d == 7 {
        '7'
    } else if d == 8 {
        '8'
    } else if d == 9 {
        '9'
    } else if d == 10 {
        'A'
    } else if d == 11 {
        'B'
    } else if d == 12 {
        'C'
    } else if d == 13 {
        'D'
    } else if d == 14 {
        'E'
    } else {
        'F'
    }
}

/// The encoding of one byte: itself when unreserved, else a percent
/// escape with two upper-case hex digits.
pub open spec fn urlencoded_byte(b: u8) -> Seq<char> {
    if is_url_unreserved(b) {
        seq![b as char]
    } else {
        seq!['%', upper_hex_char(b as int / 16), upper_hex_char(b as int % 16)]
    }
}

/// The encoding of a byte sequence, byte by byte.
pub open spec fn urlencoded_bytes(bs: Seq<u8>) -> Seq<char>
    decreases bs.len(),
{
    if bs.len() == 0 {
        Seq::<char>::empty()
    } else {
        urlencoded_byte(bs[0]) + urlencoded_bytes(bs.skip(1))
    }
}

/// The percent-encoding of a string: every byte of its UTF-8 form
/// except alphanumerics and `-`, `_`, `.`, `~` is percent-encoded.
pub open spec fn urlencoded_of(s: Seq<char>) -> Seq<char> {
    urlencoded_bytes(encode_utf8(s))
}

/// Relies on `urlencoding::encode`: percent-encodes every byte except
/// alphanumerics and `-`, `_`, `.`, `~`, with upper-case hex digits,
/// exactly as `urlencoded_of` states.
#[verifier::external_body]
pub fn url_encode(s: &str) -> (r: String)
    ensures
        r@ == urlencoded_of(s@),
{
    urlencoding::encode(s).into_owned()
}

} // verus!
