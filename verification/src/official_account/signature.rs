//! Authentication of inbound webhook requests: the platform signs each
//! call with the hex SHA-1 digest of the sorted concatenation of the shared
//! token, the timestamp and the nonce, and the pipeline rejects any request
//! whose signature does not match before any payload is parsed.
use vstd::prelude::*;
use vstd::utf8::encode_utf8;

use crate::OfficialAccount;
use crate::errors::WechatError;
use crate::text::{
    chars_to_string, lemma_lex_antisym, lemma_lex_total_from, lemma_lex_trans, lex_le,
    lex_le_exec,
    push_char, string_to_chars,
};

use sha1::Digest;

verus! {

/// The SHA-1 digest of a byte sequence, as the `sha1` crate computes it; a
/// function of the input bytes alone, left uninterpreted here.
pub uninterp spec fn sha1_of(data: Seq<u8>) -> Seq<u8>;

/// Relies on `sha1::Sha1` (`Digest::digest`): returns the SHA-1 digest of
/// the input, which is always 20 bytes and depends on the input alone.
#[verifier::external_body]
fn sha1_digest(data: &[u8]) -> (r: Vec<u8>)
    ensures
        r@ == sha1_of(data@),
        r@.len() == 20,
{
    sha1::Sha1::digest(data).to_vec()
}

/// The lower-case hex digit for a value below sixteen.
pub open spec fn hex_char(d: int) -> char {
    if d == 0 {
        '0'
    } else if d == 1 {
        '1'
    } else if d == 2 {
        '2'
    } else if d == 3 {
        '3'
    } else if d == 4 {
        '4'
    } else if d == 5 {
        '5'
    } else if d == 6 {
        '6'
    } else if d == 7 {
        '7'
    } else if d == 8 {
        '8'
    } else if d == 9 {
        '9'
    } else if d == 10 {
        'a'
    } else if d == 11 {
        'b'
    } else if d == 12 {
        'c'
    } else if d == 13 {
        'd'
    } else if d == 14 {
        'e'
    } else {
        'f'
    }
}

/// The lower-case hex rendering of a byte sequence, two digits per byte.
pub open spec fn hex_of(data: Seq<u8>) -> Seq<char>
    decreases data.len(),
{
    if data.len() == 0 {
        Seq::<char>::empty()
    } else {
        hex_of(data.drop_last()).push(hex_char(data.last() as int / 16)).push(
            hex_char(data.last() as int % 16),
        )
    }
}

/// A lower-case hexadecimal digit.
pub open spec fn is_lower_hex(c: char) -> bool {
    (48 <= (c as u32) <= 57) || (97 <= (c as u32) <= 102)
}

/// Hex rendering yields two lower-case hex digits per input byte.
pub proof fn lemma_hex_of_shape(data: Seq<u8>)
    ensures
        hex_of(data).len() == 2 * data.len(),
        forall|i: int| 0 <= i < hex_of(data).len() ==> is_lower_hex(#[trigger] hex_of(data)[i]),
    decreases data.len(),
{
    if data.len() > 0 {
        lemma_hex_of_shape(data.drop_last());
        assert(is_lower_hex(hex_char(data.last() as int / 16)));
        assert(is_lower_hex(hex_char(data.last() as int % 16)));
    }
}

/// The lower-case hex digit for a value below sixteen, in executable form.
fn hex_digit(d: u8) -> (c: char)
    requires
        d < 16,
    ensures
        c == hex_char(d as int),
{
    match d {
        0 => '0',
        1 => '1',
        2 => '2',
        3 => '3',
        4 => '4',
        5 => '5',
        6 => '6',
        7 => '7',
        8 => '8',
        9 => '9',
        10 => 'a',
        11 => 'b',
        12 => 'c',
        13 => 'd',
        14 => 'e',
        _ => 'f',
    }
}

/// Renders a byte sequence in lower-case hex.
fn to_hex(data: &Vec<u8>) -> (r: String)
    ensures
        r@ == hex_of(data@),
{
    let mut r = String::new();
    let mut i: usize = 0;
    while i < data.len()
        invariant
            i <= data.len(),
            r@ == hex_of(data@.subrange(0, i as int)),
        decreases data.len() - i,
    {
        let b = data[i];
        push_char(&mut r, hex_digit(b / 16));
        push_char(&mut r, hex_digit(b % 16));
        proof {
            let p = data@.subrange(0, i + 1);
            assert(p.drop_last() =~= data@.subrange(0, i as int));
            assert(p.last() == data@[i as int]);
        }
        i += 1;
    }
    proof {
        assert(data@.subrange(0, data@.len() as int) =~= data@);
    }
    r
}

/// The concatenation of three character sequences in lexicographically
/// sorted order.
pub open spec fn sorted_concat3(a: Seq<char>, b: Seq<char>, c: Seq<char>) -> Seq<char> {
    if lex_le(a, b) {
        if lex_le(b, c) {
            a + b + c
        } else if lex_le(a, c) {
            a + c + b
        } else {
            c + a + b
        }
    } else {
        if lex_le(a, c) {
            b + a + c
        } else if lex_le(b, c) {
            b + c + a
        } else {
            c + b + a
        }
    }
}

/// Sorting makes the concatenation independent of the order of its last
/// two arguments.
pub proof fn lemma_sorted_concat3_swap(a: Seq<char>, b: Seq<char>, c: Seq<char>)
    ensures
        sorted_concat3(a, b, c) == sorted_concat3(a, c, b),
{
    lemma_lex_total_from(a, b, 0);
    lemma_lex_total_from(b, c, 0);
    lemma_lex_total_from(a, c, 0);
    if lex_le(a, b) && lex_le(b, a) {
        lemma_lex_antisym(a, b);
    }
    if lex_le(b, c) && lex_le(c, b) {
        lemma_lex_antisym(b, c);
    }
    if lex_le(a, c) && lex_le(c, a) {
        lemma_lex_antisym(a, c);
    }
    if lex_le(a, b) && lex_le(b, c) {
        lemma_lex_trans(a, b, c);
    }
    if lex_le(a, c) && lex_le(c, b) {
        lemma_lex_trans(a, c, b);
    }
    if lex_le(b, a) && lex_le(a, c) {
        lemma_lex_trans(b, a, c);
    }
    if lex_le(b, c) && lex_le(c, a) {
        lemma_lex_trans(b, c, a);
    }
    if lex_le(c, a) && lex_le(a, b) {
        lemma_lex_trans(c, a, b);
    }
    if lex_le(c, b) && lex_le(b, a) {
        lemma_lex_trans(c, b, a);
    }
}

/// The signature the platform attaches to a webhook call: the lower-case
/// hex SHA-1 digest of the sorted concatenation of the shared token, the
/// timestamp and the nonce.
pub open spec fn spec_signature(token: Seq<char>, timestamp: Seq<char>, nonce: Seq<char>) -> Seq<
    char,
> {
    hex_of(sha1_of(encode_utf8(sorted_concat3(token, timestamp, nonce))))
}

/// Appends all characters of `src` to `dst`.
fn push_all(dst: &mut Vec<char>, src: &Vec<char>)
    ensures
        final(dst)@ == old(dst)@ + src@,
{
    let mut i: usize = 0;
    while i < src.len()
        invariant
            i <= src.len(),
            dst@ == old(dst)@ + src@.subrange(0, i as int),
        decreases src.len() - i,
    {
        dst.push(src[i]);
        proof {
            assert(src@.subrange(0, i + 1) =~= src@.subrange(0, i as int).push(src@[i as int]));
            assert(old(dst)@ + src@.subrange(0, i as int).push(src@[i as int])
                =~= (old(dst)@ + src@.subrange(0, i as int)).push(src@[i as int]));
        }
        i += 1;
    }
    proof {
        assert(src@.subrange(0, src@.len() as int) =~= src@);
    }
}

/// Concatenates three character vectors in lexicographically sorted order.
fn sorted_concat3_exec(a: &Vec<char>, b: &Vec<char>, c: &Vec<char>) -> (r: Vec<char>)
    ensures
        r@ == sorted_concat3(a@, b@, c@),
{
    let mut r: Vec<char> = Vec::new();
    let ab = lex_le_exec(a, b);
    let bc = lex_le_exec(b, c);
    let ac = lex_le_exec(a, c);
    if ab {
        if bc {
            push_all(&mut r, a);
            push_all(&mut r, b);
            push_all(&mut r, c);
        } else if ac {
            push_all(&mut r, a);
            push_all(&mut r, c);
            push_all(&mut r, b);
        } else {
            push_all(&mut r, c);
            push_all(&mut r, a);
            push_all(&mut r, b);
        }
    } else {
        if ac {
            push_all(&mut r, b);
            push_all(&mut r, a);
            push_all(&mut r, c);
        } else if bc {
            push_all(&mut r, b);
            push_all(&mut r, c);
            push_all(&mut r, a);
        } else {
            push_all(&mut r, c);
            push_all(&mut r, b);
            push_all(&mut r, a);
        }
    }
    r
}

/// Computes the webhook signature of the three inputs: sort them, join
/// them with no separator, hash with SHA-1, and render the digest in
/// lower-case hex.  For fixed inputs the result is determined by
/// `spec_signature`, and it is always 40 lower-case hex characters.
pub fn signature(token: &str, timestamp: &str, nonce: &str) -> (r: String)
    ensures
        r@ == spec_signature(token@, timestamp@, nonce@),
        r@.len() == 40,
        forall|i: int| 0 <= i < r@.len() ==> is_lower_hex(#[trigger] r@[i]),
{
    let a = string_to_chars(token);
    let b = string_to_chars(timestamp);
    let c = string_to_chars(nonce);
    let combined = sorted_concat3_exec(&a, &b, &c);
    let joined = chars_to_string(&combined);
    let digest = sha1_digest(joined.as_str().as_bytes());
    proof {
        lemma_hex_of_shape(digest@);
    }
    to_hex(&digest)
}

/// Verification is independent of the order of timestamp and nonce.
pub proof fn lemma_signature_commutes(token: Seq<char>, x: Seq<char>, y: Seq<char>)
    ensures
        spec_signature(token, x, y) == spec_signature(token, y, x),
{
    lemma_sorted_concat3_swap(token, x, y);
}

/// The query parameters of an inbound webhook call.
#[derive(Debug, Clone, PartialEq, Eq)]
pub struct WechatQuery {
    pub timestamp: String,
    pub nonce: String,
    pub signature: String,
    /// Present only on the initial verification handshake.
    pub echostr: Option<String>,
}

impl OfficialAccount {
    /// Checks that an inbound request was signed with this account's
    /// shared token: true exactly when the presented signature equals the
    /// one computed from the token, the timestamp and the nonce.  The
    /// comparison is plain, not constant-time, by deliberate choice: the
    /// signature is not a high-entropy secret in this threat model.
    pub fn request_validate(&self, query: &WechatQuery) -> (r: bool)
        ensures
            r == (query.signature@ == spec_signature(
                self.config.token@,
                query.timestamp@,
                query.nonce@,
            )),
    {
        let expected = signature(self.config.token.as_str(), query.timestamp.as_str(), query.nonce.as_str());
        expected == query.signature
    }

    /// Answers the initial verification handshake: on a matching signature
    /// the `echostr` value is passed through unchanged; otherwise the
    /// request is rejected before anything else happens.
    pub fn verify_handshake(&self, query: &WechatQuery) -> (r: Result<String, WechatError>)
        ensures
            query.signature@ != spec_signature(
                self.config.token@,
                query.timestamp@,
                query.nonce@,
            ) ==> (r matches Err(e) && e == WechatError::SignatureInvalid),
            query.signature@ == spec_signature(
                self.config.token@,
                query.timestamp@,
                query.nonce@,
            ) ==> match query.echostr {
                Some(ref e) => (r matches Ok(s) && s@ == e@),
                None => (r matches Err(e) && e is DecodeError),
            },
    {
        if !self.request_validate(query) {
            return Err(WechatError::SignatureInvalid);
        }
        match &query.echostr {
            Some(e) => Ok(e.clone()),
            None => Err(
                WechatError::DecodeError { detail: "missing echostr".to_owned() },
            ),
        }
    }
}

} // verus!
