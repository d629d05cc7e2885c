//! Field extraction from loosely structured platform responses,
//! through `serde_json`.  What a body parses to is named, not modelled:
//! each field of a body is an uninterpreted function of the body and
//! the key, tied to `serde_json` by one wrapper per field type, and
//! every decision on the extracted values is made by verified code.
use vstd::prelude::*;

use crate::text::{is_digit, push_char};

verus! {

/// The string member under `key` of the object a body parses to, or
/// nothing when the body does not parse, has no such member, or the
/// member is not a string.  A function of the body and the key alone,
/// left uninterpreted here.
pub uninterp spec fn json_string_field(body: Seq<char>, key: Seq<char>) -> Option<Seq<char>>;

/// The `u64` member under `key`, under the same convention.
pub uninterp spec fn json_u64_field(body: Seq<char>, key: Seq<char>) -> Option<u64>;

/// The `i64` member under `key`, under the same convention.
pub uninterp spec fn json_i64_field(body: Seq<char>, key: Seq<char>) -> Option<i64>;

/// The all-string array member under `key`, under the same convention;
/// an array holding a non-string element does not count.
pub uninterp spec fn json_string_array_field(body: Seq<char>, key: Seq<char>) -> Option<
    Seq<Seq<char>>,
>;

/// Relies on `serde_json::from_str::<Value>`, `Value::get` and
/// `Value::as_str`: reads the string member under `key` of the parsed
/// body, a function of the body and the key alone.
#[verifier::external_body]
pub fn json_get_string(body: &str, key: &str) -> (r: Option<String>)
    ensures
        r.deep_view() == json_string_field(body@, key@),
{
    let v: serde_json::Value = match serde_json::from_str(body) {
        Ok(v) => v,
        Err(_) => return None,
    };
    match v.get(key) {
        Some(m) => m.as_str().map(String::from),
        None => None,
    }
}

/// Relies on `serde_json::from_str::<Value>`, `Value::get` and
/// `Value::as_u64`: reads the `u64` member under `key` of the parsed
/// body, a function of the body and the key alone.
#[verifier::external_body]
pub fn json_get_u64(body: &str, key: &str) -> (r: Option<u64>)
    ensures
        r == json_u64_field(body@, key@),
{
    let v: serde_json::Value = match serde_json::from_str(body) {
        Ok(v) => v,
        Err(_) => return None,
    };
    match v.get(key) {
        Some(m) => m.as_u64(),
        None => None,
    }
}

/// Relies on `serde_json::from_str::<Value>`, `Value::get` and
/// `Value::as_i64`: reads the `i64` member under `key` of the parsed
/// body, a function of the body and the key alone.
#[verifier::external_body]
pub fn json_get_i64(body: &str, key: &str) -> (r: Option<i64>)
    ensures
        r == json_i64_field(body@, key@),
{
    let v: serde_json::Value = match serde_json::from_str(body) {
        Ok(v) => v,
        Err(_) => return None,
    };
    match v.get(key) {
        Some(m) => m.as_i64(),
        None => None,
    }
}

/// Relies on `serde_json::from_str::<Value>`, `Value::get` and
/// `from_value::<Vec<String>>`: reads the all-string array member under
/// `key` of the parsed body, a function of the body and the key alone.
#[verifier::external_body]
pub fn json_get_string_array(body: &str, key: &str) -> (r: Option<Vec<String>>)
    ensures
        r.deep_view() == json_string_array_field(body@, key@),
{
    let v: serde_json::Value = match serde_json::from_str(body) {
        Ok(v) => v,
        Err(_) => return None,
    };
    match v.get(key) {
        Some(m) => serde_json::from_value(m.clone()).ok(),
        None => None,
    }
}

/// The JSON-string rendering of one character: quotes and backslashes
/// are escaped, everything else stands for itself.
pub open spec fn jstr_escape_char(c: char) -> Seq<char> {
    if c == '"' {
        seq!['\\', '"']
    } else if c == '\\' {
        seq!['\\', '\\']
    } else {
        seq![c]
    }
}

/// The JSON-string rendering of a value.
pub open spec fn jstr_escape(s: Seq<char>) -> Seq<char>
    decreases s.len(),
{
    if s.len() == 0 {
        Seq::<char>::empty()
    } else {
        jstr_escape_char(s[0]) + jstr_escape(s.skip(1))
    }
}

/// The length of the JSON-string region of `s` before its closing
/// quote, honouring escapes; `None` when no closing quote follows.
pub open spec fn jstr_len(s: Seq<char>) -> Option<int>
    decreases s.len(),
{
    if s.len() == 0 {
        None
    } else if s[0] == '"' {
        Some(0)
    } else if s[0] == '\\' {
        if s.len() >= 2 {
            match jstr_len(s.skip(2)) {
                Some(n) => Some(n + 2),
                None => None,
            }
        } else {
            None
        }
    } else {
        match jstr_len(s.skip(1)) {
            Some(n) => Some(n + 1),
            None => None,
        }
    }
}

/// The characters a JSON-string region denotes, with escapes undone.
pub open spec fn jstr_unescape(s: Seq<char>) -> Seq<char>
    decreases s.len(),
{
    if s.len() == 0 {
        Seq::<char>::empty()
    } else if s[0] == '\\' && s.len() >= 2 {
        seq![s[1]] + jstr_unescape(s.skip(2))
    } else {
        seq![s[0]] + jstr_unescape(s.skip(1))
    }
}

/// The length of the maximal digit prefix of `s`.
pub open spec fn digit_count(s: Seq<char>) -> int
    decreases s.len(),
{
    if s.len() > 0 && is_digit(s[0]) {
        1 + digit_count(s.skip(1))
    } else {
        0
    }
}

/// The escaped region of an escaped value followed by a closing quote
/// is exactly the escaped value.
pub proof fn lemma_jstr_len_escape(s: Seq<char>, rest: Seq<char>)
    requires
        rest.len() > 0,
        rest[0] == '"',
    ensures
        jstr_len(jstr_escape(s) + rest) == Some(jstr_escape(s).len() as int),
    decreases s.len(),
{
    let e = jstr_escape(s) + rest;
    if s.len() == 0 {
        assert(e =~= rest);
    } else {
        let ec = jstr_escape_char(s[0]);
        assert(forall|i: int| 0 <= i < ec.len() ==> #[trigger] e[i] == ec[i]);
        lemma_jstr_len_escape(s.skip(1), rest);
        if s[0] == '"' || s[0] == '\\' {
            assert(e[0] == '\\');
            assert(e.len() >= 2);
            assert(e.skip(2) =~= jstr_escape(s.skip(1)) + rest);
        } else {
            assert(e[0] == s[0]);
            assert(e.skip(1) =~= jstr_escape(s.skip(1)) + rest);
        }
    }
}

/// Unescaping a JSON-string rendering yields the value back.
pub proof fn lemma_jstr_unescape_escape(s: Seq<char>)
    ensures
        jstr_unescape(jstr_escape(s)) == s,
    decreases s.len(),
{
    let e = jstr_escape(s);
    if s.len() == 0 {
        assert(e =~= Seq::<char>::empty());
        assert(jstr_unescape(e) =~= s);
    } else {
        let ec = jstr_escape_char(s[0]);
        assert(forall|i: int| 0 <= i < ec.len() ==> #[trigger] e[i] == ec[i]);
        lemma_jstr_unescape_escape(s.skip(1));
        if s[0] == '"' || s[0] == '\\' {
            assert(e[0] == '\\');
            assert(e[1] == s[0]);
            assert(e.len() >= 2);
            assert(e.skip(2) =~= jstr_escape(s.skip(1)));
            assert(jstr_unescape(e) == seq![s[0]] + s.skip(1));
            assert(seq![s[0]] + s.skip(1) =~= s);
        } else {
            assert(e[0] == s[0]);
            assert(e[0] != '\\');
            assert(e.skip(1) =~= jstr_escape(s.skip(1)));
            assert(jstr_unescape(e) == seq![s[0]] + s.skip(1));
            assert(seq![s[0]] + s.skip(1) =~= s);
        }
    }
}

/// Appends the JSON-string rendering of `value` to `out`.
pub fn push_jstr_escaped(out: &mut String, value: &str)
    ensures
        final(out)@ == old(out)@ + jstr_escape(value@),
{
    let v = crate::text::string_to_chars(value);
    let mut k: usize = 0;
    proof {
        assert(v@.skip(0) =~= v@);
    }
    while k < v.len()
        invariant
            k <= v.len(),
            v@ == value@,
            out@ + jstr_escape(v@.skip(k as int)) == old(out)@ + jstr_escape(v@),
        decreases v.len() - k,
    {
        let ghost rem = v@.skip(k as int);
        proof {
            assert(rem[0] == v@[k as int]);
            assert(rem.skip(1) =~= v@.skip(k + 1));
            assert(jstr_escape(rem) == jstr_escape_char(rem[0]) + jstr_escape(rem.skip(1)));
        }
        let ghost out0 = out@;
        let c = v[k];
        if c == '"' {
            push_char(out, '\\');
            push_char(out, '"');
        } else if c == '\\' {
            push_char(out, '\\');
            push_char(out, '\\');
        } else {
            push_char(out, c);
        }
        proof {
            assert(out@ =~= out0 + jstr_escape_char(v@[k as int]));
            assert(out0 + jstr_escape_char(rem[0]) + jstr_escape(rem.skip(1)) =~= out0
                + jstr_escape(rem));
        }
        k += 1;
    }
    proof {
        assert(v@.skip(v@.len() as int) =~= Seq::<char>::empty());
        assert(jstr_escape(Seq::<char>::empty()) == Seq::<char>::empty());
        assert(out@ + Seq::<char>::empty() =~= out@);
    }
}

/// The end of the JSON-string region starting at `i`, if a closing
/// quote follows.
pub fn jstr_scan_exec(v: &Vec<char>, i: usize) -> (r: Option<usize>)
    requires
        i <= v.len(),
    ensures
        match jstr_len(v@.skip(i as int)) {
            Some(n) => (r matches Some(j) && i <= j <= v.len() && j as int == i + n),
            None => r is None,
        },
{
    let mut k = i;
    loop
        invariant
            i <= k <= v.len(),
            jstr_len(v@.skip(i as int)) == match jstr_len(v@.skip(k as int)) {
                Some(m) => Some((k - i) + m),
                None => None::<int>,
            },
        decreases v.len() - k,
    {
        if k >= v.len() {
            return None;
        }
        proof {
            assert(v@.skip(k as int)[0] == v@[k as int]);
        }
        let c = v[k];
        if c == '"' {
            return Some(k);
        }
        if c == '\\' {
            if v.len() - k < 2 {
                proof {
                    assert(v@.skip(k as int).len() < 2);
                }
                return None;
            }
            proof {
                assert(v@.skip(k as int).skip(2) =~= v@.skip(k + 2));
            }
            k += 2;
        } else {
            proof {
                assert(v@.skip(k as int).skip(1) =~= v@.skip(k + 1));
            }
            k += 1;
        }
    }
}

/// Undoes the escapes of the region between `from` and `to`.
pub fn jstr_unescape_exec(v: &Vec<char>, from: usize, to: usize) -> (r: Vec<char>)
    requires
        from <= to <= v.len(),
    ensures
        r@ == jstr_unescape(v@.subrange(from as int, to as int)),
{
    let mut out: Vec<char> = Vec::new();
    let mut k = from;
    loop
        invariant
            from <= k <= to <= v.len(),
            jstr_unescape(v@.subrange(from as int, to as int)) == out@ + jstr_unescape(
                v@.subrange(k as int, to as int),
            ),
        decreases to - k,
    {
        if k >= to {
            proof {
                assert(v@.subrange(k as int, to as int) =~= Seq::<char>::empty());
                assert(out@ + Seq::<char>::empty() =~= out@);
            }
            return out;
        }
        let ghost rem = v@.subrange(k as int, to as int);
        proof {
            assert(rem[0] == v@[k as int]);
            assert(forall|m: int| 0 <= m < rem.len() ==> rem[m] == v@[k + m]);
        }
        let ghost out0 = out@;
        let c = v[k];
        if c == '\\' && to - k >= 2 {
            out.push(v[k + 1]);
            proof {
                assert(rem.skip(2) =~= v@.subrange(k + 2, to as int));
                assert(jstr_unescape(rem) == seq![rem[1]] + jstr_unescape(rem.skip(2)));
                assert(out0 + (seq![rem[1]] + jstr_unescape(rem.skip(2))) =~= out@
                    + jstr_unescape(rem.skip(2)));
            }
            k += 2;
        } else {
            out.push(c);
            proof {
                assert(rem.skip(1) =~= v@.subrange(k + 1, to as int));
                assert(jstr_unescape(rem) == seq![rem[0]] + jstr_unescape(rem.skip(1)));
                assert(out0 + (seq![rem[0]] + jstr_unescape(rem.skip(1))) =~= out@
                    + jstr_unescape(rem.skip(1)));
            }
            k += 1;
        }
    }
}

/// The first non-digit position at or after `i`.
pub fn digit_scan_exec(v: &Vec<char>, i: usize) -> (j: usize)
    requires
        i <= v.len(),
    ensures
        i <= j <= v.len(),
        j as int == i + digit_count(v@.skip(i as int)),
{
    let mut j = i;
    while j < v.len() && (48 <= v[j] as u32 && v[j] as u32 <= 57)
        invariant
            i <= j <= v.len(),
            digit_count(v@.skip(i as int)) == (j - i) + digit_count(v@.skip(j as int)),
        decreases v.len() - j,
    {
        proof {
            assert(v@.skip(j as int)[0] == v@[j as int]);
            assert(v@.skip(j as int).skip(1) =~= v@.skip(j + 1));
        }
        j += 1;
    }
    proof {
        if j < v.len() {
            assert(v@.skip(j as int)[0] == v@[j as int]);
        }
        assert(digit_count(v@.skip(j as int)) == 0);
    }
    j
}

/// Every character inside the digit prefix is a digit.
pub proof fn lemma_digit_count_digits(s: Seq<char>)
    ensures
        0 <= digit_count(s) <= s.len(),
        forall|j: int| 0 <= j < digit_count(s) ==> is_digit(#[trigger] s[j]),
    decreases s.len(),
{
    if s.len() > 0 && is_digit(s[0]) {
        lemma_digit_count_digits(s.skip(1));
        assert forall|j: int| 0 <= j < digit_count(s) implies is_digit(#[trigger] s[j]) by {
            if j > 0 {
                assert(0 <= j - 1 < digit_count(s.skip(1)));
                assert(is_digit(s.skip(1)[j - 1]));
                assert(s.skip(1)[j - 1] == s[j]);
            }
        }
    }
}

} // verus!
