//! The flat markup codec used for webhook payloads: a document is
//! `<xml>` followed by a sequence of `<Name>value</Name>` elements and a
//! closing `</xml>`, with `&`, `<` and `>` carried as character entities
//! inside values.  The parser and the encoder are both verified against
//! the same specification, which makes the decode-of-encode round trip
//! provable.
use vstd::prelude::*;

use crate::text::chars_eq;

verus! {

/// Markup whitespace.
pub open spec fn is_ws(c: char) -> bool {
    c == ' ' || c == '\t' || c == '\r' || c == '\n'
}

/// A character allowed in an element name: an ASCII letter.
pub open spec fn is_name_char(c: char) -> bool {
    (65 <= (c as u32) <= 90) || (97 <= (c as u32) <= 122)
}

/// A well-formed element name: non-empty, letters only.
pub open spec fn wf_name(n: Seq<char>) -> bool {
    n.len() > 0 && forall|i: int| 0 <= i < n.len() ==> is_name_char(n[i])
}

/// The length of the maximal whitespace prefix of `s`.
pub open spec fn ws_count(s: Seq<char>) -> int
    decreases s.len(),
{
    if s.len() > 0 && is_ws(s[0]) {
        1 + ws_count(s.skip(1))
    } else {
        0
    }
}

/// The length of the maximal name-character prefix of `s`.
pub open spec fn name_count(s: Seq<char>) -> int
    decreases s.len(),
{
    if s.len() > 0 && is_name_char(s[0]) {
        1 + name_count(s.skip(1))
    } else {
        0
    }
}

/// The number of characters of `s` before its first `<`.
pub open spec fn lt_count(s: Seq<char>) -> int
    decreases s.len(),
{
    if s.len() > 0 && s[0] != '<' {
        1 + lt_count(s.skip(1))
    } else {
        0
    }
}

/// True when `s` begins with `t`.
pub open spec fn starts_with(s: Seq<char>, t: Seq<char>) -> bool {
    s.len() >= t.len() && s.subrange(0, t.len() as int) == t
}

/// The opening marker of a literal character-data section.
pub open spec fn cdata_open() -> Seq<char> {
    seq!['<', '!', '[', 'C', 'D', 'A', 'T', 'A', '[']
}

/// The number of characters before the closing `]]>` of a literal
/// section, or `None` when it never closes.
pub open spec fn cdata_end(s: Seq<char>) -> Option<int>
    decreases s.len(),
{
    if s.len() < 3 {
        None
    } else if s[0] == ']' && s[1] == ']' && s[2] == '>' {
        Some(0)
    } else {
        match cdata_end(s.skip(1)) {
            Some(n) => Some(n + 1),
            None => None,
        }
    }
}

/// The entity at the head of `s`, if `s` starts with a recognized
/// character entity: the denoted character and the entity's length.
pub open spec fn entity_at(s: Seq<char>) -> Option<(char, int)> {
    if s.len() >= 5 && s[0] == '&' && s[1] == 'a' && s[2] == 'm' && s[3] == 'p' && s[4] == ';' {
        Some(('&', 5))
    } else if s.len() >= 4 && s[0] == '&' && s[1] == 'l' && s[2] == 't' && s[3] == ';' {
        Some(('<', 4))
    } else if s.len() >= 4 && s[0] == '&' && s[1] == 'g' && s[2] == 't' && s[3] == ';' {
        Some(('>', 4))
    } else if s.len() >= 6 && s[0] == '&' && s[1] == 'q' && s[2] == 'u' && s[3] == 'o' && s[4]
        == 't' && s[5] == ';' {
        Some(('"', 6))
    } else if s.len() >= 6 && s[0] == '&' && s[1] == 'a' && s[2] == 'p' && s[3] == 'o' && s[4]
        == 's' && s[5] == ';' {
        Some(('\'', 6))
    } else {
        None
    }
}

/// Replaces entities by the characters they denote; a stray `&` that
/// starts no recognized entity is a decode error.
pub open spec fn unescape(s: Seq<char>) -> Option<Seq<char>>
    decreases s.len(),
{
    if s.len() == 0 {
        Some(Seq::<char>::empty())
    } else if s[0] == '&' {
        match entity_at(s) {
            Some((c, n)) => match unescape(s.skip(n)) {
                Some(t) => Some(seq![c] + t),
                None => None,
            },
            None => None,
        }
    } else {
        match unescape(s.skip(1)) {
            Some(t) => Some(seq![s[0]] + t),
            None => None,
        }
    }
}

/// The entity rendering of one value character.
pub open spec fn escape_char(c: char) -> Seq<char> {
    if c == '&' {
        seq!['&', 'a', 'm', 'p', ';']
    } else if c == '<' {
        seq!['&', 'l', 't', ';']
    } else if c == '>' {
        seq!['&', 'g', 't', ';']
    } else {
        seq![c]
    }
}

/// The entity rendering of a value.
pub open spec fn escape(s: Seq<char>) -> Seq<char>
    decreases s.len(),
{
    if s.len() == 0 {
        Seq::<char>::empty()
    } else {
        escape_char(s[0]) + escape(s.skip(1))
    }
}

/// One element: `<Name>` then the escaped value then `</Name>`.
pub open spec fn encode_elem(name: Seq<char>, value: Seq<char>) -> Seq<char> {
    seq!['<'] + name + seq!['>'] + escape(value) + seq!['<', '/'] + name + seq!['>']
}

/// The encoding of a list of elements, in order.
pub open spec fn encode_elems(pairs: Seq<(Seq<char>, Seq<char>)>) -> Seq<char>
    decreases pairs.len(),
{
    if pairs.len() == 0 {
        Seq::<char>::empty()
    } else {
        encode_elem(pairs[0].0, pairs[0].1) + encode_elems(pairs.skip(1))
    }
}

/// The opening root tag.
pub open spec fn xml_open() -> Seq<char> {
    seq!['<', 'x', 'm', 'l', '>']
}

/// The closing root tag.
pub open spec fn xml_close() -> Seq<char> {
    seq!['<', '/', 'x', 'm', 'l', '>']
}

/// A whole document: the root element around the encoded pairs.
pub open spec fn encode_doc(pairs: Seq<(Seq<char>, Seq<char>)>) -> Seq<char> {
    xml_open() + encode_elems(pairs) + xml_close()
}

/// The closing tag `</Name>` expected after a value, and what follows it.
pub open spec fn check_close(name: Seq<char>, value: Seq<char>, s: Seq<char>) -> Option<
    (Seq<char>, Seq<char>, Seq<char>),
> {
    if s.len() >= 3 + name.len() && s[0] == '<' && s[1] == '/' && s.subrange(2, 2 + name.len() as int)
        == name && s[2 + name.len() as int] == '>' {
        Some((name, value, s.skip(3 + name.len() as int)))
    } else {
        None
    }
}

/// The value region at the head of `s`: a literal character-data
/// section taken verbatim, or entity-escaped text running to the next
/// `<`; the value and what follows it.
pub open spec fn parse_value(s: Seq<char>) -> Option<(Seq<char>, Seq<char>)> {
    if starts_with(s, cdata_open()) {
        let sc = s.skip(9);
        match cdata_end(sc) {
            Some(m) => Some((sc.subrange(0, m), sc.skip(m + 3))),
            None => None,
        }
    } else {
        let vl = lt_count(s);
        match unescape(s.subrange(0, vl)) {
            Some(value) => Some((value, s.skip(vl))),
            None => None,
        }
    }
}

/// One element parsed off the head of `s` (after leading whitespace):
/// its name, its unescaped value, and the remainder of the input.
pub open spec fn parse_elem(s: Seq<char>) -> Option<(Seq<char>, Seq<char>, Seq<char>)> {
    let s0 = s.skip(ws_count(s));
    if s0.len() >= 1 && s0[0] == '<' {
        let s1 = s0.skip(1);
        let n = name_count(s1);
        if n > 0 && s1.len() > n && s1[n] == '>' {
            let name = s1.subrange(0, n);
            let s2 = s1.skip(n + 1);
            match parse_value(s2) {
                Some(t) => check_close(name, t.0, t.1),
                None => None,
            }
        } else {
            None
        }
    } else {
        None
    }
}

/// The elements parsed off the head of `s`, stopping (after whitespace)
/// at the first closing tag, which is left in the remainder.
pub open spec fn parse_elems(s: Seq<char>) -> Option<(Seq<(Seq<char>, Seq<char>)>, Seq<char>)>
    decreases s.len(),
{
    let s0 = s.skip(ws_count(s));
    if s0.len() >= 2 && s0[0] == '<' && s0[1] == '/' {
        Some((Seq::<(Seq<char>, Seq<char>)>::empty(), s0))
    } else {
        match parse_elem(s) {
            Some((n, v, rest)) => if rest.len() < s.len() {
                match parse_elems(rest) {
                    Some((ps, r2)) => Some((seq![(n, v)] + ps, r2)),
                    None => None,
                }
            } else {
                None
            },
            None => None,
        }
    }
}

/// A whole document parsed into its element list: the root element, the
/// elements inside it, and nothing but trailing whitespace after it.
pub open spec fn parse_doc(s: Seq<char>) -> Option<Seq<(Seq<char>, Seq<char>)>> {
    let s0 = s.skip(ws_count(s));
    if starts_with(s0, xml_open()) {
        match parse_elems(s0.skip(5)) {
            Some((ps, r)) => if starts_with(r, xml_close()) && ws_count(r.skip(6)) == r.len()
                - 6 {
                Some(ps)
            } else {
                None
            },
            None => None,
        }
    } else {
        None
    }
}

/// The value of the first element named `name`, if any.
pub open spec fn lookup(pairs: Seq<(Seq<char>, Seq<char>)>, name: Seq<char>) -> Option<Seq<char>>
    decreases pairs.len(),
{
    if pairs.len() == 0 {
        None
    } else if pairs[0].0 == name {
        Some(pairs[0].1)
    } else {
        lookup(pairs.skip(1), name)
    }
}

/// Copies the characters of `v` between `from` and `to`.
pub fn copy_range(v: &Vec<char>, from: usize, to: usize) -> (r: Vec<char>)
    requires
        from <= to <= v.len(),
    ensures
        r@ == v@.subrange(from as int, to as int),
{
    let mut r: Vec<char> = Vec::new();
    let mut k = from;
    while k < to
        invariant
            from <= k <= to <= v.len(),
            r@ == v@.subrange(from as int, k as int),
        decreases to - k,
    {
        r.push(v[k]);
        proof {
            assert(v@.subrange(from as int, k + 1) =~= v@.subrange(from as int, k as int).push(
                v@[k as int],
            ));
        }
        k += 1;
    }
    r
}

/// The first non-whitespace position at or after `i`.
fn skip_ws_exec(v: &Vec<char>, i: usize) -> (j: usize)
    requires
        i <= v.len(),
    ensures
        i <= j <= v.len(),
        j as int == i + ws_count(v@.skip(i as int)),
{
    let mut j = i;
    while j < v.len() && (v[j] == ' ' || v[j] == '\t' || v[j] == '\r' || v[j] == '\n')
        invariant
            i <= j <= v.len(),
            ws_count(v@.skip(i as int)) == (j - i) + ws_count(v@.skip(j as int)),
        decreases v.len() - j,
    {
        proof {
            assert(v@.skip(j as int)[0] == v@[j as int]);
            assert(v@.skip(j as int).skip(1) =~= v@.skip(j + 1));
        }
        j += 1;
    }
    proof {
        if j < v.len() {
            assert(v@.skip(j as int)[0] == v@[j as int]);
        }
        assert(ws_count(v@.skip(j as int)) == 0);
    }
    j
}

/// The first position at or after `i` whose character is not a name
/// character.
fn scan_name_exec(v: &Vec<char>, i: usize) -> (j: usize)
    requires
        i <= v.len(),
    ensures
        i <= j <= v.len(),
        j as int == i + name_count(v@.skip(i as int)),
{
    let mut j = i;
    while j < v.len() && ((65 <= v[j] as u32 && v[j] as u32 <= 90) || (97 <= v[j] as u32 && v[j] as u32 <= 122))
        invariant
            i <= j <= v.len(),
            name_count(v@.skip(i as int)) == (j - i) + name_count(v@.skip(j as int)),
        decreases v.len() - j,
    {
        proof {
            assert(v@.skip(j as int)[0] == v@[j as int]);
            assert(v@.skip(j as int).skip(1) =~= v@.skip(j + 1));
        }
        j += 1;
    }
    proof {
        if j < v.len() {
            assert(v@.skip(j as int)[0] == v@[j as int]);
        }
        assert(name_count(v@.skip(j as int)) == 0);
    }
    j
}

/// The position of the first `<` at or after `i`, or the end.
fn scan_lt_exec(v: &Vec<char>, i: usize) -> (j: usize)
    requires
        i <= v.len(),
    ensures
        i <= j <= v.len(),
        j as int == i + lt_count(v@.skip(i as int)),
{
    let mut j = i;
    while j < v.len() && v[j] != '<'
        invariant
            i <= j <= v.len(),
            lt_count(v@.skip(i as int)) == (j - i) + lt_count(v@.skip(j as int)),
        decreases v.len() - j,
    {
        proof {
            assert(v@.skip(j as int)[0] == v@[j as int]);
            assert(v@.skip(j as int).skip(1) =~= v@.skip(j + 1));
        }
        j += 1;
    }
    proof {
        if j < v.len() {
            assert(v@.skip(j as int)[0] == v@[j as int]);
        }
        assert(lt_count(v@.skip(j as int)) == 0);
    }
    j
}

/// The start of the closing `]]>` at or after `i`, if any.
fn cdata_end_exec(v: &Vec<char>, i: usize) -> (r: Option<usize>)
    requires
        i <= v.len(),
    ensures
        match cdata_end(v@.skip(i as int)) {
            Some(m) => (r matches Some(j) && i <= j && j as int == i + m && j + 3 <= v.len()),
            None => r is None,
        },
{
    let mut k = i;
    loop
        invariant
            i <= k <= v.len(),
            cdata_end(v@.skip(i as int)) == match cdata_end(v@.skip(k as int)) {
                Some(m) => Some((k - i) + m),
                None => None::<int>,
            },
        decreases v.len() - k,
    {
        if v.len() - k < 3 {
            proof {
                assert(v@.skip(k as int).len() < 3);
            }
            return None;
        }
        proof {
            assert(v@.skip(k as int)[0] == v@[k as int]);
            assert(v@.skip(k as int)[1] == v@[k + 1]);
            assert(v@.skip(k as int)[2] == v@[k + 2]);
        }
        if v[k] == ']' && v[k + 1] == ']' && v[k + 2] == '>' {
            return Some(k);
        }
        proof {
            assert(v@.skip(k as int).skip(1) =~= v@.skip(k + 1));
        }
        k += 1;
    }
}

/// True when the characters of `pat` stand at position `i` of `v`.
pub fn starts_with_exec(v: &Vec<char>, i: usize, pat: &Vec<char>) -> (r: bool)
    requires
        i <= v.len(),
    ensures
        r == starts_with(v@.skip(i as int), pat@),
{
    if v.len() - i < pat.len() {
        return false;
    }
    let mut k: usize = 0;
    while k < pat.len()
        invariant
            k <= pat.len(),
            i <= v.len(),
            pat.len() <= v.len() - i,
            forall|m: int| 0 <= m < k ==> v@[i + m] == pat@[m],
        decreases pat.len() - k,
    {
        if v[i + k] != pat[k] {
            proof {
                assert(v@.skip(i as int).subrange(0, pat@.len() as int)[k as int] == v@[i + k]);
                assert(v@.skip(i as int).subrange(0, pat@.len() as int) != pat@);
            }
            return false;
        }
        k += 1;
    }
    proof {
        assert(v@.skip(i as int).subrange(0, pat@.len() as int) =~= pat@);
    }
    true
}

/// Replaces the entities between `from` and `to` of `v` by the
/// characters they denote.
fn unescape_exec(v: &Vec<char>, from: usize, to: usize) -> (r: Option<Vec<char>>)
    requires
        from <= to <= v.len(),
    ensures
        match unescape(v@.subrange(from as int, to as int)) {
            Some(u) => r matches Some(out) && out@ == u,
            None => r is None,
        },
{
    let mut out: Vec<char> = Vec::new();
    let mut k = from;
    loop
        invariant
            from <= k <= to <= v.len(),
            match unescape(v@.subrange(k as int, to as int)) {
                Some(u) => unescape(v@.subrange(from as int, to as int)) == Some(out@ + u),
                None => unescape(v@.subrange(from as int, to as int)) is None,
            },
        decreases to - k,
    {
        if k >= to {
            proof {
                assert(v@.subrange(k as int, to as int) =~= Seq::<char>::empty());
                assert(out@ + Seq::<char>::empty() =~= out@);
            }
            return Some(out);
        }
        let ghost rem = v@.subrange(k as int, to as int);
        proof {
            assert(rem[0] == v@[k as int]);
            assert(forall|m: int| 0 <= m < rem.len() ==> rem[m] == v@[k + m]);
        }
        let c = v[k];
        let ghost out0 = out@;
        if c != '&' {
            out.push(c);
            proof {
                assert(rem.skip(1) =~= v@.subrange(k + 1, to as int));
                if unescape(rem.skip(1)) is Some {
                    let t = unescape(rem.skip(1))->Some_0;
                    assert(unescape(rem) == Some(seq![rem[0]] + t));
                    assert(out@ + t =~= out0 + (seq![rem[0]] + t)) by {
                        assert(out@ == out0.push(rem[0]));
                    }
                }
            }
            k += 1;
        } else {
            let n: usize;
            let d: char;
            if to - k >= 5 && v[k + 1] == 'a' && v[k + 2] == 'm' && v[k + 3] == 'p' && v[k + 4]
                == ';' {
                n = 5;
                d = '&';
            } else if to - k >= 4 && v[k + 1] == 'l' && v[k + 2] == 't' && v[k + 3] == ';' {
                n = 4;
                d = '<';
            } else if to - k >= 4 && v[k + 1] == 'g' && v[k + 2] == 't' && v[k + 3] == ';' {
                n = 4;
                d = '>';
            } else if to - k >= 6 && v[k + 1] == 'q' && v[k + 2] == 'u' && v[k + 3] == 'o' && v[k
                + 4] == 't' && v[k + 5] == ';' {
                n = 6;
                d = '"';
            } else if to - k >= 6 && v[k + 1] == 'a' && v[k + 2] == 'p' && v[k + 3] == 'o' && v[k
                + 4] == 's' && v[k + 5] == ';' {
                n = 6;
                d = '\'';
            } else {
                proof {
                    assert(entity_at(rem) is None);
                    assert(unescape(rem) is None);
                }
                return None;
            }
            out.push(d);
            proof {
                assert(entity_at(rem) == Some((d, n as int)));
                assert(rem.skip(n as int) =~= v@.subrange(k + n, to as int));
                if unescape(rem.skip(n as int)) is Some {
                    let t = unescape(rem.skip(n as int))->Some_0;
                    assert(unescape(rem) == Some(seq![d] + t));
                    assert(out@ + t =~= out0 + (seq![d] + t)) by {
                        assert(out@ == out0.push(d));
                    }
                }
            }
            k += n;
        }
    }
}

/// Parses the value region beginning at `vs`: a literal section taken
/// verbatim, or entity-escaped text; the value and the position of what
/// follows it.
fn parse_value_exec(v: &Vec<char>, vs: usize) -> (r: Option<(Vec<char>, usize)>)
    requires
        vs <= v.len(),
    ensures
        match parse_value(v@.skip(vs as int)) {
            Some(t) => (r matches Some(o) && o.0@ == t.0 && vs <= o.1 <= v.len() && v@.skip(
                o.1 as int,
            ) == t.1),
            None => r is None,
        },
{
    let ghost s2 = v@.skip(vs as int);
    let is_cdata = v.len() - vs >= 9 && v[vs] == '<' && v[vs + 1] == '!' && v[vs + 2] == '['
        && v[vs + 3] == 'C' && v[vs + 4] == 'D' && v[vs + 5] == 'A' && v[vs + 6] == 'T'
        && v[vs + 7] == 'A' && v[vs + 8] == '[';
    proof {
        if s2.len() >= 9 {
            assert(s2.subrange(0, 9)[0] == v@[vs as int]);
            assert(s2.subrange(0, 9)[1] == v@[vs + 1]);
            assert(s2.subrange(0, 9)[2] == v@[vs + 2]);
            assert(s2.subrange(0, 9)[3] == v@[vs + 3]);
            assert(s2.subrange(0, 9)[4] == v@[vs + 4]);
            assert(s2.subrange(0, 9)[5] == v@[vs + 5]);
            assert(s2.subrange(0, 9)[6] == v@[vs + 6]);
            assert(s2.subrange(0, 9)[7] == v@[vs + 7]);
            assert(s2.subrange(0, 9)[8] == v@[vs + 8]);
        }
        if is_cdata {
            assert(s2.subrange(0, 9) =~= cdata_open());
        } else {
            assert(!starts_with(s2, cdata_open()));
        }
    }
    if is_cdata {
        let cs = vs + 9;
        proof {
            assert(s2.skip(9) =~= v@.skip(cs as int));
        }
        let ce = match cdata_end_exec(v, cs) {
            Some(j) => j,
            None => {
                return None;
            },
        };
        let value = copy_range(v, cs, ce);
        proof {
            assert(v@.skip(cs as int).subrange(0, ce - cs) =~= v@.subrange(cs as int, ce as int));
            assert(v@.skip(cs as int).skip((ce - cs) + 3) =~= v@.skip(ce + 3));
        }
        Some((value, ce + 3))
    } else {
        let vend = scan_lt_exec(v, vs);
        proof {
            assert(lt_count(s2) == vend - vs);
            assert(s2.subrange(0, vend - vs) =~= v@.subrange(vs as int, vend as int));
        }
        let value = match unescape_exec(v, vs, vend) {
            Some(x) => x,
            None => {
                return None;
            },
        };
        proof {
            assert(s2.skip(vend - vs) =~= v@.skip(vend as int));
        }
        Some((value, vend))
    }
}

/// Parses one element starting (after whitespace) at position `i`:
/// its name, its unescaped value, and the position just past it.
#[verifier::rlimit(100)]
pub fn parse_elem_exec(v: &Vec<char>, i: usize) -> (r: Option<(Vec<char>, Vec<char>, usize)>)
    requires
        i <= v.len(),
    ensures
        match parse_elem(v@.skip(i as int)) {
            Some(t) => (r matches Some(o) && o.0@ == t.0 && o.1@ == t.1 && i < o.2 <= v.len()
                && v@.skip(o.2 as int) == t.2),
            None => r is None,
        },
{
    let ghost s = v@.skip(i as int);
    let j = skip_ws_exec(v, i);
    proof {
        assert(s.skip(ws_count(s)) =~= v@.skip(j as int));
    }
    let ghost s0 = v@.skip(j as int);
    if j >= v.len() {
        return None;
    }
    proof {
        assert(s0[0] == v@[j as int]);
    }
    if v[j] != '<' {
        return None;
    }
    let ns = j + 1;
    proof {
        assert(s0.skip(1) =~= v@.skip(ns as int));
    }
    let ghost s1 = v@.skip(ns as int);
    let ne = scan_name_exec(v, ns);
    proof {
        assert(name_count(s1) == ne - ns);
    }
    if ne == ns {
        return None;
    }
    if ne >= v.len() {
        return None;
    }
    proof {
        assert(s1[ne - ns] == v@[ne as int]);
    }
    if v[ne] != '>' {
        return None;
    }
    let name = copy_range(v, ns, ne);
    proof {
        assert(s1.subrange(0, ne - ns) =~= v@.subrange(ns as int, ne as int));
    }
    let vs = ne + 1;
    proof {
        assert(s1.skip((ne - ns) + 1) =~= v@.skip(vs as int));
    }
    let ghost s2 = v@.skip(vs as int);
    let (value, ve) = match parse_value_exec(v, vs) {
        Some(t) => t,
        None => {
            return None;
        },
    };
    let ghost s3 = v@.skip(ve as int);
    let nlen = ne - ns;
    if v.len() - ve < 3 {
        return None;
    }
    if v.len() - ve - 3 < nlen {
        return None;
    }
    proof {
        assert(s3[0] == v@[ve as int]);
        assert(s3[1] == v@[ve + 1]);
    }
    if v[ve] != '<' || v[ve + 1] != '/' {
        return None;
    }
    let tag_ok = starts_with_exec(v, ve + 2, &name);
    proof {
        assert(s3.subrange(2, 2 + nlen as int) =~= v@.skip(ve + 2).subrange(0, nlen as int));
    }
    if !tag_ok {
        return None;
    }
    proof {
        assert(s3[2 + nlen as int] == v@[ve + 2 + nlen]);
    }
    if v[ve + 2 + nlen] != '>' {
        return None;
    }
    let next = ve + 3 + nlen;
    proof {
        assert(s3.skip(3 + nlen as int) =~= v@.skip(next as int));
    }
    Some((name, value, next))
}

/// Parses elements from position `i` up to the first closing tag and
/// returns them with the position of that closing tag.
pub fn parse_elems_exec(v: &Vec<char>, i: usize) -> (r: Option<
    (Vec<(Vec<char>, Vec<char>)>, usize),
>)
    requires
        i <= v.len(),
    ensures
        match parse_elems(v@.skip(i as int)) {
            Some(t) => (r matches Some(o) && o.0.deep_view() == t.0 && o.1 <= v.len()
                && v@.skip(o.1 as int) == t.1),
            None => r is None,
        },
{
    let mut acc: Vec<(Vec<char>, Vec<char>)> = Vec::new();
    let mut k = i;
    loop
        invariant
            i <= k <= v.len(),
            match parse_elems(v@.skip(k as int)) {
                Some(t) => (parse_elems(v@.skip(i as int)) matches Some(w) && w.0
                    == acc.deep_view() + t.0 && w.1 == t.1),
                None => parse_elems(v@.skip(i as int)) is None,
            },
        decreases v.len() - k,
    {
        let ghost sk = v@.skip(k as int);
        let j = skip_ws_exec(v, k);
        proof {
            assert(sk.skip(ws_count(sk)) =~= v@.skip(j as int));
        }
        let ghost s0 = v@.skip(j as int);
        proof {
            if s0.len() >= 2 {
                assert(s0[0] == v@[j as int]);
                assert(s0[1] == v@[j + 1]);
            }
        }
        if v.len() - j >= 2 && v[j] == '<' && v[j + 1] == '/' {
            proof {
                assert(parse_elems(sk) == Some((Seq::<(Seq<char>, Seq<char>)>::empty(), s0)));
                assert(acc.deep_view() + Seq::<(Seq<char>, Seq<char>)>::empty()
                    =~= acc.deep_view());
            }
            return Some((acc, j));
        }
        match parse_elem_exec(v, k) {
            Some((name, value, next)) => {
                let ghost acc0 = acc.deep_view();
                proof {
                    assert(v@.skip(next as int).len() < sk.len());
                }
                acc.push((name, value));
                proof {
                    assert(name.deep_view() =~= name@);
                    assert(value.deep_view() =~= value@);
                    assert(acc.deep_view() =~= acc0.push((name@, value@)));
                    if parse_elems(v@.skip(next as int)) is Some {
                        let t = parse_elems(v@.skip(next as int))->Some_0;
                        assert(parse_elems(sk) == Some((seq![(name@, value@)] + t.0, t.1)));
                        assert(acc0 + (seq![(name@, value@)] + t.0) =~= acc.deep_view() + t.0);
                    } else {
                        assert(parse_elems(sk) is None);
                    }
                }
                k = next;
            },
            None => {
                proof {
                    assert(parse_elems(sk) is None);
                }
                return None;
            },
        }
    }
}

/// Parses a whole document into its element list.
pub fn parse_doc_exec(v: &Vec<char>) -> (r: Option<Vec<(Vec<char>, Vec<char>)>>)
    ensures
        match parse_doc(v@) {
            Some(ps) => (r matches Some(pairs) && pairs.deep_view() == ps),
            None => r is None,
        },
{
    proof {
        assert(v@.skip(0) =~= v@);
    }
    let j = skip_ws_exec(v, 0);
    proof {
        assert(v@.skip(ws_count(v@)) =~= v@.skip(j as int));
    }
    let ghost s0 = v@.skip(j as int);
    proof {
        if s0.len() >= 5 {
            assert(s0.subrange(0, 5)[0] == v@[j as int]);
            assert(s0.subrange(0, 5)[1] == v@[j + 1]);
            assert(s0.subrange(0, 5)[2] == v@[j + 2]);
            assert(s0.subrange(0, 5)[3] == v@[j + 3]);
            assert(s0.subrange(0, 5)[4] == v@[j + 4]);
        }
    }
    if v.len() - j < 5 || v[j] != '<' || v[j + 1] != 'x' || v[j + 2] != 'm' || v[j + 3] != 'l'
        || v[j + 4] != '>' {
        proof {
            assert(!starts_with(s0, xml_open()));
        }
        return None;
    }
    proof {
        assert(s0.subrange(0, 5) =~= xml_open());
        assert(s0.skip(5) =~= v@.skip(j + 5));
    }
    match parse_elems_exec(v, j + 5) {
        None => None,
        Some((pairs, rk)) => {
            let ghost rrest = v@.skip(rk as int);
            proof {
                if rrest.len() >= 6 {
                    assert(rrest.subrange(0, 6)[0] == v@[rk as int]);
                    assert(rrest.subrange(0, 6)[1] == v@[rk + 1]);
                    assert(rrest.subrange(0, 6)[2] == v@[rk + 2]);
                    assert(rrest.subrange(0, 6)[3] == v@[rk + 3]);
                    assert(rrest.subrange(0, 6)[4] == v@[rk + 4]);
                    assert(rrest.subrange(0, 6)[5] == v@[rk + 5]);
                }
            }
            if v.len() - rk < 6 || v[rk] != '<' || v[rk + 1] != '/' || v[rk + 2] != 'x' || v[rk
                + 3] != 'm' || v[rk + 4] != 'l' || v[rk + 5] != '>' {
                proof {
                    assert(!starts_with(rrest, xml_close()));
                }
                return None;
            }
            proof {
                assert(rrest.subrange(0, 6) =~= xml_close());
                assert(rrest.skip(6) =~= v@.skip(rk + 6));
            }
            let t = skip_ws_exec(v, rk + 6);
            if t < v.len() {
                proof {
                    assert(ws_count(rrest.skip(6)) < rrest.len() - 6);
                }
                return None;
            }
            proof {
                assert(ws_count(rrest.skip(6)) == rrest.len() - 6);
            }
            Some(pairs)
        },
    }
}

/// Looks up the value of the first element with the given name.
pub fn lookup_exec(pairs: &Vec<(Vec<char>, Vec<char>)>, name: &Vec<char>) -> (r: Option<
    Vec<char>,
>)
    ensures
        match lookup(pairs.deep_view(), name@) {
            Some(val) => (r matches Some(x) && x@ == val),
            None => r is None,
        },
{
    let mut k: usize = 0;
    proof {
        assert(pairs.deep_view().skip(0) =~= pairs.deep_view());
    }
    while k < pairs.len()
        invariant
            k <= pairs.len(),
            lookup(pairs.deep_view(), name@) == lookup(pairs.deep_view().skip(k as int), name@),
        decreases pairs.len() - k,
    {
        let ghost dv = pairs.deep_view();
        proof {
            assert(dv.skip(k as int)[0] == dv[k as int]);
            assert(dv.skip(k as int).skip(1) =~= dv.skip(k + 1));
            assert(dv[k as int] == pairs@[k as int].deep_view());
            assert(pairs@[k as int].0.deep_view() =~= pairs@[k as int].0@);
            assert(pairs@[k as int].1.deep_view() =~= pairs@[k as int].1@);
        }
        let hit = chars_eq(&pairs[k].0, name);
        if hit {
            let out = copy_range(&pairs[k].1, 0, pairs[k].1.len());
            proof {
                assert(pairs@[k as int].1@.subrange(0, pairs@[k as int].1@.len() as int)
                    =~= pairs@[k as int].1@);
            }
            return Some(out);
        }
        k += 1;
    }
    proof {
        assert(pairs.deep_view().skip(pairs.len() as int) =~= Seq::<(Seq<char>, Seq<char>)>::empty());
    }
    None
}

/// Appends the entity rendering of `value` to `out`.
pub fn push_escaped(out: &mut Vec<char>, value: &Vec<char>)
    ensures
        final(out)@ == old(out)@ + escape(value@),
{
    let mut k: usize = 0;
    proof {
        assert(value@.skip(0) =~= value@);
    }
    while k < value.len()
        invariant
            k <= value.len(),
            out@ + escape(value@.skip(k as int)) == old(out)@ + escape(value@),
        decreases value.len() - k,
    {
        let ghost rem = value@.skip(k as int);
        proof {
            assert(rem[0] == value@[k as int]);
            assert(rem.skip(1) =~= value@.skip(k + 1));
            assert(escape(rem) == escape_char(rem[0]) + escape(rem.skip(1)));
        }
        let ghost out0 = out@;
        let c = value[k];
        if c == '&' {
            out.push('&');
            out.push('a');
            out.push('m');
            out.push('p');
            out.push(';');
        } else if c == '<' {
            out.push('&');
            out.push('l');
            out.push('t');
            out.push(';');
        } else if c == '>' {
            out.push('&');
            out.push('g');
            out.push('t');
            out.push(';');
        } else {
            out.push(c);
        }
        proof {
            assert(out@ =~= out0 + escape_char(value@[k as int]));
            assert(out0 + escape_char(rem[0]) + escape(rem.skip(1)) =~= out0 + escape(rem));
        }
        k += 1;
    }
    proof {
        assert(value@.skip(value@.len() as int) =~= Seq::<char>::empty());
        assert(escape(Seq::<char>::empty()) == Seq::<char>::empty());
        assert(out@ + Seq::<char>::empty() =~= out@);
    }
}

/// Appends `<name>` + escaped value + `</name>` to `out`.
pub fn push_elem(out: &mut Vec<char>, name: &Vec<char>, value: &Vec<char>)
    ensures
        final(out)@ == old(out)@ + encode_elem(name@, value@),
{
    let ghost out0 = out@;
    out.push('<');
    let mut k: usize = 0;
    while k < name.len()
        invariant
            k <= name.len(),
            out@ == out0 + seq!['<'] + name@.subrange(0, k as int),
        decreases name.len() - k,
    {
        out.push(name[k]);
        proof {
            assert(name@.subrange(0, k + 1) =~= name@.subrange(0, k as int).push(name@[k as int]));
            assert(out0 + seq!['<'] + name@.subrange(0, k as int).push(name@[k as int])
                =~= (out0 + seq!['<'] + name@.subrange(0, k as int)).push(name@[k as int]));
        }
        k += 1;
    }
    proof {
        assert(name@.subrange(0, name@.len() as int) =~= name@);
    }
    out.push('>');
    push_escaped(out, value);
    out.push('<');
    out.push('/');
    let mut m: usize = 0;
    let ghost out1 = out@;
    while m < name.len()
        invariant
            m <= name.len(),
            out@ == out1 + name@.subrange(0, m as int),
        decreases name.len() - m,
    {
        out.push(name[m]);
        proof {
            assert(name@.subrange(0, m + 1) =~= name@.subrange(0, m as int).push(name@[m as int]));
            assert(out1 + name@.subrange(0, m as int).push(name@[m as int])
                =~= (out1 + name@.subrange(0, m as int)).push(name@[m as int]));
        }
        m += 1;
    }
    proof {
        assert(name@.subrange(0, name@.len() as int) =~= name@);
    }
    out.push('>');
    proof {
        assert(out@ =~= out0 + encode_elem(name@, value@));
    }
}

/// The entity rendering of a value contains no `<` and no `>`.
pub proof fn lemma_escape_no_angle(s: Seq<char>)
    ensures
        forall|i: int| 0 <= i < escape(s).len() ==> #[trigger] escape(s)[i] != '<',
        forall|i: int| 0 <= i < escape(s).len() ==> #[trigger] escape(s)[i] != '>',
    decreases s.len(),
{
    if s.len() > 0 {
        lemma_escape_no_angle(s.skip(1));
        assert(forall|i: int| 0 <= i < escape_char(s[0]).len() ==> #[trigger] escape_char(s[0])[i]
            != '<');
        assert(forall|i: int| 0 <= i < escape_char(s[0]).len() ==> #[trigger] escape_char(s[0])[i]
            != '>');
        assert(forall|i: int| 0 <= i < escape(s).len() ==> #[trigger] escape(s)[i] == if i
            < escape_char(s[0]).len() {
            escape_char(s[0])[i]
        } else {
            escape(s.skip(1))[i - escape_char(s[0]).len()]
        });
    }
}

/// Characters before the first `<` of a concatenation whose first part
/// has no `<` and whose second part starts with one.
pub proof fn lemma_lt_count_concat(t: Seq<char>, rest: Seq<char>)
    requires
        forall|i: int| 0 <= i < t.len() ==> #[trigger] t[i] != '<',
        rest.len() > 0,
        rest[0] == '<',
    ensures
        lt_count(t + rest) == t.len(),
    decreases t.len(),
{
    if t.len() == 0 {
        assert(t + rest =~= rest);
    } else {
        assert((t + rest)[0] == t[0]);
        assert((t + rest).skip(1) =~= t.skip(1) + rest);
        lemma_lt_count_concat(t.skip(1), rest);
    }
}

/// The name-character prefix of a name followed by a non-name character.
pub proof fn lemma_name_count_concat(name: Seq<char>, rest: Seq<char>)
    requires
        wf_name(name),
        rest.len() > 0,
        !is_name_char(rest[0]),
    ensures
        name_count(name + rest) == name.len(),
    decreases name.len(),
{
    assert((name + rest)[0] == name[0]);
    assert((name + rest).skip(1) =~= name.skip(1) + rest);
    if name.len() == 1 {
        assert(name.skip(1) + rest =~= rest);
        assert(name_count(rest) == 0);
    } else {
        assert(wf_name(name.skip(1)));
        lemma_name_count_concat(name.skip(1), rest);
    }
}

/// Unescaping inverts escaping.
pub proof fn lemma_unescape_escape(s: Seq<char>)
    ensures
        unescape(escape(s)) == Some(s),
    decreases s.len(),
{
    if s.len() == 0 {
        assert(escape(s) =~= Seq::<char>::empty());
    } else {
        lemma_unescape_escape(s.skip(1));
        let e = escape(s);
        let c = s[0];
        let ec = escape_char(c);
        let tail = escape(s.skip(1));
        assert(e == ec + tail);
        assert(forall|i: int| 0 <= i < ec.len() ==> #[trigger] e[i] == ec[i]);
        assert(e.skip(ec.len() as int) =~= tail);
        if c == '&' {
            assert(e.len() >= 5);
            assert(entity_at(e) == Some(('&', 5int)));
            assert(unescape(e) == Some(seq!['&'] + s.skip(1)));
            assert(seq!['&'] + s.skip(1) =~= s);
        } else if c == '<' {
            assert(e.len() >= 4);
            assert(e[1] != 'a');
            assert(entity_at(e) == Some(('<', 4int)));
            assert(unescape(e) == Some(seq!['<'] + s.skip(1)));
            assert(seq!['<'] + s.skip(1) =~= s);
        } else if c == '>' {
            assert(e.len() >= 4);
            assert(entity_at(e) == Some(('>', 4int)));
            assert(unescape(e) == Some(seq!['>'] + s.skip(1)));
            assert(seq!['>'] + s.skip(1) =~= s);
        } else {
            assert(e[0] == c);
            assert(e.skip(1) =~= tail);
            assert(unescape(e) == Some(seq![c] + s.skip(1)));
            assert(seq![c] + s.skip(1) =~= s);
        }
    }
}

/// Parsing one encoded element yields its name, its value and the rest.
#[verifier::rlimit(100)]
pub proof fn lemma_parse_elem_encode(name: Seq<char>, value: Seq<char>, rest: Seq<char>)
    requires
        wf_name(name),
        rest.len() > 0,
        rest[0] == '<',
    ensures
        parse_elem(encode_elem(name, value) + rest) == Some((name, value, rest)),
{
    let s = encode_elem(name, value) + rest;
    let esc = escape(value);
    let n = name.len() as int;
    assert(s =~= seq!['<'] + (name + (seq!['>'] + (esc + (seq!['<', '/'] + (name + (seq!['>']
        + rest)))))));
    assert(s[0] == '<');
    assert(!is_ws('<'));
    assert(ws_count(s) == 0);
    assert(s.skip(0) =~= s);
    let s1 = s.skip(1);
    assert(s1 =~= name + (seq!['>'] + (esc + (seq!['<', '/'] + (name + (seq!['>'] + rest))))));
    lemma_name_count_concat(name, seq!['>'] + (esc + (seq!['<', '/'] + (name + (seq!['>']
        + rest)))));
    assert(name_count(s1) == n);
    assert(s1[n] == '>');
    assert(s1.subrange(0, n) =~= name);
    let s2 = s1.skip(n + 1);
    assert(s2 =~= esc + (seq!['<', '/'] + (name + (seq!['>'] + rest))));
    lemma_escape_no_angle(value);
    assert(!starts_with(s2, cdata_open())) by {
        if starts_with(s2, cdata_open()) {
            assert(s2.subrange(0, 9)[0] == s2[0]);
            assert(s2.subrange(0, 9)[1] == s2[1]);
            assert(s2[0] == '<' && s2[1] == '!');
            if esc.len() == 0 {
                assert(s2[1] == '/');
            } else {
                assert(s2[0] == esc[0]);
            }
        }
    };
    lemma_lt_count_concat(esc, seq!['<', '/'] + (name + (seq!['>'] + rest)));
    assert(lt_count(s2) == esc.len());
    assert(s2.subrange(0, esc.len() as int) =~= esc);
    lemma_unescape_escape(value);
    assert(unescape(s2.subrange(0, esc.len() as int)) == Some(value));
    let s3 = s2.skip(esc.len() as int);
    assert(s3 =~= seq!['<', '/'] + (name + (seq!['>'] + rest)));
    assert(s3.len() == 3 + n + rest.len());
    assert(s3[0] == '<');
    assert(s3[1] == '/');
    assert(s3.subrange(2, 2 + n) =~= name);
    assert(s3[2 + n] == '>');
    assert(s3.skip(3 + n) =~= rest);
    assert(check_close(name, value, s3) == Some((name, value, rest)));
}

/// All element names of a pair list are well formed.
pub open spec fn wf_pairs(pairs: Seq<(Seq<char>, Seq<char>)>) -> bool {
    forall|k: int| 0 <= k < pairs.len() ==> wf_name(#[trigger] pairs[k].0)
}

/// Parsing the encoding of a pair list, followed by a closing tag,
/// yields the pairs and leaves the closing tag.
#[verifier::rlimit(100)]
pub proof fn lemma_parse_elems_encode(pairs: Seq<(Seq<char>, Seq<char>)>, rest: Seq<char>)
    requires
        wf_pairs(pairs),
        rest.len() >= 2,
        rest[0] == '<',
        rest[1] == '/',
    ensures
        parse_elems(encode_elems(pairs) + rest) == Some((pairs, rest)),
    decreases pairs.len(),
{
    let s = encode_elems(pairs) + rest;
    if pairs.len() == 0 {
        assert(s =~= rest);
        assert(ws_count(s) == 0);
        assert(s.skip(0) =~= s);
        assert(parse_elems(s) == Some((Seq::<(Seq<char>, Seq<char>)>::empty(), s)));
        assert(Seq::<(Seq<char>, Seq<char>)>::empty() =~= pairs);
    } else {
        let name = pairs[0].0;
        let value = pairs[0].1;
        let tail = pairs.skip(1);
        let rest2 = encode_elems(tail) + rest;
        assert(s =~= encode_elem(name, value) + rest2);
        assert(rest2.len() > 0 && rest2[0] == '<') by {
            if tail.len() == 0 {
                assert(rest2 =~= rest);
            } else {
                assert(encode_elems(tail)[0] == encode_elem(tail[0].0, tail[0].1)[0]);
                assert(encode_elem(tail[0].0, tail[0].1)[0] == '<');
            }
        };
        lemma_parse_elem_encode(name, value, rest2);
        assert(parse_elem(s) == Some((name, value, rest2)));
        assert(encode_elem(name, value).len() > 0);
        assert(rest2.len() < s.len());
        assert(s[0] == '<');
        assert(ws_count(s) == 0);
        assert(s.skip(0) =~= s);
        assert(s[1] == encode_elem(name, value)[1]);
        assert(s[1] == name[0]);
        assert(is_name_char(name[0]));
        assert(s[1] != '/');
        assert(wf_pairs(tail));
        lemma_parse_elems_encode(tail, rest);
        assert(parse_elems(rest2) == Some((tail, rest)));
        assert(parse_elems(s) == Some((seq![(name, value)] + tail, rest)));
        assert(seq![(name, value)] + tail =~= pairs);
    }
}

/// Parsing the encoding of a document yields exactly its pairs.
#[verifier::rlimit(100)]
pub proof fn lemma_parse_doc_encode(pairs: Seq<(Seq<char>, Seq<char>)>)
    requires
        wf_pairs(pairs),
    ensures
        parse_doc(encode_doc(pairs)) == Some(pairs),
{
    let s = encode_doc(pairs);
    let body = encode_elems(pairs) + xml_close();
    assert(s =~= xml_open() + body);
    assert(s[0] == '<');
    assert(ws_count(s) == 0);
    assert(s.skip(0) =~= s);
    assert(s.subrange(0, 5) =~= xml_open());
    assert(starts_with(s, xml_open()));
    assert(s.skip(5) =~= body);
    lemma_parse_elems_encode(pairs, xml_close());
    assert(parse_elems(body) == Some((pairs, xml_close())));
    assert(xml_close().subrange(0, 6) =~= xml_close());
    assert(starts_with(xml_close(), xml_close()));
    assert(xml_close().skip(6) =~= Seq::<char>::empty());
    assert(ws_count(Seq::<char>::empty()) == 0);
    assert(parse_doc(s) == Some(pairs));
}

} // verus!
