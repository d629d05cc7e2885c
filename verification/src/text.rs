//! Character-level utilities shared by the signature and codec modules:
//! conversions between `String` and `Vec<char>`, lexicographic order on
//! character sequences, and decimal rendering and parsing.
use vstd::prelude::*;
use vstd::arithmetic::div_mod::lemma_fundamental_div_mod;
use vstd::string::StrSliceExecFns;

verus! {

/// Relies on `String::push`: appends exactly one character.
#[verifier::external_body]
pub fn push_char(s: &mut String, c: char)
    ensures
        final(s)@ == old(s)@.push(c),
{
    s.push(c);
}

/// Builds the string whose characters are exactly `v`.
pub fn chars_to_string(v: &Vec<char>) -> (r: String)
    ensures
        r@ == v@,
{
    let mut r = String::new();
    let mut i: usize = 0;
    while i < v.len()
        invariant
            i <= v.len(),
            r@ == v@.subrange(0, i as int),
        decreases v.len() - i,
    {
        push_char(&mut r, v[i]);
        proof {
            assert(v@.subrange(0, i + 1) =~= v@.subrange(0, i as int).push(v@[i as int]));
        }
        i += 1;
    }
    proof {
        assert(v@.subrange(0, v@.len() as int) =~= v@);
    }
    r
}

/// Collects the characters of `s` into a vector.
pub fn string_to_chars(s: &str) -> (r: Vec<char>)
    ensures
        r@ == s@,
{
    let n = s.unicode_len();
    let mut r: Vec<char> = Vec::new();
    let mut i: usize = 0;
    while i < n
        invariant
            i <= n,
            n == s@.len(),
            r@ == s@.subrange(0, i as int),
        decreases n - i,
    {
        r.push(s.get_char(i));
        proof {
            assert(s@.subrange(0, i + 1) =~= s@.subrange(0, i as int).push(s@[i as int]));
        }
        i += 1;
    }
    proof {
        assert(s@.subrange(0, s@.len() as int) =~= s@);
    }
    r
}

/// True when the two vectors hold the same characters.
pub fn chars_eq(a: &Vec<char>, b: &Vec<char>) -> (r: bool)
    ensures
        r <==> a@ == b@,
{
    if a.len() != b.len() {
        proof {
            assert(a@ != b@);
        }
        return false;
    }
    let mut i: usize = 0;
    while i < a.len()
        invariant
            i <= a.len(),
            a@.len() == b@.len(),
            forall|j: int| 0 <= j < i ==> a@[j] == b@[j],
        decreases a.len() - i,
    {
        if a[i] != b[i] {
            proof {
                assert(a@[i as int] != b@[i as int]);
            }
            return false;
        }
        i += 1;
    }
    proof {
        assert(a@ =~= b@);
    }
    true
}

/// True when two string slices hold the same characters.
pub fn str_eq(a: &str, b: &str) -> (r: bool)
    ensures
        r == (a@ == b@),
{
    let va = string_to_chars(a);
    let vb = string_to_chars(b);
    chars_eq(&va, &vb)
}

/// Lexicographic "less than or equal" on the suffixes of `a` and `b` that
/// start at `i`, comparing characters by code point.
pub open spec fn lex_le_from(a: Seq<char>, b: Seq<char>, i: int) -> bool
    decreases a.len() - i,
{
    if i >= a.len() {
        true
    } else if i >= b.len() {
        false
    } else if a[i] == b[i] {
        lex_le_from(a, b, i + 1)
    } else {
        (a[i] as u32) < (b[i] as u32)
    }
}

/// Lexicographic order on character sequences, by code point.
pub open spec fn lex_le(a: Seq<char>, b: Seq<char>) -> bool {
    lex_le_from(a, b, 0)
}

/// Characters with the same code point are the same character.
pub proof fn lemma_char_code_inj(a: char, b: char)
    requires
        a as u32 == b as u32,
    ensures
        a == b,
{
}

/// Any two character sequences are ordered one way or the other.
pub proof fn lemma_lex_total_from(a: Seq<char>, b: Seq<char>, i: int)
    ensures
        lex_le_from(a, b, i) || lex_le_from(b, a, i),
    decreases a.len() - i,
{
    if i < a.len() && i < b.len() {
        if a[i] == b[i] {
            lemma_lex_total_from(a, b, i + 1);
        } else {
            if (a[i] as u32) == (b[i] as u32) {
                lemma_char_code_inj(a[i], b[i]);
            }
        }
    }
}

/// Sequences ordered both ways agree from `i` on.
pub proof fn lemma_lex_antisym_from(a: Seq<char>, b: Seq<char>, i: int)
    requires
        0 <= i <= a.len(),
        i <= b.len(),
        lex_le_from(a, b, i),
        lex_le_from(b, a, i),
    ensures
        a.skip(i) =~= b.skip(i),
    decreases a.len() - i,
{
    if i < a.len() && i < b.len() {
        if a[i] == b[i] {
            lemma_lex_antisym_from(a, b, i + 1);
            assert(a.skip(i) =~= seq![a[i]] + a.skip(i + 1));
            assert(b.skip(i) =~= seq![b[i]] + b.skip(i + 1));
        } else {
            assert((a[i] as u32) < (b[i] as u32));
            assert((b[i] as u32) < (a[i] as u32));
            assert(false);
        }
    } else if i < a.len() {
        assert(!lex_le_from(b, a, i));
        assert(false);
    } else if i < b.len() {
        assert(!lex_le_from(a, b, i));
        assert(false);
    }
}

/// The lexicographic order is transitive on suffixes starting at `i`.
pub proof fn lemma_lex_trans_from(a: Seq<char>, b: Seq<char>, c: Seq<char>, i: int)
    requires
        0 <= i,
        lex_le_from(a, b, i),
        lex_le_from(b, c, i),
    ensures
        lex_le_from(a, c, i),
    decreases a.len() - i,
{
    if i < a.len() {
        assert(i < b.len());
        assert(i < c.len());
        if a[i] == b[i] && b[i] == c[i] {
            lemma_lex_trans_from(a, b, c, i + 1);
        } else if a[i] == b[i] {
            assert((b[i] as u32) < (c[i] as u32));
            assert(a[i] != c[i]);
        } else if b[i] == c[i] {
            assert((a[i] as u32) < (b[i] as u32));
            assert(a[i] != c[i]);
        } else {
            assert((a[i] as u32) < (b[i] as u32));
            assert((b[i] as u32) < (c[i] as u32));
            assert(a[i] != c[i]);
        }
    }
}

/// The lexicographic order is transitive.
pub proof fn lemma_lex_trans(a: Seq<char>, b: Seq<char>, c: Seq<char>)
    requires
        lex_le(a, b),
        lex_le(b, c),
    ensures
        lex_le(a, c),
{
    lemma_lex_trans_from(a, b, c, 0);
}

/// Sequences ordered both ways are equal.
pub proof fn lemma_lex_antisym(a: Seq<char>, b: Seq<char>)
    requires
        lex_le(a, b),
        lex_le(b, a),
    ensures
        a == b,
{
    lemma_lex_antisym_from(a, b, 0);
    assert(a.skip(0) =~= a);
    assert(b.skip(0) =~= b);
    assert(a =~= b);
}

/// True when the characters of `a` come at or before those of `b`.
pub fn lex_le_exec(a: &Vec<char>, b: &Vec<char>) -> (r: bool)
    ensures
        r == lex_le(a@, b@),
{
    let mut i: usize = 0;
    loop
        invariant
            0 <= i <= a.len(),
            i <= b.len(),
            lex_le(a@, b@) == lex_le_from(a@, b@, i as int),
        decreases a.len() - i,
    {
        if i >= a.len() {
            return true;
        }
        if i >= b.len() {
            return false;
        }
        if a[i] == b[i] {
            i += 1;
        } else {
            return (a[i] as u32) < (b[i] as u32);
        }
    }
}

/// A decimal digit.
pub open spec fn is_digit(c: char) -> bool {
    48 <= (c as u32) <= 57
}

/// The numeric value of a decimal digit character.
pub open spec fn digit_val(c: char) -> int {
    (c as u32) - 48
}

/// A non-empty, all-digit character sequence.
pub open spec fn is_digits(s: Seq<char>) -> bool {
    s.len() > 0 && forall|i: int| 0 <= i < s.len() ==> is_digit(s[i])
}

/// The number denoted by a most-significant-first digit sequence.
pub open spec fn digits_val(s: Seq<char>) -> int
    decreases s.len(),
{
    if s.len() == 0 {
        0
    } else {
        digits_val(s.drop_last()) * 10 + digit_val(s.last())
    }
}

/// The digit character for a value below ten.
pub open spec fn digit_char(d: int) -> char {
    if d == 0 {
        '0'
    } else if d == 1 {
        '1'
    } else if d == 2 {
        '2'
    } else if d == 3 {
        '3'
    } else if d == 4 {
        '4'
    } else if d == 5 {
        '5'
    } else if d == 6 {
        '6'
    } else if d == 7 {
        '7'
    } else if d == 8 {
        '8'
    } else {
        '9'
    }
}

/// The decimal rendering of `n`, most significant digit first.
pub open spec fn dec_chars(n: int) -> Seq<char>
    decreases n,
{
    if n < 10 {
        seq![digit_char(n)]
    } else {
        dec_chars(n / 10).push(digit_char(n % 10))
    }
}

/// Decimal rendering consists of digits and parses back to the value.
pub proof fn lemma_dec_chars_val(n: int)
    requires
        0 <= n,
    ensures
        is_digits(dec_chars(n)),
        digits_val(dec_chars(n)) == n,
    decreases n,
{
    if n < 10 {
        let s = dec_chars(n);
        assert(s =~= seq![digit_char(n)]);
        assert(is_digit(digit_char(n)));
        assert(s.drop_last() =~= Seq::<char>::empty());
        assert(s.last() == digit_char(n));
        assert(digits_val(s) == digits_val(Seq::<char>::empty()) * 10 + digit_val(digit_char(n)));
        assert(digit_val(digit_char(n)) == n);
    } else {
        lemma_dec_chars_val(n / 10);
        lemma_fundamental_div_mod(n, 10);
        let s = dec_chars(n);
        assert(s == dec_chars(n / 10).push(digit_char(n % 10)));
        assert(s.drop_last() =~= dec_chars(n / 10));
        assert(s.last() == digit_char(n % 10));
        assert(digits_val(s) == digits_val(dec_chars(n / 10)) * 10 + digit_val(digit_char(n % 10)));
        assert(digit_val(digit_char(n % 10)) == n % 10);
        assert(digits_val(s) == (n / 10) * 10 + n % 10);
        assert(forall|i: int| 0 <= i < s.len() ==> is_digit(#[trigger] s[i]));
    }
}

/// Parses an all-digit character sequence as an unsigned number; rejects
/// the empty sequence, any non-digit, and values that do not fit in `u64`.
pub fn parse_u64_chars(v: &Vec<char>) -> (r: Option<u64>)
    ensures
        r is Some <==> is_digits(v@) && digits_val(v@) <= u64::MAX,
        r is Some ==> r->Some_0 == digits_val(v@),
{
    if v.len() == 0 {
        return None;
    }
    let mut acc: u64 = 0;
    let mut i: usize = 0;
    while i < v.len()
        invariant
            i <= v.len(),
            v@.len() > 0,
            acc == digits_val(v@.subrange(0, i as int)),
            forall|j: int| 0 <= j < i ==> is_digit(v@[j]),
        decreases v.len() - i,
    {
        let c = v[i] as u32;
        if c < 48 || c > 57 {
            proof {
                assert(!is_digit(v@[i as int]));
            }
            return None;
        }
        let d: u64 = (c - 48) as u64;
        proof {
            assert(v@.subrange(0, i + 1).drop_last() =~= v@.subrange(0, i as int));
            assert(v@.subrange(0, i + 1).last() == v@[i as int]);
            assert(digits_val(v@.subrange(0, i + 1)) == acc * 10 + d);
        }
        let acc10 = match acc.checked_mul(10) {
            Some(x) => x,
            None => {
                proof {
                    lemma_digits_val_grows(v@, i + 1);
                }
                return None;
            },
        };
        let next = match acc10.checked_add(d) {
            Some(x) => x,
            None => {
                proof {
                    lemma_digits_val_grows(v@, i + 1);
                }
                return None;
            },
        };
        acc = next;
        i += 1;
    }
    proof {
        assert(v@.subrange(0, v@.len() as int) =~= v@);
    }
    Some(acc)
}

/// A prefix of a digit sequence never exceeds the whole value.
proof fn lemma_digits_val_grows(s: Seq<char>, i: int)
    requires
        0 <= i <= s.len(),
        forall|j: int| 0 <= j < i ==> is_digit(s[j]),
    ensures
        is_digits(s) ==> digits_val(s.subrange(0, i)) <= digits_val(s),
    decreases s.len() - i,
{
    if is_digits(s) {
        if i == s.len() {
            assert(s.subrange(0, i) =~= s);
        } else {
            lemma_digits_val_grows(s, i + 1);
            assert(s.subrange(0, i + 1).drop_last() =~= s.subrange(0, i));
            assert(s.subrange(0, i + 1).last() == s[i]);
            assert(is_digit(s[i]));
            lemma_digits_val_nonneg(s.subrange(0, i));
            assert(digits_val(s.subrange(0, i)) * 10 >= digits_val(s.subrange(0, i))) by (nonlinear_arith)
                requires digits_val(s.subrange(0, i)) >= 0;
        }
    }
}

/// Digit sequences denote non-negative values.
pub proof fn lemma_digits_val_nonneg(s: Seq<char>)
    requires
        forall|i: int| 0 <= i < s.len() ==> is_digit(s[i]),
    ensures
        digits_val(s) >= 0,
    decreases s.len(),
{
    if s.len() > 0 {
        lemma_digits_val_nonneg(s.drop_last());
        assert(digits_val(s.drop_last()) * 10 >= 0) by (nonlinear_arith)
            requires digits_val(s.drop_last()) >= 0;
    }
}

/// Renders `n` in decimal, most significant digit first.
pub fn u64_to_chars(n: u64) -> (r: Vec<char>)
    ensures
        r@ == dec_chars(n as int),
{
    let mut digits: Vec<char> = Vec::new();
    let mut m = n;
    loop
        invariant
            dec_chars(n as int) == dec_chars(m as int) + digits@,
        decreases m,
    {
        let d = digit_to_char((m % 10) as u8);
        if m < 10 {
            proof {
                assert(dec_chars(m as int) =~= seq![digit_char(m as int)]);
                assert(m % 10 == m as int);
            }
            let mut r: Vec<char> = Vec::new();
            r.push(d);
            let mut i: usize = 0;
            while i < digits.len()
                invariant
                    i <= digits.len(),
                    r@ == seq![digit_char(m as int)] + digits@.subrange(0, i as int),
                decreases digits.len() - i,
            {
                r.push(digits[i]);
                proof {
                    assert(digits@.subrange(0, i + 1) =~= digits@.subrange(0, i as int).push(digits@[i as int]));
                }
                i += 1;
            }
            proof {
                assert(digits@.subrange(0, digits@.len() as int) =~= digits@);
                assert(r@ =~= dec_chars(m as int) + digits@);
            }
            return r;
        } else {
            proof {
                assert(dec_chars(m as int) =~= dec_chars(m as int / 10).push(digit_char(m as int % 10)));
                assert(dec_chars(m as int / 10).push(digit_char(m as int % 10)) + digits@
                    =~= dec_chars(m as int / 10) + (seq![digit_char(m as int % 10)] + digits@));
            }
            let mut nd: Vec<char> = Vec::new();
            nd.push(d);
            let mut i: usize = 0;
            while i < digits.len()
                invariant
                    i <= digits.len(),
                    nd@ == seq![digit_char(m as int % 10)] + digits@.subrange(0, i as int),
                decreases digits.len() - i,
            {
                nd.push(digits[i]);
                proof {
                    assert(digits@.subrange(0, i + 1) =~= digits@.subrange(0, i as int).push(digits@[i as int]));
                }
                i += 1;
            }
            proof {
                assert(digits@.subrange(0, digits@.len() as int) =~= digits@);
                assert(nd@ =~= seq![digit_char(m as int % 10)] + digits@);
            }
            digits = nd;
            m = m / 10;
        }
    }
}

/// The digit character for a value below ten, in executable form.
pub fn digit_to_char(d: u8) -> (c: char)
    requires
        d < 10,
    ensures
        c == digit_char(d as int),
{
    match d {
        0 => '0',
        1 => '1',
        2 => '2',
        3 => '3',
        4 => '4',
        5 => '5',
        6 => '6',
        7 => '7',
        8 => '8',
        _ => '9',
    }
}

} // verus!
