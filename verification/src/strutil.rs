//! Verified text utilities.
//!
//! The protocol layers compare modem responses against fixed tokens and look
//! for literal prefixes; these helpers perform those comparisons with
//! contracts over the character views of the strings involved.

use vstd::prelude::*;
use vstd::string::StrSliceExecFns;

verus! {

/// True when `s` begins with `prefix`.
pub open spec fn starts_with_spec(s: Seq<char>, prefix: Seq<char>) -> bool {
    prefix.len() <= s.len() && s.subrange(0, prefix.len() as int) == prefix
}

/// Compares two strings character by character.
pub fn str_eq(a: &str, b: &str) -> (r: bool)
    ensures
        r == (a@ == b@),
{
    let a_len = a.unicode_len();
    let b_len = b.unicode_len();
    if a_len != b_len {
        return false;
    }
    let mut i: usize = 0;
    while i < a_len
        invariant
            i <= a_len,
            a_len == a@.len(),
            b_len == b@.len(),
            a_len == b_len,
            forall|j: int| 0 <= j < i ==> a@[j] == b@[j],
        decreases a_len - i,
    {
        if a.get_char(i) != b.get_char(i) {
            return false;
        }
        i = i + 1;
    }
    proof {
        assert(a@ =~= b@);
    }
    true
}

/// Index of the first occurrence of `c` in `s`, or the length of `s` when it
/// does not occur.
pub open spec fn first_index_spec(s: Seq<char>, c: char) -> int
    decreases s.len(),
{
    if s.len() == 0 {
        0
    } else if s[0] == c {
        0
    } else {
        1 + first_index_spec(s.subrange(1, s.len() as int), c)
    }
}

/// Scanning from the left: when no occurrence lies before `i`, the first
/// occurrence in the whole string is `i` plus the first occurrence in the
/// rest.
proof fn lemma_first_index_skip(s: Seq<char>, c: char, i: int)
    requires
        0 <= i <= s.len(),
        forall|j: int| 0 <= j < i ==> s[j] != c,
    ensures
        first_index_spec(s, c) == i + first_index_spec(s.subrange(i, s.len() as int), c),
    decreases i,
{
    if i > 0 {
        lemma_first_index_skip(s, c, i - 1);
        let t = s.subrange(i - 1, s.len() as int);
        assert(t[0] != c);
        assert(t.subrange(1, t.len() as int) =~= s.subrange(i, s.len() as int));
    } else {
        assert(s.subrange(0, s.len() as int) =~= s);
    }
}

/// Finds the first occurrence of `c` in `s`, returning the length of `s`
/// when it does not occur.
pub fn find_char(s: &str, c: char) -> (r: usize)
    ensures
        r as int == first_index_spec(s@, c),
        r <= s@.len(),
{
    let len = s.unicode_len();
    let mut i: usize = 0;
    while i < len
        invariant
            i <= len,
            len == s@.len(),
            forall|j: int| 0 <= j < i ==> s@[j] != c,
        decreases len - i,
    {
        if s.get_char(i) == c {
            proof {
                lemma_first_index_skip(s@, c, i as int);
            }
            return i;
        }
        i = i + 1;
    }
    proof {
        lemma_first_index_skip(s@, c, len as int);
        assert(s@.subrange(len as int, s@.len() as int) =~= Seq::<char>::empty());
    }
    len
}

/// Comma-separated field `n` of `s`: splitting on commas always yields at
/// least one field, and field `n` exists exactly when at least `n` commas
/// do.
pub open spec fn comma_field_spec(s: Seq<char>, n: nat) -> Option<Seq<char>>
    decreases n,
{
    let fc = first_index_spec(s, ',');
    if n == 0 {
        Some(s.subrange(0, fc))
    } else if fc == s.len() {
        None
    } else {
        comma_field_spec(s.subrange(fc + 1, s.len() as int), (n - 1) as nat)
    }
}

/// Extracts comma-separated field `n` of `s`, if it exists.
pub fn comma_field<'a>(s: &'a str, n: usize) -> (r: Option<&'a str>)
    ensures
        match r {
            Some(f) => comma_field_spec(s@, n as nat) == Some(f@),
            None => comma_field_spec(s@, n as nat) == None::<Seq<char>>,
        },
    decreases n,
{
    let len = s.unicode_len();
    let fc = find_char(s, ',');
    if n == 0 {
        Some(s.substring_char(0, fc))
    } else if fc == len {
        None
    } else {
        let rest = s.substring_char(fc + 1, len);
        comma_field(rest, n - 1)
    }
}

/// Whether `c` is a decimal digit.
pub open spec fn is_digit(c: char) -> bool {
    '0' <= c && c <= '9'
}

/// The value of a decimal digit.
pub open spec fn digit_val(c: char) -> int {
    c as int - '0' as int
}

/// Whether every character of `s` is a decimal digit.
pub open spec fn all_digits(s: Seq<char>) -> bool {
    forall|i: int| 0 <= i < s.len() ==> is_digit(#[trigger] s[i])
}

/// The value of a run of decimal digits, most significant first.
pub open spec fn digits_value_spec(s: Seq<char>) -> int
    decreases s.len(),
{
    if s.len() == 0 {
        0
    } else {
        digits_value_spec(s.drop_last()) * 10 + digit_val(s.last())
    }
}

/// Ten to the `n`.
pub open spec fn pow10(n: nat) -> int
    decreases n,
{
    if n == 0 {
        1
    } else {
        10 * pow10((n - 1) as nat)
    }
}

/// A run of `n` digits is worth less than ten to the `n`.
pub proof fn lemma_digits_value_bound(s: Seq<char>)
    requires
        all_digits(s),
    ensures
        0 <= digits_value_spec(s) < pow10(s.len()),
    decreases s.len(),
{
    if s.len() > 0 {
        assert(all_digits(s.drop_last()));
        lemma_digits_value_bound(s.drop_last());
        assert(is_digit(s.last()));
    }
}

/// Parses a run of decimal digits: the whole string must be one to nine
/// digits, so the value fits comfortably in the result type.
pub fn parse_u32_digits(s: &str) -> (r: Option<u32>)
    ensures
        match r {
            Some(v) => s@.len() > 0 && s@.len() <= 9 && all_digits(s@) && v as int
                == digits_value_spec(s@),
            None => s@.len() == 0 || s@.len() > 9 || !all_digits(s@),
        },
{
    let len = s.unicode_len();
    if len == 0 || len > 9 {
        return None;
    }
    let mut value: u32 = 0;
    let mut i: usize = 0;
    while i < len
        invariant
            i <= len,
            len == s@.len(),
            len <= 9,
            all_digits(s@.subrange(0, i as int)),
            value as int == digits_value_spec(s@.subrange(0, i as int)),
            (value as int) < pow10(i as nat),
        decreases len - i,
    {
        let c = s.get_char(i);
        if c < '0' || c > '9' {
            proof {
                assert(!is_digit(s@[i as int]));
            }
            return None;
        }
        proof {
            lemma_digits_value_bound(s@.subrange(0, i as int));
            assert(pow10(i as nat) <= pow10(8)) by {
                lemma_pow10_mono(i as nat, 8);
            }
            assert(pow10(8) == 100000000) by {
                assert(pow10(0) == 1);
                assert(pow10(1) == 10);
                assert(pow10(2) == 100);
                assert(pow10(3) == 1000);
                assert(pow10(4) == 10000);
                assert(pow10(5) == 100000);
                assert(pow10(6) == 1000000);
                assert(pow10(7) == 10000000);
            }
        }
        value = value * 10 + (c as u32 - 48);
        proof {
            let pre = s@.subrange(0, (i + 1) as int);
            assert(pre.drop_last() =~= s@.subrange(0, i as int));
            assert(pre.last() == s@[i as int]);
        }
        i = i + 1;
    }
    proof {
        assert(s@.subrange(0, len as int) =~= s@);
    }
    Some(value)
}

/// The values of ten to the powers the parsers use.
pub proof fn lemma_pow10_values()
    ensures
        pow10(0) == 1,
        pow10(1) == 10,
        pow10(2) == 100,
        pow10(3) == 1000,
        pow10(4) == 10000,
        pow10(5) == 100000,
        pow10(6) == 1000000,
        pow10(12) == 1000000000000,
{
    assert(pow10(7) == 10 * pow10(6));
    assert(pow10(8) == 10 * pow10(7));
    assert(pow10(9) == 10 * pow10(8));
    assert(pow10(10) == 10 * pow10(9));
    assert(pow10(11) == 10 * pow10(10));
    assert(pow10(12) == 10 * pow10(11));
}

/// Parses a run of decimal digits of at most twelve characters. An empty run
/// is worth zero.
fn parse_digits_12(s: &str) -> (r: Option<i64>)
    ensures
        match r {
            Some(v) => s@.len() <= 12 && all_digits(s@) && v as int == digits_value_spec(s@) && 0
                <= v,
            None => s@.len() > 12 || !all_digits(s@),
        },
{
    let len = s.unicode_len();
    if len > 12 {
        return None;
    }
    let mut value: i64 = 0;
    let mut i: usize = 0;
    while i < len
        invariant
            i <= len,
            len == s@.len(),
            len <= 12,
            all_digits(s@.subrange(0, i as int)),
            value as int == digits_value_spec(s@.subrange(0, i as int)),
            (value as int) < pow10(i as nat),
            0 <= value,
        decreases len - i,
    {
        let c = s.get_char(i);
        if c < '0' || c > '9' {
            proof {
                assert(!is_digit(s@[i as int]));
            }
            return None;
        }
        proof {
            assert(pow10(i as nat) <= pow10(11)) by {
                lemma_pow10_mono(i as nat, 11);
            }
            assert(pow10(11) == 100000000000) by {
                lemma_pow10_values();
                assert(pow10(12) == 10 * pow10(11));
            }
        }
        value = value * 10 + (c as i64 - 48);
        proof {
            let pre = s@.subrange(0, (i + 1) as int);
            assert(pre.drop_last() =~= s@.subrange(0, i as int));
            assert(pre.last() == s@[i as int]);
        }
        i = i + 1;
    }
    proof {
        assert(s@.subrange(0, len as int) =~= s@);
    }
    Some(value)
}

/// Checks that every character of `s` is a decimal digit.
pub fn all_digits_check(s: &str) -> (r: bool)
    ensures
        r == all_digits(s@),
{
    let len = s.unicode_len();
    let mut i: usize = 0;
    while i < len
        invariant
            i <= len,
            len == s@.len(),
            forall|j: int| 0 <= j < i ==> is_digit(#[trigger] s@[j]),
        decreases len - i,
    {
        let c = s.get_char(i);
        if c < '0' || c > '9' {
            proof {
                assert(!is_digit(s@[i as int]));
            }
            return false;
        }
        i = i + 1;
    }
    true
}

/// The value of a decimal-fraction string in micro-units: an optional sign,
/// an integer part of at most twelve digits, and an optional dot with a
/// fraction, of which the first six digits are kept. A string without a
/// single digit, or with anything besides digits around the dot, has no
/// value.
pub open spec fn parse_decimal_micro_spec(s: Seq<char>) -> Option<int> {
    if s.len() == 0 {
        None
    } else {
        let body = if s[0] == '-' || s[0] == '+' {
            s.subrange(1, s.len() as int)
        } else {
            s
        };
        let d = first_index_spec(body, '.');
        let ip = body.subrange(0, d);
        let fp = if d == body.len() {
            Seq::<char>::empty()
        } else {
            body.subrange(d + 1, body.len() as int)
        };
        let f6 = if fp.len() > 6 {
            fp.subrange(0, 6)
        } else {
            fp
        };
        if body.len() == 0 || !all_digits(ip) || !all_digits(fp) || ip.len() + fp.len() == 0
            || ip.len() > 12 {
            None
        } else {
            let v = digits_value_spec(ip) * 1000000 + digits_value_spec(f6) * pow10(
                (6 - f6.len()) as nat,
            );
            if s[0] == '-' {
                Some(-v)
            } else {
                Some(v)
            }
        }
    }
}

/// Parses a decimal-fraction string into micro-units: `"41.27"` becomes
/// 41270000 and `"-3.5"` becomes -3500000. The fraction is kept to six
/// digits.
pub fn parse_decimal_micro(s: &str) -> (r: Option<i64>)
    ensures
        match r {
            Some(v) => parse_decimal_micro_spec(s@) == Some(v as int),
            None => parse_decimal_micro_spec(s@) == None::<int>,
        },
{
    let len = s.unicode_len();
    if len == 0 {
        return None;
    }
    let c0 = s.get_char(0);
    let negative = c0 == '-';
    let body: &str = if c0 == '-' || c0 == '+' {
        s.substring_char(1, len)
    } else {
        s
    };
    proof {
        if !(c0 == '-' || c0 == '+') {
            assert(body@ =~= s@);
        }
    }
    let blen = body.unicode_len();
    if blen == 0 {
        return None;
    }
    let d = find_char(body, '.');
    let ip: &str = body.substring_char(0, d);
    let fp: &str = if d == blen {
        ""
    } else {
        body.substring_char(d + 1, blen)
    };
    proof {
        reveal_strlit("");
        if d == blen {
            assert(fp@ =~= Seq::<char>::empty());
        }
    }
    let ip_len = ip.unicode_len();
    let fp_len = fp.unicode_len();
    if ip_len + fp_len == 0 {
        return None;
    }
    let ip_val = match parse_digits_12(ip) {
        Some(v) => v,
        None => {
            return None;
        },
    };
    if !all_digits_check(fp) {
        return None;
    }
    let f6: &str = if fp_len > 6 {
        fp.substring_char(0, 6)
    } else {
        fp
    };
    proof {
        if fp@.len() > 6 {
            assert(f6@ =~= fp@.subrange(0, 6));
        }
        assert(all_digits(f6@)) by {
            assert(forall|j: int| 0 <= j < f6@.len() ==> f6@[j] == #[trigger] fp@[j]);
        }
    }
    let f6_val = match parse_digits_12(f6) {
        Some(v) => v,
        None => {
            proof {
                assert(false);
            }
            return None;
        },
    };
    let f6_len = f6.unicode_len();
    let scale: i64 = if f6_len == 0 {
        1000000
    } else if f6_len == 1 {
        100000
    } else if f6_len == 2 {
        10000
    } else if f6_len == 3 {
        1000
    } else if f6_len == 4 {
        100
    } else if f6_len == 5 {
        10
    } else {
        1
    };
    proof {
        lemma_pow10_values();
        lemma_digits_value_bound(ip@);
        lemma_digits_value_bound(f6@);
        assert(pow10(ip@.len()) <= pow10(12)) by {
            lemma_pow10_mono(ip@.len(), 12);
        }
        assert(pow10(f6@.len()) <= pow10(6)) by {
            lemma_pow10_mono(f6@.len(), 6);
        }
        assert(scale as int == pow10((6 - f6@.len()) as nat));
        assert(digits_value_spec(f6@) * pow10((6 - f6@.len()) as nat) < 1000000) by {
            lemma_digits_scale_bound(f6@);
        }
    }
    let v = ip_val * 1000000 + f6_val * scale;
    if negative {
        Some(-v)
    } else {
        Some(v)
    }
}

/// A fraction of at most six digits, scaled to six places, stays below one
/// million.
proof fn lemma_digits_scale_bound(f: Seq<char>)
    requires
        all_digits(f),
        f.len() <= 6,
    ensures
        0 <= digits_value_spec(f) * pow10((6 - f.len()) as nat) < 1000000,
{
    lemma_digits_value_bound(f);
    lemma_pow10_values();
    lemma_pow10_mono((6 - f.len()) as nat, 6);
    lemma_pow10_mul((6 - f.len()) as nat, f.len());
    let a = digits_value_spec(f);
    let p = pow10((6 - f.len()) as nat);
    assert(a <= pow10(f.len()) - 1);
    assert(a * p <= (pow10(f.len()) - 1) * p) by (nonlinear_arith)
        requires
            a <= pow10(f.len()) - 1,
            p >= 0,
    ;
    assert((pow10(f.len()) - 1) * p == pow10(f.len()) * p - p) by (nonlinear_arith);
    assert(pow10(f.len()) * p == pow10(6)) by {
        lemma_pow10_mul((6 - f.len()) as nat, f.len());
    }
    assert(a * p >= 0) by (nonlinear_arith)
        requires
            a >= 0,
            p >= 0,
    ;
}

/// Ten to a sum is the product of the powers.
proof fn lemma_pow10_mul(a: nat, b: nat)
    ensures
        pow10(a) * pow10(b) == pow10(a + b),
    decreases b,
{
    if b > 0 {
        lemma_pow10_mul(a, (b - 1) as nat);
        assert(pow10(a) * pow10(b) == pow10(a) * (10 * pow10((b - 1) as nat)));
        assert(pow10(a) * (10 * pow10((b - 1) as nat)) == 10 * (pow10(a) * pow10(
            (b - 1) as nat,
        ))) by (nonlinear_arith);
    }
}

/// Ten to the `n` grows with `n`.
pub proof fn lemma_pow10_mono(a: nat, b: nat)
    requires
        a <= b,
    ensures
        pow10(a) <= pow10(b),
        pow10(a) >= 1,
    decreases b,
{
    if a < b {
        lemma_pow10_mono(a, (b - 1) as nat);
    } else if b > 0 {
        lemma_pow10_mono((a - 1) as nat, (b - 1) as nat);
    }
}

/// Checks whether `s` begins with `prefix`, character by character.
pub fn str_starts_with(s: &str, prefix: &str) -> (r: bool)
    ensures
        r == starts_with_spec(s@, prefix@),
{
    let p_len = prefix.unicode_len();
    let s_len = s.unicode_len();
    if p_len > s_len {
        return false;
    }
    let mut i: usize = 0;
    while i < p_len
        invariant
            i <= p_len,
            p_len <= s_len,
            s_len == s@.len(),
            p_len == prefix@.len(),
            forall|j: int| 0 <= j < i ==> s@[j] == prefix@[j],
        decreases p_len - i,
    {
        if s.get_char(i) != prefix.get_char(i) {
            proof {
                assert(s@.subrange(0, prefix@.len() as int)[i as int] != prefix@[i as int]);
            }
            return false;
        }
        i = i + 1;
    }
    proof {
        assert(s@.subrange(0, prefix@.len() as int) =~= prefix@);
    }
    true
}

} // verus!
