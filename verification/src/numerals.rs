//! Parsing of the count drafts typed into the edit forms.
//!
//! A draft is accepted exactly when the standard library would accept it as a
//! `u32`: an optional leading `+`, then at least one decimal digit, with a
//! value that fits.

use vstd::prelude::*;

verus! {

/// Whether `c` is a decimal digit.
pub open spec fn is_digit_char(c: char) -> bool {
    '0' as int <= c as int && c as int <= '9' as int
}

/// The value of one decimal digit.
pub open spec fn digit_val(c: char) -> int {
    c as int - '0' as int
}

/// The value of a digit string, most significant first.
pub open spec fn digits_value(s: Seq<char>) -> int
    decreases s.len(),
{
    if s.len() == 0 {
        0
    } else {
        digits_value(s.drop_last()) * 10 + digit_val(s.last())
    }
}

/// The digits of a numeral: everything after an optional leading `+`.
pub open spec fn digits_body(s: Seq<char>) -> Seq<char> {
    if s.len() > 0 && s[0] == '+' {
        s.drop_first()
    } else {
        s
    }
}

/// Whether `s` is a numeral that fits in a `u32`: an optional leading `+`,
/// then one or more decimal digits, valuing at most `u32::MAX`.
pub open spec fn is_u32_numeral(s: Seq<char>) -> bool {
    let b = digits_body(s);
    &&& b.len() > 0
    &&& forall|k: int| 0 <= k < b.len() ==> is_digit_char(#[trigger] b[k])
    &&& digits_value(b) <= u32::MAX as int
}

/// The value of a `u32` numeral.
pub open spec fn u32_numeral_value(s: Seq<char>) -> int {
    digits_value(digits_body(s))
}

/// A digit string's value is never negative.
pub proof fn lemma_digits_value_nonneg(s: Seq<char>)
    requires
        forall|k: int| 0 <= k < s.len() ==> is_digit_char(#[trigger] s[k]),
    ensures
        digits_value(s) >= 0,
    decreases s.len(),
{
    if s.len() > 0 {
        assert(forall|k: int| 0 <= k < s.len() - 1 ==> s.drop_last()[k] == s[k]);
        lemma_digits_value_nonneg(s.drop_last());
    }
}

/// Extending a digit string can only grow its value.
pub proof fn lemma_digits_value_mono(s: Seq<char>, m: int)
    requires
        0 <= m <= s.len(),
        forall|k: int| 0 <= k < s.len() ==> is_digit_char(#[trigger] s[k]),
    ensures
        digits_value(s.take(m)) <= digits_value(s),
    decreases s.len() - m,
{
    if m == s.len() {
        assert(s.take(m) =~= s);
    } else {
        lemma_digits_value_mono(s, m + 1);
        assert(s.take(m + 1).drop_last() =~= s.take(m));
        assert(s.take(m + 1).last() == s[m]);
        assert(forall|k: int| 0 <= k < m ==> s.take(m)[k] == s[k]);
        lemma_digits_value_nonneg(s.take(m));
        assert(digits_value(s.take(m + 1)) == digits_value(s.take(m)) * 10 + digit_val(s[m]));
        assert(digits_value(s.take(m)) * 10 >= digits_value(s.take(m)));
        assert(digit_val(s[m]) >= 0);
    }
}

/// Parse a `u32` numeral, as the standard library's `str::parse::<u32>`
/// accepts one: `Some` exactly on numerals that fit, carrying their value.
pub fn parse_u32(s: &str) -> (r: Option<u32>)
    ensures
        match r {
            Some(v) => is_u32_numeral(s@) && v as int == u32_numeral_value(s@),
            None => !is_u32_numeral(s@),
        },
{
    let n = s.unicode_len();
    if n == 0 {
        return None;
    }
    let mut start: usize = 0;
    if s.get_char(0) == '+' {
        start = 1;
    }
    if start == n {
        return None;
    }
    let ghost b = digits_body(s@);
    proof {
        if start == 1 {
            assert(b =~= s@.drop_first());
        }
        assert(b.len() == n - start);
        assert(forall|k: int| 0 <= k < b.len() ==> b[k] == s@[start + k]);
        assert(b.take(0) =~= Seq::<char>::empty());
    }
    let mut acc: u32 = 0;
    let mut i: usize = start;
    while i < n
        invariant
            start <= i <= n,
            n == s@.len(),
            b == digits_body(s@),
            b.len() == n - start,
            forall|k: int| 0 <= k < b.len() ==> b[k] == s@[start + k],
            forall|k: int| 0 <= k < i - start ==> is_digit_char(#[trigger] b[k]),
            acc as int == digits_value(b.take(i - start)),
        decreases n - i,
    {
        let c = s.get_char(i);
        let code = c as u32;
        proof {
            assert(c == b[i - start]);
        }
        if code < 48 || code > 57 {
            proof {
                assert(!is_digit_char(b[i - start]));
            }
            return None;
        }
        let d = code - 48;
        proof {
            assert(is_digit_char(b[i - start]));
            assert(digit_val(b[i - start]) == d as int);
            assert(b.take(i - start + 1).drop_last() =~= b.take(i - start));
            assert(b.take(i - start + 1).last() == b[i - start]);
            assert(digits_value(b.take(i - start + 1)) == acc as int * 10 + d as int);
        }
        if acc > 429496729 || (acc == 429496729 && d > 5) {
            proof {
                assert(digits_value(b.take(i - start + 1)) > u32::MAX as int);
                if forall|k: int| 0 <= k < b.len() ==> is_digit_char(#[trigger] b[k]) {
                    lemma_digits_value_mono(b, i - start + 1);
                    assert(digits_value(b) > u32::MAX as int);
                }
            }
            return None;
        }
        acc = acc * 10 + d;
        i = i + 1;
    }
    proof {
        assert(b.take(b.len() as int) =~= b);
    }
    Some(acc)
}

} // verus!
