//! Reading decimal integers from text, as `str::parse::<i64>` does.
use vstd::prelude::*;

verus! {

pub open spec fn is_digit(c: char) -> bool {
    '0' <= c && c <= '9'
}

pub open spec fn digit_value(c: char) -> int {
    c as int - '0' as int
}

/// The number written by a sequence of decimal digits.
pub open spec fn digits_value(s: Seq<char>) -> int
    decreases s.len(),
{
    if s.len() == 0 {
        0
    } else {
        digits_value(s.drop_last()) * 10 + digit_value(s.last())
    }
}

pub open spec fn all_digits(s: Seq<char>) -> bool {
    forall|i: int| 0 <= i < s.len() ==> is_digit(#[trigger] s[i])
}

/// The 64-bit integer a text writes: an optional sign, then one or more
/// decimal digits, with a value in range; `None` for any other text.
pub open spec fn spec_parse_i64(s: Seq<char>) -> Option<i64> {
    let negative = s.len() > 0 && s[0] == '-';
    let signed = s.len() > 0 && (s[0] == '-' || s[0] == '+');
    let ds = if signed {
        s.skip(1)
    } else {
        s
    };
    let v = if negative {
        -digits_value(ds)
    } else {
        digits_value(ds)
    };
    if ds.len() == 0 || !all_digits(ds) || v < i64::MIN || v > i64::MAX {
        None
    } else {
        Some(v as i64)
    }
}

proof fn lemma_digits_nonneg(s: Seq<char>)
    requires
        all_digits(s),
    ensures
        digits_value(s) >= 0,
    decreases s.len(),
{
    if s.len() > 0 {
        assert(all_digits(s.drop_last()));
        lemma_digits_nonneg(s.drop_last());
        assert(is_digit(s[s.len() - 1]));
    }
}

proof fn lemma_digits_prefix_grows(s: Seq<char>, k: int)
    requires
        all_digits(s),
        0 <= k <= s.len(),
    ensures
        digits_value(s.take(k)) <= digits_value(s),
    decreases s.len() - k,
{
    if k < s.len() {
        lemma_digits_prefix_grows(s, k + 1);
        assert(s.take(k + 1).drop_last() == s.take(k));
        assert(all_digits(s.take(k)));
        lemma_digits_nonneg(s.take(k));
        assert(is_digit(s[k]));
    } else {
        assert(s.take(k) == s);
    }
}

/// Reads a 64-bit integer written in decimal.
pub fn parse_i64(text: &str) -> (r: Option<i64>)
    ensures
        r == spec_parse_i64(text@),
{
    let s = crate::text::chars_of(text);
    let n = s.len();
    let negative = n > 0 && s[0] == '-';
    let signed = n > 0 && (s[0] == '-' || s[0] == '+');
    let start: usize = if signed {
        1
    } else {
        0
    };
    let ghost ds = if signed {
        text@.skip(1)
    } else {
        text@
    };
    if start >= n {
        return None;
    }
    let bound: i128 = 9223372036854775808;
    let mut acc: i128 = 0;
    let mut i: usize = start;
    while i < n
        invariant
            s@ == text@,
            n == s@.len(),
            start <= i <= n,
            ds == s@.skip(start as int),
            ds == (if text@.len() > 0 && (text@[0] == '-' || text@[0] == '+') {
                text@.skip(1)
            } else {
                text@
            }),
            negative == (text@.len() > 0 && text@[0] == '-'),
            ds.len() == n - start,
            all_digits(ds.take(i - start)),
            bound == 9223372036854775808,
            0 <= acc <= bound,
            acc == digits_value(ds.take(i - start)),
        decreases n - i,
    {
        let c = s[i];
        if !('0' <= c && c <= '9') {
            assert(ds[i - start] == c);
            assert(!is_digit(ds[i - start]));
            return None;
        }
        let d: i128 = if c == '0' { 0 } else if c == '1' { 1 } else if c == '2' { 2 } else if c
            == '3' { 3 } else if c == '4' { 4 } else if c == '5' { 5 } else if c == '6' { 6 } else if c
            == '7' { 7 } else if c == '8' { 8 } else { 9 };
        assert(d == digit_value(c));
        assert(ds.take(i + 1 - start).drop_last() == ds.take(i - start));
        assert(ds.take(i + 1 - start).last() == c);
        acc = acc * 10 + d;
        i = i + 1;
        assert(all_digits(ds.take(i - start))) by {
            assert forall|j: int| 0 <= j < i - start implies is_digit(
                #[trigger] ds.take(i - start)[j],
            ) by {
                if j < i - 1 - start {
                    assert(ds.take(i - start)[j] == ds.take(i - 1 - start)[j]);
                }
            }
        }
        if acc > bound {
            proof {
                let rest_ok = all_digits(ds);
                if rest_ok {
                    lemma_digits_prefix_grows(ds, i - start);
                }
            }
            return None;
        }
    }
    assert(ds.take(n - start) == ds);
    if negative {
        Some((0 - acc) as i64)
    } else if acc == bound {
        None
    } else {
        Some(acc as i64)
    }
}

} // verus!
