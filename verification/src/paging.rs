//! Page-size clamping and the decimal cursors the listing routes hand out and read back.
//!
//! A listing page carries a `cursor` only when it is full; the cursor is the last row's integer
//! key in decimal, and the next request parses it back with `i64`'s `FromStr` rules.

use vstd::prelude::*;
use crate::text::{chars_of, push_char};

verus! {

/// `v.clamp(1, max)`.
pub open spec fn clamp_spec(v: int, max: int) -> int {
    if v < 1 {
        1
    } else if v > max {
        max
    } else {
        v
    }
}

/// `limit.unwrap_or(default).clamp(1, max)` — the page size the listing routes use.
pub fn clamp_limit(limit: Option<i64>, default: i64, max: i64) -> (r: i64)
    requires
        1 <= max,
    ensures
        r == clamp_spec(
            match limit {
                Some(l) => l as int,
                None => default as int,
            },
            max as int,
        ),
        1 <= r <= max,
{
    let v = match limit {
        Some(l) => l,
        None => default,
    };
    if v < 1 {
        1
    } else if v > max {
        max
    } else {
        v
    }
}

/// Whether `c` is an ASCII decimal digit.
pub open spec fn is_digit(c: char) -> bool {
    '0' <= c && c <= '9'
}

/// The value of the ASCII digit `c`.
pub open spec fn digit_value(c: char) -> int {
    c as int - 48
}

/// The character of the decimal digit `d` (`0 <= d < 10`).
pub open spec fn digit_char(d: int) -> char {
    (d + 48) as char
}

/// Every character of `s` is a decimal digit.
pub open spec fn all_digits(s: Seq<char>) -> bool {
    forall|i: int| 0 <= i < s.len() ==> is_digit(#[trigger] s[i])
}

/// The value of a run of decimal digits, most significant first.
pub open spec fn digits_value(s: Seq<char>) -> int
    decreases s.len(),
{
    if s.len() == 0 {
        0
    } else {
        digits_value(s.drop_last()) * 10 + digit_value(s.last())
    }
}

/// What `s.parse::<i64>()` yields: an optional `+` or `-`, then one or more ASCII digits whose
/// value lies in the range of `i64`; anything else is an error (`None`).
pub open spec fn parse_i64_spec(s: Seq<char>) -> Option<i64> {
    if s.len() > 0 && (s[0] == '-' || s[0] == '+') {
        let d = s.drop_first();
        let v = if s[0] == '-' {
            -digits_value(d)
        } else {
            digits_value(d)
        };
        if d.len() > 0 && all_digits(d) && i64::MIN <= v <= i64::MAX {
            Some(v as i64)
        } else {
            None
        }
    } else {
        if s.len() > 0 && all_digits(s) && digits_value(s) <= i64::MAX {
            Some(digits_value(s) as i64)
        } else {
            None
        }
    }
}

/// The decimal digits of `n`, most significant first, without leading zeros.
pub open spec fn decimal_digits(n: nat) -> Seq<char>
    decreases n,
{
    if n < 10 {
        seq![digit_char(n as int)]
    } else {
        decimal_digits(n / 10) + seq![digit_char((n % 10) as int)]
    }
}

/// `n.to_string()` for an integer `n`: a `-` for negatives, then the decimal digits.
pub open spec fn decimal_string(n: int) -> Seq<char> {
    if n < 0 {
        seq!['-'] + decimal_digits((-n) as nat)
    } else {
        decimal_digits(n as nat)
    }
}

proof fn lemma_digits_value_monotone(s: Seq<char>, k: int)
    requires
        0 <= k <= s.len(),
        all_digits(s),
    ensures
        0 <= digits_value(s.subrange(0, k)) <= digits_value(s),
    decreases s.len(),
{
    if s.len() == 0 {
        assert(s.subrange(0, k) =~= s);
    } else if k == s.len() {
        assert(s.subrange(0, k) =~= s);
        lemma_digits_value_monotone(s.drop_last(), k - 1);
    } else {
        assert(s.drop_last().subrange(0, k) =~= s.subrange(0, k));
        assert(is_digit(s[s.len() - 1]));
        lemma_digits_value_monotone(s.drop_last(), k);
    }
}

proof fn lemma_decimal_digits(n: nat)
    ensures
        decimal_digits(n).len() > 0,
        all_digits(decimal_digits(n)),
        digits_value(decimal_digits(n)) == n,
        is_digit(decimal_digits(n)[0]),
    decreases n,
{
    let last = (n % 10) as int;
    assert((((last + 48) as char) as int) == last + 48);
    let s = decimal_digits(n);
    if n >= 10 {
        lemma_decimal_digits(n / 10);
        assert(s.drop_last() =~= decimal_digits(n / 10));
        assert(s.last() == digit_char(last));
        assert((n / 10) * 10 + last == n);
        assert(digits_value(s) == digits_value(decimal_digits(n / 10)) * 10 + digit_value(s.last()));
        assert forall|i: int| 0 <= i < s.len() implies is_digit(#[trigger] s[i]) by {
            if i < s.len() - 1 {
                assert(s[i] == decimal_digits(n / 10)[i]);
            }
        }
    } else {
        assert(s.drop_last() =~= Seq::<char>::empty());
        assert(digits_value(s.drop_last()) == 0);
    }
}

/// The decimal text of `n` parses back to `n`: every cursor a listing hands out is one the next
/// request accepts, and names the same row key.
pub proof fn cursor_round_trip(n: i64)
    ensures
        parse_i64_spec(decimal_string(n as int)) == Some(n),
{
    if n < 0 {
        lemma_decimal_digits((-n) as nat);
        let s = decimal_string(n as int);
        assert(s.drop_first() =~= decimal_digits((-n) as nat));
    } else {
        lemma_decimal_digits(n as nat);
    }
}

/// Appends the decimal digits of `n` to `out`.
fn push_decimal(out: &mut String, n: u64)
    ensures
        final(out)@ == old(out)@ + decimal_digits(n as nat),
    decreases n,
{
    if n >= 10 {
        push_decimal(out, n / 10);
    }
    let d: u8 = (n % 10) as u8;
    let c = (d + 48) as char;
    push_char(out, c);
    proof {
        if n >= 10 {
            assert(old(out)@ + decimal_digits(n as nat) =~= old(out)@ + decimal_digits((n / 10) as nat)
                + seq![digit_char((n % 10) as int)]);
        } else {
            assert(old(out)@ + decimal_digits(n as nat) =~= old(out)@.push(c));
        }
    }
}

/// `n.to_string()` for an `i64`.
pub fn i64_to_string(n: i64) -> (r: String)
    ensures
        r@ == decimal_string(n as int),
{
    let mut out = String::new();
    if n < 0 {
        push_char(&mut out, '-');
        let m: u64 = (-(n as i128)) as u64;
        push_decimal(&mut out, m);
    } else {
        push_decimal(&mut out, n as u64);
    }
    out
}

/// `u64::to_string`.
pub fn u64_to_string(n: u64) -> (r: String)
    ensures
        r@ == decimal_string(n as int),
{
    let mut out = String::new();
    push_decimal(&mut out, n);
    out
}

/// `s.parse::<i64>().ok()`.
pub fn parse_i64(s: &str) -> (r: Option<i64>)
    ensures
        r == parse_i64_spec(s@),
{
    let cs = chars_of(s);
    let n = cs.len();
    if n == 0 {
        return None;
    }
    let neg = cs[0] == '-';
    let start: usize = if cs[0] == '-' || cs[0] == '+' { 1 } else { 0 };
    let ghost d = cs@.subrange(start as int, n as int);
    proof {
        if start == 1 {
            assert(d =~= s@.drop_first());
        } else {
            assert(d =~= s@);
        }
    }
    if start == n {
        return None;
    }
    // The largest magnitude the sign admits.
    let bound: i128 = if neg { 9223372036854775808 } else { 9223372036854775807 };
    let mut acc: i128 = 0;
    let mut i: usize = start;
    while i < n
        invariant
            n == cs@.len(),
            cs@ == s@,
            start <= i <= n,
            n > 0,
            start <= 1,
            neg == (s@[0] == '-'),
            (start == 1) == (s@[0] == '-' || s@[0] == '+'),
            start == 1 ==> d == s@.drop_first(),
            start == 0 ==> d == s@,
            d == cs@.subrange(start as int, n as int),
            all_digits(cs@.subrange(start as int, i as int)),
            acc == digits_value(cs@.subrange(start as int, i as int)),
            0 <= acc <= bound,
            bound == (if neg { 9223372036854775808int } else { 9223372036854775807int }),
        decreases n - i,
    {
        let c = cs[i];
        let ghost pre = cs@.subrange(start as int, i as int);
        let ghost next = cs@.subrange(start as int, i + 1);
        assert(next.drop_last() =~= pre);
        if !('0' <= c && c <= '9') {
            proof {
                assert(d[i - start] == c);
                assert(!is_digit(c));
                assert(!all_digits(d));
                if start == 0 {
                    assert(d =~= s@);
                }
            }
            return None;
        }
        let dv = (c as u32 - 48) as i128;
        acc = acc * 10 + dv;
        assert(all_digits(next)) by {
            assert forall|j: int| 0 <= j < next.len() implies is_digit(#[trigger] next[j]) by {
                if j < pre.len() {
                    assert(next[j] == pre[j]);
                }
            }
        }
        if acc > bound {
            proof {
                // Any longer run of digits is at least as large, so no completion is in range.
                if all_digits(d) {
                    lemma_digits_value_monotone(d, (i + 1 - start) as int);
                    assert(d.subrange(0, (i + 1 - start) as int) =~= next);
                    assert(digits_value(d) > bound);
                }
                if start == 0 {
                    assert(d =~= s@);
                }
            }
            return None;
        }
        i = i + 1;
    }
    assert(cs@.subrange(start as int, n as int) =~= d);
    if neg {
        Some((-acc) as i64)
    } else {
        Some(acc as i64)
    }
}

/// The cursor after a page of rows keyed by `keys` (in page order): the last key in decimal when
/// the page is full (`keys.len() == limit`), and none on a short page, which is the last one.
pub fn next_key_cursor(keys: &[i64], limit: i64) -> (r: Option<String>)
    ensures
        r is Some <==> (keys@.len() == limit && keys@.len() > 0),
        r matches Some(c) ==> c@ == decimal_string(keys@.last() as int),
{
    if keys.len() as i128 == limit as i128 && keys.len() > 0 {
        Some(i64_to_string(keys[keys.len() - 1]))
    } else {
        None
    }
}


/// The cursor after a page of rows keyed by the texts `keys` (in page order): the last key when
/// the page is full, and none on a short page.
pub fn next_text_cursor(keys: &[String], limit: i64) -> (r: Option<String>)
    ensures
        r is Some <==> (keys@.len() == limit && keys@.len() > 0),
        r matches Some(c) ==> c@ == keys@.last()@,
{
    if keys.len() as i128 == limit as i128 && keys.len() > 0 {
        Some(crate::text::owned(keys[keys.len() - 1].as_str()))
    } else {
        None
    }
}

} // verus!
