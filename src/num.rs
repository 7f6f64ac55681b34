//! Decimal integer text, as read from configuration and from upstream fields.
use vstd::prelude::*;
use vstd::string::*;

verus! {

pub open spec fn is_digit(c: char) -> bool {
    '0' <= c && c <= '9'
}

pub open spec fn all_digits(t: Seq<char>) -> bool {
    forall|i: int| 0 <= i < t.len() ==> is_digit(#[trigger] t[i])
}

/// The value of a string of decimal digits, most significant first.
pub open spec fn digits_value(t: Seq<char>) -> int
    decreases t.len(),
{
    if t.len() == 0 {
        0
    } else {
        digits_value(t.drop_last()) * 10 + (t.last() as int - '0' as int)
    }
}

/// A non-empty run of digits denotes its value.
pub open spec fn unsigned_value(t: Seq<char>) -> Option<int> {
    if t.len() > 0 && all_digits(t) {
        Some(digits_value(t))
    } else {
        None
    }
}

/// The integer written by `t`: digits with an optional leading `+`, and, where
/// `signed` holds, an optional leading `-`.
pub open spec fn decimal_value(t: Seq<char>, signed: bool) -> Option<int> {
    if t.len() > 0 && t[0] == '+' {
        unsigned_value(t.drop_first())
    } else if signed && t.len() > 0 && t[0] == '-' {
        match unsigned_value(t.drop_first()) {
            Some(v) => Some(-v),
            None => None,
        }
    } else {
        unsigned_value(t)
    }
}

/// The `i32` written by `t`, if it is well formed and in range.
pub open spec fn i32_value(t: Seq<char>) -> Option<i32> {
    match decimal_value(t, true) {
        Some(v) => if i32::MIN <= v && v <= i32::MAX {
            Some(v as i32)
        } else {
            None
        },
        None => None,
    }
}

/// The `u64` written by `t`, if it is well formed and in range.
pub open spec fn u64_value(t: Seq<char>) -> Option<u64> {
    match decimal_value(t, false) {
        Some(v) => if v <= u64::MAX {
            Some(v as u64)
        } else {
            None
        },
        None => None,
    }
}

/// The magnitude written by `t`, if it is a non-empty run of digits whose value
/// is at most `limit`.
pub open spec fn bounded_value(t: Seq<char>, limit: int) -> Option<int> {
    match unsigned_value(t) {
        Some(v) => if v <= limit {
            Some(v)
        } else {
            None
        },
        None => None,
    }
}

proof fn lemma_digits_nonneg(t: Seq<char>)
    requires
        all_digits(t),
    ensures
        digits_value(t) >= 0,
    decreases t.len(),
{
    if t.len() > 0 {
        assert(all_digits(t.drop_last()));
        lemma_digits_nonneg(t.drop_last());
        assert(is_digit(t[t.len() - 1]));
    }
}

/// Appending digits never lowers the value.
proof fn lemma_prefix_le(t: Seq<char>, k: int)
    requires
        all_digits(t),
        0 <= k <= t.len(),
    ensures
        digits_value(t.subrange(0, k)) <= digits_value(t),
    decreases t.len(),
{
    if k < t.len() {
        let p = t.drop_last();
        assert(all_digits(p));
        lemma_prefix_le(p, k);
        assert(p.subrange(0, k) =~= t.subrange(0, k));
        lemma_digits_nonneg(p);
        assert(is_digit(t[t.len() - 1]));
    } else {
        assert(t.subrange(0, k) =~= t);
    }
}

/// Reads the digits of `s` from `start` to its end as a magnitude no larger
/// than `limit`.
fn parse_magnitude(s: &str, start: usize, limit: u64) -> (r: Option<u64>)
    requires
        start <= s@.len(),
    ensures
        r is Some <==> bounded_value(s@.subrange(start as int, s@.len() as int), limit as int) is Some,
        r is Some ==> r->0 <= limit && r->0 as int == bounded_value(
            s@.subrange(start as int, s@.len() as int),
            limit as int,
        )->0,
{
    let n = s.unicode_len();
    let ghost t = s@.subrange(start as int, n as int);
    if start == n {
        return None;
    }
    let mut i: usize = start;
    let mut acc: u64 = 0;
    while i < n
        invariant
            start <= i <= n,
            n == s@.len(),
            t == s@.subrange(start as int, n as int),
            all_digits(s@.subrange(start as int, i as int)),
            acc as int == digits_value(s@.subrange(start as int, i as int)),
            acc <= limit,
        decreases n - i,
    {
        let c = s.get_char(i);
        let ghost done = s@.subrange(start as int, i as int);
        let ghost next = s@.subrange(start as int, i + 1);
        assert(next.drop_last() =~= done);
        assert(next.last() == c);
        if !('0' <= c && c <= '9') {
            assert(t[i - start] == c);
            return None;
        }
        let d: u64 = (c as u64) - ('0' as u64);
        let wide: u128 = (acc as u128) * 10 + (d as u128);
        if wide > limit as u128 {
            proof {
                assert(all_digits(next));
                if all_digits(t) {
                    lemma_prefix_le(t, i + 1 - start);
                    assert(t.subrange(0, i + 1 - start) =~= next);
                }
            }
            return None;
        }
        acc = wide as u64;
        i = i + 1;
        assert(all_digits(next));
    }
    assert(s@.subrange(start as int, i as int) =~= t);
    Some(acc)
}

/// Reads `s` as an `i32` in decimal, with an optional sign.
pub fn parse_i32(s: &str) -> (r: Option<i32>)
    ensures
        r == i32_value(s@),
{
    let n = s.unicode_len();
    if n > 0 && s.get_char(0) == '-' {
        let m = parse_magnitude(s, 1, 2147483648);
        assert(s@.subrange(1, s@.len() as int) =~= s@.drop_first());
        assert(s@[0] == '-');
        match m {
            Some(v) => Some((0 - (v as i64)) as i32),
            None => None,
        }
    } else {
        let start: usize = if n > 0 && s.get_char(0) == '+' {
            1
        } else {
            0
        };
        let m = parse_magnitude(s, start, 2147483647);
        if n > 0 {
            assert(s@.subrange(1, s@.len() as int) =~= s@.drop_first());
        }
        assert(s@.subrange(0, s@.len() as int) =~= s@);
        match m {
            Some(v) => Some(v as i32),
            None => None,
        }
    }
}

/// Reads `s` as a `u64` in decimal, with an optional `+`.
pub fn parse_u64(s: &str) -> (r: Option<u64>)
    ensures
        r == u64_value(s@),
{
    let n = s.unicode_len();
    let start: usize = if n > 0 && s.get_char(0) == '+' {
        1
    } else {
        0
    };
    let m = parse_magnitude(s, start, 18446744073709551615);
    if n > 0 {
        assert(s@.subrange(1, s@.len() as int) =~= s@.drop_first());
    }
    assert(s@.subrange(0, s@.len() as int) =~= s@);
    m
}

} // verus!
