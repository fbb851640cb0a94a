//! Decimal numbers and separators in the names of snapshot files.

use vstd::prelude::*;
use vstd::slice::slice_subrange;

verus! {

pub open spec fn is_digit(b: u8) -> bool {
    0x30 <= b <= 0x39
}

pub open spec fn all_digits(s: Seq<u8>) -> bool {
    forall|i: int| 0 <= i < s.len() ==> is_digit(#[trigger] s[i])
}

/// The number that a string of decimal digits denotes, most significant first.
pub open spec fn digits_value(s: Seq<u8>) -> nat
    decreases s.len(),
{
    if s.len() == 0 {
        0
    } else {
        digits_value(s.drop_last()) * 10 + (s.last() - 0x30) as nat
    }
}

/// The value of an unsigned 64-bit decimal: an optional `+`, then one or more
/// digits whose value fits in 64 bits. Anything else denotes no number.
pub open spec fn decimal_u64(s: Seq<u8>) -> Option<u64> {
    let digits = if s.len() > 0 && s[0] == 0x2b {
        s.drop_first()
    } else {
        s
    };
    if digits.len() > 0 && all_digits(digits) && digits_value(digits) <= u64::MAX {
        Some(digits_value(digits) as u64)
    } else {
        None
    }
}

/// The index of the first `b` in `s`, or the length of `s` if it has none.
pub open spec fn first_index_of(s: Seq<u8>, b: u8) -> int
    decreases s.len(),
{
    if s.len() == 0 || s[0] == b {
        0
    } else {
        1 + first_index_of(s.drop_first(), b)
    }
}

/// The index behind the last `b` in `s`, or 0 if it has none.
pub open spec fn after_last(s: Seq<u8>, b: u8) -> int
    decreases s.len(),
{
    if s.len() == 0 || s.last() == b {
        s.len() as int
    } else {
        after_last(s.drop_last(), b)
    }
}

pub proof fn lemma_first_index_of(s: Seq<u8>, b: u8)
    ensures
        0 <= first_index_of(s, b) <= s.len(),
        forall|i: int| 0 <= i < first_index_of(s, b) ==> s[i] != b,
        first_index_of(s, b) < s.len() ==> s[first_index_of(s, b)] == b,
    decreases s.len(),
{
    if s.len() != 0 && s[0] != b {
        let rest = s.drop_first();
        lemma_first_index_of(rest, b);
        assert forall|i: int| 0 <= i < first_index_of(s, b) implies s[i] != b by {
            if i > 0 {
                assert(s[i] == rest[i - 1]);
            }
        }
        if first_index_of(s, b) < s.len() {
            assert(s[first_index_of(s, b)] == rest[first_index_of(rest, b)]);
        }
    }
}

pub proof fn lemma_after_last(s: Seq<u8>, b: u8)
    ensures
        0 <= after_last(s, b) <= s.len(),
        forall|i: int| after_last(s, b) <= i < s.len() ==> s[i] != b,
        after_last(s, b) > 0 ==> s[after_last(s, b) - 1] == b,
    decreases s.len(),
{
    if s.len() != 0 && s.last() != b {
        let front = s.drop_last();
        lemma_after_last(front, b);
        assert forall|i: int| after_last(s, b) <= i < s.len() implies s[i] != b by {
            if i < front.len() {
                assert(s[i] == front[i]);
            }
        }
        if after_last(s, b) > 0 {
            assert(s[after_last(s, b) - 1] == front[after_last(front, b) - 1]);
        }
    }
}

/// The value of a prefix of a digit string is at most the value of the whole.
pub proof fn lemma_digits_prefix(s: Seq<u8>, n: int)
    requires
        all_digits(s),
        0 <= n <= s.len(),
    ensures
        digits_value(s.take(n)) <= digits_value(s),
    decreases s.len(),
{
    if n == s.len() {
        assert(s.take(n) =~= s);
    } else {
        let front = s.drop_last();
        assert(all_digits(front)) by {
            assert forall|i: int| 0 <= i < front.len() implies is_digit(#[trigger] front[i]) by {
                assert(front[i] == s[i]);
            }
        }
        lemma_digits_prefix(front, n);
        assert(front.take(n) =~= s.take(n));
        assert(is_digit(s[s.len() - 1]));
    }
}

/// Reads an unsigned 64-bit decimal.
pub fn parse_u64(s: &[u8]) -> (r: Option<u64>)
    ensures
        r == decimal_u64(s@),
{
    let start: usize = if s.len() > 0 && s[0] == 0x2b {
        1
    } else {
        0
    };
    let digits = slice_subrange(s, start, s.len());
    assert(digits@ == if s@.len() > 0 && s@[0] == 0x2b {
        s@.drop_first()
    } else {
        s@
    });
    if digits.len() == 0 {
        return None;
    }
    let mut value: u64 = 0;
    let mut i: usize = 0;
    while i < digits.len()
        invariant
            i <= digits@.len(),
            digits@.len() > 0,
            decimal_u64(s@) == (if all_digits(digits@) && digits_value(digits@) <= u64::MAX {
                Some(digits_value(digits@) as u64)
            } else {
                None
            }),
            all_digits(digits@.take(i as int)),
            value == digits_value(digits@.take(i as int)),
        decreases digits@.len() - i,
    {
        let b = digits[i];
        let ghost next = digits@.take(i + 1);
        assert(next.drop_last() =~= digits@.take(i as int));
        assert(next.last() == b);
        if b < 0x30 || b > 0x39 {
            assert(!is_digit(digits@[i as int]));
            return None;
        }
        let d: u64 = (b - 0x30) as u64;
        if value > (u64::MAX - d) / 10 {
            proof {
                if all_digits(digits@) {
                    lemma_digits_prefix(digits@, i + 1);
                }
            }
            return None;
        }
        value = value * 10 + d;
        assert(all_digits(next)) by {
            assert forall|j: int| 0 <= j < next.len() implies is_digit(#[trigger] next[j]) by {
                if j < i {
                    assert(next[j] == digits@.take(i as int)[j]);
                }
            }
        }
        i += 1;
    }
    assert(digits@.take(i as int) =~= digits@);
    Some(value)
}

/// Finds the first `b` in `s`.
pub fn find_first(s: &[u8], b: u8) -> (at: usize)
    ensures
        at == first_index_of(s@, b),
{
    let mut i: usize = 0;
    assert(s@.skip(0) =~= s@);
    while i < s.len() && s[i] != b
        invariant
            i <= s@.len(),
            first_index_of(s@, b) == i + first_index_of(s@.skip(i as int), b),
        decreases s@.len() - i,
    {
        assert(s@.skip(i as int).drop_first() =~= s@.skip(i + 1));
        i += 1;
    }
    i
}

/// Finds the position behind the last `b` in `s`.
pub fn find_after_last(s: &[u8], b: u8) -> (at: usize)
    ensures
        at == after_last(s@, b),
{
    let mut i: usize = s.len();
    assert(s@.take(i as int) =~= s@);
    while i > 0 && s[i - 1] != b
        invariant
            i <= s@.len(),
            after_last(s@, b) == after_last(s@.take(i as int), b),
        decreases i,
    {
        assert(s@.take(i as int).drop_last() =~= s@.take(i - 1));
        i -= 1;
    }
    i
}

} // verus!
