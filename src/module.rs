//! The integer method surface that scripts see: a module per integer kind
//! and width, text-to-number construction, ordering and bit utilities.

use vstd::prelude::*;
use core::cmp::Ordering;
use crate::number::Width;

verus! {

/// The integer kind that a module serves.
#[derive(Clone, Copy, Debug, PartialEq, Eq, Structural)]
pub enum IntegerKind {
    Signed,
    Unsigned,
}

/// A registered integer module: the same method surface is offered for each
/// kind at each width.
#[derive(Clone, Copy, Debug, PartialEq, Eq, Structural)]
pub struct Module {
    pub kind: IntegerKind,
    pub width: Width,
}

/// Why text is not a number of the wanted type.
#[derive(Clone, Copy, Debug, PartialEq, Eq, Structural)]
pub enum ParseError {
    /// The text is empty.
    Empty,
    /// A sign with no digits, or a character that is not a decimal digit.
    InvalidDigit,
    /// The number is above the largest value of the type.
    PosOverflow,
    /// The number is below the smallest value of the type.
    NegOverflow,
}

/// Ordering of two numbers.
pub open spec fn ordering(a: int, b: int) -> Ordering {
    if a < b {
        Ordering::Less
    } else if a == b {
        Ordering::Equal
    } else {
        Ordering::Greater
    }
}

pub open spec fn is_digit(c: u8) -> bool {
    48 <= c <= 57
}

pub open spec fn all_digits(s: Seq<u8>) -> bool {
    forall|i: int| 0 <= i < s.len() ==> is_digit(#[trigger] s[i])
}

/// The number that a string of decimal digits writes.
pub open spec fn digits_value(s: Seq<u8>) -> int
    decreases s.len(),
{
    if s.len() == 0 {
        0
    } else {
        digits_value(s.drop_last()) * 10 + (s.last() - 48)
    }
}

proof fn lemma_digits_value_nonneg(s: Seq<u8>)
    requires
        all_digits(s),
    ensures
        digits_value(s) >= 0,
    decreases s.len(),
{
    if s.len() > 0 {
        lemma_digits_value_nonneg(s.drop_last());
    }
}

/// A prefix of a digit string writes no larger a number than the whole.
proof fn lemma_prefix_value_le(s: Seq<u8>, j: int)
    requires
        all_digits(s),
        0 <= j <= s.len(),
    ensures
        digits_value(s.subrange(0, j)) <= digits_value(s),
    decreases s.len(),
{
    if j < s.len() {
        let t = s.drop_last();
        assert(t.subrange(0, j) =~= s.subrange(0, j));
        lemma_prefix_value_le(t, j);
        lemma_digits_value_nonneg(t);
    } else {
        assert(s.subrange(0, j) =~= s);
    }
}

/// Whether `b[start..]` is a non-empty run of decimal digits.
pub fn digits_from(b: &[u8], start: usize) -> (r: bool)
    requires
        start <= b@.len(),
    ensures
        r == (start < b@.len() && all_digits(b@.subrange(start as int, b@.len() as int))),
{
    let mut i = start;
    while i < b.len()
        invariant
            start <= i <= b@.len(),
            all_digits(b@.subrange(start as int, i as int)),
        decreases b@.len() - i,
    {
        if b[i] < 48 || b[i] > 57 {
            assert(b@.subrange(start as int, b@.len() as int)[i - start] == b@[i as int]);
            return false;
        }
        assert forall|k: int| 0 <= k < i + 1 - start implies is_digit(
            #[trigger] b@.subrange(start as int, i + 1)[k],
        ) by {
            if k < i - start {
                assert(b@.subrange(start as int, i + 1)[k] == b@.subrange(start as int, i as int)[k]);
            }
        }
        i = i + 1;
    }
    start < b.len()
}

/// The number that the digits `b[start..]` write, if it is at most `limit`.
pub fn magnitude(b: &[u8], start: usize, limit: u128) -> (r: Option<u128>)
    requires
        start <= b@.len(),
        all_digits(b@.subrange(start as int, b@.len() as int)),
        limit <= u64::MAX as u128 + 1,
    ensures
        match r {
            Some(v) => v == digits_value(b@.subrange(start as int, b@.len() as int)) && v <= limit,
            None => digits_value(b@.subrange(start as int, b@.len() as int)) > limit,
        },
{
    let ghost digits = b@.subrange(start as int, b@.len() as int);
    let mut acc: u128 = 0;
    let mut i = start;
    assert(b@.subrange(start as int, start as int) =~= Seq::<u8>::empty());
    while i < b.len()
        invariant
            start <= i <= b@.len(),
            digits == b@.subrange(start as int, b@.len() as int),
            all_digits(digits),
            acc == digits_value(b@.subrange(start as int, i as int)),
            acc <= limit,
            limit <= u64::MAX as u128 + 1,
        decreases b@.len() - i,
    {
        assert(digits[i - start] == b@[i as int]);
        let d = (b[i] - 48) as u128;
        let next = acc * 10 + d;
        assert(b@.subrange(start as int, i + 1).drop_last() =~= b@.subrange(start as int, i as int));
        assert(digits.subrange(0, i + 1 - start) =~= b@.subrange(start as int, i + 1));
        if next > limit {
            proof {
                lemma_prefix_value_le(digits, i + 1 - start);
            }
            return None;
        }
        acc = next;
        i = i + 1;
    }
    assert(b@.subrange(start as int, i as int) =~= digits);
    Some(acc)
}

} // verus!
