//! Unsigned integers: the module of the unsigned kind and its methods.

use vstd::prelude::*;
use vstd::string::StringSliceAdditionalSpecFns;
use vstd::std_specs::bits::{u32_leading_zeros, u32_trailing_zeros, u64_leading_zeros, u64_trailing_zeros};
use core::cmp::Ordering;
use crate::module::{
    IntegerKind, Module, ParseError, all_digits, digits_from, digits_value, magnitude, ordering,
};
use crate::number::{Width, max_unsigned, unsigned_in_range};

verus! {

/// The unsigned number that the text `s` writes at width `w`: an optional
/// `+` followed by one or more decimal digits, within range.
pub open spec fn parse_unsigned(w: Width, s: Seq<u8>) -> Result<int, ParseError> {
    if s.len() == 0 {
        Err(ParseError::Empty)
    } else {
        let start: int = if s[0] == 43u8 { 1 } else { 0 };
        let digits = s.subrange(start, s.len() as int);
        if digits.len() == 0 || !all_digits(digits) {
            Err(ParseError::InvalidDigit)
        } else if digits_value(digits) > max_unsigned(w) {
            Err(ParseError::PosOverflow)
        } else {
            Ok(digits_value(digits))
        }
    }
}

/// The module of unsigned integers at width `width`.
pub fn module(width: Width) -> (r: Module)
    ensures
        r == (Module { kind: IntegerKind::Unsigned, width }),
{
    Module { kind: IntegerKind::Unsigned, width }
}

/// Parses an unsigned integer of width `w` from text.
pub fn from_str(w: Width, s: &str) -> (r: Result<u64, ParseError>)
    ensures
        match r {
            Ok(v) => parse_unsigned(w, s.spec_bytes()) == Ok::<int, ParseError>(v as int),
            Err(e) => parse_unsigned(w, s.spec_bytes()) == Err::<int, ParseError>(e),
        },
        r matches Ok(v) ==> unsigned_in_range(w, v as int),
{
    let b = s.as_bytes();
    if b.len() == 0 {
        return Err(ParseError::Empty);
    }
    let start: usize = if b[0] == 43 { 1 } else { 0 };
    if !digits_from(b, start) {
        return Err(ParseError::InvalidDigit);
    }
    let limit: u128 = match w {
        Width::W32 => 0xffff_ffff,
        Width::W64 => 0xffff_ffff_ffff_ffff,
    };
    match magnitude(b, start, limit) {
        None => Err(ParseError::PosOverflow),
        Some(m) => Ok(m as u64),
    }
}

/// Compares two unsigned integers.
pub fn cmp(a: u64, b: u64) -> (r: Ordering)
    ensures
        r == ordering(a as int, b as int),
{
    if a < b {
        Ordering::Less
    } else if a == b {
        Ordering::Equal
    } else {
        Ordering::Greater
    }
}

/// Number of trailing zero bits of `a` at width `w`.
pub fn trailing_zeros(w: Width, a: u64) -> (r: u32)
    requires
        unsigned_in_range(w, a as int),
    ensures
        r == match w {
            Width::W32 => u32_trailing_zeros(a as u32),
            Width::W64 => u64_trailing_zeros(a),
        },
{
    match w {
        Width::W32 => (a as u32).trailing_zeros(),
        Width::W64 => a.trailing_zeros(),
    }
}

/// Number of leading zero bits of `a` at width `w`.
pub fn leading_zeros(w: Width, a: u64) -> (r: u32)
    requires
        unsigned_in_range(w, a as int),
    ensures
        r as int == match w {
            Width::W32 => u32_leading_zeros(a as u32) as int,
            Width::W64 => u64_leading_zeros(a),
        },
{
    match w {
        Width::W32 => (a as u32).leading_zeros(),
        Width::W64 => a.leading_zeros(),
    }
}

} // verus!
