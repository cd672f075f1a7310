//! Signed integers: the module of the signed kind and its methods.

use vstd::prelude::*;
use vstd::string::StringSliceAdditionalSpecFns;
use vstd::std_specs::bits::{u32_leading_zeros, u32_trailing_zeros, u64_leading_zeros, u64_trailing_zeros};
use core::cmp::Ordering;
use crate::module::{
    IntegerKind, Module, ParseError, all_digits, digits_from, digits_value, magnitude, ordering,
};
use crate::number::{Width, max_signed, min_signed, signed_in_range};

verus! {

/// The signed number that the text `s` writes at width `w`: an optional
/// `+` or `-` followed by one or more decimal digits, within range.
pub open spec fn parse_signed(w: Width, s: Seq<u8>) -> Result<int, ParseError> {
    if s.len() == 0 {
        Err(ParseError::Empty)
    } else {
        let start: int = if s[0] == 45u8 || s[0] == 43u8 { 1 } else { 0 };
        let digits = s.subrange(start, s.len() as int);
        if digits.len() == 0 || !all_digits(digits) {
            Err(ParseError::InvalidDigit)
        } else if s[0] == 45u8 {
            if -digits_value(digits) < min_signed(w) {
                Err(ParseError::NegOverflow)
            } else {
                Ok(-digits_value(digits))
            }
        } else if digits_value(digits) > max_signed(w) {
            Err(ParseError::PosOverflow)
        } else {
            Ok(digits_value(digits))
        }
    }
}

/// The module of signed integers at width `width`.
pub fn module(width: Width) -> (r: Module)
    ensures
        r == (Module { kind: IntegerKind::Signed, width }),
{
    Module { kind: IntegerKind::Signed, width }
}

/// Parses a signed integer of width `w` from text.
pub fn from_str(w: Width, s: &str) -> (r: Result<i64, ParseError>)
    ensures
        match r {
            Ok(v) => parse_signed(w, s.spec_bytes()) == Ok::<int, ParseError>(v as int),
            Err(e) => parse_signed(w, s.spec_bytes()) == Err::<int, ParseError>(e),
        },
        r matches Ok(v) ==> signed_in_range(w, v as int),
{
    let b = s.as_bytes();
    if b.len() == 0 {
        return Err(ParseError::Empty);
    }
    let negative = b[0] == 45;
    let start: usize = if b[0] == 45 || b[0] == 43 { 1 } else { 0 };
    if !digits_from(b, start) {
        return Err(ParseError::InvalidDigit);
    }
    let limit: u128 = match w {
        Width::W32 => if negative { 0x8000_0000 } else { 0x7fff_ffff },
        Width::W64 => if negative { 0x8000_0000_0000_0000 } else { 0x7fff_ffff_ffff_ffff },
    };
    match magnitude(b, start, limit) {
        None => if negative {
            Err(ParseError::NegOverflow)
        } else {
            Err(ParseError::PosOverflow)
        },
        Some(m) => if negative {
            Ok((0 - m as i128) as i64)
        } else {
            Ok(m as i64)
        },
    }
}

/// Compares two signed integers.
pub fn cmp(a: i64, b: i64) -> (r: Ordering)
    ensures
        r == ordering(a as int, b as int),
{
    if a < b {
        Ordering::Less
    } else if a == b {
        Ordering::Equal
    } else {
        Ordering::Greater
    }
}

/// Number of trailing zero bits in the two's complement of `a` at width `w`.
pub fn trailing_zeros(w: Width, a: i64) -> (r: u32)
    ensures
        r == match w {
            Width::W32 => u32_trailing_zeros(a as u32),
            Width::W64 => u64_trailing_zeros(a as u64),
        },
{
    match w {
        Width::W32 => (a as u32).trailing_zeros(),
        Width::W64 => (a as u64).trailing_zeros(),
    }
}

/// Number of leading zero bits in the two's complement of `a` at width `w`.
pub fn leading_zeros(w: Width, a: i64) -> (r: u32)
    ensures
        r as int == match w {
            Width::W32 => u32_leading_zeros(a as u32) as int,
            Width::W64 => u64_leading_zeros(a as u64),
        },
{
    match w {
        Width::W32 => (a as u32).leading_zeros(),
        Width::W64 => (a as u64).leading_zeros(),
    }
}

} // verus!
