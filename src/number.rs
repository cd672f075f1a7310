//! Shared number configuration.
//!
//! A build runs at a single [`Width`], which fixes the signed, unsigned and
//! float representations together. Values are stored in the 64-bit types
//! below; at the 32-bit width they must lie in the 32-bit ranges.

use vstd::prelude::*;

verus! {

/// Signed integer storage type used by the VM.
pub type SignedType = i64;

/// Unsigned integer storage type used by the VM.
pub type UnsignedType = u64;

/// The numeric width that backs the signed, unsigned and float kinds.
#[derive(Clone, Copy, Debug, PartialEq, Eq, Structural)]
pub enum Width {
    W32,
    W64,
}

/// The width of the default build configuration.
pub const NUMBER_WIDTH: Width = Width::W64;

/// Number of bits of every numeric kind at width `w`.
pub open spec fn bits(w: Width) -> nat {
    match w {
        Width::W32 => 32,
        Width::W64 => 64,
    }
}

pub open spec fn min_signed(w: Width) -> int {
    match w {
        Width::W32 => i32::MIN as int,
        Width::W64 => i64::MIN as int,
    }
}

pub open spec fn max_signed(w: Width) -> int {
    match w {
        Width::W32 => i32::MAX as int,
        Width::W64 => i64::MAX as int,
    }
}

pub open spec fn max_unsigned(w: Width) -> int {
    match w {
        Width::W32 => u32::MAX as int,
        Width::W64 => u64::MAX as int,
    }
}

/// `x` is representable by the signed kind at width `w`.
pub open spec fn signed_in_range(w: Width, x: int) -> bool {
    min_signed(w) <= x <= max_signed(w)
}

/// `x` is representable by the unsigned kind at width `w`.
pub open spec fn unsigned_in_range(w: Width, x: int) -> bool {
    0 <= x <= max_unsigned(w)
}

impl Width {
    /// Number of bits of every numeric kind at this width.
    pub fn bits(self) -> (r: u32)
        ensures
            r as nat == bits(self),
    {
        match self {
            Width::W32 => 32,
            Width::W64 => 64,
        }
    }
}

} // verus!
