//! Instruction tags, operator identities and the immutable operation
//! descriptors, together with the checked native operations they select.

use vstd::prelude::*;
use crate::number::{Width, bits, signed_in_range, unsigned_in_range};

verus! {

/// An arithmetic instruction.
#[derive(Clone, Copy, Debug, PartialEq, Eq, Structural)]
pub enum InstArithmeticOp {
    Add,
    Sub,
    Mul,
    Div,
    Rem,
}

/// A bitwise instruction.
#[derive(Clone, Copy, Debug, PartialEq, Eq, Structural)]
pub enum InstBitwiseOp {
    BitAnd,
    BitXor,
    BitOr,
}

/// A shift instruction.
#[derive(Clone, Copy, Debug, PartialEq, Eq, Structural)]
pub enum InstShiftOp {
    Shl,
    Shr,
}

/// Operator identity: an operation paired with its plain or assign form,
/// used to look up a user type's overload.
#[derive(Clone, Copy, Debug, PartialEq, Eq, Structural)]
pub enum Protocol {
    Add,
    AddAssign,
    Sub,
    SubAssign,
    Mul,
    MulAssign,
    Div,
    DivAssign,
    Rem,
    RemAssign,
    BitAnd,
    BitAndAssign,
    BitXor,
    BitXorAssign,
    BitOr,
    BitOrAssign,
    Shl,
    ShlAssign,
    Shr,
    ShrAssign,
}

/// The concrete type of an operand, as reported in errors and used as the
/// key of overload lookup. `Any` carries the hash of a non-numeric type.
#[derive(Clone, Copy, Debug, PartialEq, Eq, Structural)]
pub enum TypeInfo {
    Signed,
    Unsigned,
    Float,
    Bool,
    Any(u64),
}

/// Failures of the numeric core.
#[derive(Clone, Copy, Debug, PartialEq, Eq, Structural)]
pub enum VmErrorKind {
    Overflow,
    Underflow,
    DivideByZero,
    UnsupportedBinaryOperation { op: Protocol, lhs: TypeInfo, rhs: TypeInfo },
}

pub open spec fn abs(x: int) -> int {
    if x < 0 { -x } else { x }
}

/// Division truncating toward zero.
pub open spec fn trunc_div(a: int, b: int) -> int {
    let q = abs(a) / abs(b);
    if (a < 0) == (b < 0) { q } else { -q }
}

/// Remainder of truncating division: it takes the sign of the dividend.
pub open spec fn trunc_rem(a: int, b: int) -> int {
    let r = abs(a) % abs(b);
    if a < 0 { -r } else { r }
}

/// The mathematical result of an arithmetic operation on integers, or `None`
/// where it has none (a zero divisor).
pub open spec fn exact_signed(op: InstArithmeticOp, a: int, b: int) -> Option<int> {
    match op {
        InstArithmeticOp::Add => Some(a + b),
        InstArithmeticOp::Sub => Some(a - b),
        InstArithmeticOp::Mul => Some(a * b),
        InstArithmeticOp::Div => if b == 0 { None } else { Some(trunc_div(a, b)) },
        InstArithmeticOp::Rem => if b == 0 { None } else { Some(trunc_rem(a, b)) },
    }
}

/// Checked signed arithmetic at width `w`: the exact result where it is
/// representable, else `None`.
pub open spec fn checked_signed(op: InstArithmeticOp, w: Width, a: int, b: int) -> Option<int> {
    let r = exact_signed(op, a, b);
    if r is Some && signed_in_range(w, r->0) {
        r
    } else {
        None
    }
}

/// Checked unsigned arithmetic at width `w`: the exact result where it is
/// representable, else `None`.
pub open spec fn checked_unsigned(op: InstArithmeticOp, w: Width, a: int, b: int) -> Option<int> {
    let r = exact_signed(op, a, b);
    if r is Some && unsigned_in_range(w, r->0) {
        r
    } else {
        None
    }
}

pub open spec fn lift_signed(r: Option<i64>) -> Option<int> {
    match r {
        Some(x) => Some(x as int),
        None => None,
    }
}

pub open spec fn lift_unsigned(r: Option<u64>) -> Option<int> {
    match r {
        Some(x) => Some(x as int),
        None => None,
    }
}

/// Checked shift of a signed value: `None` where the count is not below the
/// bit width, else the native shift of the width's type.
pub open spec fn shift_signed(op: InstShiftOp, w: Width, a: i64, c: int) -> Option<i64> {
    if c < 0 || c >= bits(w) {
        None
    } else {
        match op {
            InstShiftOp::Shl => match w {
                Width::W32 => Some(((a as i32) << (c as u32)) as i64),
                Width::W64 => Some(a << (c as u32)),
            },
            InstShiftOp::Shr => Some(a >> (c as u32)),
        }
    }
}

/// Checked shift of an unsigned value: `None` where the count is not below
/// the bit width, else the native shift of the width's type.
pub open spec fn shift_unsigned(op: InstShiftOp, w: Width, a: u64, c: int) -> Option<u64> {
    if c < 0 || c >= bits(w) {
        None
    } else {
        match op {
            InstShiftOp::Shl => match w {
                Width::W32 => Some(((a as u32) << (c as u32)) as u64),
                Width::W64 => Some(a << (c as u32)),
            },
            InstShiftOp::Shr => Some(a >> (c as u32)),
        }
    }
}

/// Bitwise operation on integers: it never fails.
pub open spec fn bitwise_signed(op: InstBitwiseOp, a: i64, b: i64) -> i64 {
    match op {
        InstBitwiseOp::BitAnd => a & b,
        InstBitwiseOp::BitXor => a ^ b,
        InstBitwiseOp::BitOr => a | b,
    }
}

pub open spec fn bitwise_unsigned(op: InstBitwiseOp, a: u64, b: u64) -> u64 {
    match op {
        InstBitwiseOp::BitAnd => a & b,
        InstBitwiseOp::BitXor => a ^ b,
        InstBitwiseOp::BitOr => a | b,
    }
}

pub open spec fn bitwise_bool(op: InstBitwiseOp, a: bool, b: bool) -> bool {
    match op {
        InstBitwiseOp::BitAnd => a && b,
        InstBitwiseOp::BitXor => a != b,
        InstBitwiseOp::BitOr => a || b,
    }
}

/// Checked signed arithmetic at width `w`, on the native type of the width.
/// A remainder by -1 is 0 for every dividend, the smallest one included.
pub fn signed_arith(op: InstArithmeticOp, w: Width, a: i64, b: i64) -> (r: Option<i64>)
    requires
        signed_in_range(w, a as int),
        signed_in_range(w, b as int),
    ensures
        lift_signed(r) == checked_signed(op, w, a as int, b as int),
{
    match w {
        Width::W64 => match op {
            InstArithmeticOp::Add => a.checked_add(b),
            InstArithmeticOp::Sub => a.checked_sub(b),
            InstArithmeticOp::Mul => a.checked_mul(b),
            InstArithmeticOp::Div => a.checked_div(b),
            InstArithmeticOp::Rem => if b == -1 {
                Some(0)
            } else {
                a.checked_rem(b)
            },
        },
        Width::W32 => {
            let x = a as i32;
            let y = b as i32;
            let r = match op {
                InstArithmeticOp::Add => x.checked_add(y),
                InstArithmeticOp::Sub => x.checked_sub(y),
                InstArithmeticOp::Mul => x.checked_mul(y),
                InstArithmeticOp::Div => x.checked_div(y),
                InstArithmeticOp::Rem => if y == -1 {
                    Some(0)
                } else {
                    x.checked_rem(y)
                },
            };
            match r {
                Some(v) => Some(v as i64),
                None => None,
            }
        },
    }
}

/// Checked unsigned arithmetic at width `w`, on the native type of the width.
pub fn unsigned_arith(op: InstArithmeticOp, w: Width, a: u64, b: u64) -> (r: Option<u64>)
    requires
        unsigned_in_range(w, a as int),
        unsigned_in_range(w, b as int),
    ensures
        lift_unsigned(r) == checked_unsigned(op, w, a as int, b as int),
{
    match w {
        Width::W64 => match op {
            InstArithmeticOp::Add => a.checked_add(b),
            InstArithmeticOp::Sub => a.checked_sub(b),
            InstArithmeticOp::Mul => a.checked_mul(b),
            InstArithmeticOp::Div => a.checked_div(b),
            InstArithmeticOp::Rem => a.checked_rem(b),
        },
        Width::W32 => {
            let x = a as u32;
            let y = b as u32;
            let r = match op {
                InstArithmeticOp::Add => x.checked_add(y),
                InstArithmeticOp::Sub => x.checked_sub(y),
                InstArithmeticOp::Mul => x.checked_mul(y),
                InstArithmeticOp::Div => x.checked_div(y),
                InstArithmeticOp::Rem => x.checked_rem(y),
            };
            match r {
                Some(v) => Some(v as u64),
                None => None,
            }
        },
    }
}

/// Checked shift of a signed value by `count` at width `w`.
pub fn signed_shift(op: InstShiftOp, w: Width, a: i64, count: u32) -> (r: Option<i64>)
    requires
        signed_in_range(w, a as int),
    ensures
        r == shift_signed(op, w, a, count as int),
        r matches Some(v) ==> signed_in_range(w, v as int),
{
    if count >= w.bits() {
        return None;
    }
    match op {
        InstShiftOp::Shl => match w {
            Width::W32 => Some(((a as i32) << count) as i64),
            Width::W64 => Some(a << count),
        },
        InstShiftOp::Shr => {
            let v = a >> count;
            proof {
                if w == Width::W32 {
                    assert(-0x8000_0000i64 <= a && a <= 0x7fff_ffffi64 && count < 32 ==> -0x8000_0000i64
                        <= (a >> count) && (a >> count) <= 0x7fff_ffffi64) by (bit_vector);
                }
            }
            Some(v)
        },
    }
}

/// Checked shift of an unsigned value by `count` at width `w`.
pub fn unsigned_shift(op: InstShiftOp, w: Width, a: u64, count: u32) -> (r: Option<u64>)
    requires
        unsigned_in_range(w, a as int),
    ensures
        r == shift_unsigned(op, w, a, count as int),
        r matches Some(v) ==> unsigned_in_range(w, v as int),
{
    if count >= w.bits() {
        return None;
    }
    match op {
        InstShiftOp::Shl => match w {
            Width::W32 => Some(((a as u32) << count) as u64),
            Width::W64 => Some(a << count),
        },
        InstShiftOp::Shr => {
            let v = a >> count;
            proof {
                assert(v <= a) by (bit_vector)
                    requires
                        v == a >> count,
                ;
            }
            Some(v)
        },
    }
}

/// Bitwise operation on signed values; it never fails.
pub fn signed_bitwise(op: InstBitwiseOp, w: Width, a: i64, b: i64) -> (r: i64)
    requires
        signed_in_range(w, a as int),
        signed_in_range(w, b as int),
    ensures
        r == bitwise_signed(op, a, b),
        signed_in_range(w, r as int),
{
    let r = match op {
        InstBitwiseOp::BitAnd => a & b,
        InstBitwiseOp::BitXor => a ^ b,
        InstBitwiseOp::BitOr => a | b,
    };
    proof {
        if w == Width::W32 {
            assert(-0x8000_0000i64 <= a && a <= 0x7fff_ffffi64 && -0x8000_0000i64 <= b && b
                <= 0x7fff_ffffi64 ==> -0x8000_0000i64 <= (a & b) && (a & b) <= 0x7fff_ffffi64
                && -0x8000_0000i64 <= (a ^ b) && (a ^ b) <= 0x7fff_ffffi64 && -0x8000_0000i64
                <= (a | b) && (a | b) <= 0x7fff_ffffi64) by (bit_vector);
        }
    }
    r
}

/// Bitwise operation on unsigned values; it never fails.
pub fn unsigned_bitwise(op: InstBitwiseOp, w: Width, a: u64, b: u64) -> (r: u64)
    requires
        unsigned_in_range(w, a as int),
        unsigned_in_range(w, b as int),
    ensures
        r == bitwise_unsigned(op, a, b),
        unsigned_in_range(w, r as int),
{
    let r = match op {
        InstBitwiseOp::BitAnd => a & b,
        InstBitwiseOp::BitXor => a ^ b,
        InstBitwiseOp::BitOr => a | b,
    };
    proof {
        if w == Width::W32 {
            assert(a <= 0xffff_ffffu64 && b <= 0xffff_ffffu64 ==> (a & b) <= 0xffff_ffffu64 && (a
                ^ b) <= 0xffff_ffffu64 && (a | b) <= 0xffff_ffffu64) by (bit_vector);
        }
    }
    r
}

/// Bitwise operation on booleans; it never fails.
pub fn bool_bitwise(op: InstBitwiseOp, a: bool, b: bool) -> (r: bool)
    ensures
        r == bitwise_bool(op, a, b),
{
    match op {
        InstBitwiseOp::BitAnd => a && b,
        InstBitwiseOp::BitXor => a != b,
        InstBitwiseOp::BitOr => a || b,
    }
}

/// Operator identity of an arithmetic instruction, in its plain or assign form.
pub open spec fn arithmetic_protocol(op: InstArithmeticOp, assign: bool) -> Protocol {
    match op {
        InstArithmeticOp::Add => if assign { Protocol::AddAssign } else { Protocol::Add },
        InstArithmeticOp::Sub => if assign { Protocol::SubAssign } else { Protocol::Sub },
        InstArithmeticOp::Mul => if assign { Protocol::MulAssign } else { Protocol::Mul },
        InstArithmeticOp::Div => if assign { Protocol::DivAssign } else { Protocol::Div },
        InstArithmeticOp::Rem => if assign { Protocol::RemAssign } else { Protocol::Rem },
    }
}

/// The failure that a checked arithmetic instruction reports.
pub open spec fn arithmetic_error(op: InstArithmeticOp) -> VmErrorKind {
    match op {
        InstArithmeticOp::Add => VmErrorKind::Overflow,
        InstArithmeticOp::Sub => VmErrorKind::Underflow,
        InstArithmeticOp::Mul => VmErrorKind::Overflow,
        InstArithmeticOp::Div => VmErrorKind::DivideByZero,
        InstArithmeticOp::Rem => VmErrorKind::DivideByZero,
    }
}

/// Operator identity of a bitwise instruction, in its plain or assign form.
pub open spec fn bitwise_protocol(op: InstBitwiseOp, assign: bool) -> Protocol {
    match op {
        InstBitwiseOp::BitAnd => if assign { Protocol::BitAndAssign } else { Protocol::BitAnd },
        InstBitwiseOp::BitXor => if assign { Protocol::BitXorAssign } else { Protocol::BitXor },
        InstBitwiseOp::BitOr => if assign { Protocol::BitOrAssign } else { Protocol::BitOr },
    }
}

/// Operator identity of a shift instruction, in its plain or assign form.
pub open spec fn shift_protocol(op: InstShiftOp, assign: bool) -> Protocol {
    match op {
        InstShiftOp::Shl => if assign { Protocol::ShlAssign } else { Protocol::Shl },
        InstShiftOp::Shr => if assign { Protocol::ShrAssign } else { Protocol::Shr },
    }
}

/// The failure that a checked shift instruction reports.
pub open spec fn shift_error(op: InstShiftOp) -> VmErrorKind {
    match op {
        InstShiftOp::Shl => VmErrorKind::Overflow,
        InstShiftOp::Shr => VmErrorKind::Underflow,
    }
}

/// Descriptor of a plain arithmetic instruction.
#[derive(Clone, Copy, Debug, PartialEq, Eq, Structural)]
pub struct ArithmeticOps {
    pub protocol: Protocol,
    pub error: VmErrorKind,
    pub op: InstArithmeticOp,
}

impl ArithmeticOps {
    pub fn from_op(op: InstArithmeticOp) -> (r: Self)
        ensures
            r.protocol == arithmetic_protocol(op, false),
            r.error == arithmetic_error(op),
            r.op == op,
    {
        match op {
            InstArithmeticOp::Add => ArithmeticOps {
                protocol: Protocol::Add,
                error: VmErrorKind::Overflow,
                op,
            },
            InstArithmeticOp::Sub => ArithmeticOps {
                protocol: Protocol::Sub,
                error: VmErrorKind::Underflow,
                op,
            },
            InstArithmeticOp::Mul => ArithmeticOps {
                protocol: Protocol::Mul,
                error: VmErrorKind::Overflow,
                op,
            },
            InstArithmeticOp::Div => ArithmeticOps {
                protocol: Protocol::Div,
                error: VmErrorKind::DivideByZero,
                op,
            },
            InstArithmeticOp::Rem => ArithmeticOps {
                protocol: Protocol::Rem,
                error: VmErrorKind::DivideByZero,
                op,
            },
        }
    }
}

/// Descriptor of an in-place arithmetic instruction.
#[derive(Clone, Copy, Debug, PartialEq, Eq, Structural)]
pub struct AssignArithmeticOps {
    pub protocol: Protocol,
    pub error: VmErrorKind,
    pub op: InstArithmeticOp,
}

impl AssignArithmeticOps {
    pub fn from_op(op: InstArithmeticOp) -> (r: Self)
        ensures
            r.protocol == arithmetic_protocol(op, true),
            r.error == arithmetic_error(op),
            r.op == op,
    {
        match op {
            InstArithmeticOp::Add => AssignArithmeticOps {
                protocol: Protocol::AddAssign,
                error: VmErrorKind::Overflow,
                op,
            },
            InstArithmeticOp::Sub => AssignArithmeticOps {
                protocol: Protocol::SubAssign,
                error: VmErrorKind::Underflow,
                op,
            },
            InstArithmeticOp::Mul => AssignArithmeticOps {
                protocol: Protocol::MulAssign,
                error: VmErrorKind::Overflow,
                op,
            },
            InstArithmeticOp::Div => AssignArithmeticOps {
                protocol: Protocol::DivAssign,
                error: VmErrorKind::DivideByZero,
                op,
            },
            InstArithmeticOp::Rem => AssignArithmeticOps {
                protocol: Protocol::RemAssign,
                error: VmErrorKind::DivideByZero,
                op,
            },
        }
    }
}

/// Descriptor of an in-place bitwise instruction; it has no failure.
#[derive(Clone, Copy, Debug, PartialEq, Eq, Structural)]
pub struct AssignBitwiseOps {
    pub protocol: Protocol,
    pub op: InstBitwiseOp,
}

impl AssignBitwiseOps {
    pub fn from_ops(op: InstBitwiseOp) -> (r: Self)
        ensures
            r.protocol == bitwise_protocol(op, true),
            r.op == op,
    {
        match op {
            InstBitwiseOp::BitAnd => AssignBitwiseOps { protocol: Protocol::BitAndAssign, op },
            InstBitwiseOp::BitXor => AssignBitwiseOps { protocol: Protocol::BitXorAssign, op },
            InstBitwiseOp::BitOr => AssignBitwiseOps { protocol: Protocol::BitOrAssign, op },
        }
    }
}

/// Descriptor of a plain bitwise instruction; it has no failure.
#[derive(Clone, Copy, Debug, PartialEq, Eq, Structural)]
pub struct BitwiseOps {
    pub protocol: Protocol,
    pub op: InstBitwiseOp,
}

impl BitwiseOps {
    pub fn from_op(op: InstBitwiseOp) -> (r: Self)
        ensures
            r.protocol == bitwise_protocol(op, false),
            r.op == op,
    {
        match op {
            InstBitwiseOp::BitAnd => BitwiseOps { protocol: Protocol::BitAnd, op },
            InstBitwiseOp::BitXor => BitwiseOps { protocol: Protocol::BitXor, op },
            InstBitwiseOp::BitOr => BitwiseOps { protocol: Protocol::BitOr, op },
        }
    }
}

/// Descriptor of an in-place shift instruction.
#[derive(Clone, Copy, Debug, PartialEq, Eq, Structural)]
pub struct AssignShiftOps {
    pub protocol: Protocol,
    pub error: VmErrorKind,
    pub op: InstShiftOp,
}

impl AssignShiftOps {
    pub fn from_op(op: InstShiftOp) -> (r: Self)
        ensures
            r.protocol == shift_protocol(op, true),
            r.error == shift_error(op),
            r.op == op,
    {
        match op {
            InstShiftOp::Shl => AssignShiftOps {
                protocol: Protocol::ShlAssign,
                error: VmErrorKind::Overflow,
                op,
            },
            InstShiftOp::Shr => AssignShiftOps {
                protocol: Protocol::ShrAssign,
                error: VmErrorKind::Underflow,
                op,
            },
        }
    }
}

/// Descriptor of a plain shift instruction.
#[derive(Clone, Copy, Debug, PartialEq, Eq, Structural)]
pub struct ShiftOps {
    pub protocol: Protocol,
    pub error: VmErrorKind,
    pub op: InstShiftOp,
}

impl ShiftOps {
    pub fn from_op(op: InstShiftOp) -> (r: Self)
        ensures
            r.protocol == shift_protocol(op, false),
            r.error == shift_error(op),
            r.op == op,
    {
        match op {
            InstShiftOp::Shl => ShiftOps { protocol: Protocol::Shl, error: VmErrorKind::Overflow, op },
            InstShiftOp::Shr => ShiftOps {
                protocol: Protocol::Shr,
                error: VmErrorKind::Underflow,
                op,
            },
        }
    }
}

} // verus!
