//! Laws of the numeric core, stated over the results that the entry points
//! of the dispatch engine are specified to return.

use vstd::prelude::*;
use vstd::arithmetic::div_mod::{
    lemma_fundamental_div_mod, lemma_fundamental_div_mod_converse, lemma_mod_pos_bound,
};
use vstd::arithmetic::power2::{lemma_pow2_pos, pow2};
use vstd::bits::lemma_u64_shr_is_div;
use crate::dispatch::{Outcome, arithmetic_result, bitwise_result, fallback, shift_result};
use crate::number::{
    Width, bits, max_signed, max_unsigned, min_signed, signed_in_range, unsigned_in_range,
};
use crate::ops::{
    InstArithmeticOp, InstBitwiseOp, InstShiftOp, VmErrorKind, arithmetic_error, arithmetic_protocol,
    bitwise_protocol, exact_signed, shift_error, shift_signed, shift_unsigned,
};
use crate::value::{Overload, Value, has_overload, type_info};

verus! {

/// Native signed arithmetic yields the exact mathematical result whenever
/// that result is representable.
pub proof fn lemma_signed_result_is_exact(
    w: Width,
    op: InstArithmeticOp,
    assign: bool,
    a: i64,
    b: i64,
    reg: Seq<Overload>,
)
    requires
        signed_in_range(w, a as int),
        signed_in_range(w, b as int),
        exact_signed(op, a as int, b as int) is Some,
        signed_in_range(w, exact_signed(op, a as int, b as int)->0),
    ensures
        arithmetic_result(w, op, assign, Value::Signed(a), Value::Signed(b), reg) == Ok::<
            Outcome,
            VmErrorKind,
        >(Outcome::Value(Value::Signed(exact_signed(op, a as int, b as int)->0 as i64))),
{
}

/// Native unsigned arithmetic yields the exact mathematical result whenever
/// that result is representable.
pub proof fn lemma_unsigned_result_is_exact(
    w: Width,
    op: InstArithmeticOp,
    assign: bool,
    a: u64,
    b: u64,
    reg: Seq<Overload>,
)
    requires
        unsigned_in_range(w, a as int),
        unsigned_in_range(w, b as int),
        exact_signed(op, a as int, b as int) is Some,
        unsigned_in_range(w, exact_signed(op, a as int, b as int)->0),
    ensures
        arithmetic_result(w, op, assign, Value::Unsigned(a), Value::Unsigned(b), reg) == Ok::<
            Outcome,
            VmErrorKind,
        >(Outcome::Value(Value::Unsigned(exact_signed(op, a as int, b as int)->0 as u64))),
{
}

/// At either width, the largest signed or unsigned value plus one
/// overflows, the smallest value minus one underflows, and a value whose
/// square leaves the range overflows when multiplied by itself.
pub proof fn lemma_boundaries(w: Width, assign: bool, reg: Seq<Overload>)
    ensures
        arithmetic_result(
            w,
            InstArithmeticOp::Add,
            assign,
            Value::Signed(max_signed(w) as i64),
            Value::Signed(1),
            reg,
        ) == Err::<Outcome, VmErrorKind>(VmErrorKind::Overflow),
        arithmetic_result(
            w,
            InstArithmeticOp::Add,
            assign,
            Value::Unsigned(max_unsigned(w) as u64),
            Value::Unsigned(1),
            reg,
        ) == Err::<Outcome, VmErrorKind>(VmErrorKind::Overflow),
        arithmetic_result(
            w,
            InstArithmeticOp::Sub,
            assign,
            Value::Signed(min_signed(w) as i64),
            Value::Signed(1),
            reg,
        ) == Err::<Outcome, VmErrorKind>(VmErrorKind::Underflow),
        arithmetic_result(
            w,
            InstArithmeticOp::Sub,
            assign,
            Value::Unsigned(0),
            Value::Unsigned(1),
            reg,
        ) == Err::<Outcome, VmErrorKind>(VmErrorKind::Underflow),
        forall|x: i64|
            signed_in_range(w, x as int) && !signed_in_range(w, x * x) ==> arithmetic_result(
                w,
                InstArithmeticOp::Mul,
                assign,
                Value::Signed(x),
                Value::Signed(x),
                reg,
            ) == Err::<Outcome, VmErrorKind>(VmErrorKind::Overflow),
        forall|x: u64|
            unsigned_in_range(w, x as int) && !unsigned_in_range(w, x * x) ==> arithmetic_result(
                w,
                InstArithmeticOp::Mul,
                assign,
                Value::Unsigned(x),
                Value::Unsigned(x),
                reg,
            ) == Err::<Outcome, VmErrorKind>(VmErrorKind::Overflow),
{
}

/// Integer division or remainder by zero fails with `DivideByZero`; float
/// division never fails, whatever the divisor.
pub proof fn lemma_divide_by_zero(
    w: Width,
    assign: bool,
    a: i64,
    u: u64,
    x: u64,
    y: u64,
    reg: Seq<Overload>,
)
    ensures
        arithmetic_result(w, InstArithmeticOp::Div, assign, Value::Signed(a), Value::Signed(0), reg)
            == Err::<Outcome, VmErrorKind>(VmErrorKind::DivideByZero),
        arithmetic_result(w, InstArithmeticOp::Rem, assign, Value::Signed(a), Value::Signed(0), reg)
            == Err::<Outcome, VmErrorKind>(VmErrorKind::DivideByZero),
        arithmetic_result(
            w,
            InstArithmeticOp::Div,
            assign,
            Value::Unsigned(u),
            Value::Unsigned(0),
            reg,
        ) == Err::<Outcome, VmErrorKind>(VmErrorKind::DivideByZero),
        arithmetic_result(
            w,
            InstArithmeticOp::Rem,
            assign,
            Value::Unsigned(u),
            Value::Unsigned(0),
            reg,
        ) == Err::<Outcome, VmErrorKind>(VmErrorKind::DivideByZero),
        arithmetic_result(w, InstArithmeticOp::Div, assign, Value::Float(x), Value::Float(y), reg)
            == Ok::<Outcome, VmErrorKind>(
            Outcome::Float { op: InstArithmeticOp::Div, lhs: x, rhs: y },
        ),
{
}

/// A shift by a count at or above the bit width fails (left shift with
/// `Overflow`, right shift with `Underflow`); a count below it gives the
/// native shift of the width's type.
pub proof fn lemma_shift_count(
    w: Width,
    op: InstShiftOp,
    assign: bool,
    lhs: Value,
    c: u64,
    reg: Seq<Overload>,
)
    requires
        lhs is Signed || lhs is Unsigned,
    ensures
        c >= bits(w) ==> shift_result(w, op, assign, lhs, Value::Unsigned(c), reg) == Err::<
            Outcome,
            VmErrorKind,
        >(shift_error(op)),
        shift_error(InstShiftOp::Shl) == VmErrorKind::Overflow,
        shift_error(InstShiftOp::Shr) == VmErrorKind::Underflow,
        c < bits(w) && lhs is Signed ==> shift_result(w, op, assign, lhs, Value::Unsigned(c), reg)
            == Ok::<Outcome, VmErrorKind>(
            Outcome::Value(Value::Signed(shift_signed(op, w, lhs->Signed_0, c as int)->0)),
        ),
        c < bits(w) && lhs is Unsigned ==> shift_result(
            w,
            op,
            assign,
            lhs,
            Value::Unsigned(c),
            reg,
        ) == Ok::<Outcome, VmErrorKind>(
            Outcome::Value(Value::Unsigned(shift_unsigned(op, w, lhs->Unsigned_0, c as int)->0)),
        ),
{
}

/// Bitwise operations on two signed, two unsigned or two boolean operands
/// never fail.
pub proof fn lemma_bitwise_never_fails(
    op: InstBitwiseOp,
    assign: bool,
    lhs: Value,
    rhs: Value,
    reg: Seq<Overload>,
)
    requires
        (lhs is Signed && rhs is Signed) || (lhs is Unsigned && rhs is Unsigned) || (lhs is Bool
            && rhs is Bool),
    ensures
        bitwise_result(op, assign, lhs, rhs, reg) is Ok,
        bitwise_result(op, assign, lhs, rhs, reg)->Ok_0 is Value,
{
}

/// Operands of two different kinds, or of a non-numeric type, have no
/// native path: without a registered overload for the left operand's type
/// the instruction fails as unsupported, naming the operator and both types.
pub proof fn lemma_unsupported_operands(
    w: Width,
    arith: InstArithmeticOp,
    bit: InstBitwiseOp,
    assign: bool,
    lhs: Value,
    rhs: Value,
    reg: Seq<Overload>,
)
    requires
        type_info(lhs) != type_info(rhs) || lhs is Any,
    ensures
        arithmetic_result(w, arith, assign, lhs, rhs, reg) == fallback(
            reg,
            arithmetic_protocol(arith, assign),
            lhs,
            rhs,
        ),
        bitwise_result(bit, assign, lhs, rhs, reg) == fallback(
            reg,
            bitwise_protocol(bit, assign),
            lhs,
            rhs,
        ),
        !has_overload(reg, arithmetic_protocol(arith, assign), type_info(lhs)) ==> arithmetic_result(
            w,
            arith,
            assign,
            lhs,
            rhs,
            reg,
        ) == Err::<Outcome, VmErrorKind>(
            VmErrorKind::UnsupportedBinaryOperation {
                op: arithmetic_protocol(arith, assign),
                lhs: type_info(lhs),
                rhs: type_info(rhs),
            },
        ),
        has_overload(reg, arithmetic_protocol(arith, assign), type_info(lhs)) ==> arithmetic_result(
            w,
            arith,
            assign,
            lhs,
            rhs,
            reg,
        ) == Ok::<Outcome, VmErrorKind>(Outcome::Call(arithmetic_protocol(arith, assign))),
{
}

/// At whichever width the build runs, native integer arithmetic fails
/// exactly when the mathematical result does not exist or lies outside that
/// width's range, and each failure is the operation's own failure kind.
pub proof fn lemma_failure_relative_to_width(
    w: Width,
    op: InstArithmeticOp,
    assign: bool,
    a: i64,
    b: i64,
    u: u64,
    v: u64,
    reg: Seq<Overload>,
)
    ensures
        arithmetic_result(w, op, assign, Value::Signed(a), Value::Signed(b), reg) is Err <==> (
        exact_signed(op, a as int, b as int) is None || !signed_in_range(
            w,
            exact_signed(op, a as int, b as int)->0,
        )),
        arithmetic_result(w, op, assign, Value::Signed(a), Value::Signed(b), reg) is Err
            ==> arithmetic_result(w, op, assign, Value::Signed(a), Value::Signed(b), reg)
            == Err::<Outcome, VmErrorKind>(arithmetic_error(op)),
        arithmetic_result(w, op, assign, Value::Unsigned(u), Value::Unsigned(v), reg) is Err <==> (
        exact_signed(op, u as int, v as int) is None || !unsigned_in_range(
            w,
            exact_signed(op, u as int, v as int)->0,
        )),
        arithmetic_result(w, op, assign, Value::Unsigned(u), Value::Unsigned(v), reg) is Err
            ==> arithmetic_result(w, op, assign, Value::Unsigned(u), Value::Unsigned(v), reg)
            == Err::<Outcome, VmErrorKind>(arithmetic_error(op)),
{
}

/// Arithmetic right shift of a 64-bit signed value is floor division by a
/// power of two.
proof fn lemma_i64_shr_is_floor_div(a: i64, c: u32)
    requires
        c < 64,
    ensures
        (a >> c) as int == a as int / pow2(c as nat) as int,
{
    let d = pow2(c as nat) as int;
    lemma_pow2_pos(c as nat);
    let c64 = c as u64;
    if a >= 0 {
        let m = a as u64;
        assert(a >> c == (m >> c64) as i64) by (bit_vector)
            requires
                a >= 0,
                m == a as u64,
                c64 == c as u64,
                c < 64,
        ;
        lemma_u64_shr_is_div(m, c64);
    } else {
        let n = !a;
        assert(n >= 0 && n == -1 - a) by (bit_vector)
            requires
                a < 0,
                n == !a,
        ;
        let m = n as u64;
        assert(a >> c == !((m >> c64) as i64)) by (bit_vector)
            requires
                a < 0,
                m == (!a) as u64,
                c64 == c as u64,
                c < 64,
        ;
        lemma_u64_shr_is_div(m, c64);
        let q = m as int / d;
        let r = m as int % d;
        lemma_fundamental_div_mod(m as int, d);
        lemma_mod_pos_bound(m as int, d);
        let s = (m >> c64) as i64;
        assert(s as int == q);
        assert(!s == -1 - s) by (bit_vector)
            requires
                s >= 0,
        ;
        assert(a as int == (-q - 1) * d + (d - 1 - r)) by (nonlinear_arith)
            requires
                a as int == -1 - m as int,
                m as int == d * q + r,
        ;
        lemma_fundamental_div_mod_converse(a as int, d, -q - 1, d - 1 - r);
    }
}

/// A right shift by a count below the bit width is floor division by two to
/// the power of the count: sign-extending for signed values, zero-filling
/// for unsigned ones, at either width.
pub proof fn lemma_shr_is_floor_div(w: Width, a: i64, u: u64, c: u32)
    requires
        c < bits(w),
    ensures
        shift_signed(InstShiftOp::Shr, w, a, c as int) is Some,
        shift_signed(InstShiftOp::Shr, w, a, c as int)->0 as int == a as int / pow2(c as nat) as int,
        shift_unsigned(InstShiftOp::Shr, w, u, c as int) is Some,
        shift_unsigned(InstShiftOp::Shr, w, u, c as int)->0 as int == u as int / pow2(c as nat) as int,
{
    lemma_i64_shr_is_floor_div(a, c);
    assert(u >> c == u >> (c as u64)) by (bit_vector);
    lemma_u64_shr_is_div(u, c as u64);
}

} // verus!
