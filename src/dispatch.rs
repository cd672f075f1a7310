//! The dispatch engine: each binary numeric instruction runs its checked
//! native operation when both operands are native values of a supported
//! kind, else the overload that the left operand's type registered, else it
//! fails as unsupported. Exactly one of the three happens.

use vstd::prelude::*;
use crate::number::{Width, bits};
use crate::ops::{
    AssignArithmeticOps, AssignBitwiseOps, AssignShiftOps, ArithmeticOps, BitwiseOps,
    InstArithmeticOp, InstBitwiseOp, InstShiftOp, Protocol, ShiftOps, VmErrorKind,
    arithmetic_error, arithmetic_protocol, bitwise_bool, bitwise_protocol, bitwise_signed,
    bitwise_unsigned, bool_bitwise, checked_signed, checked_unsigned, shift_error, shift_protocol, shift_signed, shift_unsigned, signed_arith,
    signed_bitwise, signed_shift, unsigned_arith, unsigned_bitwise, unsigned_shift,
};
use crate::value::{Overload, Registry, Value, has_overload, type_info, value_wf};

verus! {

/// What an instruction that did not fail leads to.
#[derive(Clone, Copy, Debug, PartialEq, Eq, Structural)]
pub enum Outcome {
    /// The native result (for an assign form, also stored in the left slot).
    Value(Value),
    /// Float arithmetic on the two bit patterns; it never fails and is
    /// carried out by the host, which holds the float type.
    Float { op: InstArithmeticOp, lhs: u64, rhs: u64 },
    /// The left operand's type has an overload for this operator: the host
    /// calls it with both operands and passes its result on unchanged.
    Call(Protocol),
}

/// No native path: the left operand's overload, else an unsupported failure
/// that names the operator and both operand types.
pub open spec fn fallback(
    reg: Seq<Overload>,
    protocol: Protocol,
    lhs: Value,
    rhs: Value,
) -> Result<Outcome, VmErrorKind> {
    if has_overload(reg, protocol, type_info(lhs)) {
        Ok(Outcome::Call(protocol))
    } else {
        Err(
            VmErrorKind::UnsupportedBinaryOperation {
                op: protocol,
                lhs: type_info(lhs),
                rhs: type_info(rhs),
            },
        )
    }
}

/// Result of an arithmetic instruction in its plain (`assign == false`) or
/// assign form.
pub open spec fn arithmetic_result(
    w: Width,
    op: InstArithmeticOp,
    assign: bool,
    lhs: Value,
    rhs: Value,
    reg: Seq<Overload>,
) -> Result<Outcome, VmErrorKind> {
    match (lhs, rhs) {
        (Value::Signed(a), Value::Signed(b)) => match checked_signed(op, w, a as int, b as int) {
            Some(x) => Ok(Outcome::Value(Value::Signed(x as i64))),
            None => Err(arithmetic_error(op)),
        },
        (Value::Unsigned(a), Value::Unsigned(b)) => match checked_unsigned(
            op,
            w,
            a as int,
            b as int,
        ) {
            Some(x) => Ok(Outcome::Value(Value::Unsigned(x as u64))),
            None => Err(arithmetic_error(op)),
        },
        (Value::Float(a), Value::Float(b)) => Ok(Outcome::Float { op, lhs: a, rhs: b }),
        _ => fallback(reg, arithmetic_protocol(op, assign), lhs, rhs),
    }
}

/// Result of a bitwise instruction in its plain or assign form.
pub open spec fn bitwise_result(
    op: InstBitwiseOp,
    assign: bool,
    lhs: Value,
    rhs: Value,
    reg: Seq<Overload>,
) -> Result<Outcome, VmErrorKind> {
    match (lhs, rhs) {
        (Value::Signed(a), Value::Signed(b)) => Ok(
            Outcome::Value(Value::Signed(bitwise_signed(op, a, b))),
        ),
        (Value::Unsigned(a), Value::Unsigned(b)) => Ok(
            Outcome::Value(Value::Unsigned(bitwise_unsigned(op, a, b))),
        ),
        (Value::Bool(a), Value::Bool(b)) => Ok(Outcome::Value(Value::Bool(bitwise_bool(op, a, b)))),
        _ => fallback(reg, bitwise_protocol(op, assign), lhs, rhs),
    }
}

/// The shift count that an operand stands for: any integer operand.
pub open spec fn shift_count(v: Value) -> Option<int> {
    match v {
        Value::Signed(n) => Some(n as int),
        Value::Unsigned(n) => Some(n as int),
        _ => None,
    }
}

/// Result of a shift instruction in its plain or assign form.
pub open spec fn shift_result(
    w: Width,
    op: InstShiftOp,
    assign: bool,
    lhs: Value,
    rhs: Value,
    reg: Seq<Overload>,
) -> Result<Outcome, VmErrorKind> {
    match (lhs, shift_count(rhs)) {
        (Value::Signed(a), Some(c)) => match shift_signed(op, w, a, c) {
            Some(x) => Ok(Outcome::Value(Value::Signed(x))),
            None => Err(shift_error(op)),
        },
        (Value::Unsigned(a), Some(c)) => match shift_unsigned(op, w, a, c) {
            Some(x) => Ok(Outcome::Value(Value::Unsigned(x))),
            None => Err(shift_error(op)),
        },
        _ => fallback(reg, shift_protocol(op, assign), lhs, rhs),
    }
}

/// The value that an assign form leaves in the left slot.
pub open spec fn stored(r: Result<Outcome, VmErrorKind>, old_lhs: Value) -> Value {
    match r {
        Ok(Outcome::Value(v)) => v,
        _ => old_lhs,
    }
}

fn fallback_exec(
    reg: &Registry,
    protocol: Protocol,
    lhs: &Value,
    rhs: &Value,
) -> (r: Result<Outcome, VmErrorKind>)
    ensures
        r == fallback(reg@, protocol, *lhs, *rhs),
{
    let lhs_type = lhs.type_info();
    if reg.implements(protocol, lhs_type) {
        Ok(Outcome::Call(protocol))
    } else {
        Err(VmErrorKind::UnsupportedBinaryOperation { op: protocol, lhs: lhs_type, rhs: rhs.type_info() })
    }
}

fn arithmetic(
    w: Width,
    op: InstArithmeticOp,
    protocol: Protocol,
    error: VmErrorKind,
    lhs: &Value,
    rhs: &Value,
    reg: &Registry,
) -> (r: Result<Outcome, VmErrorKind>)
    requires
        value_wf(w, *lhs),
        value_wf(w, *rhs),
        error == arithmetic_error(op),
        exists|assign: bool| protocol == arithmetic_protocol(op, assign),
    ensures
        forall|assign: bool|
            protocol == arithmetic_protocol(op, assign) ==> r == arithmetic_result(
                w,
                op,
                assign,
                *lhs,
                *rhs,
                reg@,
            ),
        r matches Ok(Outcome::Value(v)) ==> value_wf(w, v),
{
    match (lhs, rhs) {
        (Value::Signed(a), Value::Signed(b)) => match signed_arith(op, w, *a, *b) {
            Some(x) => Ok(Outcome::Value(Value::Signed(x))),
            None => Err(error),
        },
        (Value::Unsigned(a), Value::Unsigned(b)) => match unsigned_arith(op, w, *a, *b) {
            Some(x) => Ok(Outcome::Value(Value::Unsigned(x))),
            None => Err(error),
        },
        (Value::Float(a), Value::Float(b)) => Ok(Outcome::Float { op, lhs: *a, rhs: *b }),
        _ => fallback_exec(reg, protocol, lhs, rhs),
    }
}

/// Runs a plain arithmetic instruction.
pub fn execute_arithmetic(
    w: Width,
    op: InstArithmeticOp,
    lhs: &Value,
    rhs: &Value,
    reg: &Registry,
) -> (r: Result<Outcome, VmErrorKind>)
    requires
        value_wf(w, *lhs),
        value_wf(w, *rhs),
    ensures
        r == arithmetic_result(w, op, false, *lhs, *rhs, reg@),
        r matches Ok(Outcome::Value(v)) ==> value_wf(w, v),
{
    let ops = ArithmeticOps::from_op(op);
    arithmetic(w, op, ops.protocol, ops.error, lhs, rhs, reg)
}

/// Runs an in-place arithmetic instruction. The left slot is overwritten
/// only on a native success.
pub fn execute_arithmetic_assign(
    w: Width,
    op: InstArithmeticOp,
    lhs: &mut Value,
    rhs: &Value,
    reg: &Registry,
) -> (r: Result<Outcome, VmErrorKind>)
    requires
        value_wf(w, *old(lhs)),
        value_wf(w, *rhs),
    ensures
        r == arithmetic_result(w, op, true, *old(lhs), *rhs, reg@),
        *final(lhs) == stored(r, *old(lhs)),
        value_wf(w, *final(lhs)),
{
    let ops = AssignArithmeticOps::from_op(op);
    let r = arithmetic(w, op, ops.protocol, ops.error, lhs, rhs, reg);
    if let Ok(Outcome::Value(v)) = r {
        *lhs = v;
    }
    r
}

fn bitwise(
    w: Width,
    op: InstBitwiseOp,
    protocol: Protocol,
    lhs: &Value,
    rhs: &Value,
    reg: &Registry,
) -> (r: Result<Outcome, VmErrorKind>)
    requires
        value_wf(w, *lhs),
        value_wf(w, *rhs),
        exists|assign: bool| protocol == bitwise_protocol(op, assign),
    ensures
        forall|assign: bool|
            protocol == bitwise_protocol(op, assign) ==> r == bitwise_result(
                op,
                assign,
                *lhs,
                *rhs,
                reg@,
            ),
        r matches Ok(Outcome::Value(v)) ==> value_wf(w, v),
{
    match (lhs, rhs) {
        (Value::Signed(a), Value::Signed(b)) => Ok(
            Outcome::Value(Value::Signed(signed_bitwise(op, w, *a, *b))),
        ),
        (Value::Unsigned(a), Value::Unsigned(b)) => Ok(
            Outcome::Value(Value::Unsigned(unsigned_bitwise(op, w, *a, *b))),
        ),
        (Value::Bool(a), Value::Bool(b)) => Ok(Outcome::Value(Value::Bool(bool_bitwise(op, *a, *b)))),
        _ => fallback_exec(reg, protocol, lhs, rhs),
    }
}

/// Runs a plain bitwise instruction.
pub fn execute_bitwise(
    w: Width,
    op: InstBitwiseOp,
    lhs: &Value,
    rhs: &Value,
    reg: &Registry,
) -> (r: Result<Outcome, VmErrorKind>)
    requires
        value_wf(w, *lhs),
        value_wf(w, *rhs),
    ensures
        r == bitwise_result(op, false, *lhs, *rhs, reg@),
        r matches Ok(Outcome::Value(v)) ==> value_wf(w, v),
{
    let ops = BitwiseOps::from_op(op);
    bitwise(w, op, ops.protocol, lhs, rhs, reg)
}

/// Runs an in-place bitwise instruction. The left slot is overwritten only
/// on a native success.
pub fn execute_bitwise_assign(
    w: Width,
    op: InstBitwiseOp,
    lhs: &mut Value,
    rhs: &Value,
    reg: &Registry,
) -> (r: Result<Outcome, VmErrorKind>)
    requires
        value_wf(w, *old(lhs)),
        value_wf(w, *rhs),
    ensures
        r == bitwise_result(op, true, *old(lhs), *rhs, reg@),
        *final(lhs) == stored(r, *old(lhs)),
        value_wf(w, *final(lhs)),
{
    let ops = AssignBitwiseOps::from_ops(op);
    let r = bitwise(w, op, ops.protocol, lhs, rhs, reg);
    if let Ok(Outcome::Value(v)) = r {
        *lhs = v;
    }
    r
}

/// The shift count of an integer operand, as a `u32` below the bit width,
/// or `Err` where the operand is an integer outside that range.
fn count_of(w: Width, rhs: &Value) -> (r: Option<Result<u32, ()>>)
    ensures
        shift_count(*rhs) is None <==> r is None,
        r matches Some(Ok(c)) ==> shift_count(*rhs) == Some(c as int) && c < bits(w),
        r matches Some(Err(_)) ==> (shift_count(*rhs)->0 < 0 || shift_count(*rhs)->0 >= bits(w)),
{
    let limit = w.bits();
    match rhs {
        Value::Signed(n) => if *n < 0 || *n >= limit as i64 {
            Some(Err(()))
        } else {
            Some(Ok(*n as u32))
        },
        Value::Unsigned(n) => if *n >= limit as u64 {
            Some(Err(()))
        } else {
            Some(Ok(*n as u32))
        },
        _ => None,
    }
}

fn shift(
    w: Width,
    op: InstShiftOp,
    protocol: Protocol,
    error: VmErrorKind,
    lhs: &Value,
    rhs: &Value,
    reg: &Registry,
) -> (r: Result<Outcome, VmErrorKind>)
    requires
        value_wf(w, *lhs),
        value_wf(w, *rhs),
        error == shift_error(op),
        exists|assign: bool| protocol == shift_protocol(op, assign),
    ensures
        forall|assign: bool|
            protocol == shift_protocol(op, assign) ==> r == shift_result(
                w,
                op,
                assign,
                *lhs,
                *rhs,
                reg@,
            ),
        r matches Ok(Outcome::Value(v)) ==> value_wf(w, v),
{
    let count = count_of(w, rhs);
    match (lhs, count) {
        (Value::Signed(_), Some(Err(_))) => Err(error),
        (Value::Unsigned(_), Some(Err(_))) => Err(error),
        (Value::Signed(a), Some(Ok(c))) => match signed_shift(op, w, *a, c) {
            Some(x) => Ok(Outcome::Value(Value::Signed(x))),
            None => Err(error),
        },
        (Value::Unsigned(a), Some(Ok(c))) => match unsigned_shift(op, w, *a, c) {
            Some(x) => Ok(Outcome::Value(Value::Unsigned(x))),
            None => Err(error),
        },
        _ => fallback_exec(reg, protocol, lhs, rhs),
    }
}

/// Runs a plain shift instruction. Any integer operand serves as the count;
/// a count outside `0..bits` (a negative one too) fails with the operation's
/// failure kind.
pub fn execute_shift(
    w: Width,
    op: InstShiftOp,
    lhs: &Value,
    rhs: &Value,
    reg: &Registry,
) -> (r: Result<Outcome, VmErrorKind>)
    requires
        value_wf(w, *lhs),
        value_wf(w, *rhs),
    ensures
        r == shift_result(w, op, false, *lhs, *rhs, reg@),
        r matches Ok(Outcome::Value(v)) ==> value_wf(w, v),
{
    let ops = ShiftOps::from_op(op);
    shift(w, op, ops.protocol, ops.error, lhs, rhs, reg)
}

/// Runs an in-place shift instruction. The left slot is overwritten only on
/// a native success.
pub fn execute_shift_assign(
    w: Width,
    op: InstShiftOp,
    lhs: &mut Value,
    rhs: &Value,
    reg: &Registry,
) -> (r: Result<Outcome, VmErrorKind>)
    requires
        value_wf(w, *old(lhs)),
        value_wf(w, *rhs),
    ensures
        r == shift_result(w, op, true, *old(lhs), *rhs, reg@),
        *final(lhs) == stored(r, *old(lhs)),
        value_wf(w, *final(lhs)),
{
    let ops = AssignShiftOps::from_op(op);
    let r = shift(w, op, ops.protocol, ops.error, lhs, rhs, reg);
    if let Ok(Outcome::Value(v)) = r {
        *lhs = v;
    }
    r
}

} // verus!
