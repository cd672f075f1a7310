use rune::dispatch::{
    execute_arithmetic, execute_arithmetic_assign, execute_bitwise, execute_bitwise_assign,
    execute_shift, execute_shift_assign, Outcome,
};
use rune::number::Width;
use rune::ops::{InstArithmeticOp, InstBitwiseOp, InstShiftOp, Protocol, TypeInfo, VmErrorKind};
use rune::value::{Registry, Value};

fn arith(w: Width, op: InstArithmeticOp, a: Value, b: Value) -> Result<Outcome, VmErrorKind> {
    execute_arithmetic(w, op, &a, &b, &Registry::new())
}

fn shift(w: Width, op: InstShiftOp, a: Value, b: Value) -> Result<Outcome, VmErrorKind> {
    execute_shift(w, op, &a, &b, &Registry::new())
}

fn bits(op: InstBitwiseOp, a: Value, b: Value) -> Result<Outcome, VmErrorKind> {
    execute_bitwise(Width::W64, op, &a, &b, &Registry::new())
}

fn ok(v: Value) -> Result<Outcome, VmErrorKind> {
    Ok(Outcome::Value(v))
}

#[test]
fn scenario_add_max_signed_overflows() {
    let r = arith(Width::W64, InstArithmeticOp::Add, Value::Signed(9223372036854775807), Value::Signed(1));
    assert_eq!(r, Err(VmErrorKind::Overflow));
}

#[test]
fn scenario_div_by_zero() {
    let r = arith(Width::W64, InstArithmeticOp::Div, Value::Signed(10), Value::Signed(0));
    assert_eq!(r, Err(VmErrorKind::DivideByZero));
}

#[test]
fn scenario_shl_unsigned_by_width_overflows() {
    let r = shift(Width::W64, InstShiftOp::Shl, Value::Unsigned(1), Value::Signed(64));
    assert_eq!(r, Err(VmErrorKind::Overflow));
    let r = shift(Width::W64, InstShiftOp::Shl, Value::Unsigned(1), Value::Unsigned(64));
    assert_eq!(r, Err(VmErrorKind::Overflow));
}

#[test]
fn scenario_bitor_bools() {
    let r = bits(InstBitwiseOp::BitOr, Value::Bool(true), Value::Bool(false));
    assert_eq!(r, ok(Value::Bool(true)));
}

#[test]
fn scenario_sub_unsigned_underflows() {
    let r = arith(Width::W64, InstArithmeticOp::Sub, Value::Unsigned(0), Value::Unsigned(1));
    assert_eq!(r, Err(VmErrorKind::Underflow));
}

#[test]
fn exact_results_in_range() {
    assert_eq!(arith(Width::W64, InstArithmeticOp::Add, Value::Signed(2), Value::Signed(3)), ok(Value::Signed(5)));
    assert_eq!(arith(Width::W64, InstArithmeticOp::Sub, Value::Signed(2), Value::Signed(3)), ok(Value::Signed(-1)));
    assert_eq!(arith(Width::W64, InstArithmeticOp::Mul, Value::Signed(-4), Value::Signed(3)), ok(Value::Signed(-12)));
    assert_eq!(arith(Width::W64, InstArithmeticOp::Mul, Value::Unsigned(4), Value::Unsigned(3)), ok(Value::Unsigned(12)));
    assert_eq!(arith(Width::W32, InstArithmeticOp::Add, Value::Unsigned(7), Value::Unsigned(8)), ok(Value::Unsigned(15)));
}

#[test]
fn division_truncates_toward_zero() {
    assert_eq!(arith(Width::W64, InstArithmeticOp::Div, Value::Signed(-7), Value::Signed(2)), ok(Value::Signed(-3)));
    assert_eq!(arith(Width::W64, InstArithmeticOp::Div, Value::Signed(7), Value::Signed(-2)), ok(Value::Signed(-3)));
    assert_eq!(arith(Width::W32, InstArithmeticOp::Div, Value::Signed(-7), Value::Signed(-2)), ok(Value::Signed(3)));
    assert_eq!(arith(Width::W64, InstArithmeticOp::Div, Value::Unsigned(7), Value::Unsigned(2)), ok(Value::Unsigned(3)));
}

#[test]
fn remainder_takes_sign_of_dividend() {
    assert_eq!(arith(Width::W64, InstArithmeticOp::Rem, Value::Signed(-7), Value::Signed(2)), ok(Value::Signed(-1)));
    assert_eq!(arith(Width::W64, InstArithmeticOp::Rem, Value::Signed(7), Value::Signed(-2)), ok(Value::Signed(1)));
    assert_eq!(arith(Width::W32, InstArithmeticOp::Rem, Value::Signed(-7), Value::Signed(-2)), ok(Value::Signed(-1)));
    assert_eq!(arith(Width::W64, InstArithmeticOp::Rem, Value::Unsigned(7), Value::Unsigned(2)), ok(Value::Unsigned(1)));
}

#[test]
fn smallest_by_minus_one() {
    for (w, min) in [(Width::W64, i64::MIN), (Width::W32, i32::MIN as i64)] {
        // The quotient is not representable; the remainder is exactly 0.
        assert_eq!(arith(w, InstArithmeticOp::Div, Value::Signed(min), Value::Signed(-1)), Err(VmErrorKind::DivideByZero));
        assert_eq!(arith(w, InstArithmeticOp::Rem, Value::Signed(min), Value::Signed(-1)), ok(Value::Signed(0)));
        assert_eq!(arith(w, InstArithmeticOp::Rem, Value::Signed(min + 1), Value::Signed(-1)), ok(Value::Signed(0)));
        let mut slot = Value::Signed(min);
        let r = execute_arithmetic_assign(w, InstArithmeticOp::Rem, &mut slot, &Value::Signed(-1), &Registry::new());
        assert_eq!(r, ok(Value::Signed(0)));
        assert_eq!(slot, Value::Signed(0));
    }
}

#[test]
fn boundaries_at_both_widths() {
    let cases = [
        (Width::W64, i64::MIN, i64::MAX, u64::MAX),
        (Width::W32, i32::MIN as i64, i32::MAX as i64, u32::MAX as u64),
    ];
    for (w, smin, smax, umax) in cases {
        assert_eq!(arith(w, InstArithmeticOp::Add, Value::Signed(smax), Value::Signed(1)), Err(VmErrorKind::Overflow));
        assert_eq!(arith(w, InstArithmeticOp::Add, Value::Signed(smax - 1), Value::Signed(1)), ok(Value::Signed(smax)));
        assert_eq!(arith(w, InstArithmeticOp::Add, Value::Unsigned(umax), Value::Unsigned(1)), Err(VmErrorKind::Overflow));
        assert_eq!(arith(w, InstArithmeticOp::Sub, Value::Signed(smin), Value::Signed(1)), Err(VmErrorKind::Underflow));
        assert_eq!(arith(w, InstArithmeticOp::Sub, Value::Signed(smin + 1), Value::Signed(1)), ok(Value::Signed(smin)));
        assert_eq!(arith(w, InstArithmeticOp::Sub, Value::Unsigned(0), Value::Unsigned(1)), Err(VmErrorKind::Underflow));
        assert_eq!(arith(w, InstArithmeticOp::Mul, Value::Signed(smax), Value::Signed(smax)), Err(VmErrorKind::Overflow));
        assert_eq!(arith(w, InstArithmeticOp::Mul, Value::Unsigned(umax), Value::Unsigned(umax)), Err(VmErrorKind::Overflow));
    }
    // 65536 squared fits 64 bits but not 32.
    assert_eq!(arith(Width::W64, InstArithmeticOp::Mul, Value::Unsigned(65536), Value::Unsigned(65536)), ok(Value::Unsigned(1 << 32)));
    assert_eq!(arith(Width::W32, InstArithmeticOp::Mul, Value::Unsigned(65536), Value::Unsigned(65536)), Err(VmErrorKind::Overflow));
}

#[test]
fn zero_divisor_fails_for_integers_only() {
    for w in [Width::W64, Width::W32] {
        assert_eq!(arith(w, InstArithmeticOp::Rem, Value::Signed(10), Value::Signed(0)), Err(VmErrorKind::DivideByZero));
        assert_eq!(arith(w, InstArithmeticOp::Div, Value::Unsigned(10), Value::Unsigned(0)), Err(VmErrorKind::DivideByZero));
        assert_eq!(arith(w, InstArithmeticOp::Rem, Value::Unsigned(10), Value::Unsigned(0)), Err(VmErrorKind::DivideByZero));
    }
    let r = arith(Width::W64, InstArithmeticOp::Div, Value::Float(1.0f64.to_bits()), Value::Float(0.0f64.to_bits()));
    match r {
        Ok(Outcome::Float { op: InstArithmeticOp::Div, lhs, rhs }) => {
            assert_eq!(f64::from_bits(lhs) / f64::from_bits(rhs), f64::INFINITY);
        }
        other => panic!("expected the float path, got {:?}", other),
    }
}

#[test]
fn shift_counts() {
    for (w, width) in [(Width::W64, 64i64), (Width::W32, 32i64)] {
        assert_eq!(shift(w, InstShiftOp::Shl, Value::Signed(1), Value::Signed(width)), Err(VmErrorKind::Overflow));
        assert_eq!(shift(w, InstShiftOp::Shr, Value::Signed(1), Value::Signed(width)), Err(VmErrorKind::Underflow));
        assert_eq!(shift(w, InstShiftOp::Shr, Value::Unsigned(1), Value::Signed(width + 100)), Err(VmErrorKind::Underflow));
        assert_eq!(shift(w, InstShiftOp::Shl, Value::Unsigned(1), Value::Signed(-1)), Err(VmErrorKind::Overflow));
    }
    assert_eq!(shift(Width::W64, InstShiftOp::Shl, Value::Signed(1), Value::Signed(63)), ok(Value::Signed(i64::MIN)));
    assert_eq!(shift(Width::W32, InstShiftOp::Shl, Value::Signed(1), Value::Signed(31)), ok(Value::Signed(i32::MIN as i64)));
    assert_eq!(shift(Width::W32, InstShiftOp::Shl, Value::Unsigned(3), Value::Unsigned(31)), ok(Value::Unsigned(1 << 31)));
    assert_eq!(shift(Width::W64, InstShiftOp::Shl, Value::Unsigned(3), Value::Unsigned(63)), ok(Value::Unsigned(1 << 63)));
    assert_eq!(shift(Width::W64, InstShiftOp::Shr, Value::Signed(-8), Value::Signed(1)), ok(Value::Signed(-4)));
    assert_eq!(shift(Width::W64, InstShiftOp::Shr, Value::Unsigned(8), Value::Unsigned(3)), ok(Value::Unsigned(1)));
    assert_eq!(shift(Width::W32, InstShiftOp::Shr, Value::Signed(i32::MIN as i64), Value::Signed(31)), ok(Value::Signed(-1)));
}

#[test]
fn bitwise_never_fails() {
    assert_eq!(bits(InstBitwiseOp::BitAnd, Value::Signed(12), Value::Signed(10)), ok(Value::Signed(8)));
    assert_eq!(bits(InstBitwiseOp::BitXor, Value::Signed(12), Value::Signed(10)), ok(Value::Signed(6)));
    assert_eq!(bits(InstBitwiseOp::BitOr, Value::Signed(-1), Value::Signed(0)), ok(Value::Signed(-1)));
    assert_eq!(bits(InstBitwiseOp::BitOr, Value::Unsigned(12), Value::Unsigned(10)), ok(Value::Unsigned(14)));
    assert_eq!(bits(InstBitwiseOp::BitAnd, Value::Bool(true), Value::Bool(false)), ok(Value::Bool(false)));
    assert_eq!(bits(InstBitwiseOp::BitXor, Value::Bool(true), Value::Bool(true)), ok(Value::Bool(false)));
    let r = execute_bitwise(Width::W32, InstBitwiseOp::BitXor, &Value::Signed(-1), &Value::Signed(i32::MAX as i64), &Registry::new());
    assert_eq!(r, ok(Value::Signed(i32::MIN as i64)));
}

#[test]
fn assign_keeps_left_operand_on_failure() {
    let reg = Registry::new();
    let mut slot = Value::Signed(i64::MAX);
    let r = execute_arithmetic_assign(Width::W64, InstArithmeticOp::Add, &mut slot, &Value::Signed(1), &reg);
    assert_eq!(r, Err(VmErrorKind::Overflow));
    assert_eq!(slot, Value::Signed(i64::MAX));

    let mut slot = Value::Unsigned(1);
    let r = execute_shift_assign(Width::W32, InstShiftOp::Shl, &mut slot, &Value::Unsigned(32), &reg);
    assert_eq!(r, Err(VmErrorKind::Overflow));
    assert_eq!(slot, Value::Unsigned(1));

    let mut slot = Value::Bool(true);
    let r = execute_bitwise_assign(Width::W64, InstBitwiseOp::BitAnd, &mut slot, &Value::Signed(1), &reg);
    assert!(r.is_err());
    assert_eq!(slot, Value::Bool(true));
}

#[test]
fn assign_overwrites_left_operand_on_success() {
    let reg = Registry::new();
    let mut slot = Value::Signed(40);
    let r = execute_arithmetic_assign(Width::W64, InstArithmeticOp::Add, &mut slot, &Value::Signed(2), &reg);
    assert_eq!(r, ok(Value::Signed(42)));
    assert_eq!(slot, Value::Signed(42));

    let mut slot = Value::Unsigned(1);
    execute_shift_assign(Width::W64, InstShiftOp::Shl, &mut slot, &Value::Unsigned(4), &reg).unwrap();
    assert_eq!(slot, Value::Unsigned(16));

    let mut slot = Value::Bool(false);
    execute_bitwise_assign(Width::W64, InstBitwiseOp::BitOr, &mut slot, &Value::Bool(true), &reg).unwrap();
    assert_eq!(slot, Value::Bool(true));
}

#[test]
fn mixed_kinds_are_unsupported() {
    let r = arith(Width::W64, InstArithmeticOp::Add, Value::Signed(1), Value::Float(1.0f64.to_bits()));
    assert_eq!(
        r,
        Err(VmErrorKind::UnsupportedBinaryOperation { op: Protocol::Add, lhs: TypeInfo::Signed, rhs: TypeInfo::Float })
    );
    let r = arith(Width::W64, InstArithmeticOp::Mul, Value::Bool(true), Value::Bool(true));
    assert_eq!(
        r,
        Err(VmErrorKind::UnsupportedBinaryOperation { op: Protocol::Mul, lhs: TypeInfo::Bool, rhs: TypeInfo::Bool })
    );
    let r = bits(InstBitwiseOp::BitAnd, Value::Unsigned(1), Value::Signed(1));
    assert_eq!(
        r,
        Err(VmErrorKind::UnsupportedBinaryOperation { op: Protocol::BitAnd, lhs: TypeInfo::Unsigned, rhs: TypeInfo::Signed })
    );
    let r = shift(Width::W64, InstShiftOp::Shl, Value::Any(7), Value::Signed(1));
    assert_eq!(
        r,
        Err(VmErrorKind::UnsupportedBinaryOperation { op: Protocol::Shl, lhs: TypeInfo::Any(7), rhs: TypeInfo::Signed })
    );
    let mut slot = Value::Signed(1);
    let r = execute_arithmetic_assign(Width::W64, InstArithmeticOp::Sub, &mut slot, &Value::Unsigned(1), &Registry::new());
    assert_eq!(
        r,
        Err(VmErrorKind::UnsupportedBinaryOperation { op: Protocol::SubAssign, lhs: TypeInfo::Signed, rhs: TypeInfo::Unsigned })
    );
}

#[test]
fn registered_overloads_are_called() {
    let mut reg = Registry::new();
    reg.register(Protocol::AddAssign, TypeInfo::Any(9));
    reg.register(Protocol::BitXor, TypeInfo::Any(9));
    assert!(reg.implements(Protocol::AddAssign, TypeInfo::Any(9)));
    assert!(!reg.implements(Protocol::Add, TypeInfo::Any(9)));

    let r = execute_arithmetic(Width::W64, InstArithmeticOp::Add, &Value::Any(9), &Value::Signed(1), &reg);
    assert_eq!(
        r,
        Err(VmErrorKind::UnsupportedBinaryOperation { op: Protocol::Add, lhs: TypeInfo::Any(9), rhs: TypeInfo::Signed })
    );
    let mut slot = Value::Any(9);
    let r = execute_arithmetic_assign(Width::W64, InstArithmeticOp::Add, &mut slot, &Value::Signed(1), &reg);
    assert_eq!(r, Ok(Outcome::Call(Protocol::AddAssign)));
    assert_eq!(slot, Value::Any(9));
    let r = execute_bitwise(Width::W64, InstBitwiseOp::BitXor, &Value::Any(9), &Value::Any(3), &reg);
    assert_eq!(r, Ok(Outcome::Call(Protocol::BitXor)));
    // A native failure is never retried through an overload.
    reg.register(Protocol::Add, TypeInfo::Signed);
    let r = execute_arithmetic(Width::W64, InstArithmeticOp::Add, &Value::Signed(i64::MAX), &Value::Signed(1), &reg);
    assert_eq!(r, Err(VmErrorKind::Overflow));
    let r = execute_arithmetic(Width::W64, InstArithmeticOp::Add, &Value::Signed(1), &Value::Unsigned(1), &reg);
    assert_eq!(r, Ok(Outcome::Call(Protocol::Add)));
}

#[test]
fn operands_fit_width() {
    assert!(Value::Signed(i64::MIN).fits(Width::W64));
    assert!(!Value::Signed(i32::MIN as i64 - 1).fits(Width::W32));
    assert!(Value::Signed(i32::MIN as i64).fits(Width::W32));
    assert!(!Value::Unsigned(u32::MAX as u64 + 1).fits(Width::W32));
    assert!(Value::Float(1.0f32.to_bits() as u64).fits(Width::W32));
    assert!(!Value::Float(1.0f64.to_bits()).fits(Width::W32));
    assert!(Value::Any(3).fits(Width::W32));
    assert_eq!(Value::Any(3).type_info(), TypeInfo::Any(3));
}
