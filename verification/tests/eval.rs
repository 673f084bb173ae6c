//! Value-level semantics of the operations, with float requests completed here
//! by IEEE-754 arithmetic the way an embedding does.

use bvm_lang::eval::{add, cond, div, eq, eq_op, ge, gt, le, lt, mul, ne_op, neg, not, rem, sub};
use bvm_lang::{BinOp, FloatRequest, Outcome, Value, VmError};

fn float(f: f64) -> Value {
    Value::Float(if f.is_nan() { f64::NAN.to_bits() } else { f.to_bits() })
}

fn as_float(v: Value) -> Option<f64> {
    v.as_float_bits().map(f64::from_bits)
}

fn widen(v: Value) -> f64 {
    match v {
        Value::Int(i) => f64::from(i),
        Value::Float(bits) => f64::from_bits(bits),
        other => panic!("not a number: {other:?}"),
    }
}

/// Complete an evaluation: a float request is computed with `f64` semantics.
fn finish(r: Result<Outcome, VmError>) -> Result<Value, VmError> {
    match r? {
        Outcome::Done(v) => Ok(v),
        Outcome::NeedsFloat(FloatRequest::Negate { operand }) => Ok(float(-widen(operand))),
        Outcome::NeedsFloat(FloatRequest::Binary { op, lhs, rhs }) => {
            let (x, y) = (widen(lhs), widen(rhs));
            Ok(match op {
                BinOp::Add => float(x + y),
                BinOp::Sub => float(x - y),
                BinOp::Mul => float(x * y),
                BinOp::Div => float(x / y),
                BinOp::Rem => float(x % y),
                BinOp::Eq => Value::Bool(x == y),
                BinOp::Ne => Value::Bool(x != y),
                BinOp::Lt => Value::Bool(x < y),
                BinOp::Le => Value::Bool(x <= y),
                BinOp::Gt => Value::Bool(x > y),
                BinOp::Ge => Value::Bool(x >= y),
            })
        }
    }
}

fn float_eq(a: Value, b: Value) -> bool {
    match eq(a, b) {
        Some(t) => t,
        None => finish(eq_op(a, b)).unwrap().as_bool().unwrap(),
    }
}

#[test]
fn test_add_int_int_stays_int() {
    assert_eq!(finish(add(Value::Int(2), Value::Int(3))).unwrap().as_int(), Some(5));
}

#[test]
fn test_add_mixed_promotes_to_float() {
    let r = finish(add(Value::Int(2), float(0.5))).unwrap();
    assert_eq!(as_float(r), Some(2.5));
}

#[test]
fn test_add_overflow_errors() {
    assert_eq!(
        finish(add(Value::Int(i32::MAX), Value::Int(1))),
        Err(VmError::IntegerOverflow)
    );
}

#[test]
fn test_add_non_numeric_type_mismatch() {
    assert_eq!(
        finish(add(Value::Int(1), Value::Bool(true))),
        Err(VmError::TypeMismatch { op: "add" })
    );
}

#[test]
fn test_div_int_by_zero_errors() {
    assert_eq!(
        finish(div(Value::Int(1), Value::Int(0))),
        Err(VmError::DivideByZero)
    );
}

#[test]
fn test_div_min_by_neg_one_overflows() {
    assert_eq!(
        finish(div(Value::Int(i32::MIN), Value::Int(-1))),
        Err(VmError::IntegerOverflow)
    );
}

#[test]
fn test_div_float_by_zero_is_infinite() {
    let r = finish(div(float(1.0), float(0.0))).unwrap();
    assert_eq!(as_float(r), Some(f64::INFINITY));
}

#[test]
fn test_rem_by_zero_errors() {
    assert_eq!(
        finish(rem(Value::Int(5), Value::Int(0))),
        Err(VmError::DivideByZero)
    );
}

#[test]
fn test_neg_min_overflows() {
    assert_eq!(finish(neg(Value::Int(i32::MIN))), Err(VmError::IntegerOverflow));
}

#[test]
fn test_eq_int_equals_float() {
    assert!(float_eq(Value::Int(1), float(1.0)));
}

#[test]
fn test_eq_nan_is_never_equal() {
    assert!(!float_eq(float(f64::NAN), float(f64::NAN)));
}

#[test]
fn test_eq_across_kinds_is_false() {
    assert!(!float_eq(Value::Nil, Value::Bool(false)));
    assert!(float_eq(Value::Nil, Value::Nil));
    assert!(float_eq(Value::Bool(true), Value::Bool(true)));
}

#[test]
fn test_lt_orders_numbers() {
    assert_eq!(
        finish(lt(Value::Int(1), Value::Int(2))).unwrap().as_bool(),
        Some(true)
    );
    assert_eq!(
        finish(le(Value::Int(2), Value::Int(2))).unwrap().as_bool(),
        Some(true)
    );
    assert_eq!(
        finish(gt(float(3.0), Value::Int(2))).unwrap().as_bool(),
        Some(true)
    );
}

#[test]
fn test_lt_nan_is_false_not_error() {
    assert_eq!(
        finish(lt(float(f64::NAN), float(1.0))).unwrap().as_bool(),
        Some(false)
    );
}

#[test]
fn test_ordering_non_numeric_errors() {
    assert_eq!(
        finish(lt(Value::Nil, Value::Int(1))),
        Err(VmError::TypeMismatch { op: "lt" })
    );
}

#[test]
fn test_not_requires_bool() {
    assert_eq!(not(Value::Bool(true)).unwrap().as_bool(), Some(false));
    assert_eq!(not(Value::Int(0)), Err(VmError::TypeMismatch { op: "not" }));
}

#[test]
fn test_float_operand_is_handed_back_unchanged() {
    let half = float(0.5);
    assert_eq!(
        mul(half, Value::Int(2)),
        Ok(Outcome::NeedsFloat(FloatRequest::Binary {
            op: BinOp::Mul,
            lhs: half,
            rhs: Value::Int(2)
        }))
    );
    assert_eq!(
        neg(half),
        Ok(Outcome::NeedsFloat(FloatRequest::Negate { operand: half }))
    );
    assert_eq!(eq(Value::Int(1), half), None);
    // A float against a non-number is decided without float arithmetic.
    assert_eq!(eq(half, Value::Nil), Some(false));
}

#[test]
fn test_integer_division_truncates_toward_zero() {
    assert_eq!(finish(div(Value::Int(-7), Value::Int(2))), Ok(Value::Int(-3)));
    assert_eq!(finish(rem(Value::Int(-7), Value::Int(2))), Ok(Value::Int(-1)));
    assert_eq!(finish(div(Value::Int(7), Value::Int(-2))), Ok(Value::Int(-3)));
    assert_eq!(finish(rem(Value::Int(7), Value::Int(-2))), Ok(Value::Int(1)));
    assert_eq!(
        finish(rem(Value::Int(i32::MIN), Value::Int(-1))),
        Err(VmError::IntegerOverflow)
    );
}

#[test]
fn test_sub_and_mul_overflow() {
    assert_eq!(
        finish(sub(Value::Int(i32::MIN), Value::Int(1))),
        Err(VmError::IntegerOverflow)
    );
    assert_eq!(
        finish(mul(Value::Int(65_536), Value::Int(65_536))),
        Err(VmError::IntegerOverflow)
    );
    assert_eq!(finish(mul(Value::Int(-6), Value::Int(7))), Ok(Value::Int(-42)));
}

#[test]
fn test_ne_negates_eq() {
    assert_eq!(finish(ne_op(Value::Int(3), Value::Int(4))), Ok(Value::Bool(true)));
    assert_eq!(finish(ne_op(Value::Sym(9), Value::Sym(9))), Ok(Value::Bool(false)));
    assert_eq!(finish(ne_op(Value::Nil, Value::Int(0))), Ok(Value::Bool(true)));
    assert_eq!(eq(Value::Sym(2), Value::Sym(3)), Some(false));
    assert_eq!(finish(ge(Value::Int(-1), Value::Int(-1))), Ok(Value::Bool(true)));
}

#[test]
fn test_cond_requires_bool() {
    assert_eq!(cond(Value::Bool(false), "jump-if-false"), Ok(false));
    assert_eq!(
        cond(Value::Nil, "jump-if-false"),
        Err(VmError::TypeMismatch { op: "jump-if-false" })
    );
}
