//! Value-level semantics of the arithmetic, comparison and logical operations.
//!
//! Arithmetic and ordering treat integers and floats as one numeric tower. Two
//! integers stay integers, and integer results are overflow-checked so a fault is
//! reported rather than silently wrapped. Any non-numeric operand is a
//! [`VmError::TypeMismatch`]. When a numeric operation involves a float, the
//! result is not computed here: the operation is returned as a
//! [`FloatRequest`] for the caller to evaluate with IEEE-754 semantics.

use crate::error::VmError;
use crate::value::Value;
use vstd::prelude::*;

verus! {

/// A two-operand instruction kind: arithmetic, equality or ordering.
#[derive(Debug, Clone, Copy, PartialEq, Eq, Structural)]
pub enum BinOp {
    Add,
    Sub,
    Mul,
    Div,
    Rem,
    Eq,
    Ne,
    Lt,
    Le,
    Gt,
    Ge,
}

/// An operation on numbers at least one of which is a float, to be evaluated
/// by the caller with IEEE-754 semantics (an integer operand widens to `f64`).
#[derive(Debug, Clone, Copy, PartialEq)]
pub enum FloatRequest {
    /// `lhs op rhs`; both operands are numbers and at least one is a float.
    /// Arithmetic yields a float; equality and ordering yield a boolean.
    Binary { op: BinOp, lhs: Value, rhs: Value },
    /// `-operand`, where `operand` is a float.
    Negate { operand: Value },
}

/// What evaluating an operation produced: its value, or the float computation
/// that stands in for it.
#[derive(Debug, Clone, Copy, PartialEq)]
pub enum Outcome {
    Done(Value),
    NeedsFloat(FloatRequest),
}

/// A numeric operand, already narrowed to the two kinds arithmetic accepts.
#[derive(Clone, Copy)]
enum Num {
    Int(i32),
    Float(u64),
}

/// Whether a value is a number (an integer or a float).
pub open spec fn is_number(v: Value) -> bool {
    v is Int || v is Float
}

/// The name an arithmetic or ordering operation reports on a type mismatch.
pub open spec fn op_name(op: BinOp) -> &'static str {
    match op {
        BinOp::Add => "add",
        BinOp::Sub => "sub",
        BinOp::Mul => "mul",
        BinOp::Div => "div",
        BinOp::Rem => "rem",
        BinOp::Eq => "eq",
        BinOp::Ne => "ne",
        BinOp::Lt => "lt",
        BinOp::Le => "le",
        BinOp::Gt => "gt",
        BinOp::Ge => "ge",
    }
}

/// An exact integer result, or `IntegerOverflow` when it leaves the `i32` range.
pub open spec fn int_or_overflow(n: int) -> Result<Outcome, VmError> {
    if i32::MIN <= n <= i32::MAX {
        Ok(Outcome::Done(Value::Int(n as i32)))
    } else {
        Err(VmError::IntegerOverflow)
    }
}

pub open spec fn abs(x: int) -> nat {
    if x < 0 { (-x) as nat } else { x as nat }
}

/// Integer division rounding toward zero.
pub open spec fn trunc_div(x: int, y: int) -> int {
    if (x < 0) == (y < 0) {
        (abs(x) / abs(y)) as int
    } else {
        -((abs(x) / abs(y)) as int)
    }
}

/// The remainder of division rounding toward zero; it takes the sign of `x`.
pub open spec fn trunc_rem(x: int, y: int) -> int {
    if x < 0 {
        -((abs(x) % abs(y)) as int)
    } else {
        (abs(x) % abs(y)) as int
    }
}

/// Integer arithmetic on two integers.
pub open spec fn int_arith(op: BinOp, x: i32, y: i32) -> Result<Outcome, VmError> {
    match op {
        BinOp::Add => int_or_overflow(x + y),
        BinOp::Sub => int_or_overflow(x - y),
        BinOp::Mul => int_or_overflow(x * y),
        BinOp::Div => if y == 0 {
            Err(VmError::DivideByZero)
        } else {
            int_or_overflow(trunc_div(x as int, y as int))
        },
        _ => if y == 0 {
            Err(VmError::DivideByZero)
        } else if x == i32::MIN && y == -1 {
            Err(VmError::IntegerOverflow)
        } else {
            Ok(Outcome::Done(Value::Int(trunc_rem(x as int, y as int) as i32)))
        },
    }
}

/// Arithmetic (`Add` to `Rem`) on two values.
pub open spec fn arith(op: BinOp, a: Value, b: Value) -> Result<Outcome, VmError> {
    if !(is_number(a) && is_number(b)) {
        Err(VmError::TypeMismatch { op: op_name(op) })
    } else {
        match (a, b) {
            (Value::Int(x), Value::Int(y)) => int_arith(op, x, y),
            _ => Ok(Outcome::NeedsFloat(FloatRequest::Binary { op, lhs: a, rhs: b })),
        }
    }
}

/// Equality of two values: `None` when it is a numeric comparison involving a
/// float. Integers compare by value; other kinds compare within their kind and
/// are never equal across kinds.
pub open spec fn same(a: Value, b: Value) -> Option<bool> {
    match (a, b) {
        (Value::Int(x), Value::Int(y)) => Some(x == y),
        _ => if is_number(a) && is_number(b) {
            None
        } else {
            Some(
                match (a, b) {
                    (Value::Nil, Value::Nil) => true,
                    (Value::Bool(x), Value::Bool(y)) => x == y,
                    (Value::Sym(x), Value::Sym(y)) => x == y,
                    _ => false,
                },
            )
        },
    }
}

/// `Eq` (or, with `negate`, `Ne`) as an instruction result.
pub open spec fn equality(a: Value, b: Value, negate: bool) -> Outcome {
    match same(a, b) {
        Some(t) => Outcome::Done(Value::Bool(if negate { !t } else { t })),
        None => Outcome::NeedsFloat(
            FloatRequest::Binary { op: if negate { BinOp::Ne } else { BinOp::Eq }, lhs: a, rhs: b },
        ),
    }
}

/// An ordering predicate on two integers.
pub open spec fn int_order(op: BinOp, x: i32, y: i32) -> bool {
    match op {
        BinOp::Lt => x < y,
        BinOp::Le => x <= y,
        BinOp::Gt => x > y,
        _ => x >= y,
    }
}

/// An ordering operation (`Lt`, `Le`, `Gt`, `Ge`) on two values.
pub open spec fn ordering(op: BinOp, a: Value, b: Value) -> Result<Outcome, VmError> {
    if !(is_number(a) && is_number(b)) {
        Err(VmError::TypeMismatch { op: op_name(op) })
    } else {
        match (a, b) {
            (Value::Int(x), Value::Int(y)) => Ok(Outcome::Done(Value::Bool(int_order(op, x, y)))),
            _ => Ok(Outcome::NeedsFloat(FloatRequest::Binary { op, lhs: a, rhs: b })),
        }
    }
}

/// The meaning of every two-operand instruction.
pub open spec fn binary_result(op: BinOp, a: Value, b: Value) -> Result<Outcome, VmError> {
    match op {
        BinOp::Add | BinOp::Sub | BinOp::Mul | BinOp::Div | BinOp::Rem => arith(op, a, b),
        BinOp::Eq => Ok(equality(a, b, false)),
        BinOp::Ne => Ok(equality(a, b, true)),
        _ => ordering(op, a, b),
    }
}

/// Negation of a value.
pub open spec fn negation(a: Value) -> Result<Outcome, VmError> {
    match a {
        Value::Int(i) => int_or_overflow(-i),
        Value::Float(_) => Ok(Outcome::NeedsFloat(FloatRequest::Negate { operand: a })),
        _ => Err(VmError::TypeMismatch { op: "neg" }),
    }
}

/// Logical negation; any non-boolean is a type mismatch.
pub open spec fn logical_not(a: Value) -> Result<Value, VmError> {
    match a {
        Value::Bool(b) => Ok(Value::Bool(!b)),
        _ => Err(VmError::TypeMismatch { op: "not" }),
    }
}

/// A branch condition; any non-boolean is a type mismatch naming `op`.
pub open spec fn condition(a: Value, op: &'static str) -> Result<bool, VmError> {
    match a {
        Value::Bool(b) => Ok(b),
        _ => Err(VmError::TypeMismatch { op }),
    }
}

/// Extract a numeric view of `v`, or `None` if it is not a number.
fn num(v: Value) -> (r: Option<Num>)
    ensures
        r is Some <==> is_number(v),
        r matches Some(Num::Int(i)) ==> v == Value::Int(i),
        r matches Some(Num::Float(f)) ==> v == Value::Float(f),
{
    match v {
        Value::Int(i) => Some(Num::Int(i)),
        Value::Float(f) => Some(Num::Float(f)),
        _ => None,
    }
}

/// Pull both operands as numbers, or raise a type mismatch naming `op`.
fn nums(a: Value, b: Value, op: &'static str) -> (r: Result<(Num, Num), VmError>)
    ensures
        r is Ok <==> (is_number(a) && is_number(b)),
        r is Err ==> r == Err::<(Num, Num), VmError>(VmError::TypeMismatch { op }),
        r matches Ok((Num::Int(x), Num::Int(y))) ==> a == Value::Int(x) && b == Value::Int(y),
        r matches Ok((Num::Int(x), Num::Float(y))) ==> a == Value::Int(x) && b == Value::Float(y),
        r matches Ok((Num::Float(x), _)) ==> a == Value::Float(x),
{
    match (num(a), num(b)) {
        (Some(x), Some(y)) => Ok((x, y)),
        _ => Err(VmError::TypeMismatch { op }),
    }
}

/// `a + b`. Integer addition is overflow-checked; a float operand is handed back.
pub fn add(a: Value, b: Value) -> (r: Result<Outcome, VmError>)
    ensures
        r == arith(BinOp::Add, a, b),
{
    match nums(a, b, "add")? {
        (Num::Int(x), Num::Int(y)) => match x.checked_add(y) {
            Some(v) => Ok(Outcome::Done(Value::Int(v))),
            None => Err(VmError::IntegerOverflow),
        },
        _ => Ok(Outcome::NeedsFloat(FloatRequest::Binary { op: BinOp::Add, lhs: a, rhs: b })),
    }
}

/// `a - b`. Integer subtraction is overflow-checked; a float operand is handed back.
pub fn sub(a: Value, b: Value) -> (r: Result<Outcome, VmError>)
    ensures
        r == arith(BinOp::Sub, a, b),
{
    match nums(a, b, "sub")? {
        (Num::Int(x), Num::Int(y)) => match x.checked_sub(y) {
            Some(v) => Ok(Outcome::Done(Value::Int(v))),
            None => Err(VmError::IntegerOverflow),
        },
        _ => Ok(Outcome::NeedsFloat(FloatRequest::Binary { op: BinOp::Sub, lhs: a, rhs: b })),
    }
}

/// `a * b`. Integer multiplication is overflow-checked; a float operand is handed back.
pub fn mul(a: Value, b: Value) -> (r: Result<Outcome, VmError>)
    ensures
        r == arith(BinOp::Mul, a, b),
{
    match nums(a, b, "mul")? {
        (Num::Int(x), Num::Int(y)) => match x.checked_mul(y) {
            Some(v) => Ok(Outcome::Done(Value::Int(v))),
            None => Err(VmError::IntegerOverflow),
        },
        _ => Ok(Outcome::NeedsFloat(FloatRequest::Binary { op: BinOp::Mul, lhs: a, rhs: b })),
    }
}

/// `a / b`. Integer division by zero errors and `i32::MIN / -1` overflows; the
/// quotient rounds toward zero. A float operand is handed back.
pub fn div(a: Value, b: Value) -> (r: Result<Outcome, VmError>)
    ensures
        r == arith(BinOp::Div, a, b),
{
    match nums(a, b, "div")? {
        (Num::Int(x), Num::Int(y)) => {
            if y == 0 {
                Err(VmError::DivideByZero)
            } else {
                match x.checked_div(y) {
                    Some(v) => Ok(Outcome::Done(Value::Int(v))),
                    None => Err(VmError::IntegerOverflow),
                }
            }
        },
        _ => Ok(Outcome::NeedsFloat(FloatRequest::Binary { op: BinOp::Div, lhs: a, rhs: b })),
    }
}

/// `a % b`. Integer remainder by zero errors and `i32::MIN % -1` overflows; the
/// remainder takes the sign of `a`. A float operand is handed back.
pub fn rem(a: Value, b: Value) -> (r: Result<Outcome, VmError>)
    ensures
        r == arith(BinOp::Rem, a, b),
{
    match nums(a, b, "rem")? {
        (Num::Int(x), Num::Int(y)) => {
            if y == 0 {
                Err(VmError::DivideByZero)
            } else {
                match x.checked_rem(y) {
                    Some(v) => Ok(Outcome::Done(Value::Int(v))),
                    None => Err(VmError::IntegerOverflow),
                }
            }
        },
        _ => Ok(Outcome::NeedsFloat(FloatRequest::Binary { op: BinOp::Rem, lhs: a, rhs: b })),
    }
}

/// `-a`. Integer negation is overflow-checked (`i32::MIN` faults); a float is
/// handed back.
pub fn neg(a: Value) -> (r: Result<Outcome, VmError>)
    ensures
        r == negation(a),
{
    match num(a) {
        Some(Num::Int(i)) => {
            if i == i32::MIN {
                Err(VmError::IntegerOverflow)
            } else {
                Ok(Outcome::Done(Value::Int(-i)))
            }
        },
        Some(Num::Float(_)) => Ok(Outcome::NeedsFloat(FloatRequest::Negate { operand: a })),
        None => Err(VmError::TypeMismatch { op: "neg" }),
    }
}

/// Structural / numeric equality, or `None` when the comparison is numeric and
/// involves a float.
///
/// Two integers compare by value; other kinds compare within their kind (`nil`
/// to `nil`, boolean to boolean, symbol to symbol) and are never equal across
/// kinds.
pub fn eq(a: Value, b: Value) -> (r: Option<bool>)
    ensures
        r == same(a, b),
{
    match (num(a), num(b)) {
        (Some(Num::Int(x)), Some(Num::Int(y))) => Some(x == y),
        (Some(_), Some(_)) => None,
        _ => Some(
            match (a, b) {
                (Value::Nil, Value::Nil) => true,
                (Value::Bool(x), Value::Bool(y)) => x == y,
                (Value::Sym(x), Value::Sym(y)) => x == y,
                _ => false,
            },
        ),
    }
}

/// [`eq`] as an instruction result: the boolean wrapped back into a [`Value`].
pub fn eq_op(a: Value, b: Value) -> (r: Result<Outcome, VmError>)
    ensures
        r == Ok::<Outcome, VmError>(equality(a, b, false)),
{
    match eq(a, b) {
        Some(t) => Ok(Outcome::Done(Value::Bool(t))),
        None => Ok(Outcome::NeedsFloat(FloatRequest::Binary { op: BinOp::Eq, lhs: a, rhs: b })),
    }
}

/// The negation of [`eq`] as an instruction result.
pub fn ne_op(a: Value, b: Value) -> (r: Result<Outcome, VmError>)
    ensures
        r == Ok::<Outcome, VmError>(equality(a, b, true)),
{
    match eq(a, b) {
        Some(t) => Ok(Outcome::Done(Value::Bool(!t))),
        None => Ok(Outcome::NeedsFloat(FloatRequest::Binary { op: BinOp::Ne, lhs: a, rhs: b })),
    }
}

/// Shared ordering core. A non-numeric operand is a type mismatch naming the
/// operation; two integers are ordered here; a float operand is handed back.
fn order(a: Value, b: Value, which: BinOp, op: &'static str) -> (r: Result<Outcome, VmError>)
    requires
        which is Lt || which is Le || which is Gt || which is Ge,
        op == op_name(which),
    ensures
        r == ordering(which, a, b),
{
    match nums(a, b, op)? {
        (Num::Int(x), Num::Int(y)) => {
            let holds = match which {
                BinOp::Lt => x < y,
                BinOp::Le => x <= y,
                BinOp::Gt => x > y,
                _ => x >= y,
            };
            Ok(Outcome::Done(Value::Bool(holds)))
        },
        _ => Ok(Outcome::NeedsFloat(FloatRequest::Binary { op: which, lhs: a, rhs: b })),
    }
}

/// `a < b` over numbers.
pub fn lt(a: Value, b: Value) -> (r: Result<Outcome, VmError>)
    ensures
        r == ordering(BinOp::Lt, a, b),
{
    order(a, b, BinOp::Lt, "lt")
}

/// `a <= b` over numbers.
pub fn le(a: Value, b: Value) -> (r: Result<Outcome, VmError>)
    ensures
        r == ordering(BinOp::Le, a, b),
{
    order(a, b, BinOp::Le, "le")
}

/// `a > b` over numbers.
pub fn gt(a: Value, b: Value) -> (r: Result<Outcome, VmError>)
    ensures
        r == ordering(BinOp::Gt, a, b),
{
    order(a, b, BinOp::Gt, "gt")
}

/// `a >= b` over numbers.
pub fn ge(a: Value, b: Value) -> (r: Result<Outcome, VmError>)
    ensures
        r == ordering(BinOp::Ge, a, b),
{
    order(a, b, BinOp::Ge, "ge")
}

/// Logical negation of a boolean. Any non-boolean operand is a type mismatch.
pub fn not(a: Value) -> (r: Result<Value, VmError>)
    ensures
        r == logical_not(a),
{
    match a {
        Value::Bool(b) => Ok(Value::Bool(!b)),
        _ => Err(VmError::TypeMismatch { op: "not" }),
    }
}

/// Read a boolean condition for a branch, naming `op` on a type mismatch.
pub fn cond(a: Value, op: &'static str) -> (r: Result<bool, VmError>)
    ensures
        r == condition(a, op),
{
    match a {
        Value::Bool(b) => Ok(b),
        _ => Err(VmError::TypeMismatch { op }),
    }
}

/// Evaluate any two-operand instruction kind on its operands.
pub fn binary(op: BinOp, a: Value, b: Value) -> (r: Result<Outcome, VmError>)
    ensures
        r == binary_result(op, a, b),
{
    match op {
        BinOp::Add => self::add(a, b),
        BinOp::Sub => self::sub(a, b),
        BinOp::Mul => self::mul(a, b),
        BinOp::Div => div(a, b),
        BinOp::Rem => rem(a, b),
        BinOp::Eq => eq_op(a, b),
        BinOp::Ne => ne_op(a, b),
        BinOp::Lt => lt(a, b),
        BinOp::Le => le(a, b),
        BinOp::Gt => gt(a, b),
        BinOp::Ge => ge(a, b),
    }
}

/// Equality is symmetric, including in when it must be settled with floats.
pub proof fn lemma_same_is_symmetric(a: Value, b: Value)
    ensures
        same(a, b) == same(b, a),
{
}

/// Every value that is not a float equals itself.
pub proof fn lemma_same_is_reflexive(a: Value)
    requires
        !(a is Float),
    ensures
        same(a, a) == Some(true),
{
}

/// `Ne` is the boolean negation of `Eq`: whenever one yields a boolean, the
/// other yields its negation, and both hand the same operands back otherwise.
pub proof fn lemma_ne_negates_eq(a: Value, b: Value)
    ensures
        binary_result(BinOp::Eq, a, b) matches Ok(Outcome::Done(Value::Bool(t)))
            ==> binary_result(BinOp::Ne, a, b) == Ok::<Outcome, VmError>(Outcome::Done(Value::Bool(!t))),
        binary_result(BinOp::Ne, a, b) matches Ok(Outcome::Done(Value::Bool(t)))
            ==> binary_result(BinOp::Eq, a, b) == Ok::<Outcome, VmError>(Outcome::Done(Value::Bool(!t))),
        binary_result(BinOp::Eq, a, b) is Ok,
        binary_result(BinOp::Ne, a, b) is Ok,
{
}

/// Integer `Div` and `Rem` agree with each other and with arithmetic: for a
/// nonzero divisor (outside the one overflowing pair `i32::MIN` and `-1`), `Div`
/// yields `q` and `Rem` yields `r` with `q * y + r == x`, the remainder smaller
/// in magnitude than the divisor and never of the opposite sign to the dividend
/// (which fixes both to Rust's truncating division).
pub proof fn lemma_div_rem_agree(x: i32, y: i32)
    requires
        y != 0,
        !(x == i32::MIN && y == -1),
    ensures
        arith(BinOp::Div, Value::Int(x), Value::Int(y)) matches Ok(Outcome::Done(Value::Int(q)))
            && arith(BinOp::Rem, Value::Int(x), Value::Int(y)) matches Ok(Outcome::Done(Value::Int(r)))
            && q * y + r == x
            && abs(r as int) < abs(y as int)
            && (x >= 0 ==> r >= 0)
            && (x < 0 ==> r <= 0),
{
    let ax = abs(x as int);
    let ay = abs(y as int);
    let q0 = ax / ay;
    let r0 = ax % ay;
    vstd::arithmetic::div_mod::lemma_fundamental_div_mod(ax as int, ay as int);
    assert(ay * q0 + r0 == ax);
    assert(0 <= r0 < ay);
    assert(q0 * ay == ay * q0) by (nonlinear_arith);
    let q = trunc_div(x as int, y as int);
    let r = trunc_rem(x as int, y as int);
    vstd::arithmetic::mul::lemma_mul_unary_negation(q0 as int, ay as int);
    if y < 0 {
        assert(y == -(ay as int));
        if x < 0 {
            assert(q == q0);
        } else {
            assert(q == -(q0 as int));
            vstd::arithmetic::mul::lemma_mul_unary_negation(q0 as int, -(ay as int));
        }
    } else {
        assert(y == ay);
    }
    assert(q * y + r == x);
    assert(q0 * ay <= ax);
    assert(q0 <= ax) by (nonlinear_arith)
        requires q0 * ay <= ax, ay >= 1, q0 >= 0;
    if ay >= 2 {
        assert(2 * q0 <= ax) by (nonlinear_arith)
            requires q0 * ay <= ax, ay >= 2, q0 >= 0;
    }
    assert(i32::MIN <= q <= i32::MAX);
    assert(i32::MIN <= r <= i32::MAX);
    assert(abs(r) < abs(y as int));
}

/// Integer `Add`, `Sub` and `Mul` give the exact mathematical result whenever it
/// fits in `i32`, and `IntegerOverflow` exactly when it does not.
pub proof fn lemma_int_arith_is_exact(x: i32, y: i32)
    ensures
        arith(BinOp::Add, Value::Int(x), Value::Int(y)) matches Ok(Outcome::Done(Value::Int(r)))
            ==> r == x + y,
        arith(BinOp::Sub, Value::Int(x), Value::Int(y)) matches Ok(Outcome::Done(Value::Int(r)))
            ==> r == x - y,
        arith(BinOp::Mul, Value::Int(x), Value::Int(y)) matches Ok(Outcome::Done(Value::Int(r)))
            ==> r == x * y,
        (i32::MIN <= x + y <= i32::MAX) == (arith(BinOp::Add, Value::Int(x), Value::Int(y)) is Ok),
        (i32::MIN <= x - y <= i32::MAX) == (arith(BinOp::Sub, Value::Int(x), Value::Int(y)) is Ok),
        (i32::MIN <= x * y <= i32::MAX) == (arith(BinOp::Mul, Value::Int(x), Value::Int(y)) is Ok),
        arith(BinOp::Add, Value::Int(x), Value::Int(y)) is Ok
            || arith(BinOp::Add, Value::Int(x), Value::Int(y)) == Err::<Outcome, VmError>(VmError::IntegerOverflow),
        arith(BinOp::Sub, Value::Int(x), Value::Int(y)) is Ok
            || arith(BinOp::Sub, Value::Int(x), Value::Int(y)) == Err::<Outcome, VmError>(VmError::IntegerOverflow),
        arith(BinOp::Mul, Value::Int(x), Value::Int(y)) is Ok
            || arith(BinOp::Mul, Value::Int(x), Value::Int(y)) == Err::<Outcome, VmError>(VmError::IntegerOverflow),
        arith(BinOp::Add, Value::Int(x), Value::Int(y)) == arith(BinOp::Add, Value::Int(y), Value::Int(x)),
        arith(BinOp::Mul, Value::Int(x), Value::Int(y)) == arith(BinOp::Mul, Value::Int(y), Value::Int(x)),
{
    assert(x * y == y * x) by (nonlinear_arith);
}

/// Integer division and remainder by zero fail with `DivideByZero`, and the one
/// quotient outside `i32`, `i32::MIN / -1`, fails with `IntegerOverflow` (as does
/// its remainder).
pub proof fn lemma_int_div_rem_faults(x: i32)
    ensures
        arith(BinOp::Div, Value::Int(x), Value::Int(0)) == Err::<Outcome, VmError>(VmError::DivideByZero),
        arith(BinOp::Rem, Value::Int(x), Value::Int(0)) == Err::<Outcome, VmError>(VmError::DivideByZero),
        arith(BinOp::Div, Value::Int(i32::MIN), Value::Int(-1i32)) == Err::<Outcome, VmError>(VmError::IntegerOverflow),
        arith(BinOp::Rem, Value::Int(i32::MIN), Value::Int(-1i32)) == Err::<Outcome, VmError>(VmError::IntegerOverflow),
{
}

/// Integer negation yields the additive inverse: for every `i` other than
/// `i32::MIN` the result `j` has `i + j == 0`, negating twice gives `i` back,
/// and in every case it is the same as `0 - i` (so `i32::MIN` overflows).
pub proof fn lemma_negation_is_additive_inverse(i: i32)
    ensures
        negation(Value::Int(i)) == arith(BinOp::Sub, Value::Int(0), Value::Int(i)),
        i != i32::MIN ==> (negation(Value::Int(i)) matches Ok(Outcome::Done(Value::Int(j)))
            && i + j == 0
            && negation(Value::Int(j)) == Ok::<Outcome, VmError>(Outcome::Done(Value::Int(i)))),
        negation(Value::Int(i32::MIN)) == Err::<Outcome, VmError>(VmError::IntegerOverflow),
{
}

/// On integers the four ordering operations are the mathematical order; `Gt`
/// is `Lt` with its operands swapped, `Ge` likewise of `Le`, `Le` is the
/// negation of `Gt` and `Ge` of `Lt`, and no integer is less or greater than
/// itself.
pub proof fn lemma_int_ordering(x: i32, y: i32)
    ensures
        ordering(BinOp::Lt, Value::Int(x), Value::Int(y)) == Ok::<Outcome, VmError>(Outcome::Done(Value::Bool(x < y))),
        ordering(BinOp::Le, Value::Int(x), Value::Int(y)) == Ok::<Outcome, VmError>(Outcome::Done(Value::Bool(x <= y))),
        ordering(BinOp::Gt, Value::Int(x), Value::Int(y)) == Ok::<Outcome, VmError>(Outcome::Done(Value::Bool(x > y))),
        ordering(BinOp::Ge, Value::Int(x), Value::Int(y)) == Ok::<Outcome, VmError>(Outcome::Done(Value::Bool(x >= y))),
        ordering(BinOp::Gt, Value::Int(x), Value::Int(y)) == ordering(BinOp::Lt, Value::Int(y), Value::Int(x)),
        ordering(BinOp::Ge, Value::Int(x), Value::Int(y)) == ordering(BinOp::Le, Value::Int(y), Value::Int(x)),
        ordering(BinOp::Le, Value::Int(x), Value::Int(y)) matches Ok(Outcome::Done(Value::Bool(le)))
            && ordering(BinOp::Gt, Value::Int(x), Value::Int(y)) matches Ok(Outcome::Done(Value::Bool(gt)))
            && le == !gt,
        ordering(BinOp::Ge, Value::Int(x), Value::Int(y)) matches Ok(Outcome::Done(Value::Bool(ge)))
            && ordering(BinOp::Lt, Value::Int(x), Value::Int(y)) matches Ok(Outcome::Done(Value::Bool(lt)))
            && ge == !lt,
        ordering(BinOp::Lt, Value::Int(x), Value::Int(x)) == Ok::<Outcome, VmError>(Outcome::Done(Value::Bool(false))),
        ordering(BinOp::Gt, Value::Int(x), Value::Int(x)) == Ok::<Outcome, VmError>(Outcome::Done(Value::Bool(false))),
{
}

/// An ordering with an operand that is not a number is a type mismatch naming
/// the operation; with a float operand it is handed back unchanged.
pub proof fn lemma_ordering_operands(op: BinOp, a: Value, b: Value)
    requires
        op is Lt || op is Le || op is Gt || op is Ge,
    ensures
        !(is_number(a) && is_number(b)) ==> ordering(op, a, b) == Err::<Outcome, VmError>(VmError::TypeMismatch {
            op: if op is Lt { "lt" } else if op is Le { "le" } else if op is Gt { "gt" } else { "ge" },
        }),
        is_number(a) && is_number(b) && (a is Float || b is Float)
            ==> ordering(op, a, b) == Ok::<Outcome, VmError>(Outcome::NeedsFloat(FloatRequest::Binary { op, lhs: a, rhs: b })),
{
}

/// Equality of two values neither of which is a float is identity: `Eq` yields
/// `true` exactly when they are the same value (so never across kinds), and
/// `Ne` yields the opposite. A float against a non-number is never equal; a
/// float against a number is handed back.
pub proof fn lemma_equality_is_identity(a: Value, b: Value)
    ensures
        !(a is Float) && !(b is Float) ==> same(a, b) == Some(a == b),
        !(a is Float) && !(b is Float) ==> binary_result(BinOp::Eq, a, b)
            == Ok::<Outcome, VmError>(Outcome::Done(Value::Bool(a == b))),
        !(a is Float) && !(b is Float) ==> binary_result(BinOp::Ne, a, b)
            == Ok::<Outcome, VmError>(Outcome::Done(Value::Bool(a != b))),
        (a is Float && !is_number(b)) || (b is Float && !is_number(a)) ==> same(a, b) == Some(false),
        is_number(a) && is_number(b) && (a is Float || b is Float) ==> same(a, b) is None,
{
}

/// `Not` flips a boolean and negating twice gives it back; any other operand is
/// a type mismatch. A branch condition is the boolean itself.
pub proof fn lemma_logic(v: Value, b: bool, op: &'static str)
    ensures
        logical_not(Value::Bool(b)) == Ok::<Value, VmError>(Value::Bool(!b)),
        logical_not(Value::Bool(!b)) == Ok::<Value, VmError>(Value::Bool(b)),
        !(v is Bool) ==> logical_not(v) == Err::<Value, VmError>(VmError::TypeMismatch { op: "not" }),
        condition(Value::Bool(b), op) == Ok::<bool, VmError>(b),
        !(v is Bool) ==> condition(v, op) == Err::<bool, VmError>(VmError::TypeMismatch { op }),
{
}

/// Arithmetic with an operand that is not a number is a type mismatch naming
/// the operation (`"add"`, `"sub"`, `"mul"`, `"div"`, `"rem"`); with a float
/// operand the operation is handed back with its operands in order.
pub proof fn lemma_arith_operands(a: Value, b: Value)
    ensures
        !(is_number(a) && is_number(b)) ==> {
            &&& arith(BinOp::Add, a, b) == Err::<Outcome, VmError>(VmError::TypeMismatch { op: "add" })
            &&& arith(BinOp::Sub, a, b) == Err::<Outcome, VmError>(VmError::TypeMismatch { op: "sub" })
            &&& arith(BinOp::Mul, a, b) == Err::<Outcome, VmError>(VmError::TypeMismatch { op: "mul" })
            &&& arith(BinOp::Div, a, b) == Err::<Outcome, VmError>(VmError::TypeMismatch { op: "div" })
            &&& arith(BinOp::Rem, a, b) == Err::<Outcome, VmError>(VmError::TypeMismatch { op: "rem" })
            &&& negation(a) is Err || negation(b) is Err
        },
        is_number(a) && is_number(b) && (a is Float || b is Float) ==> {
            &&& arith(BinOp::Add, a, b) == Ok::<Outcome, VmError>(Outcome::NeedsFloat(FloatRequest::Binary { op: BinOp::Add, lhs: a, rhs: b }))
            &&& arith(BinOp::Sub, a, b) == Ok::<Outcome, VmError>(Outcome::NeedsFloat(FloatRequest::Binary { op: BinOp::Sub, lhs: a, rhs: b }))
            &&& arith(BinOp::Mul, a, b) == Ok::<Outcome, VmError>(Outcome::NeedsFloat(FloatRequest::Binary { op: BinOp::Mul, lhs: a, rhs: b }))
            &&& arith(BinOp::Div, a, b) == Ok::<Outcome, VmError>(Outcome::NeedsFloat(FloatRequest::Binary { op: BinOp::Div, lhs: a, rhs: b }))
            &&& arith(BinOp::Rem, a, b) == Ok::<Outcome, VmError>(Outcome::NeedsFloat(FloatRequest::Binary { op: BinOp::Rem, lhs: a, rhs: b }))
        },
        !is_number(a) ==> negation(a) == Err::<Outcome, VmError>(VmError::TypeMismatch { op: "neg" }),
        a is Float ==> negation(a) == Ok::<Outcome, VmError>(Outcome::NeedsFloat(FloatRequest::Negate { operand: a })),
{
}

} // verus!
