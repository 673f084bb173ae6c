//! The runtime value every register holds.
//!
//! A [`Value`] is `nil`, a boolean, a 32-bit integer, a float, or an interned
//! symbol handle. A float is carried by its IEEE-754 bit pattern: the VM moves,
//! stores and compares kinds of values itself, and hands every computation on a
//! float back to its caller (see [`FloatRequest`](crate::FloatRequest)).
//!
//! Equality follows IEEE-754 for two floats (`NaN` equals nothing, `0.0`
//! equals `-0.0`) and identity for everything else.

use vstd::prelude::*;

verus! {

/// A runtime value.
#[derive(Debug, Clone, Copy)]
pub enum Value {
    /// The unit value.
    Nil,
    /// A boolean.
    Bool(bool),
    /// A 32-bit signed integer.
    Int(i32),
    /// A double-precision float, held as its IEEE-754 bit pattern.
    Float(u64),
    /// An interned symbol, held as its 32-bit id.
    Sym(u32),
}

/// The bit pattern is a `NaN`: exponent all ones, mantissa not zero.
pub open spec fn is_nan_bits(x: u64) -> bool {
    (x & 0x7ff0_0000_0000_0000u64) == 0x7ff0_0000_0000_0000u64
        && (x & 0x000f_ffff_ffff_ffffu64) != 0
}

/// The bit pattern is `0.0` or `-0.0`.
pub open spec fn is_zero_bits(x: u64) -> bool {
    (x & 0x7fff_ffff_ffff_ffffu64) == 0
}

/// IEEE-754 equality of two doubles given by their bit patterns: `NaN` equals
/// nothing, the two zeros are equal, and otherwise equal means the same bits.
pub open spec fn float_bits_equal(x: u64, y: u64) -> bool {
    !is_nan_bits(x) && !is_nan_bits(y) && (x == y || (is_zero_bits(x) && is_zero_bits(y)))
}

/// Equality of values: IEEE-754 for two floats, identity for everything else.
pub open spec fn value_equal(a: Value, b: Value) -> bool {
    match (a, b) {
        (Value::Float(x), Value::Float(y)) => float_bits_equal(x, y),
        _ => a == b,
    }
}

impl PartialEq for Value {
    fn eq(&self, other: &Value) -> (r: bool) {
        match (*self, *other) {
            (Value::Float(x), Value::Float(y)) => {
                let x_nan = (x & 0x7ff0_0000_0000_0000u64) == 0x7ff0_0000_0000_0000u64
                    && (x & 0x000f_ffff_ffff_ffffu64) != 0;
                let y_nan = (y & 0x7ff0_0000_0000_0000u64) == 0x7ff0_0000_0000_0000u64
                    && (y & 0x000f_ffff_ffff_ffffu64) != 0;
                let both_zero = (x & 0x7fff_ffff_ffff_ffffu64) == 0
                    && (y & 0x7fff_ffff_ffff_ffffu64) == 0;
                !x_nan && !y_nan && (x == y || both_zero)
            },
            (Value::Nil, Value::Nil) => true,
            (Value::Bool(x), Value::Bool(y)) => x == y,
            (Value::Int(x), Value::Int(y)) => x == y,
            (Value::Sym(x), Value::Sym(y)) => x == y,
            _ => false,
        }
    }
}

impl vstd::std_specs::cmp::PartialEqSpecImpl for Value {
    open spec fn obeys_eq_spec() -> bool {
        true
    }

    open spec fn eq_spec(&self, other: &Value) -> bool {
        value_equal(*self, *other)
    }
}

impl Value {
    /// The integer, or `None` if this value is not an integer.
    pub fn as_int(&self) -> (r: Option<i32>)
        ensures
            r == (match *self {
                Value::Int(n) => Some(n),
                _ => None,
            }),
    {
        match *self {
            Value::Int(n) => Some(n),
            _ => None,
        }
    }

    /// The boolean, or `None` if this value is not a boolean.
    pub fn as_bool(&self) -> (r: Option<bool>)
        ensures
            r == (match *self {
                Value::Bool(b) => Some(b),
                _ => None,
            }),
    {
        match *self {
            Value::Bool(b) => Some(b),
            _ => None,
        }
    }

    /// The float's bit pattern, or `None` if this value is not a float.
    pub fn as_float_bits(&self) -> (r: Option<u64>)
        ensures
            r == (match *self {
                Value::Float(bits) => Some(bits),
                _ => None,
            }),
    {
        match *self {
            Value::Float(bits) => Some(bits),
            _ => None,
        }
    }

    /// Whether this value is `nil`.
    pub fn is_nil(&self) -> (r: bool)
        ensures
            r == (*self == Value::Nil),
    {
        match *self {
            Value::Nil => true,
            _ => false,
        }
    }
}

/// Value equality is IEEE-754 for floats: a `NaN` (exponent all ones, mantissa
/// not zero) equals nothing, not even itself; `0.0` equals `-0.0`; any other
/// float equals exactly itself. Values of other kinds are equal exactly when
/// identical, and a float never equals a value of another kind. It is
/// symmetric.
pub proof fn lemma_value_equality(a: Value, b: Value, x: u64, y: u64)
    ensures
        (x & 0x7ff0_0000_0000_0000u64) == 0x7ff0_0000_0000_0000u64 && (x & 0x000f_ffff_ffff_ffffu64) != 0
            ==> !value_equal(Value::Float(x), Value::Float(y)) && !value_equal(Value::Float(y), Value::Float(x)),
        !((x & 0x7ff0_0000_0000_0000u64) == 0x7ff0_0000_0000_0000u64 && (x & 0x000f_ffff_ffff_ffffu64) != 0)
            ==> value_equal(Value::Float(x), Value::Float(x)),
        value_equal(Value::Float(0u64), Value::Float(0x8000_0000_0000_0000u64)),
        (x & 0x7ff0_0000_0000_0000u64) != 0x7ff0_0000_0000_0000u64 && x != y
            && (x & 0x7fff_ffff_ffff_ffffu64) != 0 ==> !value_equal(Value::Float(x), Value::Float(y)),
        !(a is Float) || !(b is Float) ==> value_equal(a, b) == (a == b),
        value_equal(a, b) == value_equal(b, a),
{
    assert((0x8000_0000_0000_0000u64 & 0x7fff_ffff_ffff_ffffu64) == 0) by (bit_vector);
    assert((0u64 & 0x7fff_ffff_ffff_ffffu64) == 0) by (bit_vector);
    assert((0u64 & 0x7ff0_0000_0000_0000u64) != 0x7ff0_0000_0000_0000u64) by (bit_vector);
    assert((0x8000_0000_0000_0000u64 & 0x7ff0_0000_0000_0000u64) != 0x7ff0_0000_0000_0000u64) by (bit_vector);
}

} // verus!
