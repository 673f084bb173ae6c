//! Execution failures raised by the interpreter.
//!
//! Bytecode is treated as untrusted: a malformed program (an out-of-range
//! register, a jump past the end of the code, a constant index that does not
//! exist) is reported as a [`VmError`] rather than a panic. Runtime faults from
//! otherwise well-formed code (a type mismatch, a division by zero, integer
//! overflow) surface the same way.

use vstd::prelude::*;

verus! {

/// An error raised while executing a [`Chunk`](crate::Chunk).
#[derive(Debug, Clone, PartialEq, Eq)]
#[non_exhaustive]
pub enum VmError {
    /// An operation received an operand of the wrong kind; `op` names it.
    TypeMismatch { op: &'static str },
    /// Integer division or remainder with a zero divisor.
    DivideByZero,
    /// A checked integer operation overflowed its 32-bit range.
    IntegerOverflow,
    /// A register index addressed a slot outside the register file.
    BadRegister(u16),
    /// A `LoadConst` referenced a constant-pool slot that does not exist.
    BadConstant(u16),
    /// Control reached an instruction index outside the code array.
    BadJump(u32),
    /// Execution reached the end of the code without a `Return` or `Halt`.
    NoTerminator,
}

/// The decimal digits of `n`, most significant first, with no leading zeros.
pub open spec fn decimal(n: nat) -> Seq<char>
    decreases n,
{
    if n < 10 {
        seq![digit_char(n)]
    } else {
        decimal(n / 10) + seq![digit_char(n % 10)]
    }
}

/// The ASCII character of a single decimal digit.
pub open spec fn digit_char(d: nat) -> char {
    if d == 0 { '0' } else if d == 1 { '1' } else if d == 2 { '2' } else if d == 3 { '3' }
    else if d == 4 { '4' } else if d == 5 { '5' } else if d == 6 { '6' } else if d == 7 { '7' }
    else if d == 8 { '8' } else { '9' }
}

/// The human-readable description of an error.
pub open spec fn message(e: VmError) -> Seq<char> {
    match e {
        VmError::TypeMismatch { op } => "type mismatch: `"@ + op@
            + "` received an operand of the wrong kind"@,
        VmError::DivideByZero => "integer division or remainder by zero"@,
        VmError::IntegerOverflow => "integer arithmetic overflowed the 32-bit range"@,
        VmError::BadRegister(r) => "register index "@ + decimal(r as nat)
            + " is outside the register file"@,
        VmError::BadConstant(c) => "constant index "@ + decimal(c as nat) + " does not exist"@,
        VmError::BadJump(t) => "branch target "@ + decimal(t as nat) + " is outside the code"@,
        VmError::NoTerminator => "execution reached the end of the code without a return or halt"@,
    }
}

/// The one-character text of a decimal digit.
fn digit_text(d: u32) -> (t: &'static str)
    requires
        d < 10,
    ensures
        t@ == seq![digit_char(d as nat)],
{
    proof {
        reveal_strlit("0");
        reveal_strlit("1");
        reveal_strlit("2");
        reveal_strlit("3");
        reveal_strlit("4");
        reveal_strlit("5");
        reveal_strlit("6");
        reveal_strlit("7");
        reveal_strlit("8");
        reveal_strlit("9");
    }
    let t = if d == 0 {
        "0"
    } else if d == 1 {
        "1"
    } else if d == 2 {
        "2"
    } else if d == 3 {
        "3"
    } else if d == 4 {
        "4"
    } else if d == 5 {
        "5"
    } else if d == 6 {
        "6"
    } else if d == 7 {
        "7"
    } else if d == 8 {
        "8"
    } else {
        "9"
    };
    proof {
        assert(t@ =~= seq![digit_char(d as nat)]);
    }
    t
}

/// Append the decimal digits of `n` to `s`.
fn push_decimal(s: &mut String, n: u32)
    ensures
        final(s)@ == old(s)@ + decimal(n as nat),
    decreases n,
{
    if n >= 10 {
        push_decimal(s, n / 10);
    }
    s.append(digit_text(n % 10));
    assert(s@ =~= old(s)@ + decimal(n as nat));
}

impl VmError {
    /// The error's message, naming the faulting operation or index.
    pub fn to_string(&self) -> (s: String)
        ensures
            s@ == message(*self),
    {
        match self {
            VmError::TypeMismatch { op } => {
                let mut s = String::from_str("type mismatch: `");
                s.append(op);
                s.append("` received an operand of the wrong kind");
                s
            },
            VmError::DivideByZero => String::from_str("integer division or remainder by zero"),
            VmError::IntegerOverflow => String::from_str(
                "integer arithmetic overflowed the 32-bit range",
            ),
            VmError::BadRegister(r) => {
                let mut s = String::from_str("register index ");
                push_decimal(&mut s, *r as u32);
                s.append(" is outside the register file");
                s
            },
            VmError::BadConstant(c) => {
                let mut s = String::from_str("constant index ");
                push_decimal(&mut s, *c as u32);
                s.append(" does not exist");
                s
            },
            VmError::BadJump(t) => {
                let mut s = String::from_str("branch target ");
                push_decimal(&mut s, *t);
                s.append(" is outside the code");
                s
            },
            VmError::NoTerminator => String::from_str(
                "execution reached the end of the code without a return or halt",
            ),
        }
    }
}

/// A type-mismatch message names the operation that rejected its operand: the
/// operation's name occurs in the message, right after its opening text.
pub proof fn lemma_mismatch_message_names_op(op: &'static str)
    ensures
        ({
            let m = message(VmError::TypeMismatch { op });
            let start = "type mismatch: `"@.len() as int;
            m.subrange(start, start + op@.len()) == op@
        }),
{
    let m = message(VmError::TypeMismatch { op });
    let start = "type mismatch: `"@.len() as int;
    assert(m.subrange(start, start + op@.len()) =~= op@);
}

} // verus!
