//! The instruction set executed by the VM.
//!
//! Every instruction names the registers it reads and writes explicitly. Each
//! [`Op`] is a fixed-size, already-decoded value; a program is a slice of them.

use vstd::prelude::*;

verus! {

/// A register index.
pub type Reg = u16;

/// A constant-pool index.
pub type Const = u16;

/// An absolute instruction address within a chunk's code array.
pub type Addr = u32;

/// A single decoded instruction.
#[derive(Debug, Clone, Copy, PartialEq, Eq, Structural)]
#[non_exhaustive]
pub enum Op {
    /// Copy the value in `src` into `dst`.
    Move { dst: Reg, src: Reg },
    /// Load the constant at pool position `konst` into `dst`.
    LoadConst { dst: Reg, konst: Const },
    /// Load `nil` into `dst`.
    LoadNil { dst: Reg },
    /// Load the boolean `val` into `dst`.
    LoadBool { dst: Reg, val: bool },
    /// Load the 32-bit integer immediate `val` into `dst`.
    LoadInt { dst: Reg, val: i32 },
    /// `dst = lhs + rhs` (integer add is overflow-checked).
    Add { dst: Reg, lhs: Reg, rhs: Reg },
    /// `dst = lhs - rhs` (integer subtract is overflow-checked).
    Sub { dst: Reg, lhs: Reg, rhs: Reg },
    /// `dst = lhs * rhs` (integer multiply is overflow-checked).
    Mul { dst: Reg, lhs: Reg, rhs: Reg },
    /// `dst = lhs / rhs` (integer divide-by-zero is an error).
    Div { dst: Reg, lhs: Reg, rhs: Reg },
    /// `dst = lhs % rhs` (integer remainder-by-zero is an error).
    Rem { dst: Reg, lhs: Reg, rhs: Reg },
    /// `dst = -src` (integer negation is overflow-checked).
    Neg { dst: Reg, src: Reg },
    /// `dst = (lhs == rhs)` as a boolean.
    Eq { dst: Reg, lhs: Reg, rhs: Reg },
    /// `dst = (lhs != rhs)`, the negation of [`Op::Eq`].
    Ne { dst: Reg, lhs: Reg, rhs: Reg },
    /// `dst = (lhs < rhs)` (numeric operands only).
    Lt { dst: Reg, lhs: Reg, rhs: Reg },
    /// `dst = (lhs <= rhs)` (numeric operands only).
    Le { dst: Reg, lhs: Reg, rhs: Reg },
    /// `dst = (lhs > rhs)` (numeric operands only).
    Gt { dst: Reg, lhs: Reg, rhs: Reg },
    /// `dst = (lhs >= rhs)` (numeric operands only).
    Ge { dst: Reg, lhs: Reg, rhs: Reg },
    /// `dst = !src`; `src` must be a boolean.
    Not { dst: Reg, src: Reg },
    /// Unconditionally continue at `target`.
    Jump { target: Addr },
    /// Continue at `target` when `cond` holds `true`; `cond` must be a boolean.
    JumpIfTrue { cond: Reg, target: Addr },
    /// Continue at `target` when `cond` holds `false`; `cond` must be a boolean.
    JumpIfFalse { cond: Reg, target: Addr },
    /// Stop and yield the value in `src`.
    Return { src: Reg },
    /// Stop and yield `nil`.
    Halt,
}

/// The registers an instruction names, read or written, in field order.
pub open spec fn named_registers(op: Op) -> Seq<u16> {
    match op {
        Op::Move { dst, src } | Op::Neg { dst, src } | Op::Not { dst, src } => seq![dst, src],
        Op::LoadConst { dst, .. } | Op::LoadNil { dst } | Op::LoadBool { dst, .. }
        | Op::LoadInt { dst, .. } => seq![dst],
        Op::Add { dst, lhs, rhs } | Op::Sub { dst, lhs, rhs } | Op::Mul { dst, lhs, rhs }
        | Op::Div { dst, lhs, rhs } | Op::Rem { dst, lhs, rhs } | Op::Eq { dst, lhs, rhs }
        | Op::Ne { dst, lhs, rhs } | Op::Lt { dst, lhs, rhs } | Op::Le { dst, lhs, rhs }
        | Op::Gt { dst, lhs, rhs } | Op::Ge { dst, lhs, rhs } => seq![dst, lhs, rhs],
        Op::JumpIfTrue { cond, .. } | Op::JumpIfFalse { cond, .. } => seq![cond],
        Op::Return { src } => seq![src],
        Op::Jump { .. } | Op::Halt => seq![],
    }
}

/// The largest element of a sequence of register indices (zero when empty).
pub open spec fn largest(s: Seq<u16>) -> u16
    decreases s.len(),
{
    if s.len() == 0 {
        0
    } else {
        let rest = largest(s.drop_last());
        if s.last() > rest {
            s.last()
        } else {
            rest
        }
    }
}

/// The highest register an instruction names, or `None` when it names none.
pub open spec fn highest_register(op: Op) -> Option<u16> {
    let named = named_registers(op);
    if named.len() == 0 {
        None
    } else {
        Some(largest(named))
    }
}

/// How many register slots an instruction needs: one more than its highest
/// register, saturating at `u16::MAX`, or zero when it names none.
pub open spec fn slots_needed(op: Op) -> u16 {
    match highest_register(op) {
        Some(top) => if top < u16::MAX {
            (top + 1) as u16
        } else {
            u16::MAX
        },
        None => 0,
    }
}

/// `largest` is an upper bound of every element, and is one of them when the
/// sequence is not empty.
pub proof fn lemma_largest_bounds(s: Seq<u16>)
    ensures
        forall|i: int| 0 <= i < s.len() ==> s[i] <= largest(s),
        s.len() > 0 ==> s.contains(largest(s)),
    decreases s.len(),
{
    if s.len() > 0 {
        lemma_largest_bounds(s.drop_last());
        assert(forall|i: int| 0 <= i < s.len() - 1 ==> s[i] == s.drop_last()[i]);
        if largest(s) == s.last() {
            assert(s[s.len() - 1] == largest(s));
        } else {
            let w = choose|j: int| 0 <= j < s.drop_last().len() && s.drop_last()[j] == largest(s.drop_last());
            assert(s[w] == largest(s));
        }
    }
}

fn larger(a: u16, b: u16) -> (r: u16)
    ensures
        r == (if b > a { b } else { a }),
{
    if b > a {
        b
    } else {
        a
    }
}

/// The highest register index an instruction names, or `None` if it names none
/// (`Jump`, `Halt`).
pub fn max_register(op: Op) -> (r: Option<u16>)
    ensures
        r == highest_register(op),
{
    proof {
        reveal_with_fuel(largest, 4);
    }
    match op {
        Op::Move { dst, src } | Op::Neg { dst, src } | Op::Not { dst, src } => {
            assert(seq![dst, src].drop_last() =~= seq![dst]);
            assert(seq![dst].drop_last() =~= Seq::<u16>::empty());
            Some(larger(dst, src))
        },
        Op::LoadConst { dst, .. } | Op::LoadNil { dst } | Op::LoadBool { dst, .. }
        | Op::LoadInt { dst, .. } => {
            assert(seq![dst].drop_last() =~= Seq::<u16>::empty());
            Some(dst)
        },
        Op::Add { dst, lhs, rhs } | Op::Sub { dst, lhs, rhs } | Op::Mul { dst, lhs, rhs }
        | Op::Div { dst, lhs, rhs } | Op::Rem { dst, lhs, rhs } | Op::Eq { dst, lhs, rhs }
        | Op::Ne { dst, lhs, rhs } | Op::Lt { dst, lhs, rhs } | Op::Le { dst, lhs, rhs }
        | Op::Gt { dst, lhs, rhs } | Op::Ge { dst, lhs, rhs } => {
            assert(seq![dst, lhs, rhs].drop_last() =~= seq![dst, lhs]);
            assert(seq![dst, lhs].drop_last() =~= seq![dst]);
            assert(seq![dst].drop_last() =~= Seq::<u16>::empty());
            Some(larger(larger(dst, lhs), rhs))
        },
        Op::JumpIfTrue { cond, .. } | Op::JumpIfFalse { cond, .. } | Op::Return { src: cond } => {
            assert(seq![cond].drop_last() =~= Seq::<u16>::empty());
            Some(cond)
        },
        Op::Jump { .. } | Op::Halt => None,
    }
}

} // verus!
