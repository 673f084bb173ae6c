//! The interpreter: a register file, a program counter, and the instruction
//! step that drives them.
//!
//! [`Vm::start`] resets the register file to `nil`, sized to the chunk, and sets
//! the program counter to the first instruction. [`Vm::step`] executes one
//! instruction. Every register, constant and branch access is checked, so a
//! malformed chunk yields a [`VmError`] instead of a panic. An instruction whose
//! operands involve a float stops with [`Step::NeedsFloat`]; the caller computes
//! the IEEE-754 result and hands it back with [`Vm::resume`], which stores it in
//! the instruction's destination register.

use crate::chunk::{avoids_top_register, lemma_sized_chunk_covers_operands, Chunk, ChunkModel};
use crate::error::VmError;
use crate::eval::{self, binary_result, condition, logical_not, negation, BinOp, FloatRequest, Outcome};
use crate::op::{named_registers, Op, Reg};
use crate::value::Value;
use vstd::prelude::*;

verus! {

/// A float computation the VM is waiting for, and the register it goes to.
#[derive(Debug, Clone, Copy, PartialEq)]
pub struct Pending {
    pub dst: Reg,
    pub request: FloatRequest,
}

/// What one step of execution produced.
#[derive(Debug, PartialEq)]
pub enum Step {
    /// The instruction completed; execution continues.
    Running,
    /// Execution stopped with the run's result: a `Return` value, `nil` from a
    /// `Halt`, or the fault that ended it.
    Finished(Result<Value, VmError>),
    /// The instruction needs a float computation; evaluate it and pass the
    /// result to [`Vm::resume`].
    NeedsFloat(FloatRequest),
}

/// A bytecode interpreter.
#[derive(Debug)]
pub struct Vm {
    registers: Vec<Value>,
    pc: usize,
    pending: Option<Pending>,
}

/// The abstract state of an interpreter.
pub struct VmModel {
    pub registers: Seq<Value>,
    pub pc: nat,
    pub pending: Option<Pending>,
}

impl View for Vm {
    type V = VmModel;

    closed spec fn view(&self) -> VmModel {
        VmModel { registers: self.registers@, pc: self.pc as nat, pending: self.pending }
    }
}

/// Reading register `r`: its value, or `BadRegister` outside the file.
pub open spec fn read(registers: Seq<Value>, r: u16) -> Result<Value, VmError> {
    if r < registers.len() {
        Ok(registers[r as int])
    } else {
        Err(VmError::BadRegister(r))
    }
}

/// Stopping with a fault; the state is left as it was.
pub open spec fn fault(s: VmModel, e: VmError) -> (VmModel, Step) {
    (s, Step::Finished(Err(e)))
}

/// Writing `v` into `dst` and moving to the next instruction.
pub open spec fn store(s: VmModel, dst: u16, v: Value) -> (VmModel, Step) {
    if dst < s.registers.len() {
        (
            VmModel { registers: s.registers.update(dst as int, v), pc: s.pc + 1, pending: None },
            Step::Running,
        )
    } else {
        fault(s, VmError::BadRegister(dst))
    }
}

/// Completing an instruction whose evaluation produced `outcome`: a fault
/// stops, a value is stored, and a float computation is awaited with the
/// program counter already on the next instruction.
pub open spec fn settle(s: VmModel, dst: u16, outcome: Result<Outcome, VmError>) -> (VmModel, Step) {
    match outcome {
        Err(e) => fault(s, e),
        Ok(Outcome::Done(v)) => store(s, dst, v),
        Ok(Outcome::NeedsFloat(request)) => (
            VmModel {
                registers: s.registers,
                pc: s.pc + 1,
                pending: Some(Pending { dst, request }),
            },
            Step::NeedsFloat(request),
        ),
    }
}

/// Continuing at `target`, or `BadJump` when it is outside the code.
pub open spec fn jump_to(c: ChunkModel, s: VmModel, target: u32) -> (VmModel, Step) {
    if target < c.code.len() {
        (VmModel { registers: s.registers, pc: target as nat, pending: s.pending }, Step::Running)
    } else {
        fault(s, VmError::BadJump(target))
    }
}

/// A conditional branch taken when the boolean in `cond` equals `when`.
pub open spec fn branch(
    c: ChunkModel,
    s: VmModel,
    cond: u16,
    target: u32,
    when: bool,
    name: &'static str,
) -> (VmModel, Step) {
    match read(s.registers, cond) {
        Err(e) => fault(s, e),
        Ok(v) => match condition(v, name) {
            Err(e) => fault(s, e),
            Ok(b) => if b == when {
                jump_to(c, s, target)
            } else {
                (VmModel { registers: s.registers, pc: s.pc + 1, pending: s.pending }, Step::Running)
            },
        },
    }
}

/// A two-operand instruction: read `lhs`, then `rhs`, evaluate, store in `dst`.
pub open spec fn binary_step(s: VmModel, op: BinOp, dst: u16, lhs: u16, rhs: u16) -> (VmModel, Step) {
    match read(s.registers, lhs) {
        Err(e) => fault(s, e),
        Ok(a) => match read(s.registers, rhs) {
            Err(e) => fault(s, e),
            Ok(b) => settle(s, dst, binary_result(op, a, b)),
        },
    }
}

/// The effect of executing instruction `op` in state `s`.
pub open spec fn execute(c: ChunkModel, s: VmModel, op: Op) -> (VmModel, Step) {
    match op {
        Op::Return { src } => (s, Step::Finished(read(s.registers, src))),
        Op::Halt => (s, Step::Finished(Ok(Value::Nil))),
        Op::Jump { target } => jump_to(c, s, target),
        Op::JumpIfTrue { cond, target } => branch(c, s, cond, target, true, "jump-if-true"),
        Op::JumpIfFalse { cond, target } => branch(c, s, cond, target, false, "jump-if-false"),
        Op::Move { dst, src } => match read(s.registers, src) {
            Err(e) => fault(s, e),
            Ok(v) => store(s, dst, v),
        },
        Op::LoadConst { dst, konst } => if konst < c.constants.len() {
            store(s, dst, c.constants[konst as int])
        } else {
            fault(s, VmError::BadConstant(konst))
        },
        Op::LoadNil { dst } => store(s, dst, Value::Nil),
        Op::LoadBool { dst, val } => store(s, dst, Value::Bool(val)),
        Op::LoadInt { dst, val } => store(s, dst, Value::Int(val)),
        Op::Add { dst, lhs, rhs } => binary_step(s, BinOp::Add, dst, lhs, rhs),
        Op::Sub { dst, lhs, rhs } => binary_step(s, BinOp::Sub, dst, lhs, rhs),
        Op::Mul { dst, lhs, rhs } => binary_step(s, BinOp::Mul, dst, lhs, rhs),
        Op::Div { dst, lhs, rhs } => binary_step(s, BinOp::Div, dst, lhs, rhs),
        Op::Rem { dst, lhs, rhs } => binary_step(s, BinOp::Rem, dst, lhs, rhs),
        Op::Eq { dst, lhs, rhs } => binary_step(s, BinOp::Eq, dst, lhs, rhs),
        Op::Ne { dst, lhs, rhs } => binary_step(s, BinOp::Ne, dst, lhs, rhs),
        Op::Lt { dst, lhs, rhs } => binary_step(s, BinOp::Lt, dst, lhs, rhs),
        Op::Le { dst, lhs, rhs } => binary_step(s, BinOp::Le, dst, lhs, rhs),
        Op::Gt { dst, lhs, rhs } => binary_step(s, BinOp::Gt, dst, lhs, rhs),
        Op::Ge { dst, lhs, rhs } => binary_step(s, BinOp::Ge, dst, lhs, rhs),
        Op::Neg { dst, src } => match read(s.registers, src) {
            Err(e) => fault(s, e),
            Ok(v) => settle(s, dst, negation(v)),
        },
        Op::Not { dst, src } => match read(s.registers, src) {
            Err(e) => fault(s, e),
            Ok(v) => match logical_not(v) {
                Err(e) => fault(s, e),
                Ok(r) => store(s, dst, r),
            },
        },
    }
}

/// One step of execution: re-announce an awaited float computation, fault when
/// control has left the code, or execute the instruction at the program counter.
pub open spec fn step_result(c: ChunkModel, s: VmModel) -> (VmModel, Step) {
    match s.pending {
        Some(p) => (s, Step::NeedsFloat(p.request)),
        None => if s.pc < c.code.len() {
            execute(c, s, c.code[s.pc as int])
        } else {
            fault(s, VmError::NoTerminator)
        },
    }
}

/// Delivering the result of an awaited float computation.
pub open spec fn resume_result(s: VmModel, answer: Value) -> (VmModel, Step) {
    match s.pending {
        None => (s, Step::Running),
        Some(p) => if p.dst < s.registers.len() {
            (
                VmModel {
                    registers: s.registers.update(p.dst as int, answer),
                    pc: s.pc,
                    pending: None,
                },
                Step::Running,
            )
        } else {
            (
                VmModel { registers: s.registers, pc: s.pc, pending: None },
                Step::Finished(Err(VmError::BadRegister(p.dst))),
            )
        },
    }
}

/// The state a run of chunk `c` starts in: every register `nil`, the file
/// sized to the chunk, at the first instruction, awaiting nothing.
pub open spec fn initial(c: ChunkModel) -> VmModel {
    VmModel {
        registers: Seq::new(c.registers as nat, |i: int| Value::Nil),
        pc: 0,
        pending: None,
    }
}

/// Up to `n` steps, stopping at the first step that is not [`Step::Running`];
/// `Running` when all `n` steps ran and execution continues.
pub open spec fn steps(c: ChunkModel, s: VmModel, n: nat) -> (VmModel, Step)
    decreases n,
{
    if n == 0 {
        (s, Step::Running)
    } else {
        let (next, st) = step_result(c, s);
        if st is Running {
            steps(c, next, (n - 1) as nat)
        } else {
            (next, st)
        }
    }
}

/// Validate a branch target against the code length: a target at or past the
/// end is a structural fault.
pub fn jump_target(target: u32, end: usize) -> (r: Result<usize, VmError>)
    ensures
        target < end ==> r == Ok::<usize, VmError>(target as usize),
        target >= end ==> r == Err::<usize, VmError>(VmError::BadJump(target)),
{
    let t = target as usize;
    if t >= end {
        Err(VmError::BadJump(target))
    } else {
        Ok(t)
    }
}

impl Vm {
    /// Create a VM with an empty register file.
    pub fn new() -> (vm: Vm)
        ensures
            vm@ == (VmModel { registers: Seq::empty(), pc: 0, pending: None }),
    {
        Vm { registers: Vec::new(), pc: 0, pending: None }
    }

    /// Create a VM whose register file is pre-allocated for at least
    /// `registers` slots; it holds no values yet.
    pub fn with_capacity(registers: u16) -> (vm: Vm)
        ensures
            vm@ == (VmModel { registers: Seq::empty(), pc: 0, pending: None }),
    {
        Vm { registers: Vec::with_capacity(registers as usize), pc: 0, pending: None }
    }

    /// Prepare to run `chunk` from its first instruction: the register file is
    /// reset to `nil` and sized to the chunk, so a run never observes residue
    /// from a previous one.
    pub fn start(&mut self, chunk: &Chunk)
        ensures
            final(self)@ == initial(chunk@),
    {
        self.registers.clear();
        let n = chunk.registers();
        let mut i: u16 = 0;
        while i < n
            invariant
                i <= n,
                n == chunk@.registers,
                self.registers@ == Seq::new(i as nat, |k: int| Value::Nil),
            decreases n - i,
        {
            self.registers.push(Value::Nil);
            i = i + 1;
            proof {
                assert(self.registers@ =~= Seq::new(i as nat, |k: int| Value::Nil));
            }
        }
        self.pc = 0;
        self.pending = None;
    }

    /// Read register `r`, or fault if it is outside the register file.
    fn get(&self, r: u16) -> (v: Result<Value, VmError>)
        ensures
            v == read(self@.registers, r),
    {
        if (r as usize) < self.registers.len() {
            Ok(self.registers[r as usize])
        } else {
            Err(VmError::BadRegister(r))
        }
    }

    /// Write `value` into register `r`, or fault (changing nothing) if it is
    /// outside the file.
    fn set(&mut self, r: u16, value: Value) -> (res: Result<(), VmError>)
        ensures
            r < old(self)@.registers.len() ==> res is Ok && final(self)@ == (VmModel {
                registers: old(self)@.registers.update(r as int, value),
                pc: old(self)@.pc,
                pending: old(self)@.pending,
            }),
            r >= old(self)@.registers.len() ==> res == Err::<(), VmError>(VmError::BadRegister(r))
                && final(self)@ == old(self)@,
    {
        if (r as usize) < self.registers.len() {
            self.registers.set(r as usize, value);
            Ok(())
        } else {
            Err(VmError::BadRegister(r))
        }
    }

    /// Store `v` in `dst` and advance.
    fn store(&mut self, dst: u16, v: Value) -> (s: Step)
        requires
            old(self).pc < usize::MAX,
            old(self)@.pending is None,
        ensures
            (final(self)@, s) == store(old(self)@, dst, v),
    {
        match self.set(dst, v) {
            Ok(()) => {
                self.pc = self.pc + 1;
                Step::Running
            },
            Err(e) => Step::Finished(Err(e)),
        }
    }

    /// Complete an instruction with its evaluation outcome.
    fn settle(&mut self, dst: u16, outcome: Result<Outcome, VmError>) -> (s: Step)
        requires
            old(self).pc < usize::MAX,
            old(self)@.pending is None,
        ensures
            (final(self)@, s) == settle(old(self)@, dst, outcome),
    {
        match outcome {
            Err(e) => Step::Finished(Err(e)),
            Ok(Outcome::Done(v)) => self.store(dst, v),
            Ok(Outcome::NeedsFloat(request)) => {
                self.pc = self.pc + 1;
                self.pending = Some(Pending { dst, request });
                Step::NeedsFloat(request)
            },
        }
    }

    /// Evaluate a three-address instruction: read both operands, apply `op`,
    /// store into `dst`.
    fn binop(&mut self, dst: u16, lhs: u16, rhs: u16, op: BinOp) -> (s: Step)
        requires
            old(self).pc < usize::MAX,
            old(self)@.pending is None,
        ensures
            (final(self)@, s) == binary_step(old(self)@, op, dst, lhs, rhs),
    {
        let a = match self.get(lhs) {
            Ok(a) => a,
            Err(e) => return Step::Finished(Err(e)),
        };
        let b = match self.get(rhs) {
            Ok(b) => b,
            Err(e) => return Step::Finished(Err(e)),
        };
        self.settle(dst, eval::binary(op, a, b))
    }

    /// Continue at `target` if it is inside the code.
    fn jump(&mut self, chunk: &Chunk, target: u32) -> (s: Step)
        ensures
            (final(self)@, s) == jump_to(chunk@, old(self)@, target),
    {
        match jump_target(target, chunk.len()) {
            Ok(t) => {
                self.pc = t;
                Step::Running
            },
            Err(e) => Step::Finished(Err(e)),
        }
    }

    /// A conditional branch on the boolean in `cond`, taken when it equals `when`.
    fn branch(&mut self, chunk: &Chunk, cond: u16, target: u32, when: bool, name: &'static str) -> (s: Step)
        requires
            old(self).pc < usize::MAX,
        ensures
            (final(self)@, s) == branch(chunk@, old(self)@, cond, target, when, name),
    {
        let v = match self.get(cond) {
            Ok(v) => v,
            Err(e) => return Step::Finished(Err(e)),
        };
        let b = match eval::cond(v, name) {
            Ok(b) => b,
            Err(e) => return Step::Finished(Err(e)),
        };
        if b == when {
            self.jump(chunk, target)
        } else {
            self.pc = self.pc + 1;
            Step::Running
        }
    }

    /// Execute one instruction of `chunk`.
    ///
    /// While a float computation is awaited, the same request is returned again
    /// and nothing changes. A program counter at or past the end of the code
    /// means control fell off the end without a terminator.
    pub fn step(&mut self, chunk: &Chunk) -> (s: Step)
        ensures
            (final(self)@, s) == step_result(chunk@, old(self)@),
    {
        if let Some(p) = self.pending {
            return Step::NeedsFloat(p.request);
        }
        if self.pc >= chunk.len() {
            return Step::Finished(Err(VmError::NoTerminator));
        }
        let op = chunk.code()[self.pc];
        match op {
            Op::Return { src } => Step::Finished(self.get(src)),
            Op::Halt => Step::Finished(Ok(Value::Nil)),
            Op::Jump { target } => self.jump(chunk, target),
            Op::JumpIfTrue { cond, target } => self.branch(chunk, cond, target, true, "jump-if-true"),
            Op::JumpIfFalse { cond, target } => self.branch(chunk, cond, target, false, "jump-if-false"),
            Op::Move { dst, src } => match self.get(src) {
                Ok(v) => self.store(dst, v),
                Err(e) => Step::Finished(Err(e)),
            },
            Op::LoadConst { dst, konst } => {
                let constants = chunk.constants();
                if (konst as usize) < constants.len() {
                    self.store(dst, constants[konst as usize])
                } else {
                    Step::Finished(Err(VmError::BadConstant(konst)))
                }
            },
            Op::LoadNil { dst } => self.store(dst, Value::Nil),
            Op::LoadBool { dst, val } => self.store(dst, Value::Bool(val)),
            Op::LoadInt { dst, val } => self.store(dst, Value::Int(val)),
            Op::Add { dst, lhs, rhs } => self.binop(dst, lhs, rhs, BinOp::Add),
            Op::Sub { dst, lhs, rhs } => self.binop(dst, lhs, rhs, BinOp::Sub),
            Op::Mul { dst, lhs, rhs } => self.binop(dst, lhs, rhs, BinOp::Mul),
            Op::Div { dst, lhs, rhs } => self.binop(dst, lhs, rhs, BinOp::Div),
            Op::Rem { dst, lhs, rhs } => self.binop(dst, lhs, rhs, BinOp::Rem),
            Op::Eq { dst, lhs, rhs } => self.binop(dst, lhs, rhs, BinOp::Eq),
            Op::Ne { dst, lhs, rhs } => self.binop(dst, lhs, rhs, BinOp::Ne),
            Op::Lt { dst, lhs, rhs } => self.binop(dst, lhs, rhs, BinOp::Lt),
            Op::Le { dst, lhs, rhs } => self.binop(dst, lhs, rhs, BinOp::Le),
            Op::Gt { dst, lhs, rhs } => self.binop(dst, lhs, rhs, BinOp::Gt),
            Op::Ge { dst, lhs, rhs } => self.binop(dst, lhs, rhs, BinOp::Ge),
            Op::Neg { dst, src } => match self.get(src) {
                Ok(v) => self.settle(dst, eval::neg(v)),
                Err(e) => Step::Finished(Err(e)),
            },
            Op::Not { dst, src } => match self.get(src) {
                Ok(v) => match eval::not(v) {
                    Ok(r) => self.store(dst, r),
                    Err(e) => Step::Finished(Err(e)),
                },
                Err(e) => Step::Finished(Err(e)),
            },
        }
    }

    /// Execute instructions of `chunk` until one stops execution or asks for a
    /// float computation, or until `budget` instructions have run; in the last
    /// case the result is [`Step::Running`] and execution can continue.
    pub fn run_steps(&mut self, chunk: &Chunk, budget: u64) -> (s: Step)
        ensures
            (final(self)@, s) == steps(chunk@, old(self)@, budget as nat),
    {
        let mut left = budget;
        while left > 0
            invariant
                steps(chunk@, old(self)@, budget as nat) == steps(chunk@, self@, left as nat),
            decreases left,
        {
            let st = self.step(chunk);
            match st {
                Step::Running => {},
                _ => return st,
            }
            left = left - 1;
        }
        Step::Running
    }

    /// Deliver the result of the awaited float computation: it is stored in the
    /// instruction's destination register (a fault if that register is outside
    /// the file). With nothing awaited, nothing changes.
    pub fn resume(&mut self, answer: Value) -> (s: Step)
        ensures
            (final(self)@, s) == resume_result(old(self)@, answer),
    {
        match self.pending {
            None => Step::Running,
            Some(p) => {
                self.pending = None;
                match self.set(p.dst, answer) {
                    Ok(()) => Step::Running,
                    Err(e) => Step::Finished(Err(e)),
                }
            },
        }
    }
}

impl Default for Vm {
    fn default() -> (vm: Vm)
        ensures
            vm@ == (VmModel { registers: Seq::empty(), pc: 0, pending: None }),
    {
        Vm::new()
    }
}

/// A state fits chunk `c`: the register file is exactly the chunk's width, and
/// an awaited float result is bound for a register inside it.
pub open spec fn fits(c: ChunkModel, s: VmModel) -> bool {
    &&& s.registers.len() == c.registers
    &&& s.pending matches Some(p) ==> p.dst < c.registers
}

/// Whether a step ended in a register fault.
pub open spec fn register_fault(st: Step) -> bool {
    st matches Step::Finished(Err(VmError::BadRegister(_)))
}

/// Every register named by the instruction at `i` is inside the file of a
/// chunk whose file is exactly as wide as its code needs.
proof fn lemma_operands_in_file(c: ChunkModel, i: int)
    requires
        c.sized(),
        avoids_top_register(c),
        0 <= i < c.code.len(),
    ensures
        forall|j: int| 0 <= j < named_registers(c.code[i]).len() ==> named_registers(c.code[i])[j] < c.registers,
{
    assert forall|j: int| 0 <= j < named_registers(c.code[i]).len() implies named_registers(c.code[i])[j] < c.registers by {
        let r = named_registers(c.code[i])[j];
        assert(named_registers(c.code[i]).contains(r));
        lemma_sized_chunk_covers_operands(c, i, r);
    }
}

/// Running a chunk assembled through the builder never addresses a register
/// outside its file: from any state that fits the chunk, a step neither raises
/// `BadRegister` nor leaves a state that does not fit. (The top index
/// `u16::MAX`, at which the automatic width saturates, is left out.)
pub proof fn lemma_sized_chunk_step_has_no_register_fault(c: ChunkModel, s: VmModel)
    requires
        c.sized(),
        avoids_top_register(c),
        fits(c, s),
    ensures
        !register_fault(step_result(c, s).1),
        fits(c, step_result(c, s).0),
{
    if s.pending is None && s.pc < c.code.len() {
        let i = s.pc as int;
        lemma_operands_in_file(c, i);
        let named = named_registers(c.code[i]);
        match c.code[i] {
            Op::Move { dst, src } | Op::Neg { dst, src } | Op::Not { dst, src } => {
                assert(named[0] == dst && named[1] == src);
            },
            Op::LoadConst { dst, .. } | Op::LoadNil { dst } | Op::LoadBool { dst, .. }
            | Op::LoadInt { dst, .. } => {
                assert(named[0] == dst);
            },
            Op::Add { dst, lhs, rhs } | Op::Sub { dst, lhs, rhs } | Op::Mul { dst, lhs, rhs }
            | Op::Div { dst, lhs, rhs } | Op::Rem { dst, lhs, rhs } | Op::Eq { dst, lhs, rhs }
            | Op::Ne { dst, lhs, rhs } | Op::Lt { dst, lhs, rhs } | Op::Le { dst, lhs, rhs }
            | Op::Gt { dst, lhs, rhs } | Op::Ge { dst, lhs, rhs } => {
                assert(named[0] == dst && named[1] == lhs && named[2] == rhs);
            },
            Op::JumpIfTrue { cond, .. } | Op::JumpIfFalse { cond, .. } | Op::Return { src: cond } => {
                assert(named[0] == cond);
            },
            Op::Jump { .. } | Op::Halt => {},
        }
    }
}

/// Delivering an awaited float result to a state that fits the chunk never
/// raises `BadRegister` and leaves a state that fits.
pub proof fn lemma_fitting_resume_has_no_register_fault(c: ChunkModel, s: VmModel, answer: Value)
    requires
        fits(c, s),
    ensures
        !register_fault(resume_result(s, answer).1),
        fits(c, resume_result(s, answer).0),
{
}

/// The state reached from `s` by a sequence of moves: `None` executes a step,
/// `Some(answer)` delivers a float result.
pub open spec fn drive(c: ChunkModel, s: VmModel, moves: Seq<Option<Value>>) -> VmModel
    decreases moves.len(),
{
    if moves.len() == 0 {
        s
    } else {
        let before = drive(c, s, moves.drop_last());
        match moves.last() {
            None => step_result(c, before).0,
            Some(answer) => resume_result(before, answer).0,
        }
    }
}

/// A chunk assembled through the builder can never address a register outside
/// its own file: however a run started on it is driven, by steps and by float
/// results, the state keeps fitting the chunk and neither the next step nor the
/// next float result raises `BadRegister`. (The top index `u16::MAX`, at which
/// the automatic width saturates, is left out.)
pub proof fn lemma_builder_chunk_never_faults_on_registers(c: ChunkModel, moves: Seq<Option<Value>>)
    requires
        c.sized(),
        avoids_top_register(c),
    ensures
        fits(c, drive(c, initial(c), moves)),
        !register_fault(step_result(c, drive(c, initial(c), moves)).1),
        forall|answer: Value| !register_fault(#[trigger] resume_result(drive(c, initial(c), moves), answer).1),
    decreases moves.len(),
{
    let s = drive(c, initial(c), moves);
    if moves.len() > 0 {
        lemma_builder_chunk_never_faults_on_registers(c, moves.drop_last());
        let before = drive(c, initial(c), moves.drop_last());
        match moves.last() {
            None => lemma_sized_chunk_step_has_no_register_fault(c, before),
            Some(answer) => lemma_fitting_resume_has_no_register_fault(c, before, answer),
        }
    }
    lemma_sized_chunk_step_has_no_register_fault(c, s);
    assert forall|answer: Value| !register_fault(#[trigger] resume_result(s, answer).1) by {
        lemma_fitting_resume_has_no_register_fault(c, s, answer);
    }
}

/// Running `m` steps and then `n` more is running `m + n` steps: a run split
/// into budgeted slices ends where one uninterrupted run ends.
pub proof fn lemma_steps_compose(c: ChunkModel, s: VmModel, m: nat, n: nat)
    ensures
        steps(c, s, m).1 is Running ==> steps(c, s, m + n) == steps(c, steps(c, s, m).0, n),
        !(steps(c, s, m).1 is Running) ==> steps(c, s, m + n) == steps(c, s, m),
    decreases m,
{
    if m > 0 {
        let (next, st) = step_result(c, s);
        if st is Running {
            lemma_steps_compose(c, next, (m - 1) as nat, n);
            assert((m + n - 1) as nat == ((m - 1) as nat + n) as nat);
        }
    }
}

/// The instruction at the program counter of a state that awaits nothing.
pub open spec fn current(c: ChunkModel, s: VmModel) -> Option<Op> {
    if s.pending is None && s.pc < c.code.len() {
        Some(c.code[s.pc as int])
    } else {
        None
    }
}

/// The state after an instruction that wrote `registers` and fell through.
pub open spec fn next_with(s: VmModel, registers: Seq<Value>) -> VmModel {
    VmModel { registers, pc: s.pc + 1, pending: None }
}

/// The state after a branch to `target`.
pub open spec fn moved_to(s: VmModel, target: nat) -> VmModel {
    VmModel { registers: s.registers, pc: target, pending: s.pending }
}

/// Conditional branches: on a boolean condition, `JumpIfTrue` continues at its
/// target exactly when the condition is `true` and `JumpIfFalse` exactly when
/// it is `false`; otherwise execution falls through to the next instruction. A
/// taken branch to a target outside the code is `BadJump`.
pub proof fn lemma_conditional_branches(c: ChunkModel, s: VmModel, cond: u16, target: u32, b: bool)
    requires
        cond < s.registers.len(),
        s.registers[cond as int] == Value::Bool(b),
        s.pending is None,
    ensures
        current(c, s) == Some(Op::JumpIfTrue { cond, target }) ==> step_result(c, s) == (
            if b && target < c.code.len() {
                (moved_to(s, target as nat), Step::Running)
            } else if b {
                (s, Step::Finished(Err(VmError::BadJump(target))))
            } else {
                (next_with(s, s.registers), Step::Running)
            }),
        current(c, s) == Some(Op::JumpIfFalse { cond, target }) ==> step_result(c, s) == (
            if !b && target < c.code.len() {
                (moved_to(s, target as nat), Step::Running)
            } else if !b {
                (s, Step::Finished(Err(VmError::BadJump(target))))
            } else {
                (next_with(s, s.registers), Step::Running)
            }),
{
}

/// A branch on a condition that is not a boolean is a type mismatch naming the
/// branch, and changes nothing.
pub proof fn lemma_branch_needs_boolean(c: ChunkModel, s: VmModel, cond: u16, target: u32)
    requires
        cond < s.registers.len(),
        !(s.registers[cond as int] is Bool),
    ensures
        current(c, s) == Some(Op::JumpIfTrue { cond, target }) ==> step_result(c, s)
            == (s, Step::Finished(Err(VmError::TypeMismatch { op: "jump-if-true" }))),
        current(c, s) == Some(Op::JumpIfFalse { cond, target }) ==> step_result(c, s)
            == (s, Step::Finished(Err(VmError::TypeMismatch { op: "jump-if-false" }))),
{
}

/// `Jump` continues at its target when it is inside the code, and is `BadJump`
/// otherwise; `Halt` stops with `nil`; `Return` stops with the value of its
/// register; control at or past the end of the code is `NoTerminator`.
pub proof fn lemma_control(c: ChunkModel, s: VmModel, target: u32, src: u16)
    requires
        s.pending is None,
    ensures
        current(c, s) == Some(Op::Jump { target }) ==> step_result(c, s) == (
            if target < c.code.len() {
                (moved_to(s, target as nat), Step::Running)
            } else {
                (s, Step::Finished(Err(VmError::BadJump(target))))
            }),
        current(c, s) == Some(Op::Halt) ==> step_result(c, s) == (s, Step::Finished(Ok(Value::Nil))),
        current(c, s) == Some(Op::Return { src }) && src < s.registers.len()
            ==> step_result(c, s) == (s, Step::Finished(Ok(s.registers[src as int]))),
        current(c, s) == Some(Op::Return { src }) && src >= s.registers.len()
            ==> step_result(c, s) == (s, Step::Finished(Err(VmError::BadRegister(src)))),
        s.pc >= c.code.len() ==> step_result(c, s) == (s, Step::Finished(Err(VmError::NoTerminator))),
{
}

/// Data movement: `Move` copies its source register into its destination,
/// `LoadConst` loads the pool entry (or is `BadConstant` past the pool),
/// `LoadNil`, `LoadBool` and `LoadInt` load their value; each then falls
/// through with every other register unchanged.
pub proof fn lemma_data_movement(c: ChunkModel, s: VmModel, dst: u16, src: u16, konst: u16, b: bool, n: i32)
    requires
        s.pending is None,
        dst < s.registers.len(),
    ensures
        current(c, s) == Some(Op::Move { dst, src }) && src < s.registers.len()
            ==> step_result(c, s) == (next_with(s, s.registers.update(dst as int, s.registers[src as int])), Step::Running),
        current(c, s) == Some(Op::LoadConst { dst, konst }) && konst < c.constants.len()
            ==> step_result(c, s) == (next_with(s, s.registers.update(dst as int, c.constants[konst as int])), Step::Running),
        current(c, s) == Some(Op::LoadConst { dst, konst }) && konst >= c.constants.len()
            ==> step_result(c, s) == (s, Step::Finished(Err(VmError::BadConstant(konst)))),
        current(c, s) == Some(Op::LoadNil { dst })
            ==> step_result(c, s) == (next_with(s, s.registers.update(dst as int, Value::Nil)), Step::Running),
        current(c, s) == Some(Op::LoadBool { dst, val: b })
            ==> step_result(c, s) == (next_with(s, s.registers.update(dst as int, Value::Bool(b))), Step::Running),
        current(c, s) == Some(Op::LoadInt { dst, val: n })
            ==> step_result(c, s) == (next_with(s, s.registers.update(dst as int, Value::Int(n))), Step::Running),
{
}

/// The operation each two-operand instruction performs, with its registers.
pub open spec fn operation_of(op: Op) -> Option<(BinOp, u16, u16, u16)> {
    match op {
        Op::Add { dst, lhs, rhs } => Some((BinOp::Add, dst, lhs, rhs)),
        Op::Sub { dst, lhs, rhs } => Some((BinOp::Sub, dst, lhs, rhs)),
        Op::Mul { dst, lhs, rhs } => Some((BinOp::Mul, dst, lhs, rhs)),
        Op::Div { dst, lhs, rhs } => Some((BinOp::Div, dst, lhs, rhs)),
        Op::Rem { dst, lhs, rhs } => Some((BinOp::Rem, dst, lhs, rhs)),
        Op::Eq { dst, lhs, rhs } => Some((BinOp::Eq, dst, lhs, rhs)),
        Op::Ne { dst, lhs, rhs } => Some((BinOp::Ne, dst, lhs, rhs)),
        Op::Lt { dst, lhs, rhs } => Some((BinOp::Lt, dst, lhs, rhs)),
        Op::Le { dst, lhs, rhs } => Some((BinOp::Le, dst, lhs, rhs)),
        Op::Gt { dst, lhs, rhs } => Some((BinOp::Gt, dst, lhs, rhs)),
        Op::Ge { dst, lhs, rhs } => Some((BinOp::Ge, dst, lhs, rhs)),
        _ => None,
    }
}

/// A two-operand instruction reads `lhs` and `rhs` and evaluates its operation
/// on them: a value is written to `dst` and execution falls through; a fault
/// stops with nothing changed; a float computation is handed back with the
/// program counter on the next instruction, and the answer later delivered is
/// written to `dst`.
pub proof fn lemma_two_operand_instructions(c: ChunkModel, s: VmModel, answer: Value)
    requires
        s.pending is None,
        s.pc < c.code.len(),
        operation_of(c.code[s.pc as int]) is Some,
    ensures
        ({
            let (k, dst, lhs, rhs) = operation_of(c.code[s.pc as int]).unwrap();
            lhs < s.registers.len() && rhs < s.registers.len() && dst < s.registers.len() ==> {
                let a = s.registers[lhs as int];
                let b = s.registers[rhs as int];
                &&& binary_result(k, a, b) matches Ok(Outcome::Done(v))
                    ==> step_result(c, s) == (next_with(s, s.registers.update(dst as int, v)), Step::Running)
                &&& binary_result(k, a, b) matches Err(e)
                    ==> step_result(c, s) == (s, Step::Finished(Err(e)))
                &&& binary_result(k, a, b) matches Ok(Outcome::NeedsFloat(request))
                    ==> step_result(c, s).1 == Step::NeedsFloat(request)
                        && resume_result(step_result(c, s).0, answer)
                            == (next_with(s, s.registers.update(dst as int, answer)), Step::Running)
            }
        }),
{
}

/// `Neg` writes the negation of its integer source and `Not` the negation of
/// its boolean source; each then falls through.
pub proof fn lemma_negating_instructions(c: ChunkModel, s: VmModel, dst: u16, src: u16, i: i32, b: bool)
    requires
        s.pending is None,
        dst < s.registers.len(),
        src < s.registers.len(),
    ensures
        current(c, s) == Some(Op::Neg { dst, src }) && s.registers[src as int] == Value::Int(i)
            && i != i32::MIN ==> step_result(c, s)
            == (next_with(s, s.registers.update(dst as int, Value::Int((-i) as i32))), Step::Running),
        current(c, s) == Some(Op::Not { dst, src }) && s.registers[src as int] == Value::Bool(b)
            ==> step_result(c, s)
            == (next_with(s, s.registers.update(dst as int, Value::Bool(!b))), Step::Running),
{
}

/// A run starts at the first instruction, awaiting nothing, with exactly as
/// many registers as the chunk declares, each reading `nil`.
pub proof fn lemma_start_state(c: ChunkModel)
    ensures
        initial(c).pc == 0,
        initial(c).pending is None,
        initial(c).registers.len() == c.registers,
        forall|r: u16| r < c.registers ==> read(initial(c).registers, r) == Ok::<Value, VmError>(Value::Nil),
        forall|r: u16| r >= c.registers ==> read(initial(c).registers, r) == Err::<Value, VmError>(VmError::BadRegister(r)),
{
}

/// A delivered float result goes into the awaited instruction's destination
/// register and nowhere else; the program counter stays on the instruction after
/// it and nothing is awaited any more. A destination outside the file is
/// `BadRegister`. While a result is awaited, a step changes nothing and asks
/// again; with nothing awaited, a delivered value changes nothing.
pub proof fn lemma_float_delivery(c: ChunkModel, s: VmModel, p: Pending, answer: Value)
    ensures
        s.pending == Some(p) && p.dst < s.registers.len() ==> resume_result(s, answer) == (
            VmModel { registers: s.registers.update(p.dst as int, answer), pc: s.pc, pending: None },
            Step::Running,
        ),
        s.pending == Some(p) && p.dst >= s.registers.len()
            ==> resume_result(s, answer).1 == Step::Finished(Err(VmError::BadRegister(p.dst))),
        s.pending == Some(p) ==> step_result(c, s) == (s, Step::NeedsFloat(p.request)),
        s.pending is None ==> resume_result(s, answer) == (s, Step::Running),
{
}

/// `Neg` of a float source hands the negation back as a float request, and the
/// answer delivered for it is written to the destination register.
pub proof fn lemma_float_negation_hand_off(c: ChunkModel, s: VmModel, dst: u16, src: u16, bits: u64, answer: Value)
    requires
        s.pending is None,
        dst < s.registers.len(),
        src < s.registers.len(),
        s.registers[src as int] == Value::Float(bits),
        current(c, s) == Some(Op::Neg { dst, src }),
    ensures
        step_result(c, s).1 == Step::NeedsFloat(FloatRequest::Negate { operand: Value::Float(bits) }),
        resume_result(step_result(c, s).0, answer)
            == (next_with(s, s.registers.update(dst as int, answer)), Step::Running),
{
}

/// A budget of no steps runs nothing, and a budget of one runs exactly one step.
pub proof fn lemma_steps_base(c: ChunkModel, s: VmModel)
    ensures
        steps(c, s, 0) == (s, Step::Running),
        steps(c, s, 1) == step_result(c, s),
{
    reveal_with_fuel(steps, 2);
}

} // verus!
