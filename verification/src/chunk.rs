//! A unit of executable bytecode: its instructions, its constants, and the size
//! of the register file they operate on.
//!
//! A [`Chunk`] is built up instruction by instruction with [`Chunk::emit`];
//! literals go into the constant pool with [`Chunk::constant`]. The register-file
//! size is tracked automatically: every emitted instruction widens the file to
//! cover the highest register it names. Forward branches are written with a
//! placeholder target and later fixed up with [`Chunk::patch`].

use crate::op::{largest, lemma_largest_bounds, max_register, named_registers, slots_needed, Op};
use crate::value::Value;
use vstd::prelude::*;

verus! {

/// An assembled sequence of instructions with its constant pool.
#[derive(Debug, Clone, PartialEq)]
pub struct Chunk {
    code: Vec<Op>,
    constants: Vec<Value>,
    registers: u16,
}

/// The abstract content of a chunk.
pub struct ChunkModel {
    pub code: Seq<Op>,
    pub constants: Seq<Value>,
    pub registers: u16,
}

impl View for Chunk {
    type V = ChunkModel;

    closed spec fn view(&self) -> ChunkModel {
        ChunkModel { code: self.code@, constants: self.constants@, registers: self.registers }
    }
}

/// The register-file size a sequence of instructions needs: the largest
/// [`slots_needed`] over all of them, or zero for no instructions.
pub open spec fn file_size(code: Seq<Op>) -> u16
    decreases code.len(),
{
    if code.len() == 0 {
        0
    } else {
        let rest = file_size(code.drop_last());
        let last = slots_needed(code.last());
        if last > rest {
            last
        } else {
            rest
        }
    }
}

impl ChunkModel {
    /// The register file is exactly as wide as the instructions need.
    pub open spec fn sized(self) -> bool {
        self.registers == file_size(self.code)
    }
}

/// The wider of a register-file size and what one instruction needs.
pub open spec fn widen(registers: u16, op: Op) -> u16 {
    if slots_needed(op) > registers {
        slots_needed(op)
    } else {
        registers
    }
}

/// Every instruction fits in the file its sequence needs.
pub proof fn lemma_file_size_bounds(code: Seq<Op>, i: int)
    requires
        0 <= i < code.len(),
    ensures
        slots_needed(code[i]) <= file_size(code),
    decreases code.len(),
{
    if i < code.len() - 1 {
        lemma_file_size_bounds(code.drop_last(), i);
        assert(code.drop_last()[i] == code[i]);
    }
}

/// In a chunk whose file is exactly as wide as its instructions need, every
/// register an instruction names lies inside the file, except the top index
/// `u16::MAX`, at which the width saturates.
pub proof fn lemma_sized_chunk_covers_operands(c: ChunkModel, i: int, r: u16)
    requires
        c.sized(),
        0 <= i < c.code.len(),
        named_registers(c.code[i]).contains(r),
        r < u16::MAX,
    ensures
        r < c.registers,
{
    let named = named_registers(c.code[i]);
    lemma_largest_bounds(named);
    lemma_file_size_bounds(c.code, i);
}

/// A chunk after `emit(op)`.
pub open spec fn emitted(c: ChunkModel, op: Op) -> ChunkModel {
    ChunkModel { code: c.code.push(op), constants: c.constants, registers: widen(c.registers, op) }
}

/// A chunk after `patch(addr, op)`: unchanged when `addr` is outside the code.
pub open spec fn patched(c: ChunkModel, addr: int, op: Op) -> ChunkModel {
    if 0 <= addr < c.code.len() {
        ChunkModel {
            code: c.code.update(addr, op),
            constants: c.constants,
            registers: file_size(c.code.update(addr, op)),
        }
    } else {
        c
    }
}

/// A chunk after `constant(value)`: unchanged when the pool is full.
pub open spec fn with_constant(c: ChunkModel, value: Value) -> ChunkModel {
    if c.constants.len() <= u16::MAX {
        ChunkModel { code: c.code, constants: c.constants.push(value), registers: c.registers }
    } else {
        c
    }
}

/// One call of the chunk builder.
pub enum BuilderCall {
    Emit(Op),
    Patch(usize, Op),
    Constant(Value),
}

/// The chunk that `Chunk::new` followed by `calls`, in order, builds.
pub open spec fn built(calls: Seq<BuilderCall>) -> ChunkModel
    decreases calls.len(),
{
    if calls.len() == 0 {
        ChunkModel { code: Seq::empty(), constants: Seq::empty(), registers: 0 }
    } else {
        let before = built(calls.drop_last());
        match calls.last() {
            BuilderCall::Emit(op) => emitted(before, op),
            BuilderCall::Patch(addr, op) => patched(before, addr as int, op),
            BuilderCall::Constant(value) => with_constant(before, value),
        }
    }
}

/// No instruction names the top register index `u16::MAX`, the one index an
/// automatically sized file cannot cover.
pub open spec fn avoids_top_register(c: ChunkModel) -> bool {
    forall|i: int, j: int|
        0 <= i < c.code.len() && 0 <= j < named_registers(c.code[i]).len()
            ==> #[trigger] named_registers(c.code[i])[j] < u16::MAX
}

/// Some instruction of `code` names register `r`.
pub open spec fn names(code: Seq<Op>, r: u16) -> bool {
    exists|i: int| 0 <= i < code.len() && #[trigger] named_registers(code[i]).contains(r)
}

/// When no instruction names `u16::MAX`, the file size a code needs is zero
/// exactly when it names no register, and otherwise one more than a register
/// it names.
proof fn lemma_file_size_is_top_plus_one(code: Seq<Op>)
    requires
        forall|i: int, j: int|
            0 <= i < code.len() && 0 <= j < named_registers(code[i]).len()
                ==> #[trigger] named_registers(code[i])[j] < u16::MAX,
    ensures
        file_size(code) == 0 ==> forall|r: u16| !names(code, r),
        file_size(code) > 0 ==> names(code, (file_size(code) - 1) as u16),
    decreases code.len(),
{
    if code.len() > 0 {
        let rest = code.drop_last();
        assert forall|i: int, j: int|
            0 <= i < rest.len() && 0 <= j < named_registers(rest[i]).len()
                implies #[trigger] named_registers(rest[i])[j] < u16::MAX by {
            assert(rest[i] == code[i]);
        }
        lemma_file_size_is_top_plus_one(rest);
        let last = code.last();
        let named = named_registers(last);
        lemma_largest_bounds(named);
        if named.len() > 0 {
            let w = choose|j: int| 0 <= j < named.len() && named[j] == largest(named);
            assert(named[w] < u16::MAX);
        }
        assert forall|r: u16| names(rest, r) implies names(code, r) by {
            let i = choose|i: int| 0 <= i < rest.len() && #[trigger] named_registers(rest[i]).contains(r);
            assert(rest[i] == code[i]);
        }
        if file_size(code) == 0 {
            assert forall|r: u16| !names(code, r) by {
                if names(code, r) {
                    let i = choose|i: int| 0 <= i < code.len() && #[trigger] named_registers(code[i]).contains(r);
                    if i < code.len() - 1 {
                        assert(rest[i] == code[i]);
                        assert(names(rest, r));
                    } else {
                        let j = choose|j: int| 0 <= j < named.len() && named[j] == r;
                        assert(named[j] <= largest(named));
                    }
                }
            }
        } else if slots_needed(last) > file_size(rest) {
            assert(named_registers(code[code.len() - 1]).contains(largest(named)));
        }
    }
}

/// A chunk built through the builder has a register file exactly one wider
/// than the highest register its instructions name, or zero wide when they name
/// none; so every register its code names is inside the file. (Instructions that
/// name the top index `u16::MAX`, at which the width saturates, are left out.)
pub proof fn lemma_builder_file_is_exact(calls: Seq<BuilderCall>)
    requires
        avoids_top_register(built(calls)),
    ensures
        built(calls).sized(),
        built(calls).registers == 0 <==> forall|r: u16| !names(built(calls).code, r),
        built(calls).registers > 0 ==> names(built(calls).code, (built(calls).registers - 1) as u16),
        forall|r: u16| names(built(calls).code, r) ==> r < built(calls).registers,
{
    lemma_builder_keeps_file_exact(calls);
    let c = built(calls);
    lemma_file_size_is_top_plus_one(c.code);
    assert forall|r: u16| names(c.code, r) implies r < c.registers by {
        let i = choose|i: int| 0 <= i < c.code.len() && #[trigger] named_registers(c.code[i]).contains(r);
        let j = choose|j: int| 0 <= j < named_registers(c.code[i]).len() && named_registers(c.code[i])[j] == r;
        assert(named_registers(c.code[i])[j] < u16::MAX);
        lemma_sized_chunk_covers_operands(c, i, r);
    }
}

/// Every builder call keeps the file exactly as wide as the code needs.
proof fn lemma_builder_keeps_file_exact(calls: Seq<BuilderCall>)
    ensures
        built(calls).sized(),
    decreases calls.len(),
{
    if calls.len() > 0 {
        let before = built(calls.drop_last());
        lemma_builder_keeps_file_exact(calls.drop_last());
        match calls.last() {
            BuilderCall::Emit(op) => {
                assert(emitted(before, op).code.drop_last() =~= before.code);
            },
            _ => {},
        }
    }
}

impl Chunk {
    /// Create an empty chunk with no instructions, no constants, and a
    /// zero-width register file.
    pub fn new() -> (c: Chunk)
        ensures
            c@ == (ChunkModel { code: Seq::empty(), constants: Seq::empty(), registers: 0 }),
            c@.sized(),
    {
        Chunk { code: Vec::new(), constants: Vec::new(), registers: 0 }
    }

    /// Build a chunk from its parts as they stand, without checking them; the
    /// interpreter checks every access, so a chunk whose register file is too
    /// narrow for its code still runs to an error rather than a panic.
    pub fn from_parts(code: Vec<Op>, constants: Vec<Value>, registers: u16) -> (c: Chunk)
        ensures
            c@ == (ChunkModel { code: code@, constants: constants@, registers }),
    {
        Chunk { code, constants, registers }
    }

    /// Append an instruction and return its address, widening the register file
    /// to include every register the instruction names.
    pub fn emit(&mut self, op: Op) -> (addr: usize)
        ensures
            addr == old(self)@.code.len(),
            final(self)@.code == old(self)@.code.push(op),
            final(self)@.constants == old(self)@.constants,
            final(self)@.registers == widen(old(self)@.registers, op),
            final(self)@ == emitted(old(self)@, op),
            old(self)@.sized() ==> final(self)@.sized(),
    {
        if let Some(top) = max_register(op) {
            let width = top.saturating_add(1);
            if width > self.registers {
                self.registers = width;
            }
        }
        let addr = self.code.len();
        self.code.push(op);
        proof {
            assert(self@.code.drop_last() =~= old(self)@.code);
        }
        addr
    }

    /// Add `value` to the constant pool and return its index, or `None` if the
    /// pool already holds `u16::MAX + 1` constants. Constants are not
    /// deduplicated.
    pub fn constant(&mut self, value: Value) -> (r: Option<u16>)
        ensures
            old(self)@.constants.len() <= u16::MAX ==> {
                &&& r == Some(old(self)@.constants.len() as u16)
                &&& final(self)@.constants == old(self)@.constants.push(value)
            },
            old(self)@.constants.len() > u16::MAX ==> {
                &&& r is None
                &&& final(self)@.constants == old(self)@.constants
            },
            final(self)@.code == old(self)@.code,
            final(self)@.registers == old(self)@.registers,
            final(self)@ == with_constant(old(self)@, value),
    {
        let len = self.constants.len();
        if len > 65535 {
            return None;
        }
        self.constants.push(value);
        Some(len as u16)
    }

    /// Overwrite the instruction at `addr`; returns `true` if `addr` was a valid
    /// slot and the rewrite happened, `false` (and no change) otherwise. The
    /// register file is re-derived from the whole code to stay exact.
    pub fn patch(&mut self, addr: usize, op: Op) -> (done: bool)
        ensures
            done == (addr < old(self)@.code.len()),
            done ==> final(self)@ == (ChunkModel {
                code: old(self)@.code.update(addr as int, op),
                constants: old(self)@.constants,
                registers: file_size(old(self)@.code.update(addr as int, op)),
            }),
            !done ==> final(self)@ == old(self)@,
            final(self)@ == patched(old(self)@, addr as int, op),
            done ==> final(self)@.sized(),
    {
        if addr >= self.code.len() {
            return false;
        }
        self.code.set(addr, op);
        self.recompute_registers();
        true
    }

    /// Re-derive the register-file size from the current code.
    fn recompute_registers(&mut self)
        ensures
            final(self)@ == (ChunkModel {
                code: old(self)@.code,
                constants: old(self)@.constants,
                registers: file_size(old(self)@.code),
            }),
    {
        let mut width: u16 = 0;
        let mut i: usize = 0;
        while i < self.code.len()
            invariant
                self@ == old(self)@,
                i <= self.code@.len(),
                width == file_size(self.code@.take(i as int)),
            decreases self.code@.len() - i,
        {
            let op = self.code[i];
            if let Some(top) = max_register(op) {
                let w = top.saturating_add(1);
                if w > width {
                    width = w;
                }
            }
            proof {
                assert(self.code@.take(i + 1).drop_last() =~= self.code@.take(i as int));
            }
            i = i + 1;
        }
        proof {
            assert(self.code@.take(i as int) =~= self.code@);
        }
        self.registers = width;
    }

    /// The chunk's instructions, in address order.
    pub fn code(&self) -> (r: &[Op])
        ensures
            r@ == self@.code,
    {
        self.code.as_slice()
    }

    /// The chunk's constant pool.
    pub fn constants(&self) -> (r: &[Value])
        ensures
            r@ == self@.constants,
    {
        self.constants.as_slice()
    }

    /// The number of registers the chunk uses.
    pub fn registers(&self) -> (r: u16)
        ensures
            r == self@.registers,
    {
        self.registers
    }

    /// The number of instructions in the chunk.
    pub fn len(&self) -> (r: usize)
        ensures
            r == self@.code.len(),
    {
        self.code.len()
    }

    /// Whether the chunk contains no instructions.
    pub fn is_empty(&self) -> (r: bool)
        ensures
            r == (self@.code.len() == 0),
    {
        self.code.len() == 0
    }
}

impl Default for Chunk {
    fn default() -> (c: Chunk)
        ensures
            c@ == (ChunkModel { code: Seq::empty(), constants: Seq::empty(), registers: 0 }),
    {
        Chunk::new()
    }
}

} // verus!
