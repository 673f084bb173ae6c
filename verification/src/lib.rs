//! A register-based bytecode virtual machine with verified semantics.
//!
//! A program is a [`Chunk`] of [`Op`] instructions over a constant pool of
//! [`Value`]s; its register file is sized automatically to the highest register
//! any instruction names. A [`Vm`] executes it: [`Vm::start`] resets the
//! register file, [`Vm::step`] executes one instruction and [`Vm::run_steps`]
//! runs many. Bytecode is treated as untrusted: every register, constant and
//! branch access is checked, so a malformed program yields a [`VmError`], never
//! a panic. Integer arithmetic is overflow-checked. An operation involving a
//! float is handed back as a [`FloatRequest`] and completed with
//! [`Vm::resume`].

pub mod chunk;
pub mod error;
pub mod eval;
pub mod op;
pub mod value;
pub mod vm;

pub use chunk::Chunk;
pub use error::VmError;
pub use eval::{BinOp, FloatRequest, Outcome};
pub use op::{Addr, Const, Op, Reg};
pub use value::Value;
pub use vm::{Step, Vm};
