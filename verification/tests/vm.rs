//! The interpreter, driven step by step the way an embedding drives it, with
//! float requests completed by IEEE-754 arithmetic.

use bvm_lang::vm::jump_target;
use bvm_lang::{BinOp, Chunk, FloatRequest, Op, Step, Value, Vm, VmError};

fn float(f: f64) -> Value {
    Value::Float(if f.is_nan() { f64::NAN.to_bits() } else { f.to_bits() })
}

fn widen(v: Value) -> f64 {
    match v {
        Value::Int(i) => f64::from(i),
        Value::Float(bits) => f64::from_bits(bits),
        other => panic!("not a number: {other:?}"),
    }
}

fn evaluate(req: FloatRequest) -> Value {
    match req {
        FloatRequest::Negate { operand } => float(-widen(operand)),
        FloatRequest::Binary { op, lhs, rhs } => {
            let (x, y) = (widen(lhs), widen(rhs));
            match op {
                BinOp::Add => float(x + y),
                BinOp::Sub => float(x - y),
                BinOp::Mul => float(x * y),
                BinOp::Div => float(x / y),
                BinOp::Rem => float(x % y),
                BinOp::Eq => Value::Bool(x == y),
                BinOp::Ne => Value::Bool(x != y),
                BinOp::Lt => Value::Bool(x < y),
                BinOp::Le => Value::Bool(x <= y),
                BinOp::Gt => Value::Bool(x > y),
                BinOp::Ge => Value::Bool(x >= y),
            }
        }
    }
}

/// Run `chunk` to its result on `vm`.
fn drive(vm: &mut Vm, chunk: &Chunk) -> Result<Value, VmError> {
    vm.start(chunk);
    loop {
        match vm.step(chunk) {
            Step::Running => {}
            Step::Finished(r) => return r,
            Step::NeedsFloat(req) => {
                if let Step::Finished(r) = vm.resume(evaluate(req)) {
                    return r;
                }
            }
        }
    }
}

/// Build and run a small chunk in one shot.
fn run(ops: &[Op], constants: &[Value]) -> Result<Value, VmError> {
    let mut chunk = Chunk::new();
    for &v in constants {
        let _ = chunk.constant(v);
    }
    for &op in ops {
        let _ = chunk.emit(op);
    }
    drive(&mut Vm::new(), &chunk)
}

#[test]
fn test_return_yields_register_value() {
    let out = run(
        &[Op::LoadInt { dst: 0, val: 42 }, Op::Return { src: 0 }],
        &[],
    )
    .unwrap();
    assert_eq!(out.as_int(), Some(42));
}

#[test]
fn test_halt_yields_nil() {
    let out = run(&[Op::Halt], &[]).unwrap();
    assert!(out.is_nil());
}

#[test]
fn test_load_const_reads_pool() {
    let out = run(
        &[Op::LoadConst { dst: 0, konst: 0 }, Op::Return { src: 0 }],
        &[float(2.5)],
    )
    .unwrap();
    assert_eq!(out.as_float_bits().map(f64::from_bits), Some(2.5));
}

#[test]
fn test_arithmetic_chain() {
    // (4 * 5) - 2 = 18
    let out = run(
        &[
            Op::LoadInt { dst: 0, val: 4 },
            Op::LoadInt { dst: 1, val: 5 },
            Op::Mul {
                dst: 0,
                lhs: 0,
                rhs: 1,
            },
            Op::LoadInt { dst: 1, val: 2 },
            Op::Sub {
                dst: 0,
                lhs: 0,
                rhs: 1,
            },
            Op::Return { src: 0 },
        ],
        &[],
    )
    .unwrap();
    assert_eq!(out.as_int(), Some(18));
}

#[test]
fn test_conditional_branch_taken() {
    // if 1 < 2 { return 10 } else { return 20 }
    let out = run(
        &[
            Op::LoadInt { dst: 0, val: 1 },
            Op::LoadInt { dst: 1, val: 2 },
            Op::Lt {
                dst: 2,
                lhs: 0,
                rhs: 1,
            },
            Op::JumpIfFalse { cond: 2, target: 6 },
            Op::LoadInt { dst: 0, val: 10 },
            Op::Return { src: 0 },
            Op::LoadInt { dst: 0, val: 20 },
            Op::Return { src: 0 },
        ],
        &[],
    )
    .unwrap();
    assert_eq!(out.as_int(), Some(10));
}

#[test]
fn test_loop_sums_with_back_edge() {
    // sum = 0; i = 1; while i <= 5 { sum += i; i += 1 } return sum  => 15
    let mut chunk = Chunk::new();
    // r0 = sum, r1 = i, r2 = limit, r3 = one, r4 = cond
    let _ = chunk.emit(Op::LoadInt { dst: 0, val: 0 });
    let _ = chunk.emit(Op::LoadInt { dst: 1, val: 1 });
    let _ = chunk.emit(Op::LoadInt { dst: 2, val: 5 });
    let _ = chunk.emit(Op::LoadInt { dst: 3, val: 1 });
    let cond_at = chunk.emit(Op::Le {
        dst: 4,
        lhs: 1,
        rhs: 2,
    });
    let exit_branch = chunk.emit(Op::JumpIfFalse { cond: 4, target: 0 });
    let _ = chunk.emit(Op::Add {
        dst: 0,
        lhs: 0,
        rhs: 1,
    });
    let _ = chunk.emit(Op::Add {
        dst: 1,
        lhs: 1,
        rhs: 3,
    });
    let _ = chunk.emit(Op::Jump {
        target: cond_at as u32,
    });
    let exit = chunk.emit(Op::Return { src: 0 });
    assert!(chunk.patch(
        exit_branch,
        Op::JumpIfFalse {
            cond: 4,
            target: exit as u32,
        },
    ));

    assert_eq!(drive(&mut Vm::new(), &chunk).unwrap().as_int(), Some(15));
}

#[test]
fn test_no_terminator_errors() {
    assert_eq!(
        run(&[Op::LoadInt { dst: 0, val: 1 }], &[]),
        Err(VmError::NoTerminator)
    );
}

#[test]
fn test_empty_chunk_errors() {
    assert_eq!(drive(&mut Vm::new(), &Chunk::new()), Err(VmError::NoTerminator));
}

#[test]
fn test_bad_constant_index_errors() {
    assert_eq!(
        run(
            &[Op::LoadConst { dst: 0, konst: 3 }, Op::Return { src: 0 }],
            &[]
        ),
        Err(VmError::BadConstant(3))
    );
}

#[test]
fn test_out_of_range_jump_errors() {
    assert_eq!(
        run(&[Op::Jump { target: 99 }], &[]),
        Err(VmError::BadJump(99))
    );
}

#[test]
fn test_branch_on_non_bool_type_mismatch() {
    assert_eq!(
        run(
            &[
                Op::LoadInt { dst: 0, val: 1 },
                Op::JumpIfTrue { cond: 0, target: 0 },
                Op::Halt,
            ],
            &[],
        ),
        Err(VmError::TypeMismatch { op: "jump-if-true" })
    );
}

#[test]
fn test_vm_reuse_resets_registers() {
    let mut vm = Vm::new();
    let first = {
        let mut c = Chunk::new();
        let _ = c.emit(Op::LoadInt { dst: 0, val: 7 });
        let _ = c.emit(Op::Return { src: 0 });
        drive(&mut vm, &c).unwrap()
    };
    assert_eq!(first.as_int(), Some(7));
    // A second chunk that returns an untouched register must see `nil`,
    // proving the file was reset rather than carrying `7` forward.
    let mut c = Chunk::new();
    let _ = c.emit(Op::LoadInt { dst: 5, val: 1 });
    let _ = c.emit(Op::Return { src: 0 });
    assert!(drive(&mut vm, &c).unwrap().is_nil());
}

#[test]
fn test_jump_target_bounds() {
    assert_eq!(jump_target(0, 1), Ok(0));
    assert_eq!(jump_target(4, 5), Ok(4));
    assert_eq!(jump_target(5, 5), Err(VmError::BadJump(5)));
    assert_eq!(jump_target(0, 0), Err(VmError::BadJump(0)));
}

#[test]
fn test_float_request_waits_for_its_answer() {
    let mut chunk = Chunk::new();
    let k = chunk.constant(float(1.5)).unwrap();
    let _ = chunk.emit(Op::LoadConst { dst: 0, konst: k });
    let _ = chunk.emit(Op::Neg { dst: 1, src: 0 });
    let _ = chunk.emit(Op::Return { src: 1 });
    let mut vm = Vm::new();
    vm.start(&chunk);
    assert_eq!(vm.step(&chunk), Step::Running);
    let request = FloatRequest::Negate { operand: float(1.5) };
    assert_eq!(vm.step(&chunk), Step::NeedsFloat(request));
    // Until the answer arrives, the same request is announced again.
    assert_eq!(vm.step(&chunk), Step::NeedsFloat(request));
    assert_eq!(vm.resume(float(-1.5)), Step::Running);
    // With nothing awaited, a stray answer changes nothing.
    assert_eq!(vm.resume(Value::Nil), Step::Running);
    assert_eq!(vm.step(&chunk), Step::Finished(Ok(float(-1.5))));
}

#[test]
fn test_float_answer_for_missing_register_faults() {
    let chunk = Chunk::from_parts(
        vec![
            Op::LoadConst { dst: 0, konst: 0 },
            Op::Add {
                dst: 9,
                lhs: 0,
                rhs: 0,
            },
            Op::Return { src: 0 },
        ],
        vec![float(0.25)],
        1,
    );
    let mut vm = Vm::new();
    assert_eq!(drive(&mut vm, &chunk), Err(VmError::BadRegister(9)));
}

#[test]
fn test_read_fault_precedes_write_fault() {
    let chunk = Chunk::from_parts(
        vec![Op::Move { dst: 4, src: 3 }, Op::Halt],
        Vec::new(),
        2,
    );
    assert_eq!(drive(&mut Vm::new(), &chunk), Err(VmError::BadRegister(3)));
}

#[test]
fn test_with_capacity_runs_like_new() {
    let mut c = Chunk::new();
    let _ = c.emit(Op::LoadBool { dst: 0, val: false });
    let _ = c.emit(Op::Not { dst: 0, src: 0 });
    let _ = c.emit(Op::Return { src: 0 });
    assert_eq!(drive(&mut Vm::with_capacity(32), &c), Ok(Value::Bool(true)));
}

#[test]
fn test_run_steps_stops_at_budget_and_resumes() {
    let mut c = Chunk::new();
    let _ = c.emit(Op::LoadInt { dst: 0, val: 1 });
    let _ = c.emit(Op::LoadInt { dst: 1, val: 2 });
    let _ = c.emit(Op::Add {
        dst: 0,
        lhs: 0,
        rhs: 1,
    });
    let _ = c.emit(Op::Return { src: 0 });
    let mut vm = Vm::new();
    vm.start(&c);
    assert_eq!(vm.run_steps(&c, 0), Step::Running);
    assert_eq!(vm.run_steps(&c, 2), Step::Running);
    assert_eq!(vm.run_steps(&c, 100), Step::Finished(Ok(Value::Int(3))));
}

#[test]
fn test_run_steps_stops_at_float_request() {
    let mut c = Chunk::new();
    let k = c.constant(float(0.5)).unwrap();
    let _ = c.emit(Op::LoadConst { dst: 0, konst: k });
    let _ = c.emit(Op::LoadInt { dst: 1, val: 3 });
    let _ = c.emit(Op::Lt {
        dst: 2,
        lhs: 0,
        rhs: 1,
    });
    let _ = c.emit(Op::Return { src: 2 });
    let mut vm = Vm::new();
    vm.start(&c);
    let request = FloatRequest::Binary {
        op: BinOp::Lt,
        lhs: float(0.5),
        rhs: Value::Int(3),
    };
    assert_eq!(vm.run_steps(&c, u64::MAX), Step::NeedsFloat(request));
    assert_eq!(vm.resume(Value::Bool(true)), Step::Running);
    assert_eq!(vm.run_steps(&c, u64::MAX), Step::Finished(Ok(Value::Bool(true))));
}

#[test]
fn test_infinite_loop_runs_out_of_budget() {
    let mut c = Chunk::new();
    let _ = c.emit(Op::Jump { target: 0 });
    let mut vm = Vm::new();
    vm.start(&c);
    assert_eq!(vm.run_steps(&c, 10_000), Step::Running);
}

#[test]
fn test_top_register_index_is_outside_the_saturated_file() {
    // The one register a builder-sized file cannot cover: index u16::MAX.
    let mut c = Chunk::new();
    let _ = c.emit(Op::LoadNil { dst: u16::MAX });
    let _ = c.emit(Op::Halt);
    assert_eq!(c.registers(), u16::MAX);
    assert_eq!(drive(&mut Vm::new(), &c), Err(VmError::BadRegister(u16::MAX)));
}

#[test]
fn test_builder_sized_chunk_reads_every_named_register() {
    let mut c = Chunk::new();
    let _ = c.emit(Op::Move { dst: 300, src: 299 });
    let _ = c.emit(Op::Not { dst: 7, src: 300 });
    let _ = c.emit(Op::Return { src: 7 });
    assert_eq!(c.registers(), 301);
    // The program faults on a type, never on a register.
    assert_eq!(
        drive(&mut Vm::new(), &c),
        Err(VmError::TypeMismatch { op: "not" })
    );
}
