//! End-to-end execution over the public API: whole programs, control flow,
//! fault surfacing and VM reuse, driven step by step with float requests
//! completed by IEEE-754 arithmetic.

use bvm_lang::{BinOp, Chunk, FloatRequest, Op, Step, Value, Vm, VmError};

fn float(f: f64) -> Value {
    Value::Float(if f.is_nan() { f64::NAN.to_bits() } else { f.to_bits() })
}

fn widen(v: Value) -> f64 {
    match v {
        Value::Int(i) => f64::from(i),
        Value::Float(bits) => f64::from_bits(bits),
        other => panic!("not a number: {other:?}"),
    }
}

fn evaluate(req: FloatRequest) -> Value {
    match req {
        FloatRequest::Negate { operand } => float(-widen(operand)),
        FloatRequest::Binary { op, lhs, rhs } => {
            let (x, y) = (widen(lhs), widen(rhs));
            match op {
                BinOp::Add => float(x + y),
                BinOp::Sub => float(x - y),
                BinOp::Mul => float(x * y),
                BinOp::Div => float(x / y),
                BinOp::Rem => float(x % y),
                BinOp::Eq => Value::Bool(x == y),
                BinOp::Ne => Value::Bool(x != y),
                BinOp::Lt => Value::Bool(x < y),
                BinOp::Le => Value::Bool(x <= y),
                BinOp::Gt => Value::Bool(x > y),
                BinOp::Ge => Value::Bool(x >= y),
            }
        }
    }
}

/// Run `chunk` to its result on `vm`.
fn drive(vm: &mut Vm, chunk: &Chunk) -> Result<Value, VmError> {
    vm.start(chunk);
    loop {
        match vm.step(chunk) {
            Step::Running => {}
            Step::Finished(r) => return r,
            Step::NeedsFloat(req) => {
                if let Step::Finished(r) = vm.resume(evaluate(req)) {
                    return r;
                }
            }
        }
    }
}

/// Assemble a chunk from an instruction slice and a constant slice.
fn assemble(ops: &[Op], constants: &[Value]) -> Chunk {
    let mut chunk = Chunk::new();
    for &v in constants {
        let _ = chunk.constant(v).expect("constant pool has room");
    }
    for &op in ops {
        let _ = chunk.emit(op);
    }
    chunk
}

#[test]
fn test_polynomial_evaluation() {
    // 3 * x^2 + 2 * x + 7 at x = 5  =>  92
    let chunk = assemble(
        &[
            Op::LoadInt { dst: 0, val: 5 }, // x
            Op::Mul {
                dst: 1,
                lhs: 0,
                rhs: 0,
            }, // x^2
            Op::LoadInt { dst: 2, val: 3 },
            Op::Mul {
                dst: 1,
                lhs: 1,
                rhs: 2,
            }, // 3x^2
            Op::LoadInt { dst: 2, val: 2 },
            Op::Mul {
                dst: 2,
                lhs: 2,
                rhs: 0,
            }, // 2x
            Op::Add {
                dst: 1,
                lhs: 1,
                rhs: 2,
            },
            Op::LoadInt { dst: 2, val: 7 },
            Op::Add {
                dst: 1,
                lhs: 1,
                rhs: 2,
            },
            Op::Return { src: 1 },
        ],
        &[],
    );
    assert_eq!(drive(&mut Vm::new(), &chunk).unwrap().as_int(), Some(92));
}

#[test]
fn test_factorial_loop() {
    // acc = 1; i = 1; while i <= 6 { acc *= i; i += 1 } return acc  => 720
    let mut chunk = Chunk::new();
    let _ = chunk.emit(Op::LoadInt { dst: 0, val: 1 }); // acc
    let _ = chunk.emit(Op::LoadInt { dst: 1, val: 1 }); // i
    let _ = chunk.emit(Op::LoadInt { dst: 2, val: 6 }); // limit
    let _ = chunk.emit(Op::LoadInt { dst: 3, val: 1 }); // step
    let cond = chunk.emit(Op::Le {
        dst: 4,
        lhs: 1,
        rhs: 2,
    });
    let exit_branch = chunk.emit(Op::JumpIfFalse { cond: 4, target: 0 });
    let _ = chunk.emit(Op::Mul {
        dst: 0,
        lhs: 0,
        rhs: 1,
    });
    let _ = chunk.emit(Op::Add {
        dst: 1,
        lhs: 1,
        rhs: 3,
    });
    let _ = chunk.emit(Op::Jump {
        target: cond as u32,
    });
    let exit = chunk.emit(Op::Return { src: 0 });
    assert!(chunk.patch(
        exit_branch,
        Op::JumpIfFalse {
            cond: 4,
            target: exit as u32,
        },
    ));

    assert_eq!(drive(&mut Vm::new(), &chunk).unwrap().as_int(), Some(720));
}

#[test]
fn test_float_and_int_mixed_arithmetic() {
    // 1 + 0.5 * 2  =>  2.0  (a float promotes the whole expression)
    let chunk = assemble(
        &[
            Op::LoadInt { dst: 0, val: 1 },
            Op::LoadConst { dst: 1, konst: 0 },
            Op::LoadInt { dst: 2, val: 2 },
            Op::Mul {
                dst: 1,
                lhs: 1,
                rhs: 2,
            },
            Op::Add {
                dst: 0,
                lhs: 0,
                rhs: 1,
            },
            Op::Return { src: 0 },
        ],
        &[float(0.5)],
    );
    assert_eq!(drive(&mut Vm::new(), &chunk).unwrap().as_float_bits().map(f64::from_bits), Some(2.0));
}

#[test]
fn test_boolean_logic_and_negation() {
    // return !(3 == 4)  =>  true
    let chunk = assemble(
        &[
            Op::LoadInt { dst: 0, val: 3 },
            Op::LoadInt { dst: 1, val: 4 },
            Op::Eq {
                dst: 2,
                lhs: 0,
                rhs: 1,
            },
            Op::Not { dst: 2, src: 2 },
            Op::Return { src: 2 },
        ],
        &[],
    );
    assert_eq!(drive(&mut Vm::new(), &chunk).unwrap().as_bool(), Some(true));
}

#[test]
fn test_runtime_faults_surface_as_errors() {
    // Overflow, division by zero, and type mismatch each become a VmError.
    let overflow = assemble(
        &[
            Op::LoadInt {
                dst: 0,
                val: i32::MAX,
            },
            Op::LoadInt { dst: 1, val: 1 },
            Op::Add {
                dst: 0,
                lhs: 0,
                rhs: 1,
            },
            Op::Return { src: 0 },
        ],
        &[],
    );
    assert_eq!(drive(&mut Vm::new(), &overflow), Err(VmError::IntegerOverflow));

    let type_mismatch = assemble(
        &[
            Op::LoadBool { dst: 0, val: true },
            Op::LoadInt { dst: 1, val: 1 },
            Op::Add {
                dst: 0,
                lhs: 0,
                rhs: 1,
            },
            Op::Return { src: 0 },
        ],
        &[],
    );
    assert_eq!(
        drive(&mut Vm::new(), &type_mismatch),
        Err(VmError::TypeMismatch { op: "add" })
    );
}

#[test]
fn test_one_vm_runs_many_chunks() {
    let mut vm = Vm::new();
    for n in 0..8 {
        let chunk = assemble(
            &[Op::LoadInt { dst: 0, val: n }, Op::Return { src: 0 }],
            &[],
        );
        assert_eq!(drive(&mut vm, &chunk).unwrap().as_int(), Some(n));
    }
}

#[test]
fn test_builder_sizes_file_to_cover_every_operand() {
    // Every register a chunk names — including the one a `Return` reads — widens
    // the file, so a chunk assembled through the builder can never address a slot
    // outside it. Here `Return { src: 9 }` alone justifies a ten-slot file.
    let mut chunk = Chunk::new();
    let _ = chunk.emit(Op::LoadInt { dst: 9, val: 123 });
    let _ = chunk.emit(Op::Return { src: 9 });
    assert_eq!(chunk.registers(), 10);
    assert_eq!(drive(&mut Vm::new(), &chunk).unwrap().as_int(), Some(123));
}

#[test]
fn test_unreached_terminator_still_halts() {
    // A `Halt` short-circuits before the trailing dead code is ever fetched.
    let chunk = assemble(
        &[
            Op::LoadInt { dst: 0, val: 5 },
            Op::Halt,
            Op::Return { src: 0 }, // dead: never reached
        ],
        &[],
    );
    assert!(drive(&mut Vm::new(), &chunk).unwrap().is_nil());
}

#[test]
fn test_public_surface_runs_end_to_end() {
    let mut chunk = Chunk::new();
    let k = chunk.constant(float(1.5)).expect("pool has room");
    let _ = chunk.emit(Op::LoadConst { dst: 0, konst: k });
    let _ = chunk.emit(Op::LoadInt { dst: 1, val: 2 });
    let _ = chunk.emit(Op::Add {
        dst: 0,
        lhs: 0,
        rhs: 1,
    });
    let _ = chunk.emit(Op::Return { src: 0 });

    let mut vm = Vm::new();
    assert_eq!(
        drive(&mut vm, &chunk).map(|v| v.as_float_bits().map(f64::from_bits)),
        Ok(Some(3.5))
    );
}

#[test]
fn test_deserialized_bad_register_is_reported() {
    // A tampered chunk: the register file is declared as a single slot, but the
    // code reads register 5. A correct compiler never emits this; a corrupt or
    // hostile input can, and the VM must reject it instead of panicking.
    let chunk = Chunk::from_parts(vec![Op::Return { src: 5 }], Vec::new(), 1);
    assert_eq!(drive(&mut Vm::new(), &chunk), Err(VmError::BadRegister(5)));
}

#[test]
fn test_deserialized_bad_jump_is_reported() {
    let chunk = Chunk::from_parts(vec![Op::Jump { target: 99 }], Vec::new(), 0);
    assert_eq!(drive(&mut Vm::new(), &chunk), Err(VmError::BadJump(99)));
}

#[test]
fn test_integer_semantics_match_checked_arithmetic() {
    fn binary(x: i32, y: i32, op: Op) -> Result<Value, VmError> {
        let chunk = assemble(
            &[
                Op::LoadInt { dst: 0, val: x },
                Op::LoadInt { dst: 1, val: y },
                op,
                Op::Return { src: 0 },
            ],
            &[],
        );
        drive(&mut Vm::new(), &chunk)
    }
    let samples = [0, 1, -1, 2, -7, 13, 46_341, i32::MAX, i32::MIN, i32::MIN + 1];
    for &x in &samples {
        for &y in &samples {
            let add = binary(x, y, Op::Add { dst: 0, lhs: 0, rhs: 1 });
            assert_eq!(add, x.checked_add(y).map(Value::Int).ok_or(VmError::IntegerOverflow));
            let sub = binary(x, y, Op::Sub { dst: 0, lhs: 0, rhs: 1 });
            assert_eq!(sub, x.checked_sub(y).map(Value::Int).ok_or(VmError::IntegerOverflow));
            let mul = binary(x, y, Op::Mul { dst: 0, lhs: 0, rhs: 1 });
            assert_eq!(mul, x.checked_mul(y).map(Value::Int).ok_or(VmError::IntegerOverflow));
            let div = binary(x, y, Op::Div { dst: 0, lhs: 0, rhs: 1 });
            if y == 0 {
                assert_eq!(div, Err(VmError::DivideByZero));
            } else {
                assert_eq!(div, x.checked_div(y).map(Value::Int).ok_or(VmError::IntegerOverflow));
            }
            let lt = binary(x, y, Op::Lt { dst: 0, lhs: 0, rhs: 1 });
            assert_eq!(lt, Ok(Value::Bool(x < y)));
            let eq = binary(x, y, Op::Eq { dst: 0, lhs: 0, rhs: 1 });
            assert_eq!(eq, Ok(Value::Bool(x == y)));
        }
    }
}
