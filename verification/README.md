# bvm_lang

A register-based bytecode virtual machine whose instruction semantics are
verified with Verus.

- `src/` is the verified library: the instruction set (`op`), runtime values
  (`value`), errors and their messages (`error`), the value-level semantics of
  every operation (`eval`), chunk assembly with automatic register sizing
  (`chunk`), and the interpreter step (`vm`). Each public function's contract
  states its result exactly over an abstract model (`ChunkModel`, `VmModel`,
  and spec functions such as `step_result`), and the laws of the machine are
  proved as public proof functions beside them.
- `app/` is the embedding: the run-to-completion loop, IEEE-754 float
  arithmetic for the `FloatRequest`s the interpreter hands back, conversion to
  and from `value-lang` values, `serde` forms of `Op` and `Chunk`, and a
  `Display`/`Error` wrapper for `VmError`.
- `tests/` exercises the library through its public API.
