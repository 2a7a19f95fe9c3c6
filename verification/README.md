horse
=====

A toy interpreter for a small Python-like language, written as a Verus
library with a thin program around it.

The library (`src/`) is verified:

- `lexer`: turns source text into tokens.
- `parser`: builds an expression tree with operator precedence.
- `compiler`: turns statements into bytecode with a constant pool.
- `runtime`: a reference-counted object memory, stack frames, modules,
  types with methods, the built-in types `int`, `float`, `bool`, `str`,
  `list` and `None` with their native methods, and user-defined functions
  with default parameters, run in frames of their own.
- `instructions`: executes bytecode against the runtime, one instruction
  at a time, within a step budget; besides what the compiler emits, it runs
  list construction, indexing and `raise`.

Floating-point arithmetic is not part of the verified library: the runtime
asks a `FloatHost` for each float result and states what it does with
every possible answer. The program in `app/` supplies an `f64` host, the
prompt (through `rustyline`) and file input.
