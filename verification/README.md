# here

A RISC-V (RV64GC with part of V) hart, its memory, its debugger and a just-in-time translator to
x86-64, as a Rust library whose behaviour is stated in contracts and proved with Verus.

- `src/isa/riscv/` is the hart: decoding, instructions, control and status registers, traps,
  virtual memory, the vector unit, and the executor that steps it.
- `src/isa/riscv/debugger.rs` steps a hart under breakpoints and keeps a trace of function calls.
- `src/fpu/` does floating-point arithmetic on bit patterns, with `rustc_apfloat`.
- `src/jit/` translates basic blocks. Generated code is a sequence of instructions with a stated
  encoding and a stated meaning; the engine says what is translated, what is interpreted and where
  code goes. `src/jit/equivalence.rs` states that a block does what its instructions do.
- `src/rvdb/` holds what the debugger's console decides.
- `tests/` runs the library. Generated code is run by a small interpreter of host instructions.
- `app/` is what the library leaves to ordinary Rust: native execution of generated code, channels,
  threads, logs.

Functions whose name begins with `law_` state what holds of several operations together.
