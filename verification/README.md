# wasmi_majit

The verified core of a tracing-JIT tier for the wasmi interpreter, in Verus.

A hot WebAssembly function is lowered from the interpreter's operations to a *MiniProgram*: a
flat stream of `i64` words that a small kernel executes under a meta-tracing JIT. A function
with an operation that the kernel has not stays with the stock executor.

## Layout

- `src/ops/`: the operations of a function body, family by family, each with the words it is
  lowered to and with what it does.
- `src/mini.rs`: the opcodes of the kernel.
- `src/word.rs`: words before they are placed, and the operands of each opcode.
- `src/stream.rs`, `src/slots.rs`: the operations with their byte positions; the frame slots and
  their dense numbering.
- `src/prepass.rs`: the prepass. It lowers every operation, numbers the slots, resolves the
  branches and assembles the words.
- `src/observe.rs`: how far a function lies in the observed subset.
- `src/action.rs`, `src/kernel.rs`: what operations do, and what the kernel's instructions do.
- `src/laws/`: what holds of lowered functions. The words of an operation do what the operation
  does; a program decodes; branches go to operations; cells do not collide; and the kernel, on
  the words of a program, carries out runs of the function in which no operation reads an
  accumulator that the words of another have used up, and returns what they return.
- `src/smoke.rs`: a register machine that exercises the JIT, and what holds of its runs.
- `app/`: encoded operations in, programs and listings out, and the register machine under the
  JIT.
