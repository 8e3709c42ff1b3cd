//! The instruction set of a MiniProgram: a flat stream of `i64` words.
//!
//! Each instruction is `[opcode, operands...]`. Cell operands are indices into the
//! kernel's `slots` cell array. The interpreter keeps type-separated accumulator
//! registers, and the kernel models them as separate cells: `ireg` is the integer
//! accumulator, `freg64` the f64 accumulator and `freg32` the f32 accumulator, the
//! latter two held as raw bits. Integer instructions read and write `ireg`, float
//! instructions `freg64` or `freg32`, and cross-type instructions (conversions,
//! float compares, truncations, reinterpretations) read one and write the other.
//! Keeping them apart lets an integer value in `ireg` survive across float
//! instructions, and the other way round.

use vstd::prelude::*;

verus! {

/// `[MINI_HALT]` (1 word): the end of a program.
pub const MINI_HALT: i64 = 0;

/// `[MINI_I32_ADD_SI_WB, dst_slot, lhs_slot, imm]` (4 words): `slots[dst] = ireg =
/// wrap_i32(slots[lhs] + imm)`. Lowers wasmi `I32Add_Rs_si`, the `local.tee $dst
/// (i32.add/sub (local.get $lhs) imm)` fusion (a `... - c` is translated as `... +
/// (-c)`).
pub const MINI_I32_ADD_SI_WB: i64 = 1;

/// `[MINI_BR_I32_NE_RI, target_word, imm]` (3 words): if `wrap_i32(ireg) != imm` jump
/// to `target_word`, else fall through. Lowers wasmi `BranchI32NotEq_Ri`. A jump to a
/// lower word index is a loop back-edge.
pub const MINI_BR_I32_NE_RI: i64 = 2;

/// `[MINI_RETURN_R]` (1 word): `return ireg`. Lowers wasmi `ReturnU64_R`.
pub const MINI_RETURN_R: i64 = 3;

/// `[MINI_COPY_SI, dst_slot, imm]` (3 words): `slots[dst] = imm`. Lowers wasmi
/// `U64Copy_Si` (a materialized `i64.const` / 64-bit `local.set`/`.tee`).
pub const MINI_COPY_SI: i64 = 4;

/// `[MINI_COPY_SS, dst_slot, src_slot]` (3 words): `slots[dst] = slots[src]`. Lowers
/// wasmi `U64Copy_Ss` (a slot-to-slot `local.set`/`local.get`).
pub const MINI_COPY_SS: i64 = 5;

/// `[MINI_COPY_SR, dst_slot]` (2 words): `slots[dst] = ireg`. Lowers wasmi's local-
/// indexed `U64Copy_S{0..9}r` (accumulator spill to a local).
pub const MINI_COPY_SR: i64 = 6;

/// `[MINI_I64_ADD_SS_WR, lhs_slot, rhs_slot]` (3 words): `ireg = slots[lhs] +
/// slots[rhs]` (i64). Lowers wasmi `I64Add_Rss`.
pub const MINI_I64_ADD_SS_WR: i64 = 7;

/// `[MINI_BR_I64_EQ_SI, target_word, lhs_slot, imm]` (4 words): if `slots[lhs] == imm`
/// jump to `target_word` (i64). Lowers wasmi `BranchI64Eq_Si` (e.g. an `i64.eqz`
/// branch).
pub const MINI_BR_I64_EQ_SI: i64 = 9;

/// `[MINI_BR_I64_NE_RI, target_word, imm]` (3 words): if `ireg != imm` jump to
/// `target_word` (i64). Lowers wasmi `BranchI64NotEq_Ri`.
pub const MINI_BR_I64_NE_RI: i64 = 10;

/// `[MINI_RETURN_S, src_slot]` (2 words): `return slots[src]`. Lowers wasmi
/// `ReturnU64_S`.
pub const MINI_RETURN_S: i64 = 11;

/// `[MINI_I64_MUL_SS_WR, lhs_slot, rhs_slot]` (3 words): `ireg = slots[lhs] *
/// slots[rhs]` (i64, wrapping). Lowers wasmi `I64Mul_Rss`.
pub const MINI_I64_MUL_SS_WR: i64 = 12;

/// `[MINI_I32_MUL_SS_WR, lhs_slot, rhs_slot]` (3 words): `ireg = wrap_i32(slots[lhs] *
/// slots[rhs])`. Lowers wasmi `I32Mul_Rss`.
pub const MINI_I32_MUL_SS_WR: i64 = 13;

/// `[MINI_I32_ADD_RS_WB, dst_slot, rhs_slot]` (3 words): `slots[dst] = ireg =
/// wrap_i32(ireg + slots[rhs])`. Lowers wasmi `I32Add_Rs_rs` (the `local.tee $dst
/// (i32.add <acc> (local.get $rhs)))` fusion, `lhs` = the implicit accumulator
/// register).
pub const MINI_I32_ADD_RS_WB: i64 = 14;

/// `[MINI_BR_U32_LE_SS, target_word, lhs_slot, rhs_slot]` (4 words): if
/// `lo32(slots[lhs]) <= lo32(slots[rhs])` (unsigned) jump to `target_word`. Lowers
/// wasmi `BranchU32Le_Ss`.
pub const MINI_BR_U32_LE_SS: i64 = 15;

/// `[MINI_BR_ALWAYS, target_word]` (2 words): unconditional jump to `target_word`.
/// Lowers wasmi `Branch`; a jump to a lower word is a back-edge.
pub const MINI_BR_ALWAYS: i64 = 16;

/// `[MINI_BR_I64_LE_SS, target_word, lhs_slot, rhs_slot]` (4 words): if `slots[lhs] <=
/// slots[rhs]` (signed i64) jump to `target_word`. Lowers wasmi `BranchI64Le_Ss`.
pub const MINI_BR_I64_LE_SS: i64 = 17;

/// `[MINI_I64_XOR_SS_WR, lhs_slot, rhs_slot]` (3 words): `ireg = slots[lhs] ^
/// slots[rhs]` (i64). Lowers wasmi `I64BitXor_Rss`.
pub const MINI_I64_XOR_SS_WR: i64 = 18;

/// `[MINI_I64_AND_RI_WR, imm]` (2 words): `ireg = ireg & imm` (i64). Lowers wasmi
/// `I64BitAnd_Rri` (the accumulator-and-immediate fusion).
pub const MINI_I64_AND_RI_WR: i64 = 19;

/// `[MINI_I64_AND_SI_WR, lhs_slot, imm]` (3 words): `ireg = slots[lhs] & imm` (i64).
/// Lowers wasmi `I64BitAnd_Rsi`.
pub const MINI_I64_AND_SI_WR: i64 = 20;

/// `[MINI_I64_ADD_RS_WB, dst_slot, rhs_slot]` (3 words): `slots[dst] = ireg = ireg +
/// slots[rhs]` (i64). Lowers wasmi `I64Add_Rs_rs` (`lhs` = the implicit accumulator
/// register).
pub const MINI_I64_ADD_RS_WB: i64 = 21;

/// `[MINI_U64_SHR_SI, src_slot, shift, mask]` (4 words): logical shift-right by a
/// constant - `ireg = (slots[src] >> shift) & mask`, where `mask` clears the `shift`
/// high bits the arithmetic `>>` sign-extends. Lowers wasmi `U64Shr_Rsi` (`i64.shr_u`
/// by an immediate). majit has only arithmetic `IntRshift`, so the mask reproduces the
/// logical (zero-fill) shift.
pub const MINI_U64_SHR_SI: i64 = 22;

/// `[MINI_I64_ADD_SS_WB, dst_slot, lhs_slot, rhs_slot]` (4 words): `slots[dst] = ireg =
/// slots[lhs] + slots[rhs]` (i64). Lowers wasmi `I64Add_Rs_ss` (the slot-and-reg result
/// variant of `MINI_I64_ADD_SS_WR`).
pub const MINI_I64_ADD_SS_WB: i64 = 23;

/// `[MINI_BR_I64_LE_SI, target_word, lhs_slot, imm]` (4 words): if `slots[lhs] <= imm`
/// (signed i64) jump to `target_word`. Lowers wasmi `BranchI64Le_Si`.
pub const MINI_BR_I64_LE_SI: i64 = 24;

/// `[MINI_I32_ADD_SS_WB, dst_slot, lhs_slot, rhs_slot]` (4 words): `slots[dst] = ireg =
/// i32-wrap(slots[lhs] + slots[rhs])`. Lowers wasmi `I32Add_Rs_ss`.
pub const MINI_I32_ADD_SS_WB: i64 = 25;

/// `[MINI_BR_I32_LT_SI, target_word, lhs_slot, imm]` (4 words): if `(i32)slots[lhs] <
/// imm` (signed i32, `imm` pre-sign-extended) jump to `target_word`. Lowers wasmi
/// `BranchI32Lt_Si`.
pub const MINI_BR_I32_LT_SI: i64 = 26;

/// `[MINI_BR_I64_LT_IR, target_word, imm]` (3 words): if `imm < ireg` (signed i64) jump
/// to `target_word` - the accumulator is the right operand. Lowers wasmi
/// `BranchI64Lt_Ir` (e.g. an `i > 0` bottom-tested loop back-edge, which wasmi rewrites
/// to `0 < i`).
pub const MINI_BR_I64_LT_IR: i64 = 27;

/// `[MINI_I64_OR_SS_WR, lhs_slot, rhs_slot]` (3 words): `ireg = slots[lhs] |
/// slots[rhs]` (i64). Lowers wasmi `I64BitOr_Rss`.
pub const MINI_I64_OR_SS_WR: i64 = 28;

/// `[MINI_I64_SUB_SS_WR, lhs_slot, rhs_slot]` (3 words): `ireg = slots[lhs] -
/// slots[rhs]` (i64, wrapping; non-commutative). Lowers wasmi `I64Sub_Rss`.
pub const MINI_I64_SUB_SS_WR: i64 = 29;

/// `[MINI_I32_XOR_SS_WR, lhs_slot, rhs_slot]` (3 words): `ireg = wrap_i32(slots[lhs] ^
/// slots[rhs])`. The canonical slot-slot form for i32 xor; reg-operand variants pre-
/// materialize into a scratch slot.
pub const MINI_I32_XOR_SS_WR: i64 = 30;

/// `[MINI_I32_AND_SS_WR, lhs_slot, rhs_slot]` (3 words): `ireg = wrap_i32(slots[lhs] &
/// slots[rhs])`.
pub const MINI_I32_AND_SS_WR: i64 = 31;

/// `[MINI_I32_OR_SS_WR, lhs_slot, rhs_slot]` (3 words): `ireg = wrap_i32(slots[lhs] |
/// slots[rhs])`.
pub const MINI_I32_OR_SS_WR: i64 = 32;

/// `[MINI_I32_SUB_SS_WR, lhs_slot, rhs_slot]` (3 words): `ireg = wrap_i32(slots[lhs] -
/// slots[rhs])` (non-commutative).
pub const MINI_I32_SUB_SS_WR: i64 = 33;

/// `[MINI_BR_I32_LE_SS, target_word, lhs_slot, rhs_slot]` (4 words): if
/// `(i32)slots[lhs] <= (i32)slots[rhs]` (signed i32) jump to `target_word`. Lowers
/// wasmi `BranchI32Le_Ss`.
pub const MINI_BR_I32_LE_SS: i64 = 34;

/// `[MINI_BR_I64_EQ_SS, target_word, lhs_slot, rhs_slot]` (4 words): if `slots[lhs] ==
/// slots[rhs]` (i64) jump to `target_word`. Lowers wasmi `BranchI64Eq_Ss`.
pub const MINI_BR_I64_EQ_SS: i64 = 35;

/// `[MINI_I64_SHL_SI, src_slot, shift]` (3 words): `ireg = slots[src] << shift` (i64
/// left shift by a constant). Lowers wasmi `I64Shl_Rsi`. Unlike the logical right
/// shift, a left shift needs no mask - `<<` zero-fills from the right.
pub const MINI_I64_SHL_SI: i64 = 36;

/// `[MINI_I32_SHL_SI, src_slot, shift]` (3 words): `ireg = wrap_i32(slots[src] <<
/// shift)` (i32 left shift, `shift` mod 32). The `<< 32 >> 32` re-canonicalizes the low
/// 32 bits. Lowers wasmi `I32Shl_Rsi`.
pub const MINI_I32_SHL_SI: i64 = 37;

/// `[MINI_U32_SHR_RI, shift]` (2 words): `ireg = wrap_i32((u32)ireg >> shift)` (i32
/// logical right shift of the accumulator by a constant). Masks to the low 32 bits
/// (zero-fill) then sign-extends. Lowers wasmi `U32Shr_Rri`.
pub const MINI_U32_SHR_RI: i64 = 38;

/// `[MINI_I32_LT_SI_R, lhs_slot, imm]` (3 words): a signed i32 comparison used as a 0/1
/// VALUE - `ireg = if (i32)slots[lhs] < imm { 1 } else { 0 }` (`imm` pre-sign-
/// extended). Lowers wasmi `I32Lt_Rsi`. The `if ... { 1 } else { 0 }` form is how a
/// compare RESULT (vs a compare-and-branch) traces.
pub const MINI_I32_LT_SI_R: i64 = 39;

/// `[MINI_I64_LT_IS_R, imm, rhs_slot]` (3 words): a signed i64 comparison used as a 0/1
/// value - `ireg = if imm < slots[rhs] { 1 } else { 0 }` (the immediate is the left
/// operand). Lowers wasmi `I64Lt_Ris` (e.g. `i64.gt_s x c` rewritten to `c < x`). No
/// i32 wraparound since the operands are full i64.
pub const MINI_I64_LT_IS_R: i64 = 40;

/// `[MINI_I64_LT_SI_R, lhs_slot, imm]` (3 words): a signed i64 comparison used as a 0/1
/// value - `ireg = if slots[lhs] < imm { 1 } else { 0 }`. Lowers wasmi `I64Lt_Rsi`.
pub const MINI_I64_LT_SI_R: i64 = 137;

/// `[MINI_I32_EQ_SS_R, lhs_slot, rhs_slot]` (3 words): a signed i32 `==` used as a 0/1
/// value into the int accumulator.
pub const MINI_I32_EQ_SS_R: i64 = 138;

/// `[MINI_I32_NE_SS_R, lhs_slot, rhs_slot]` (3 words): a signed i32 `!=` used as a 0/1
/// value into the int accumulator.
pub const MINI_I32_NE_SS_R: i64 = 139;

/// `[MINI_I32_LT_SS_R, lhs_slot, rhs_slot]` (3 words): a signed i32 `<` used as a 0/1
/// value into the int accumulator.
pub const MINI_I32_LT_SS_R: i64 = 140;

/// `[MINI_I32_LE_SS_R, lhs_slot, rhs_slot]` (3 words): a signed i32 `<=` used as a 0/1
/// value into the int accumulator.
pub const MINI_I32_LE_SS_R: i64 = 141;

/// `[MINI_U32_LT_SS_R, lhs_slot, rhs_slot]` (3 words): an unsigned i32 `<` used as a
/// 0/1 value into the int accumulator.
pub const MINI_U32_LT_SS_R: i64 = 142;

/// `[MINI_U32_LE_SS_R, lhs_slot, rhs_slot]` (3 words): an unsigned i32 `<=` used as a
/// 0/1 value into the int accumulator.
pub const MINI_U32_LE_SS_R: i64 = 143;

/// `[MINI_I64_EQ_SS_R, lhs_slot, rhs_slot]` (3 words): a signed i64 `==` used as a 0/1
/// value into the int accumulator.
pub const MINI_I64_EQ_SS_R: i64 = 144;

/// `[MINI_I64_NE_SS_R, lhs_slot, rhs_slot]` (3 words): a signed i64 `!=` used as a 0/1
/// value into the int accumulator.
pub const MINI_I64_NE_SS_R: i64 = 145;

/// `[MINI_I64_LT_SS_R, lhs_slot, rhs_slot]` (3 words): a signed i64 `<` used as a 0/1
/// value into the int accumulator.
pub const MINI_I64_LT_SS_R: i64 = 146;

/// `[MINI_I64_LE_SS_R, lhs_slot, rhs_slot]` (3 words): a signed i64 `<=` used as a 0/1
/// value into the int accumulator.
pub const MINI_I64_LE_SS_R: i64 = 147;

/// `[MINI_U64_LT_SS_R, lhs_slot, rhs_slot]` (3 words): an unsigned i64 `<` used as a
/// 0/1 value into the int accumulator.
pub const MINI_U64_LT_SS_R: i64 = 148;

/// `[MINI_U64_LE_SS_R, lhs_slot, rhs_slot]` (3 words): an unsigned i64 `<=` used as a
/// 0/1 value into the int accumulator.
pub const MINI_U64_LE_SS_R: i64 = 149;

/// `[MINI_COPY_RS, src_slot]` (2 words): `ireg = slots[src]`. The inverse of
/// [`MINI_COPY_SR`] - loads a slot value into the integer accumulator.
pub const MINI_COPY_RS: i64 = 150;

/// `[MINI_COPY_RI, imm]` (2 words): `ireg = imm`. Loads an immediate constant into the
/// integer accumulator.
pub const MINI_COPY_RI: i64 = 151;

/// `[MINI_I64_REINTERP_F64]` (1 word): `ireg = freg64-bits` - a pure 64-bit bit move
/// from the f64 accumulator to the integer accumulator. Lowers `I64ReinterpretF64_Rr`.
pub const MINI_I64_REINTERP_F64: i64 = 152;

/// `[MINI_F64_REINTERP_I64]` (1 word): `freg64 = ireg-bits` - a pure 64-bit bit move
/// from the integer accumulator to the f64 accumulator. Lowers `F64ReinterpretI64_Rr`.
pub const MINI_F64_REINTERP_I64: i64 = 153;

/// `[MINI_BR_I64_NE_SS, target, lhs_slot, rhs_slot]` (4 words): branch to `target` if
/// `slots[lhs] != slots[rhs]` (i64 comparison). Also valid for canonical i32 values
/// (sign-extended i64).
pub const MINI_BR_I64_NE_SS: i64 = 154;

/// `[MINI_BR_U64_LT_SS, target, lhs_slot, rhs_slot]` (4 words): branch to `target` if
/// `(slots[lhs] as u64) < (slots[rhs] as u64)` (unsigned i64).
pub const MINI_BR_U64_LT_SS: i64 = 155;

/// `[MINI_RETURN_BAIL]` (1 word): signals to the caller that the kernel hit an
/// instruction it cannot execute (tail call). The kernel returns and the caller falls
/// back to the stock executor from the function start.
pub const MINI_RETURN_BAIL: i64 = 156;

/// `[MINI_YIELD_STOCK, byte_offset, num_slots]` (3 words): yield to the stock executor
/// AT the indicated byte offset. Unlike [`MINI_RETURN_BAIL`] (which reruns the function
/// from byte 0), this flushes the kernel's computed slots to the real frame and resumes
/// the stock executor at `byte_offset` - the position of an operation the kernel
/// cannot handle. No double-apply of side effects because execution continues from the
/// exact instruction, not from the start.
pub const MINI_YIELD_STOCK: i64 = 157;

/// `[MINI_CALL_RESIDUAL, func_addr, params_start, params_len]` (4 words): execute an
/// internal function call via a `#[dont_look_inside]` residual. The kernel stages
/// `slots[params_start..params_start+params_len]` into a TLS buffer, then calls
/// `call_internal_residual(func_addr, params_len)`. The return value goes into `ireg`
/// (integer accumulator). The JIT treats the residual as an opaque call - the callee is
/// not traced.
pub const MINI_CALL_RESIDUAL: i64 = 158;

/// `[MINI_TRAP, trap_code_u8]` (2 words): unconditional trap. Sets the trap code via
/// `set_residual_trap` and returns 0. The caller surfaces the trap directly.
pub const MINI_TRAP: i64 = 159;

/// `[MINI_MEMORY_SIZE]` (1 word): return the current memory size in pages (`mem_len /
/// 65536`) into ireg. Reads from the `MEM_CTX` TLS.
pub const MINI_MEMORY_SIZE: i64 = 160;

/// `[MINI_U64_SHR_SS_WR, lhs_slot, rhs_slot]` (3 words): `ireg = (slots[lhs] as u64 >>
/// (slots[rhs] as u64 & 63)) as i64`. Unsigned 64-bit right shift with dynamic shift
/// amount.
pub const MINI_U64_SHR_SS_WR: i64 = 161;

/// `[MINI_MEM_COPY_WITHIN, dst_slot, src_slot, len_slot]` (4 words): `memory.copy`
/// within memory[0]. Reads dst/src/len from slots, performs bounds-checked
/// `copy_within` through a `#[dont_look_inside]` residual helper. Out-of-bounds sets
/// `MEM_TRAP`. This is same-memory only; cross-memory MemoryCopy bails the function.
pub const MINI_MEM_COPY_WITHIN: i64 = 162;

/// `[MINI_I64_OR_RI_WR, imm]` (2 words): `ireg = ireg | imm` (i64). Lowers wasmi
/// `I64BitOr_Rsi` (behind a copy of `lhs` into the accumulator).
pub const MINI_I64_OR_RI_WR: i64 = 163;

/// `[MINI_CALL_IMPORTED, func_idx, params_start, params_len]` (4 words): residual call
/// to an imported function. `func_idx` is the `index::Func` (u32) resolved through the
/// instance's function table at runtime. Result is written to `slots[params_start]`
/// (wasmi calling convention). The residual re-extracts `MEM_CTX` after the call (host
/// may `memory.grow`).
pub const MINI_CALL_IMPORTED: i64 = 164;

/// `[MINI_CALL_INDIRECT, table, func_type, index_slot, params_start, params_len]` (6
/// words): residual indirect call. Performs table lookup + null check + type check,
/// then dispatches to Wasm or Host. `index_slot` is the slot holding the runtime table
/// index. Result to `slots[params_start]`.
pub const MINI_CALL_INDIRECT: i64 = 165;

/// `[MINI_I64_LOAD_MEM0_OFF, offset]` (2 words): an i64 load from the default linear
/// memory - `ireg = *(mem_base + (ireg & 0xffff_ffff) + offset)`. The dynamic address
/// is the accumulator (an unsigned 32-bit wasm address); the static `offset` is added.
/// Lowers wasmi `U64LoadMem0Offset16_Rr`. The access goes through a
/// `#[dont_look_inside]` residual helper (it stays a real call in the compiled trace)
/// that bounds-checks against `mem_len`; an out-of-bounds access sets a trap flag and
/// the caller re-runs the function on the stock executor (which traps faithfully).
pub const MINI_I64_LOAD_MEM0_OFF: i64 = 41;

/// `[MINI_I32_LOAD_MEM0_OFF, offset]` (2 words): an i32 load from the default linear
/// memory - `ireg = sext32(*(mem_base + (ireg & 0xffff_ffff) + offset))`. Reads 4 bytes
/// (sign-extended to a canonical i32). Lowers wasmi `U32LoadMem0Offset16_Rr`. Bounds-
/// checked in the residual like the i64 load.
pub const MINI_I32_LOAD_MEM0_OFF: i64 = 42;

/// `[MINI_I64_SEXT32]` (1 word): `ireg = (ireg << 32) >> 32` - sign-extend the low 32
/// bits. Lowers wasmi `I64Sext32_Rr` (`i64.extend_i32_s`).
pub const MINI_I64_SEXT32: i64 = 43;

/// `[MINI_U8_LOAD_MEM0_OFF, offset]` (2 words): an unsigned byte load from the default
/// linear memory - `ireg = *(mem_base + (ireg & 0xffff_ffff) + offset)` as a zero-
/// extended byte (0..=255). Lowers wasmi `U32LoadExtend8Mem0Offset16_Rr`
/// (`i32.load8_u`). Bounds-checked in the residual.
pub const MINI_U8_LOAD_MEM0_OFF: i64 = 44;

/// `[MINI_I8_LOAD_MEM0_OFF, offset]` (2 words): a signed byte load from the default
/// linear memory - `ireg = *(mem_base + (ireg & 0xffff_ffff) + offset)` as a sign-
/// extended byte (-128..=127). Lowers wasmi `I32LoadExtend8Mem0Offset16_Rr`
/// (`i32.load8_s`). Bounds-checked in the residual.
pub const MINI_I8_LOAD_MEM0_OFF: i64 = 45;

/// `[MINI_U16_LOAD_MEM0_OFF, offset]` (2 words): an unsigned 16-bit load - a zero-
/// extended halfword (0..=65535). Lowers `U32LoadExtend16Mem0Offset16_Rr`
/// (`i32.load16_u`). Bounds-checked in the residual.
pub const MINI_U16_LOAD_MEM0_OFF: i64 = 46;

/// `[MINI_I16_LOAD_MEM0_OFF, offset]` (2 words): a signed 16-bit load - a sign-extended
/// halfword (-32768..=32767). Lowers `I32LoadExtend16Mem0Offset16_Rr` (`i32.load16_s`).
/// Bounds-checked in the residual.
pub const MINI_I16_LOAD_MEM0_OFF: i64 = 47;

/// `[MINI_I32_STORE_SR, ptr_slot, offset]` (3 words): a 32-bit store to the default
/// linear memory - `*(mem_base + (slots[ptr_slot] & 0xffff_ffff) + offset) = ireg as
/// u32`. Lowers wasmi `U32StoreMem0Offset16_Sr` (`i32.store` with the pointer in a slot
/// and the value in the accumulator). Bounds-checked in the residual; an out-of-bounds
/// store sets the trap flag and applies no further stores.
pub const MINI_I32_STORE_SR: i64 = 48;

/// `[MINI_RETURN_VOID]` (1 word): return from a function with no results. Lowers
/// wasmi's bare `Return`. The kernel returns a dummy `0`; the caller of a no-result
/// function ignores the result slot.
pub const MINI_RETURN_VOID: i64 = 49;

/// `[MINI_I32_STORE_RS, offset, val_slot]` (3 words): a 32-bit store to the default
/// linear memory with the pointer in the accumulator and the value in a slot -
/// `*(mem_base + (ireg & 0xffff_ffff) + offset) = slots[val_slot] as u32`. Lowers wasmi
/// `U32StoreMem0Offset16_Rs` (`i32.store` of a local, where the computed address stays
/// in the accumulator). Same bounds-checked residual as [`MINI_I32_STORE_SR`].
pub const MINI_I32_STORE_RS: i64 = 50;

/// `[MINI_I64_STORE_RS, offset, val_slot]` (3 words): a 64-bit store to the default
/// linear memory with the pointer in the accumulator and the value in a slot -
/// `*(mem_base + (ireg & 0xffff_ffff) + offset) = slots[val_slot] as u64` (8 bytes).
/// Lowers wasmi `U64StoreMem0Offset16_Rs` (`i64.store` of a local). Bounds-checked (`ea
/// + 8 > len`) like [`MINI_I32_STORE_RS`].
pub const MINI_I64_STORE_RS: i64 = 51;

/// `[MINI_I32_STORE8_RS, offset, val_slot]` (3 words): an 8-bit (wrapping) store -
/// `*(mem_base + (ireg & 0xffff_ffff) + offset) = slots[val_slot] as u8`. Lowers wasmi
/// `I32StoreWrap8Mem0Offset16_Rs` (`i32.store8`). Bounds-checked `ea + 1 > len`.
pub const MINI_I32_STORE8_RS: i64 = 52;

/// `[MINI_I32_STORE16_RS, offset, val_slot]` (3 words): a 16-bit (wrapping) store -
/// `*(mem_base + (ireg & 0xffff_ffff) + offset) = slots[val_slot] as u16`. Lowers wasmi
/// `I32StoreWrap16Mem0Offset16_Rs` (`i32.store16`). Bounds-checked `ea + 2 > len`.
pub const MINI_I32_STORE16_RS: i64 = 53;

/// `[MINI_I64_STORE_SR, ptr_slot, offset]` (3 words): a 64-bit store of a computed
/// value - `*(mem_base + (slots[ptr_slot] & 0xffff_ffff) + offset) = ireg as u64`.
/// Lowers wasmi `U64StoreMem0Offset16_Sr` (pointer in a slot, value in the
/// accumulator). Bounds-checked `ea + 8 > len`.
pub const MINI_I64_STORE_SR: i64 = 54;

/// `[MINI_I32_STORE8_SR, ptr_slot, offset]` (3 words): an 8-bit (wrapping) store of a
/// computed value - `... = ireg as u8`. Lowers `I32StoreWrap8Mem0Offset16_Sr`.
pub const MINI_I32_STORE8_SR: i64 = 55;

/// `[MINI_I32_STORE16_SR, ptr_slot, offset]` (3 words): a 16-bit (wrapping) store of a
/// computed value - `... = ireg as u16`. Lowers `I32StoreWrap16Mem0Offset16_Sr`.
pub const MINI_I32_STORE16_SR: i64 = 56;

/// `[MINI_I32_LT_RS_R, rhs_slot]` (2 words): a signed i32 comparison used as a 0/1
/// VALUE with the left operand in the accumulator - `ireg = if (i32)ireg <
/// (i32)slots[rhs] { 1 } else { 0 }`. Lowers wasmi `I32Lt_Rrs` (e.g. counting `mem[i] <
/// threshold`). Both operands are sign-extended from their low 32 bits.
pub const MINI_I32_LT_RS_R: i64 = 57;

/// `[MINI_I32_LT_SR_R, lhs_slot]` (2 words): a signed i32 comparison used as a 0/1
/// VALUE with the right operand in the accumulator - `ireg = if (i32)slots[lhs] <
/// (i32)ireg { 1 } else { 0 }`. Lowers wasmi `I32Lt_Rsr` (e.g. counting `mem[i] >
/// threshold`, which lowers to `threshold < mem[i]`). Both operands are sign-extended
/// from their low 32 bits.
pub const MINI_I32_LT_SR_R: i64 = 58;

/// `[MINI_SELECT, true_slot, false_slot]` (3 words): a branchless `select` - `ireg = if
/// (i32)ireg != 0 { slots[true_slot] } else { slots[false_slot] }`, the condition in
/// the accumulator. Lowers wasmi `U64Select_Rrss`. Implemented as `f + (t - f) * c`
/// with `c in {0, 1}` (a value-`if` over non-constant arms aborts the trace; the
/// arithmetic form is exact in wrapping i64).
pub const MINI_SELECT: i64 = 59;

/// `[MINI_I32_EQ_RS_R, rhs_slot]` (2 words): an i32 equality used as a 0/1 VALUE with
/// the left operand in the accumulator - `ireg = if (i32)ireg == (i32)slots[rhs] { 1 }
/// else { 0 }`. Lowers wasmi `I32Eq_Rrs` (e.g. counting occurrences `mem[i] ==
/// target`). Both operands are sign-extended from low 32.
pub const MINI_I32_EQ_RS_R: i64 = 60;

/// `[MINI_I32_NE_RS_R, rhs_slot]` (2 words): an i32 inequality used as a 0/1 VALUE with
/// the left operand in the accumulator - `ireg = if (i32)ireg != (i32)slots[rhs] { 1 }
/// else { 0 }`. Lowers wasmi `I32NotEq_Rrs`.
pub const MINI_I32_NE_RS_R: i64 = 61;

/// `[MINI_I64_EQ_RS_R, rhs_slot]` (2 words): an i64 equality used as a 0/1 VALUE with
/// the left operand in the accumulator - `ireg = if ireg == slots[rhs] { 1 } else { 0
/// }`. Lowers wasmi `I64Eq_Rrs`. Full i64, no sign-extension.
pub const MINI_I64_EQ_RS_R: i64 = 62;

/// `[MINI_I64_NE_RS_R, rhs_slot]` (2 words): an i64 inequality used as a 0/1 VALUE with
/// the left operand in the accumulator - `ireg = if ireg != slots[rhs] { 1 } else { 0
/// }`. Lowers wasmi `I64NotEq_Rrs`. Full i64.
pub const MINI_I64_NE_RS_R: i64 = 63;

/// `[MINI_I64_LT_RS_R, rhs_slot]` (2 words): a signed i64 less-than used as a 0/1 VALUE
/// with the left operand in the accumulator - `ireg = if ireg < slots[rhs] { 1 } else {
/// 0 }`. Lowers wasmi `I64Lt_Rrs`. Full i64, no wraparound.
pub const MINI_I64_LT_RS_R: i64 = 64;

/// `[MINI_I32_LE_RS_R, rhs_slot]` (2 words): a signed i32 `<=` used as a 0/1 VALUE with
/// the left operand in the accumulator - `ireg = if (i32)ireg <= (i32)slots[rhs] { 1 }
/// else { 0 }`. Lowers wasmi `I32Le_Rrs`. Both operands sign-extended from their low 32
/// bits.
pub const MINI_I32_LE_RS_R: i64 = 65;

/// `[MINI_U32_LT_RS_R, rhs_slot]` (2 words): an UNSIGNED i32 `<` used as a 0/1 VALUE
/// with the left operand in the accumulator - `ireg = if (ireg & 0xffffffff) <
/// (slots[rhs] & 0xffffffff) { 1 } else { 0 }`. Lowers wasmi `U32Lt_Rrs`. The mask
/// makes both operands non-negative i64 so the signed `<` realizes the unsigned order.
pub const MINI_U32_LT_RS_R: i64 = 66;

/// `[MINI_U32_LE_RS_R, rhs_slot]` (2 words): an UNSIGNED i32 `<=` used as a 0/1 VALUE -
/// `ireg = if (ireg & 0xffffffff) <= (slots[rhs] & 0xffffffff) { 1 } else { 0 }`.
/// Lowers wasmi `U32Le_Rrs`.
pub const MINI_U32_LE_RS_R: i64 = 67;

/// `[MINI_F64_ARITH_RS, sel, rhs_slot]` (3 words): `freg64 = freg64 OP slots[rhs]`
/// where `sel` is 0=add, 1=sub, 2=mul, 3=div - all as raw f64 bit-patterns. One
/// selector-dispatched residual (`f64_arith`) folds the four operations into a single
/// force-inlined arm, keeping the dispatch below the 256 register/const ceiling. Add is
/// commutative, so an `slot + acc` form (`F64Add_Rsr`) lowers here too; sub/div take
/// the accumulator as the left operand (wasm order). Lowers `F64Add_Rsr`, `F64Sub_Rrs`,
/// `F64Mul_Rrs`, `F64Div_Rrs` and the `_Rri` immediate forms (via a pre-materialized
/// scratch slot).
pub const MINI_F64_ARITH_RS: i64 = 68;

/// `[MINI_F64_CMP_RS_R, sel, rhs_slot]` (3 words): an f64 compare used as a 0/1 VALUE,
/// left operand in `freg64`; the integer 0/1 result lands in `ireg`. `sel` is 0=lt,
/// 1=le, 2=eq, 3=ne, 4=lt swapped, 5=le swapped. One selector residual (`f64_cmp`)
/// folds the compare forms. Lowers `F64Lt_Rrs`, `F64Le_Rrs`, `F64Eq_Rrs`,
/// `F64NotEq_Rrs`, `F64Lt_Rsr`, `F64Le_Rsr`.
pub const MINI_F64_CMP_RS_R: i64 = 69;

/// `[MINI_F64_UNARY_S, sel, src_slot]` (3 words): `freg64 = OP(slots[src])` (f64).
/// `sel` is 0=abs, 1=neg, 2=sqrt, 3=ceil, 4=floor, 5=trunc, 6=nearest. One selector
/// residual (`f64_unary`) folds the seven ops. The accumulator-input forms (`_Rr`) copy
/// `freg64` into a scratch slot first via [`MINI_COPY_S_FR`]; the slot forms (`_Rs`)
/// map directly.
pub const MINI_F64_UNARY_S: i64 = 70;

/// `[MINI_F64_MINMAX_RS, sel, rhs_slot]` (3 words): `freg64 = f64_minmax(sel, freg64,
/// slots[rhs])`. `sel` is 0=min, 1=max (wasm NaN-propagating / signed-zero semantics),
/// 2=copysign(freg64, slot), 3=copysign(slot, freg64). min/max are commutative, so the
/// slot-then-accumulator (`_Rsr`) and constant (`_Rri`, pre-materialized) forms also
/// map here; copysign is not commutative, so its `_Rsr` form uses `sel` 3 to swap the
/// magnitude and sign operands.
pub const MINI_F64_MINMAX_RS: i64 = 71;

/// `[MINI_F64_CVT_S, sel, src_slot]` (3 words): int (slot) -> f64 (`freg64`). `sel` is
/// 0=i32_s, 1=u32, 2=i64_s, 3=u64. One selector residual (`f64_convert`) folds the
/// four. The accumulator-input form (`_Rr`) copies the *integer* accumulator (`ireg`)
/// into a scratch slot first via [`MINI_COPY_SR`]; the slot form (`_Rs`) maps directly.
pub const MINI_F64_CVT_S: i64 = 85;

/// `[MINI_I64_SEXT32_S, src_slot]` (2 words): `ireg = (slots[src] << 32) >> 32` - sign-
/// extend the low 32 bits of a slot. Lowers wasmi `I64Sext32_Rs` (`i64.extend_i32_s` of
/// a local).
pub const MINI_I64_SEXT32_S: i64 = 89;

/// `[MINI_F64_TRUNC_SAT_S, sel, src_slot]` (3 words): saturating f64->int (NaN->0, out-
/// of-range clamps; never traps). `sel` is 0=i32_s, 1=u32, 2=i64_s, 3=u64. The f64
/// source is a slot, the integer result the integer accumulator; one selector residual
/// (`f64_trunc_sat`) folds the four. The accumulator-input form (`_Rr`) copies the
/// *f64* accumulator (`freg64`) into a scratch slot first via [`MINI_COPY_S_FR`]; the
/// slot form (`_Rs`) maps directly.
pub const MINI_F64_TRUNC_SAT_S: i64 = 90;

/// `[MINI_F64_TRUNC_S, sel, src_slot]` (3 words): trapping f64->int (NaN / out-of-range
/// trap with the exact wasm trap code via the residual's `set_residual_trap`). `sel` is
/// 0=i32_s, 1=u32, 2=i64_s, 3=u64. Same `_Rr` scratch-copy / `_Rs` direct lowering as
/// the saturating forms.
pub const MINI_F64_TRUNC_S: i64 = 94;

/// `[MINI_I32_ROTL_SI, src_slot, k]` (3 words): `ireg = wrap_i32(rotl32(slots[src],
/// k))` with `k` in `1..=31`. Rotates the low 32 bits left by `k`: `(x << k) | (x >>
/// (32 - k))` on the zero-extended low 32 bits, then `<< 32 >> 32` re-canonicalizes.
/// Lowers wasmi `I32Rotl_Rsi`; the prepass folds `k == 0` to an identity
/// `MINI_I32_SHL_SI src 0`.
pub const MINI_I32_ROTL_SI: i64 = 98;

/// `[MINI_I32_ROTR_SI, src_slot, k]` (3 words): `ireg = wrap_i32(rotr32(slots[src],
/// k))` with `k` in `1..=31`. Rotates the low 32 bits right by `k`: `(x >> k) | (x <<
/// (32 - k))` on the zero-extended low 32 bits, then `<< 32 >> 32` re-canonicalizes.
/// Lowers wasmi `I32Rotr_Rsi`; the prepass folds `k == 0` to an identity
/// `MINI_I32_SHL_SI src 0`.
pub const MINI_I32_ROTR_SI: i64 = 99;

/// `[MINI_COPY_S_FR, dst_slot]` (2 words): `slots[dst] = freg64` (the f64 accumulator,
/// `accum[1]`). The f64 counterpart of [`MINI_COPY_SR`], which spills the integer
/// accumulator (`accum[0]`). Lowers wasmi's f64 accumulator spills (`F64Copy_S{0..9}r`,
/// `F64Copy_Sr`) and the scratch-copy that f64-input `_Rr` ops (f64 unary, f64->int
/// truncation) emit before their slot-form arm.
pub const MINI_COPY_S_FR: i64 = 100;

/// `[MINI_F64_LOAD_MEM0_OFF, offset]` (2 words): an f64 load from the default linear
/// memory - `freg64 = *(mem_base + (ireg & 0xffff_ffff) + offset)` (a bit-identical
/// 8-byte read; the address is the integer accumulator, the result lands in the f64
/// accumulator `accum[1]`). Lowers wasmi `F64LoadMem0Offset16_Rr`. Bounds-checked in
/// the same residual as [`MINI_I64_LOAD_MEM0_OFF`].
pub const MINI_F64_LOAD_MEM0_OFF: i64 = 101;

/// `[MINI_F64_STORE_SR, ptr_slot, offset]` (3 words): an f64 store of a computed value
/// - `*(mem_base + (slots[ptr_slot] & 0xffff_ffff) + offset) = freg64` (a bit-identical
/// 8-byte store; the pointer is a slot, the value the f64 accumulator `accum[1]`).
/// Lowers wasmi `F64StoreMem0Offset16_Sr`. Bounds-checked in the same residual as
/// [`MINI_I64_STORE_SR`].
pub const MINI_F64_STORE_SR: i64 = 102;

/// `[MINI_I32_BITCOUNT_S, sel, src_slot]` (3 words): `ireg = bitcount(sel, low 32 bits
/// of slots[src])`, sel 0=clz / 1=ctz / 2=popcnt (all results 0..=32). One selector
/// residual (`i32_bitcount`) folds the three; lowers wasmi `I32{Clz,Ctz,Popcnt}_Rs`,
/// the accumulator-input `_Rr` forms copying `ireg` into a scratch slot first via
/// [`MINI_COPY_SR`]. The intrinsics live in a residual (never traced, never trap).
pub const MINI_I32_BITCOUNT_S: i64 = 103;

/// `[MINI_I64_BITCOUNT_S, sel, src_slot]` (3 words): `ireg = bitcount(sel, slots[src])`
/// over all 64 bits, sel 0=clz / 1=ctz / 2=popcnt (all 0..=64). Lowers wasmi
/// `I64{Clz,Ctz,Popcnt}_Rs` / `_Rr`.
pub const MINI_I64_BITCOUNT_S: i64 = 106;

/// `[MINI_I32_DIV_S, lhs_slot, rhs_slot]` (3 words): `i32.div_s`, as `ireg = slots[lhs]
/// / slots[rhs]`. The eight division and remainder opcodes share this shape. They can
/// trap (division by zero, signed overflow); the residual latches the trap. Lowers
/// wasmi `I32Div_R{ss,rs,sr,ri,si,ir,is}`.
pub const MINI_I32_DIV_S: i64 = 109;

/// `i32.div_u` (unsigned), result canonicalized to a sign-extended i64.
pub const MINI_I32_DIV_U: i64 = 110;

/// `i32.rem_s` (signed remainder).
pub const MINI_I32_REM_S: i64 = 111;

/// `i32.rem_u` (unsigned remainder), result sign-extended.
pub const MINI_I32_REM_U: i64 = 112;

/// `i64.div_s` (signed 64-bit division).
pub const MINI_I64_DIV_S: i64 = 113;

/// `i64.div_u` (unsigned 64-bit division).
pub const MINI_I64_DIV_U: i64 = 114;

/// `i64.rem_s` (signed 64-bit remainder).
pub const MINI_I64_REM_S: i64 = 115;

/// `i64.rem_u` (unsigned 64-bit remainder).
pub const MINI_I64_REM_U: i64 = 116;

/// `[MINI_F32_LOAD_MEM0_OFF, offset]` (2 words): `freg32 = load4(ireg + offset)` (the
/// bounds-checked 4-byte load). An f32 value is held as its raw 32 bits in the low half
/// of an i64. Lowers `F32LoadMem0Offset16_Rr`.
pub const MINI_F32_LOAD_MEM0_OFF: i64 = 117;

/// `[MINI_F32_STORE_SR, ptr_slot, offset]` (3 words): store the low 4 bytes of `freg32`
/// at `slots[ptr_slot] + offset`. Lowers `F32StoreMem0Offset16_Sr`.
pub const MINI_F32_STORE_SR: i64 = 118;

/// `[MINI_COPY_S_F32R, dst_slot]` (2 words): `slots[dst] = freg32` (spill the f32
/// accumulator). The f32 counterpart of `MINI_COPY_S_FR`. Lowers `F32Copy_*`.
pub const MINI_COPY_S_F32R: i64 = 119;

/// `[MINI_F32_ARITH_RS, sel, rhs_slot]` (3 words): `freg32 = freg32 OP slots[rhs]`
/// where `sel` is 0=add, 1=sub, 2=mul, 3=div. One selector-dispatched residual
/// (`f32_arith`) folds the four operations into a single force-inlined arm, keeping the
/// dispatch below the 256 register/const ceiling. Add is commutative, so an `slot +
/// acc` form lowers here too; sub/div take the accumulator as the left operand (wasm
/// order). Lowers `F32Add_Rsr`, `F32Sub_Rrs`, `F32Mul_Rrs`, `F32Div_Rrs`.
pub const MINI_F32_ARITH_RS: i64 = 120;

/// `[MINI_F32_MINMAX_RS, sel, rhs_slot]` (3 words): `freg32 = f32_minmax(sel, freg32,
/// slots[rhs])`. `sel` is 0=min, 1=max (wasm NaN-propagating / signed-zero semantics),
/// 2=copysign(freg32, slot), 3=copysign(slot, freg32). min/max are commutative, so the
/// slot-then-accumulator (`_Rsr`) and constant (`_Rri`, pre-materialized) forms also
/// map here; copysign is not commutative, so its `_Rsr` form uses `sel` 3 to swap the
/// magnitude and sign operands.
pub const MINI_F32_MINMAX_RS: i64 = 136;

/// `[MINI_F32_CMP_RS_R, sel, rhs_slot]` (3 words): an f32 compare used as a 0/1 VALUE,
/// left operand in `freg32`; the integer 0/1 result lands in `ireg`. `sel` is 0=lt,
/// 1=le, 2=eq, 3=ne, 4=lt swapped, 5=le swapped. One selector residual (`f32_cmp`)
/// folds the compare forms. Lowers `F32Lt_Rrs`, `F32Le_Rrs`, `F32Eq_Rrs`,
/// `F32NotEq_Rrs`, `F32Lt_Rsr`, `F32Le_Rsr`.
pub const MINI_F32_CMP_RS_R: i64 = 121;

/// `[MINI_F32_UNARY_S, sel, src_slot]` (3 words): `freg32 = OP(slots[src])` (f32).
/// `sel` is 0=abs, 1=neg, 2=sqrt, 3=ceil, 4=floor, 5=trunc, 6=nearest. One selector
/// residual (`f32_unary`) folds the seven ops. The accumulator-input forms (`_Rr`) copy
/// `freg32` into a scratch slot first via [`MINI_COPY_S_F32R`]; the slot forms (`_Rs`)
/// map directly.
pub const MINI_F32_UNARY_S: i64 = 122;

/// `[MINI_F32_CVT_S, sel, src_slot]` (3 words): integer (slot) -> f32 (`freg32`). `sel`
/// is 0=i32_s, 1=u32, 2=i64_s, 3=u64. One selector residual (`f32_convert`) folds the
/// four. Lowers `F32Convert{I,U}{32,64}_R{r,s}` (`_Rr` copies `ireg` into a scratch
/// slot via [`MINI_COPY_SR`]).
pub const MINI_F32_CVT_S: i64 = 123;

/// `[MINI_F64_PROMOTE_S, src_slot]` (2 words): f32 (slot) -> f64 (`freg64`) via the
/// `promote_f32_f64` residual. Lowers `F64PromoteF32_R{r,s}` (`_Rr` copies `freg32`
/// into a scratch slot via [`MINI_COPY_S_F32R`]).
pub const MINI_F64_PROMOTE_S: i64 = 124;

/// `[MINI_F32_DEMOTE_S, src_slot]` (2 words): f64 (slot) -> f32 (`freg32`) via the
/// `demote_f64_f32` residual. Lowers `F32DemoteF64_R{r,s}` (`_Rr` copies `freg64` into
/// a scratch slot via [`MINI_COPY_S_FR`]).
pub const MINI_F32_DEMOTE_S: i64 = 125;

/// `[MINI_I32_REINTERP_F32]` (1 word): `ireg = (i32) freg32-bits` - a pure bit move (no
/// residual). Lowers `I32ReinterpretF32_Rr`.
pub const MINI_I32_REINTERP_F32: i64 = 126;

/// `[MINI_F32_REINTERP_I32]` (1 word): `freg32 = low32(ireg)` - a pure bit move. Lowers
/// `F32ReinterpretI32_Rr`.
pub const MINI_F32_REINTERP_I32: i64 = 127;

/// `[MINI_F32_TRUNC_SAT_S, sel, src_slot]` (3 words): saturating f32->int (NaN->0, out-
/// of-range clamps; never traps). `sel` is 0=i32_s, 1=u32, 2=i64_s, 3=u64. The f32
/// source is a slot, the integer result `ireg`; one selector residual (`f32_trunc_sat`)
/// folds the four. `_Rr` copies `freg32` into a scratch slot via [`MINI_COPY_S_F32R`].
pub const MINI_F32_TRUNC_SAT_S: i64 = 128;

/// `[MINI_F32_TRUNC_S, sel, src_slot]` (3 words): trapping f32->int (NaN / out-of-range
/// trap via the residual's `set_residual_trap`). `sel` is 0=i32_s, 1=u32, 2=i64_s,
/// 3=u64. Same `_Rr` scratch-copy / `_Rs` direct lowering.
pub const MINI_F32_TRUNC_S: i64 = 129;

/// `[MINI_GLOBAL_GET_R, global_idx]` (2 words): `ireg = global_get(global_idx)`,
/// reading the raw `lo64` bits of an integer global into the accumulator. This is bit-
/// identical to the stock `GlobalGetU64_R` handler (which reads the same raw `u64` into
/// `ireg`); `GlobalGetU64_R` is only emitted for `i32`/`i64` globals (`f32`/`f64`
/// globals use `GlobalGet{F32,F64}_R`), so the integer accumulator is always the right
/// destination. The per-run global raw pointers are read from `GLOBALS_CTX`, set before
/// each run.
pub const MINI_GLOBAL_GET_R: i64 = 130;

/// `[MINI_GLOBAL_SET_S, global_idx, src_slot]` (3 words): writes `slots[src_slot]` raw
/// bits into integer global `global_idx`. Register and immediate value sources are pre-
/// materialized into a scratch slot (via [`MINI_COPY_SR`] / [`MINI_COPY_SI`]) so this
/// one slot-sourced arm covers every `GlobalSet{U64_R,U64_S,U64_I,U32_I}` form. Writing
/// the accumulator's full `i64` bits matches the stock handler for `i64` globals
/// exactly, and for `i32` globals only the low 32 bits are ever read back (by both the
/// JIT and the host `TypedRawVal`), so the high bits are unobserved.
pub const MINI_GLOBAL_SET_S: i64 = 131;

/// `[MINI_GLOBAL_GET_F32, global_idx]` (2 words): `freg32 = global_get(idx) low 32
/// bits`, reading an `f32` global's raw bits into the f32 accumulator. Reuses the
/// integer `global_get` residual (raw `lo64`); only the placement differs.
pub const MINI_GLOBAL_GET_F32: i64 = 132;

/// `[MINI_GLOBAL_GET_F64, global_idx]` (2 words): `freg64 = global_get(idx)`, reading
/// an `f64` global's raw bits into the f64 accumulator. `f32`/`f64` global SETs reuse
/// [`MINI_GLOBAL_SET_S`] after spilling the float accumulator into a scratch slot (via
/// [`MINI_COPY_S_F32R`] / [`MINI_COPY_S_FR`]).
pub const MINI_GLOBAL_GET_F64: i64 = 133;

/// `[MINI_RETURN_F_R]` (1 word): return the f64 accumulator (`freg64`) bits as the
/// function result. The bit pattern is written to result slot 0 and read back as `f64`
/// by the caller, matching the stock `ReturnF64_R`.
pub const MINI_RETURN_F_R: i64 = 134;

/// `[MINI_RETURN_F32_R]` (1 word): return the f32 accumulator (`freg32`) bits (low 32)
/// as the function result, matching the stock `ReturnF32_R`.
pub const MINI_RETURN_F32_R: i64 = 135;

/// Scratch slots reserved past the wasm frame's real slots, used by the prepass to
/// pre-materialize a reg/immediate operand into a slot so an op with mixed addressing modes
/// can reuse one uniform slot-slot kernel arm (a `MINI_COPY_S*` into a scratch slot,
/// then the slot-slot op). The copies fold away in the compiled trace. The kernel's
/// `slots` array (and the caller's seed) is sized `num_slots + NUM_SCRATCH`; scratch
/// indices are `num_slots .. num_slots + N`. Four covers a binary op whose two operands
/// both need materializing.
pub const NUM_SCRATCH: usize = 4;

// Scratch-dedicated ops.

/// `[MINI_COPY_SCRATCH0_R]` (1 word): `scratch0 = accum0` - save the integer
/// accumulator to the scratch0 scalar register.
pub const MINI_COPY_SCRATCH0_R: i64 = 171;

/// `[MINI_COPY_SCRATCH0_I, imm]` (2 words): `scratch0 = imm` - load an immediate
/// constant into scratch0.
pub const MINI_COPY_SCRATCH0_I: i64 = 172;

/// `[MINI_COPY_SCRATCH0_FR]` (1 word): `scratch0 = accum1` - save the f64 accumulator
/// bits to scratch0.
pub const MINI_COPY_SCRATCH0_FR: i64 = 173;

/// `[MINI_COPY_SCRATCH0_F32R]` (1 word): `scratch0 = accum2` - save the f32 accumulator
/// bits to scratch0.
pub const MINI_COPY_SCRATCH0_F32R: i64 = 174;

/// `[MINI_COPY_SCRATCH1_R]` (1 word): `scratch1 = accum0` - save the integer
/// accumulator to the scratch1 scalar register.
pub const MINI_COPY_SCRATCH1_R: i64 = 175;

/// `[MINI_COPY_SCRATCH1_I, imm]` (2 words): `scratch1 = imm` - load an immediate
/// constant into scratch1.
pub const MINI_COPY_SCRATCH1_I: i64 = 176;

// Binary RS ops (accum OP slot -> accum).

/// `[MINI_I32_AND_RS_WR, rhs_slot]` (2 words): `accum = wrap_i32(accum & slot)`.
pub const MINI_I32_AND_RS_WR: i64 = 177;

/// `[MINI_I32_OR_RS_WR, rhs_slot]` (2 words): `accum = wrap_i32(accum | slot)`.
pub const MINI_I32_OR_RS_WR: i64 = 178;

/// `[MINI_I32_SUB_RS_WR, rhs_slot]` (2 words): `accum = wrap_i32(accum - slot)`.
pub const MINI_I32_SUB_RS_WR: i64 = 179;

/// `[MINI_I32_MUL_RS_WR, rhs_slot]` (2 words): `accum = wrap_i32(accum * slot)`.
pub const MINI_I32_MUL_RS_WR: i64 = 180;

/// `[MINI_I32_XOR_RS_WR, rhs_slot]` (2 words): `accum = wrap_i32(accum ^ slot)`.
pub const MINI_I32_XOR_RS_WR: i64 = 181;

/// `[MINI_I64_SUB_RS_WR, rhs_slot]` (2 words): `accum = accum - slot`.
pub const MINI_I64_SUB_RS_WR: i64 = 182;

/// `[MINI_I64_MUL_RS_WR, rhs_slot]` (2 words): `accum = accum * slot`.
pub const MINI_I64_MUL_RS_WR: i64 = 183;

/// `[MINI_I64_OR_RS_WR, rhs_slot]` (2 words): `accum = accum | slot`.
pub const MINI_I64_OR_RS_WR: i64 = 184;

/// `[MINI_I64_XOR_RS_WR, rhs_slot]` (2 words): `accum = accum ^ slot`.
pub const MINI_I64_XOR_RS_WR: i64 = 185;

// Binary SR ops (slot OP accum -> accum).

/// `[MINI_I32_SUB_SR_WR, lhs_slot]` (2 words): `accum = wrap_i32(slot - accum)`.
pub const MINI_I32_SUB_SR_WR: i64 = 186;

/// `[MINI_I64_SUB_SR_WR, lhs_slot]` (2 words): `accum = slot - accum`.
pub const MINI_I64_SUB_SR_WR: i64 = 187;

// Add without slot writeback (replaces throwaway-scratch WB).

/// `[MINI_I32_ADD_RS_WR, rhs_slot]` (2 words): `accum = wrap_i32(accum + slot)`.
pub const MINI_I32_ADD_RS_WR: i64 = 188;

/// `[MINI_I64_ADD_RS_WR, rhs_slot]` (2 words): `accum = accum + slot`.
pub const MINI_I64_ADD_RS_WR: i64 = 189;

/// `[MINI_I32_ADD_SS_WR, lhs_slot, rhs_slot]` (3 words): `accum = wrap_i32(slot_l +
/// slot_r)` - no slot writeback.
pub const MINI_I32_ADD_SS_WR: i64 = 190;

// Div/rem with scratch operands (selector-dispatched).

/// `[MINI_DIVREM_SCRATCH0_S, sel, rhs_slot]` (3 words): `accum = divrem(sel, scratch0,
/// slot)`. `sel` encodes which div/rem variant.
pub const MINI_DIVREM_SCRATCH0_S: i64 = 191;

/// `[MINI_DIVREM_S_SCRATCH0, sel, lhs_slot]` (3 words): `accum = divrem(sel, slot,
/// scratch0)`. `sel` encodes which div/rem variant.
pub const MINI_DIVREM_S_SCRATCH0: i64 = 192;

/// `[MINI_DIVREM_SCRATCH01, sel]` (2 words): `accum = divrem(sel, scratch0, scratch1)`.
/// `sel` encodes which div/rem variant.
pub const MINI_DIVREM_SCRATCH01: i64 = 193;

// Bitcount/unary/convert from scratch0.

/// `[MINI_I32_BITCOUNT_SCRATCH0, sel]` (2 words): `accum = bitcount(sel, scratch0)`.
pub const MINI_I32_BITCOUNT_SCRATCH0: i64 = 194;

/// `[MINI_I64_BITCOUNT_SCRATCH0, sel]` (2 words): `accum = bitcount(sel, scratch0)`.
pub const MINI_I64_BITCOUNT_SCRATCH0: i64 = 195;

/// `[MINI_F32_UNARY_SCRATCH0, sel]` (2 words): `freg32 = unary(sel, scratch0)`.
pub const MINI_F32_UNARY_SCRATCH0: i64 = 196;

/// `[MINI_F64_UNARY_SCRATCH0, sel]` (2 words): `freg64 = unary(sel, scratch0)`.
pub const MINI_F64_UNARY_SCRATCH0: i64 = 197;

/// `[MINI_F32_CVT_SCRATCH0, sel]` (2 words): `freg32 = convert(sel, scratch0)`.
pub const MINI_F32_CVT_SCRATCH0: i64 = 198;

/// `[MINI_F64_CVT_SCRATCH0, sel]` (2 words): `freg64 = convert(sel, scratch0)`.
pub const MINI_F64_CVT_SCRATCH0: i64 = 199;

/// `[MINI_F64_PROMOTE_SCRATCH0]` (1 word): `freg64 = promote(scratch0)`.
pub const MINI_F64_PROMOTE_SCRATCH0: i64 = 200;

/// `[MINI_F32_DEMOTE_SCRATCH0]` (1 word): `freg32 = demote(scratch0)`.
pub const MINI_F32_DEMOTE_SCRATCH0: i64 = 201;

/// `[MINI_F32_TRUNC_SAT_SCRATCH0, sel]` (2 words): `accum = trunc_sat(sel, scratch0)`.
pub const MINI_F32_TRUNC_SAT_SCRATCH0: i64 = 202;

/// `[MINI_F64_TRUNC_SAT_SCRATCH0, sel]` (2 words): `accum = trunc_sat(sel, scratch0)`.
pub const MINI_F64_TRUNC_SAT_SCRATCH0: i64 = 203;

/// `[MINI_F32_TRUNC_SCRATCH0, sel]` (2 words): `accum = trunc(sel, scratch0)`.
pub const MINI_F32_TRUNC_SCRATCH0: i64 = 204;

/// `[MINI_F64_TRUNC_SCRATCH0, sel]` (2 words): `accum = trunc(sel, scratch0)`.
pub const MINI_F64_TRUNC_SCRATCH0: i64 = 205;

// Branch ops with accumulator operand.

/// `[MINI_BR_I64_NE_RS, target, rhs_slot]` (3 words): if `accum != slot` jump.
pub const MINI_BR_I64_NE_RS: i64 = 206;

/// `[MINI_BR_I64_EQ_RS, target, rhs_slot]` (3 words): if `accum == slot` jump.
pub const MINI_BR_I64_EQ_RS: i64 = 207;

/// `[MINI_BR_I64_EQ_RI, target, imm]` (3 words): if `accum == imm` jump.
pub const MINI_BR_I64_EQ_RI: i64 = 208;

/// `[MINI_BR_U32_LE_RS, target, rhs_slot]` (3 words): if `u32(accum) <= u32(slot)`
/// jump.
pub const MINI_BR_U32_LE_RS: i64 = 209;

// Float store from accum address.

/// `[MINI_F64_STORE_RR, offset]` (2 words): `*(accum0 + offset) = freg64`.
pub const MINI_F64_STORE_RR: i64 = 210;

/// `[MINI_F32_STORE_RR, offset]` (2 words): `*(accum0 + offset) = freg32`.
pub const MINI_F32_STORE_RR: i64 = 211;

// Global set from accum/imm.

/// `[MINI_GLOBAL_SET_R, idx]` (2 words): `global[idx] = accum0`.
pub const MINI_GLOBAL_SET_R: i64 = 212;

/// `[MINI_GLOBAL_SET_I, idx, imm]` (3 words): `global[idx] = imm`.
pub const MINI_GLOBAL_SET_I: i64 = 213;

/// `[MINI_GLOBAL_SET_FR, idx]` (2 words): `global[idx] = accum1` (f64 bits).
pub const MINI_GLOBAL_SET_FR: i64 = 214;

/// `[MINI_GLOBAL_SET_F32R, idx]` (2 words): `global[idx] = accum2` (f32 bits).
pub const MINI_GLOBAL_SET_F32R: i64 = 215;

// Misc scratch-elimination ops.

/// `[MINI_I64_LT_SR_R, lhs_slot]` (2 words): `accum = if slot < accum { 1 } else { 0
/// }`.
pub const MINI_I64_LT_SR_R: i64 = 216;

/// `[MINI_I32_SHL_RI, shift]` (2 words): `accum = wrap_i32(accum << shift)`.
pub const MINI_I32_SHL_RI: i64 = 217;

/// `[MINI_CALL_INDIRECT_SCRATCH0, table, func_type, params_start, params_len]` (5
/// words): indirect call with index from scratch0 instead of a slot.
pub const MINI_CALL_INDIRECT_SCRATCH0: i64 = 218;

/// `[MINI_I64_LT_SCRATCH0_I_R, imm]` (2 words): `accum = if scratch0 < imm { 1 } else {
/// 0 }`.
pub const MINI_I64_LT_SCRATCH0_I_R: i64 = 219;

// Integer store with scratch / accum.

/// `[MINI_I32_STORE8_SCRATCH0_R, offset]` (2 words): 8-bit store, ptr from scratch0,
/// value from accum.
pub const MINI_I32_STORE8_SCRATCH0_R: i64 = 220;

/// `[MINI_I32_STORE16_SCRATCH0_R, offset]` (2 words): 16-bit store, ptr from scratch0,
/// value from accum.
pub const MINI_I32_STORE16_SCRATCH0_R: i64 = 221;

/// `[MINI_I64_STORE_SCRATCH0_R, offset]` (2 words): 64-bit store, ptr from scratch0,
/// value from accum. Used when the store value must be loaded after the pointer has
/// already been moved to scratch0.
pub const MINI_I64_STORE_SCRATCH0_R: i64 = 222;

/// `[MINI_I32_STORE_SCRATCH0_R, offset]` (2 words): 32-bit store, ptr from scratch0,
/// value from accum.
pub const MINI_I32_STORE_SCRATCH0_R: i64 = 223;

// Comparison ops with scratch0.

/// `[MINI_U32_LT_SCRATCH0_S_R, rhs_slot]` (2 words): `accum = if u32(scratch0) <
/// u32(slot) { 1 } else { 0 }`.
pub const MINI_U32_LT_SCRATCH0_S_R: i64 = 224;

/// `[MINI_U32_LE_SCRATCH0_S_R, rhs_slot]` (2 words): `accum = if u32(scratch0) <=
/// u32(slot) { 1 } else { 0 }`.
pub const MINI_U32_LE_SCRATCH0_S_R: i64 = 225;

/// `[MINI_U32_LT_S_SCRATCH0_R, lhs_slot]` (2 words): `accum = if u32(slot) <
/// u32(scratch0) { 1 } else { 0 }`.
pub const MINI_U32_LT_S_SCRATCH0_R: i64 = 226;

/// `[MINI_U32_LE_S_SCRATCH0_R, lhs_slot]` (2 words): `accum = if u32(slot) <=
/// u32(scratch0) { 1 } else { 0 }`.
pub const MINI_U32_LE_S_SCRATCH0_R: i64 = 227;

/// `[MINI_I64_LE_SCRATCH0_S_R, rhs_slot]` (2 words): `accum = if scratch0 <= slot { 1 }
/// else { 0 }`.
pub const MINI_I64_LE_SCRATCH0_S_R: i64 = 228;

/// `[MINI_U64_LT_SCRATCH0_S_R, rhs_slot]` (2 words): `accum = if u64(scratch0) <
/// u64(slot) { 1 } else { 0 }`.
pub const MINI_U64_LT_SCRATCH0_S_R: i64 = 229;

/// `[MINI_U64_LT_S_SCRATCH0_R, lhs_slot]` (2 words): `accum = if u64(slot) <
/// u64(scratch0) { 1 } else { 0 }`.
pub const MINI_U64_LT_S_SCRATCH0_R: i64 = 230;

/// `[MINI_I32_LT_SCRATCH0_S_R, rhs_slot]` (2 words): `accum = if i32(scratch0) <
/// i32(slot) { 1 } else { 0 }`.
pub const MINI_I32_LT_SCRATCH0_S_R: i64 = 231;

// Scratch0-aware compare+branch combos.

/// `[MINI_BR_U64_LT_SCRATCH0_S, target, rhs_slot]` (3 words): branch if `u64(scratch0)
/// < u64(slot)`.
pub const MINI_BR_U64_LT_SCRATCH0_S: i64 = 232;

// Add with scratch operands.

/// `[MINI_I32_ADD_SCRATCH01_WB, dst_slot]` (2 words): `slots[dst] = accum =
/// wrap_i32(scratch0 + scratch1)`.
pub const MINI_I32_ADD_SCRATCH01_WB: i64 = 233;

/// `[MINI_I64_ADD_SCRATCH01_WB, dst_slot]` (2 words): `slots[dst] = accum = scratch0 +
/// scratch1`.
pub const MINI_I64_ADD_SCRATCH01_WB: i64 = 234;

/// `[MINI_I32_ADD_SCRATCH0_S_WB, dst_slot, rhs_slot]` (3 words): `slots[dst] = accum =
/// wrap_i32(scratch0 + slot)`.
pub const MINI_I32_ADD_SCRATCH0_S_WB: i64 = 235;

/// `[MINI_I64_ADD_SCRATCH0_S_WB, dst_slot, rhs_slot]` (3 words): `slots[dst] = accum =
/// scratch0 + slot`.
pub const MINI_I64_ADD_SCRATCH0_S_WB: i64 = 236;

// Select with scratch0 operand.

/// `[MINI_SELECT_SCRATCH0_S, false_slot]` (2 words): `accum = if accum != 0 { scratch0
/// } else { slot }`.
pub const MINI_SELECT_SCRATCH0_S: i64 = 237;

/// `[MINI_SELECT_S_SCRATCH0, true_slot]` (2 words): `accum = if accum != 0 { slot }
/// else { scratch0 }`.
pub const MINI_SELECT_S_SCRATCH0: i64 = 238;

/// `[MINI_SELECT_SCRATCH01]` (1 word): `accum = if accum != 0 { scratch0 } else {
/// scratch1 }`.
pub const MINI_SELECT_SCRATCH01: i64 = 239;

// Shift/rotate with scratch0.

/// `[MINI_U64_SHR_SCRATCH01_WR]` (1 word): `accum = (scratch0 as u64 >> (scratch1 as
/// u64 & 63)) as i64`.
pub const MINI_U64_SHR_SCRATCH01_WR: i64 = 240;

// I32 store from accum to accum address.

/// `[MINI_I32_STORE_SCRATCH0_I, offset, imm]` (3 words): `*(scratch0 + offset) = imm`
/// (32 bits).
pub const MINI_I32_STORE_SCRATCH0_I: i64 = 241;

// Comparison ops: scratch0 vs scratch1.

/// `[MINI_U32_LT_SCRATCH01_R]` (1 word): `accum = if u32(scratch0) < u32(scratch1) { 1
/// } else { 0 }`.
pub const MINI_U32_LT_SCRATCH01_R: i64 = 242;

/// `[MINI_U32_LE_SCRATCH01_R]` (1 word): `accum = if u32(scratch0) <= u32(scratch1) { 1
/// } else { 0 }`.
pub const MINI_U32_LE_SCRATCH01_R: i64 = 243;

/// `[MINI_U64_LT_SCRATCH01_R]` (1 word): `accum = if u64(scratch0) < u64(scratch1) { 1
/// } else { 0 }`.
pub const MINI_U64_LT_SCRATCH01_R: i64 = 244;

// Misc with scratch0.

/// `[MINI_I32_EQ_SCRATCH0_S_R, rhs_slot]` (2 words): `accum = if i32(scratch0) ==
/// i32(slot) { 1 } else { 0 }`.
pub const MINI_I32_EQ_SCRATCH0_S_R: i64 = 245;

/// `[MINI_I32_NE_SCRATCH0_S_R, rhs_slot]` (2 words): `accum = if i32(scratch0) !=
/// i32(slot) { 1 } else { 0 }`.
pub const MINI_I32_NE_SCRATCH0_S_R: i64 = 246;

/// `[MINI_I32_LE_SCRATCH0_S_R, rhs_slot]` (2 words): `accum = if i32(scratch0) <=
/// i32(slot) { 1 } else { 0 }`.
pub const MINI_I32_LE_SCRATCH0_S_R: i64 = 247;

/// `[MINI_I64_EQ_SCRATCH0_S_R, rhs_slot]` (2 words): `accum = if scratch0 == slot { 1 }
/// else { 0 }`.
pub const MINI_I64_EQ_SCRATCH0_S_R: i64 = 248;

/// `[MINI_I64_NE_SCRATCH0_S_R, rhs_slot]` (2 words): `accum = if scratch0 != slot { 1 }
/// else { 0 }`.
pub const MINI_I64_NE_SCRATCH0_S_R: i64 = 249;

/// `[MINI_U64_LE_SCRATCH0_S_R, rhs_slot]` (2 words): `accum = if u64(scratch0) <=
/// u64(slot) { 1 } else { 0 }`.
pub const MINI_U64_LE_SCRATCH0_S_R: i64 = 251;

// F32/F64 arith with scratch0 (for immediate forms).

/// `[MINI_F32_ARITH_SCRATCH0, sel]` (2 words): `freg32 = f32_arith(sel, freg32,
/// scratch0)`.
pub const MINI_F32_ARITH_SCRATCH0: i64 = 252;

/// `[MINI_F64_ARITH_SCRATCH0, sel]` (2 words): `freg64 = f64_arith(sel, freg64,
/// scratch0)`.
pub const MINI_F64_ARITH_SCRATCH0: i64 = 253;

/// `[MINI_F32_MINMAX_SCRATCH0, sel]` (2 words): `freg32 = f32_minmax(sel, freg32,
/// scratch0)`.
pub const MINI_F32_MINMAX_SCRATCH0: i64 = 254;

/// `[MINI_F64_MINMAX_SCRATCH0, sel]` (2 words): `freg64 = f64_minmax(sel, freg64,
/// scratch0)`.
pub const MINI_F64_MINMAX_SCRATCH0: i64 = 255;

/// `[MINI_I32_STORE_SCRATCH0_S, offset, val_slot]` (3 words): `*(scratch0 + offset) =
/// slots[val_slot]` (32 bits).
pub const MINI_I32_STORE_SCRATCH0_S: i64 = 256;

/// `[MINI_I64_STORE_SCRATCH0_I, offset, imm]` (3 words): `*(scratch0 + offset) = imm`.
pub const MINI_I64_STORE_SCRATCH0_I: i64 = 257;

/// `[MINI_I64_AND_SCRATCH0_I_WR, imm]` (2 words): `accum = scratch0 & imm`. Used by
/// U64LoadExtend32.
pub const MINI_I64_AND_SCRATCH0_I_WR: i64 = 258;

/// The numbers of the opcodes. They are the format of a program: whoever writes one and whoever
/// runs it agree on them. No two opcodes share a number.
pub proof fn law_opcodes()
    ensures
        MINI_HALT == 0,
        MINI_I32_ADD_SI_WB == 1,
        MINI_BR_I32_NE_RI == 2,
        MINI_RETURN_R == 3,
        MINI_COPY_SI == 4,
        MINI_COPY_SS == 5,
        MINI_COPY_SR == 6,
        MINI_I64_ADD_SS_WR == 7,
        MINI_BR_I64_EQ_SI == 9,
        MINI_BR_I64_NE_RI == 10,
        MINI_RETURN_S == 11,
        MINI_I64_MUL_SS_WR == 12,
        MINI_I32_MUL_SS_WR == 13,
        MINI_I32_ADD_RS_WB == 14,
        MINI_BR_U32_LE_SS == 15,
        MINI_BR_ALWAYS == 16,
        MINI_BR_I64_LE_SS == 17,
        MINI_I64_XOR_SS_WR == 18,
        MINI_I64_AND_RI_WR == 19,
        MINI_I64_AND_SI_WR == 20,
        MINI_I64_ADD_RS_WB == 21,
        MINI_U64_SHR_SI == 22,
        MINI_I64_ADD_SS_WB == 23,
        MINI_BR_I64_LE_SI == 24,
        MINI_I32_ADD_SS_WB == 25,
        MINI_BR_I32_LT_SI == 26,
        MINI_BR_I64_LT_IR == 27,
        MINI_I64_OR_SS_WR == 28,
        MINI_I64_SUB_SS_WR == 29,
        MINI_I32_XOR_SS_WR == 30,
        MINI_I32_AND_SS_WR == 31,
        MINI_I32_OR_SS_WR == 32,
        MINI_I32_SUB_SS_WR == 33,
        MINI_BR_I32_LE_SS == 34,
        MINI_BR_I64_EQ_SS == 35,
        MINI_I64_SHL_SI == 36,
        MINI_I32_SHL_SI == 37,
        MINI_U32_SHR_RI == 38,
        MINI_I32_LT_SI_R == 39,
        MINI_I64_LT_IS_R == 40,
        MINI_I64_LOAD_MEM0_OFF == 41,
        MINI_I32_LOAD_MEM0_OFF == 42,
        MINI_I64_SEXT32 == 43,
        MINI_U8_LOAD_MEM0_OFF == 44,
        MINI_I8_LOAD_MEM0_OFF == 45,
        MINI_U16_LOAD_MEM0_OFF == 46,
        MINI_I16_LOAD_MEM0_OFF == 47,
        MINI_I32_STORE_SR == 48,
        MINI_RETURN_VOID == 49,
        MINI_I32_STORE_RS == 50,
        MINI_I64_STORE_RS == 51,
        MINI_I32_STORE8_RS == 52,
        MINI_I32_STORE16_RS == 53,
        MINI_I64_STORE_SR == 54,
        MINI_I32_STORE8_SR == 55,
        MINI_I32_STORE16_SR == 56,
        MINI_I32_LT_RS_R == 57,
        MINI_I32_LT_SR_R == 58,
        MINI_SELECT == 59,
        MINI_I32_EQ_RS_R == 60,
        MINI_I32_NE_RS_R == 61,
        MINI_I64_EQ_RS_R == 62,
        MINI_I64_NE_RS_R == 63,
        MINI_I64_LT_RS_R == 64,
        MINI_I32_LE_RS_R == 65,
        MINI_U32_LT_RS_R == 66,
        MINI_U32_LE_RS_R == 67,
        MINI_F64_ARITH_RS == 68,
        MINI_F64_CMP_RS_R == 69,
        MINI_F64_UNARY_S == 70,
        MINI_F64_MINMAX_RS == 71,
        MINI_F64_CVT_S == 85,
        MINI_I64_SEXT32_S == 89,
        MINI_F64_TRUNC_SAT_S == 90,
        MINI_F64_TRUNC_S == 94,
        MINI_I32_ROTL_SI == 98,
        MINI_I32_ROTR_SI == 99,
        MINI_COPY_S_FR == 100,
        MINI_F64_LOAD_MEM0_OFF == 101,
        MINI_F64_STORE_SR == 102,
        MINI_I32_BITCOUNT_S == 103,
        MINI_I64_BITCOUNT_S == 106,
        MINI_I32_DIV_S == 109,
        MINI_I32_DIV_U == 110,
        MINI_I32_REM_S == 111,
        MINI_I32_REM_U == 112,
        MINI_I64_DIV_S == 113,
        MINI_I64_DIV_U == 114,
        MINI_I64_REM_S == 115,
        MINI_I64_REM_U == 116,
        MINI_F32_LOAD_MEM0_OFF == 117,
        MINI_F32_STORE_SR == 118,
        MINI_COPY_S_F32R == 119,
        MINI_F32_ARITH_RS == 120,
        MINI_F32_CMP_RS_R == 121,
        MINI_F32_UNARY_S == 122,
        MINI_F32_CVT_S == 123,
        MINI_F64_PROMOTE_S == 124,
        MINI_F32_DEMOTE_S == 125,
        MINI_I32_REINTERP_F32 == 126,
        MINI_F32_REINTERP_I32 == 127,
        MINI_F32_TRUNC_SAT_S == 128,
        MINI_F32_TRUNC_S == 129,
        MINI_GLOBAL_GET_R == 130,
        MINI_GLOBAL_SET_S == 131,
        MINI_GLOBAL_GET_F32 == 132,
        MINI_GLOBAL_GET_F64 == 133,
        MINI_RETURN_F_R == 134,
        MINI_RETURN_F32_R == 135,
        MINI_F32_MINMAX_RS == 136,
        MINI_I64_LT_SI_R == 137,
        MINI_I32_EQ_SS_R == 138,
        MINI_I32_NE_SS_R == 139,
        MINI_I32_LT_SS_R == 140,
        MINI_I32_LE_SS_R == 141,
        MINI_U32_LT_SS_R == 142,
        MINI_U32_LE_SS_R == 143,
        MINI_I64_EQ_SS_R == 144,
        MINI_I64_NE_SS_R == 145,
        MINI_I64_LT_SS_R == 146,
        MINI_I64_LE_SS_R == 147,
        MINI_U64_LT_SS_R == 148,
        MINI_U64_LE_SS_R == 149,
        MINI_COPY_RS == 150,
        MINI_COPY_RI == 151,
        MINI_I64_REINTERP_F64 == 152,
        MINI_F64_REINTERP_I64 == 153,
        MINI_BR_I64_NE_SS == 154,
        MINI_BR_U64_LT_SS == 155,
        MINI_RETURN_BAIL == 156,
        MINI_YIELD_STOCK == 157,
        MINI_CALL_RESIDUAL == 158,
        MINI_TRAP == 159,
        MINI_MEMORY_SIZE == 160,
        MINI_U64_SHR_SS_WR == 161,
        MINI_MEM_COPY_WITHIN == 162,
        MINI_I64_OR_RI_WR == 163,
        MINI_CALL_IMPORTED == 164,
        MINI_CALL_INDIRECT == 165,
        MINI_COPY_SCRATCH0_R == 171,
        MINI_COPY_SCRATCH0_I == 172,
        MINI_COPY_SCRATCH0_FR == 173,
        MINI_COPY_SCRATCH0_F32R == 174,
        MINI_COPY_SCRATCH1_R == 175,
        MINI_COPY_SCRATCH1_I == 176,
        MINI_I32_AND_RS_WR == 177,
        MINI_I32_OR_RS_WR == 178,
        MINI_I32_SUB_RS_WR == 179,
        MINI_I32_MUL_RS_WR == 180,
        MINI_I32_XOR_RS_WR == 181,
        MINI_I64_SUB_RS_WR == 182,
        MINI_I64_MUL_RS_WR == 183,
        MINI_I64_OR_RS_WR == 184,
        MINI_I64_XOR_RS_WR == 185,
        MINI_I32_SUB_SR_WR == 186,
        MINI_I64_SUB_SR_WR == 187,
        MINI_I32_ADD_RS_WR == 188,
        MINI_I64_ADD_RS_WR == 189,
        MINI_I32_ADD_SS_WR == 190,
        MINI_DIVREM_SCRATCH0_S == 191,
        MINI_DIVREM_S_SCRATCH0 == 192,
        MINI_DIVREM_SCRATCH01 == 193,
        MINI_I32_BITCOUNT_SCRATCH0 == 194,
        MINI_I64_BITCOUNT_SCRATCH0 == 195,
        MINI_F32_UNARY_SCRATCH0 == 196,
        MINI_F64_UNARY_SCRATCH0 == 197,
        MINI_F32_CVT_SCRATCH0 == 198,
        MINI_F64_CVT_SCRATCH0 == 199,
        MINI_F64_PROMOTE_SCRATCH0 == 200,
        MINI_F32_DEMOTE_SCRATCH0 == 201,
        MINI_F32_TRUNC_SAT_SCRATCH0 == 202,
        MINI_F64_TRUNC_SAT_SCRATCH0 == 203,
        MINI_F32_TRUNC_SCRATCH0 == 204,
        MINI_F64_TRUNC_SCRATCH0 == 205,
        MINI_BR_I64_NE_RS == 206,
        MINI_BR_I64_EQ_RS == 207,
        MINI_BR_I64_EQ_RI == 208,
        MINI_BR_U32_LE_RS == 209,
        MINI_F64_STORE_RR == 210,
        MINI_F32_STORE_RR == 211,
        MINI_GLOBAL_SET_R == 212,
        MINI_GLOBAL_SET_I == 213,
        MINI_GLOBAL_SET_FR == 214,
        MINI_GLOBAL_SET_F32R == 215,
        MINI_I64_LT_SR_R == 216,
        MINI_I32_SHL_RI == 217,
        MINI_CALL_INDIRECT_SCRATCH0 == 218,
        MINI_I64_LT_SCRATCH0_I_R == 219,
        MINI_I32_STORE8_SCRATCH0_R == 220,
        MINI_I32_STORE16_SCRATCH0_R == 221,
        MINI_I64_STORE_SCRATCH0_R == 222,
        MINI_I32_STORE_SCRATCH0_R == 223,
        MINI_U32_LT_SCRATCH0_S_R == 224,
        MINI_U32_LE_SCRATCH0_S_R == 225,
        MINI_U32_LT_S_SCRATCH0_R == 226,
        MINI_U32_LE_S_SCRATCH0_R == 227,
        MINI_I64_LE_SCRATCH0_S_R == 228,
        MINI_U64_LT_SCRATCH0_S_R == 229,
        MINI_U64_LT_S_SCRATCH0_R == 230,
        MINI_I32_LT_SCRATCH0_S_R == 231,
        MINI_BR_U64_LT_SCRATCH0_S == 232,
        MINI_I32_ADD_SCRATCH01_WB == 233,
        MINI_I64_ADD_SCRATCH01_WB == 234,
        MINI_I32_ADD_SCRATCH0_S_WB == 235,
        MINI_I64_ADD_SCRATCH0_S_WB == 236,
        MINI_SELECT_SCRATCH0_S == 237,
        MINI_SELECT_S_SCRATCH0 == 238,
        MINI_SELECT_SCRATCH01 == 239,
        MINI_U64_SHR_SCRATCH01_WR == 240,
        MINI_I32_STORE_SCRATCH0_I == 241,
        MINI_U32_LT_SCRATCH01_R == 242,
        MINI_U32_LE_SCRATCH01_R == 243,
        MINI_U64_LT_SCRATCH01_R == 244,
        MINI_I32_EQ_SCRATCH0_S_R == 245,
        MINI_I32_NE_SCRATCH0_S_R == 246,
        MINI_I32_LE_SCRATCH0_S_R == 247,
        MINI_I64_EQ_SCRATCH0_S_R == 248,
        MINI_I64_NE_SCRATCH0_S_R == 249,
        MINI_U64_LE_SCRATCH0_S_R == 251,
        MINI_F32_ARITH_SCRATCH0 == 252,
        MINI_F64_ARITH_SCRATCH0 == 253,
        MINI_F32_MINMAX_SCRATCH0 == 254,
        MINI_F64_MINMAX_SCRATCH0 == 255,
        MINI_I32_STORE_SCRATCH0_S == 256,
        MINI_I64_STORE_SCRATCH0_I == 257,
        MINI_I64_AND_SCRATCH0_I_WR == 258,
        NUM_SCRATCH == 4,
{
}

} // verus!
