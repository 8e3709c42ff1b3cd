//! The kernel that executes a MiniProgram: what each instruction does to the cells, the
//! accumulators and the state outside.

use crate::action::{
    conversion_reg, effective, float_reg, low32, perform, truth, wrap32, Action, BinOp, BitCount,
    Callee, Cell, Conversion, DivRem, FloatBin, FloatCompare, FloatUnary, FloatWidth, Flow, IntKind,
    IntWidth, Loaded, Machine, Reg, Residuals, Stored,
};
use crate::mini::{
    MINI_BR_ALWAYS, MINI_BR_I32_LE_SS, MINI_BR_I32_LT_SI, MINI_BR_I32_NE_RI, MINI_BR_I64_EQ_SI,
    MINI_BR_I64_EQ_SS, MINI_BR_I64_LE_SI, MINI_BR_I64_LE_SS, MINI_BR_I64_LT_IR, MINI_BR_I64_NE_RI,
    MINI_BR_I64_NE_SS, MINI_BR_U32_LE_SS, MINI_BR_U64_LT_SS, MINI_CALL_IMPORTED, MINI_CALL_INDIRECT,
    MINI_CALL_RESIDUAL, MINI_COPY_RI, MINI_COPY_RS, MINI_COPY_SI, MINI_COPY_SR, MINI_COPY_SS,
    MINI_COPY_S_F32R, MINI_COPY_S_FR, MINI_F32_ARITH_RS, MINI_F32_CMP_RS_R, MINI_F32_CVT_S,
    MINI_F32_DEMOTE_S, MINI_F32_LOAD_MEM0_OFF, MINI_F32_MINMAX_RS, MINI_F32_REINTERP_I32,
    MINI_F32_STORE_SR, MINI_F32_TRUNC_S, MINI_F32_TRUNC_SAT_S, MINI_F32_UNARY_S, MINI_F64_ARITH_RS,
    MINI_F64_CMP_RS_R, MINI_F64_CVT_S, MINI_F64_LOAD_MEM0_OFF, MINI_F64_MINMAX_RS,
    MINI_F64_PROMOTE_S, MINI_F64_REINTERP_I64, MINI_F64_STORE_SR, MINI_F64_TRUNC_S,
    MINI_F64_TRUNC_SAT_S, MINI_F64_UNARY_S, MINI_GLOBAL_GET_F32, MINI_GLOBAL_GET_F64,
    MINI_GLOBAL_GET_R, MINI_GLOBAL_SET_S, MINI_I16_LOAD_MEM0_OFF, MINI_I32_ADD_RS_WB,
    MINI_I32_ADD_RS_WR, MINI_I32_ADD_SI_WB, MINI_I32_ADD_SS_WB, MINI_I32_AND_RS_WR,
    MINI_I32_AND_SS_WR, MINI_I32_BITCOUNT_S, MINI_I32_DIV_S, MINI_I32_DIV_U, MINI_I32_EQ_RS_R,
    MINI_I32_EQ_SS_R, MINI_I32_LE_RS_R, MINI_I32_LE_SS_R, MINI_I32_LOAD_MEM0_OFF, MINI_I32_LT_RS_R,
    MINI_I32_LT_SI_R, MINI_I32_LT_SR_R, MINI_I32_LT_SS_R, MINI_I32_MUL_RS_WR, MINI_I32_MUL_SS_WR,
    MINI_I32_NE_RS_R, MINI_I32_NE_SS_R, MINI_I32_OR_RS_WR, MINI_I32_OR_SS_WR, MINI_I32_REINTERP_F32,
    MINI_I32_REM_S, MINI_I32_REM_U, MINI_I32_ROTL_SI, MINI_I32_ROTR_SI, MINI_I32_SHL_SI,
    MINI_I32_STORE16_RS, MINI_I32_STORE16_SR, MINI_I32_STORE8_RS, MINI_I32_STORE8_SR,
    MINI_I32_STORE_RS, MINI_I32_STORE_SR, MINI_I32_SUB_RS_WR, MINI_I32_SUB_SR_WR,
    MINI_I32_SUB_SS_WR, MINI_I32_XOR_RS_WR, MINI_I32_XOR_SS_WR, MINI_I64_ADD_RS_WB,
    MINI_I64_ADD_RS_WR, MINI_I64_ADD_SS_WB, MINI_I64_ADD_SS_WR, MINI_I64_AND_RI_WR,
    MINI_I64_AND_SI_WR, MINI_I64_BITCOUNT_S, MINI_I64_DIV_S, MINI_I64_DIV_U, MINI_I64_EQ_RS_R,
    MINI_I64_EQ_SS_R, MINI_I64_LE_SS_R, MINI_I64_LOAD_MEM0_OFF, MINI_I64_LT_IS_R, MINI_I64_LT_RS_R,
    MINI_I64_LT_SI_R, MINI_I64_LT_SS_R, MINI_I64_MUL_RS_WR, MINI_I64_MUL_SS_WR, MINI_I64_NE_RS_R,
    MINI_I64_NE_SS_R, MINI_I64_OR_RI_WR, MINI_I64_OR_RS_WR, MINI_I64_OR_SS_WR,
    MINI_I64_REINTERP_F64, MINI_I64_REM_S, MINI_I64_REM_U, MINI_I64_SEXT32, MINI_I64_SEXT32_S,
    MINI_I64_SHL_SI, MINI_I64_STORE_RS, MINI_I64_STORE_SR, MINI_I64_SUB_RS_WR, MINI_I64_SUB_SR_WR,
    MINI_I64_SUB_SS_WR, MINI_I64_XOR_RS_WR, MINI_I64_XOR_SS_WR, MINI_I8_LOAD_MEM0_OFF,
    MINI_MEMORY_SIZE, MINI_MEM_COPY_WITHIN, MINI_RETURN_BAIL, MINI_RETURN_S, MINI_RETURN_VOID,
    MINI_SELECT, MINI_TRAP, MINI_U16_LOAD_MEM0_OFF, MINI_U32_LE_RS_R, MINI_U32_LE_SS_R,
    MINI_U32_LT_RS_R, MINI_U32_LT_SS_R, MINI_U32_SHR_RI, MINI_U64_LE_SS_R, MINI_U64_LT_SS_R,
    MINI_U64_SHR_SI, MINI_U64_SHR_SS_WR, MINI_U8_LOAD_MEM0_OFF, MINI_YIELD_STOCK,
};
use crate::word::{operands, shaped, width_at, Kind, Operands, Word};
use vstd::prelude::*;

verus! {

/// What an instruction does, apart from its operands.
pub enum Form {
    /// `slots[a] = b`, an immediate.
    CopySi,
    /// `slots[a] = slots[b]`.
    CopySs,
    /// `slots[a] = reg`.
    CopyFrom(Reg),
    /// `ireg = slots[a]`.
    CopyRs,
    /// `ireg = a`, an immediate.
    CopyRi,
    /// `ireg = freg64`, as bits.
    IregFromFreg64,
    /// `freg64 = ireg`, as bits.
    Freg64FromIreg,
    /// `ireg = freg32`, the low 32 bits sign-extended.
    IregFromFreg32,
    /// `freg32 = ireg`, the low 32 bits.
    Freg32FromIreg,
    /// `ireg = op(slots[a], slots[b])`.
    Ss(BinOp),
    /// `ireg = op(ireg, slots[a])`.
    Rs(BinOp),
    /// `ireg = op(slots[a], ireg)`.
    Sr(BinOp),
    /// `ireg = op(slots[a], b)`.
    Si(BinOp),
    /// `ireg = op(ireg, a)`.
    Ri(BinOp),
    /// `ireg = op(a, slots[b])`.
    Is(BinOp),
    /// `slots[a] = ireg = op(slots[b], slots[c])`.
    SsWb(BinOp),
    /// `slots[a] = ireg = op(ireg, slots[b])`.
    RsWb(BinOp),
    /// `slots[a] = ireg = op(slots[b], c)`.
    SiWb(BinOp),
    /// `ireg = (slots[a] >> b) & c`: an arithmetic shift whose copies of the sign are
    /// masked off.
    ShiftMask,
    /// `ireg = sign_extend(low 32 bits of ireg)`.
    Sext32R,
    /// `ireg = sign_extend(low 32 bits of slots[a])`.
    Sext32S,
    /// `ireg = if ireg { slots[a] } else { slots[b] }`, on 32 bits of `ireg`.
    Select,
    /// `freg = op[a](freg, slots[b])`: a sum, difference, product or quotient.
    Arith(FloatWidth),
    /// `freg = op[a](freg, slots[b])`: a minimum, maximum or change of sign.
    MinMax(FloatWidth),
    /// `ireg = op[a](freg, slots[b])`: a comparison.
    FloatTest(FloatWidth),
    /// `freg = op[a](slots[b])`.
    FloatUnary(FloatWidth),
    /// `freg = convert[a](slots[b])`.
    Convert(FloatWidth),
    /// `ireg = truncate[a](slots[b])`.
    Trunc(FloatWidth),
    /// `ireg = truncate_saturating[a](slots[b])`.
    TruncSat(FloatWidth),
    /// `freg64 = promote(slots[a])`.
    Promote,
    /// `freg32 = demote(slots[a])`.
    Demote,
    /// `ireg = count[a](slots[b])`.
    BitCount(IntWidth),
    /// `ireg = op(slots[a], slots[b])`.
    DivRem(DivRem),
    /// `reg = memory[ireg + a]`.
    Load(Reg, Loaded),
    /// `memory[slots[a] + b] = reg`.
    StoreSr(Stored, Reg),
    /// `memory[ireg + a] = slots[b]`.
    StoreRs(Stored),
    /// `ireg = pages of memory`.
    MemorySize,
    /// `memory[slots[a]..] = memory[slots[b]..]`, `slots[c]` bytes, in memory 0.
    MemoryCopy,
    /// `reg = globals[a]`.
    GlobalGet(Reg),
    /// `globals[a] = slots[b]`.
    GlobalSet,
    /// `ireg = functions[a](slots[b..])`, with `c` parameters.
    CallInternal,
    /// `slots[b] = imports[a](slots[b..])`, with `c` parameters.
    CallImported,
    /// `slots[d] = tables[a][slots[c]](slots[d..])`, of type `b`, with `e` parameters.
    CallIndirect,
    /// Jump to `a`.
    Br,
    /// Jump to `a` if `op(slots[b], slots[c])`.
    BrSs(BinOp),
    /// Jump to `a` if `op(slots[b], c)`.
    BrSi(BinOp),
    /// Jump to `a` if `op(ireg, b)`.
    BrRi(BinOp),
    /// Jump to `a` if `op(b, ireg)`.
    BrIr(BinOp),
    /// Return `slots[a]`.
    ReturnS,
    /// Return.
    ReturnVoid,
    /// Leave to the stock executor, at the operation at byte `a`.
    Yield,
    /// Trap with code `a`.
    Trap,
    /// Leave to the stock executor, from the start.
    Bail,
}

/// What the instruction with opcode `code` does. The kernel knows no other opcodes.
#[verifier::opaque]
pub open spec fn form(code: i64) -> Option<Form> {
    if code == MINI_COPY_SI {
        Some(Form::CopySi)
    } else if code == MINI_COPY_SS {
        Some(Form::CopySs)
    } else if code == MINI_COPY_SR {
        Some(Form::CopyFrom(Reg::Ireg))
    } else if code == MINI_COPY_S_FR {
        Some(Form::CopyFrom(Reg::Freg64))
    } else if code == MINI_COPY_S_F32R {
        Some(Form::CopyFrom(Reg::Freg32))
    } else if code == MINI_COPY_RS {
        Some(Form::CopyRs)
    } else if code == MINI_COPY_RI {
        Some(Form::CopyRi)
    } else if code == MINI_I64_REINTERP_F64 {
        Some(Form::IregFromFreg64)
    } else if code == MINI_F64_REINTERP_I64 {
        Some(Form::Freg64FromIreg)
    } else if code == MINI_I32_REINTERP_F32 {
        Some(Form::IregFromFreg32)
    } else if code == MINI_F32_REINTERP_I32 {
        Some(Form::Freg32FromIreg)
    } else if code == MINI_I64_ADD_SS_WR {
        Some(Form::Ss(BinOp::I64Add))
    } else if code == MINI_I64_SUB_SS_WR {
        Some(Form::Ss(BinOp::I64Sub))
    } else if code == MINI_I64_MUL_SS_WR {
        Some(Form::Ss(BinOp::I64Mul))
    } else if code == MINI_I64_OR_SS_WR {
        Some(Form::Ss(BinOp::I64Or))
    } else if code == MINI_I64_XOR_SS_WR {
        Some(Form::Ss(BinOp::I64Xor))
    } else if code == MINI_I32_SUB_SS_WR {
        Some(Form::Ss(BinOp::I32Sub))
    } else if code == MINI_I32_MUL_SS_WR {
        Some(Form::Ss(BinOp::I32Mul))
    } else if code == MINI_I32_AND_SS_WR {
        Some(Form::Ss(BinOp::I32And))
    } else if code == MINI_I32_OR_SS_WR {
        Some(Form::Ss(BinOp::I32Or))
    } else if code == MINI_I32_XOR_SS_WR {
        Some(Form::Ss(BinOp::I32Xor))
    } else if code == MINI_U64_SHR_SS_WR {
        Some(Form::Ss(BinOp::U64Shr))
    } else if code == MINI_I32_EQ_SS_R {
        Some(Form::Ss(BinOp::I32Eq))
    } else if code == MINI_I32_NE_SS_R {
        Some(Form::Ss(BinOp::I32Ne))
    } else if code == MINI_I32_LT_SS_R {
        Some(Form::Ss(BinOp::I32Lt))
    } else if code == MINI_I32_LE_SS_R {
        Some(Form::Ss(BinOp::I32Le))
    } else if code == MINI_U32_LT_SS_R {
        Some(Form::Ss(BinOp::U32Lt))
    } else if code == MINI_U32_LE_SS_R {
        Some(Form::Ss(BinOp::U32Le))
    } else if code == MINI_I64_EQ_SS_R {
        Some(Form::Ss(BinOp::I64Eq))
    } else if code == MINI_I64_NE_SS_R {
        Some(Form::Ss(BinOp::I64Ne))
    } else if code == MINI_I64_LT_SS_R {
        Some(Form::Ss(BinOp::I64Lt))
    } else if code == MINI_I64_LE_SS_R {
        Some(Form::Ss(BinOp::I64Le))
    } else if code == MINI_U64_LT_SS_R {
        Some(Form::Ss(BinOp::U64Lt))
    } else if code == MINI_U64_LE_SS_R {
        Some(Form::Ss(BinOp::U64Le))
    } else if code == MINI_I32_ADD_RS_WR {
        Some(Form::Rs(BinOp::I32Add))
    } else if code == MINI_I32_SUB_RS_WR {
        Some(Form::Rs(BinOp::I32Sub))
    } else if code == MINI_I32_MUL_RS_WR {
        Some(Form::Rs(BinOp::I32Mul))
    } else if code == MINI_I32_AND_RS_WR {
        Some(Form::Rs(BinOp::I32And))
    } else if code == MINI_I32_OR_RS_WR {
        Some(Form::Rs(BinOp::I32Or))
    } else if code == MINI_I32_XOR_RS_WR {
        Some(Form::Rs(BinOp::I32Xor))
    } else if code == MINI_I64_ADD_RS_WR {
        Some(Form::Rs(BinOp::I64Add))
    } else if code == MINI_I64_SUB_RS_WR {
        Some(Form::Rs(BinOp::I64Sub))
    } else if code == MINI_I64_MUL_RS_WR {
        Some(Form::Rs(BinOp::I64Mul))
    } else if code == MINI_I64_OR_RS_WR {
        Some(Form::Rs(BinOp::I64Or))
    } else if code == MINI_I64_XOR_RS_WR {
        Some(Form::Rs(BinOp::I64Xor))
    } else if code == MINI_I32_EQ_RS_R {
        Some(Form::Rs(BinOp::I32Eq))
    } else if code == MINI_I32_NE_RS_R {
        Some(Form::Rs(BinOp::I32Ne))
    } else if code == MINI_I32_LT_RS_R {
        Some(Form::Rs(BinOp::I32Lt))
    } else if code == MINI_I32_LE_RS_R {
        Some(Form::Rs(BinOp::I32Le))
    } else if code == MINI_U32_LT_RS_R {
        Some(Form::Rs(BinOp::U32Lt))
    } else if code == MINI_U32_LE_RS_R {
        Some(Form::Rs(BinOp::U32Le))
    } else if code == MINI_I64_EQ_RS_R {
        Some(Form::Rs(BinOp::I64Eq))
    } else if code == MINI_I64_NE_RS_R {
        Some(Form::Rs(BinOp::I64Ne))
    } else if code == MINI_I64_LT_RS_R {
        Some(Form::Rs(BinOp::I64Lt))
    } else if code == MINI_I32_SUB_SR_WR {
        Some(Form::Sr(BinOp::I32Sub))
    } else if code == MINI_I64_SUB_SR_WR {
        Some(Form::Sr(BinOp::I64Sub))
    } else if code == MINI_I32_LT_SR_R {
        Some(Form::Sr(BinOp::I32Lt))
    } else if code == MINI_I64_AND_SI_WR {
        Some(Form::Si(BinOp::I64And))
    } else if code == MINI_I64_SHL_SI {
        Some(Form::Si(BinOp::I64Shl))
    } else if code == MINI_I32_SHL_SI {
        Some(Form::Si(BinOp::I32Shl))
    } else if code == MINI_I32_ROTL_SI {
        Some(Form::Si(BinOp::I32Rotl))
    } else if code == MINI_I32_ROTR_SI {
        Some(Form::Si(BinOp::I32Rotr))
    } else if code == MINI_I32_LT_SI_R {
        Some(Form::Si(BinOp::I32Lt))
    } else if code == MINI_I64_LT_SI_R {
        Some(Form::Si(BinOp::I64Lt))
    } else if code == MINI_I64_AND_RI_WR {
        Some(Form::Ri(BinOp::I64And))
    } else if code == MINI_I64_OR_RI_WR {
        Some(Form::Ri(BinOp::I64Or))
    } else if code == MINI_U32_SHR_RI {
        Some(Form::Ri(BinOp::U32Shr))
    } else if code == MINI_I64_LT_IS_R {
        Some(Form::Is(BinOp::I64Lt))
    } else if code == MINI_I32_ADD_SS_WB {
        Some(Form::SsWb(BinOp::I32Add))
    } else if code == MINI_I64_ADD_SS_WB {
        Some(Form::SsWb(BinOp::I64Add))
    } else if code == MINI_I32_ADD_RS_WB {
        Some(Form::RsWb(BinOp::I32Add))
    } else if code == MINI_I64_ADD_RS_WB {
        Some(Form::RsWb(BinOp::I64Add))
    } else if code == MINI_I32_ADD_SI_WB {
        Some(Form::SiWb(BinOp::I32Add))
    } else if code == MINI_U64_SHR_SI {
        Some(Form::ShiftMask)
    } else if code == MINI_I64_SEXT32 {
        Some(Form::Sext32R)
    } else if code == MINI_I64_SEXT32_S {
        Some(Form::Sext32S)
    } else if code == MINI_SELECT {
        Some(Form::Select)
    } else if code == MINI_F64_ARITH_RS {
        Some(Form::Arith(FloatWidth::F64))
    } else if code == MINI_F64_MINMAX_RS {
        Some(Form::MinMax(FloatWidth::F64))
    } else if code == MINI_F64_CMP_RS_R {
        Some(Form::FloatTest(FloatWidth::F64))
    } else if code == MINI_F64_UNARY_S {
        Some(Form::FloatUnary(FloatWidth::F64))
    } else if code == MINI_F64_CVT_S {
        Some(Form::Convert(FloatWidth::F64))
    } else if code == MINI_F64_TRUNC_S {
        Some(Form::Trunc(FloatWidth::F64))
    } else if code == MINI_F64_TRUNC_SAT_S {
        Some(Form::TruncSat(FloatWidth::F64))
    } else if code == MINI_F32_ARITH_RS {
        Some(Form::Arith(FloatWidth::F32))
    } else if code == MINI_F32_MINMAX_RS {
        Some(Form::MinMax(FloatWidth::F32))
    } else if code == MINI_F32_CMP_RS_R {
        Some(Form::FloatTest(FloatWidth::F32))
    } else if code == MINI_F32_UNARY_S {
        Some(Form::FloatUnary(FloatWidth::F32))
    } else if code == MINI_F32_CVT_S {
        Some(Form::Convert(FloatWidth::F32))
    } else if code == MINI_F32_TRUNC_S {
        Some(Form::Trunc(FloatWidth::F32))
    } else if code == MINI_F32_TRUNC_SAT_S {
        Some(Form::TruncSat(FloatWidth::F32))
    } else if code == MINI_F64_PROMOTE_S {
        Some(Form::Promote)
    } else if code == MINI_F32_DEMOTE_S {
        Some(Form::Demote)
    } else if code == MINI_I32_BITCOUNT_S {
        Some(Form::BitCount(IntWidth::W32))
    } else if code == MINI_I64_BITCOUNT_S {
        Some(Form::BitCount(IntWidth::W64))
    } else if code == MINI_I32_DIV_S {
        Some(Form::DivRem(DivRem::I32DivS))
    } else if code == MINI_I32_DIV_U {
        Some(Form::DivRem(DivRem::I32DivU))
    } else if code == MINI_I32_REM_S {
        Some(Form::DivRem(DivRem::I32RemS))
    } else if code == MINI_I32_REM_U {
        Some(Form::DivRem(DivRem::I32RemU))
    } else if code == MINI_I64_DIV_S {
        Some(Form::DivRem(DivRem::I64DivS))
    } else if code == MINI_I64_DIV_U {
        Some(Form::DivRem(DivRem::I64DivU))
    } else if code == MINI_I64_REM_S {
        Some(Form::DivRem(DivRem::I64RemS))
    } else if code == MINI_I64_REM_U {
        Some(Form::DivRem(DivRem::I64RemU))
    } else if code == MINI_I64_LOAD_MEM0_OFF {
        Some(Form::Load(Reg::Ireg, Loaded::I64))
    } else if code == MINI_I32_LOAD_MEM0_OFF {
        Some(Form::Load(Reg::Ireg, Loaded::I32))
    } else if code == MINI_U8_LOAD_MEM0_OFF {
        Some(Form::Load(Reg::Ireg, Loaded::U8))
    } else if code == MINI_I8_LOAD_MEM0_OFF {
        Some(Form::Load(Reg::Ireg, Loaded::I8))
    } else if code == MINI_U16_LOAD_MEM0_OFF {
        Some(Form::Load(Reg::Ireg, Loaded::U16))
    } else if code == MINI_I16_LOAD_MEM0_OFF {
        Some(Form::Load(Reg::Ireg, Loaded::I16))
    } else if code == MINI_F64_LOAD_MEM0_OFF {
        Some(Form::Load(Reg::Freg64, Loaded::I64))
    } else if code == MINI_F32_LOAD_MEM0_OFF {
        Some(Form::Load(Reg::Freg32, Loaded::I32))
    } else if code == MINI_I32_STORE_SR {
        Some(Form::StoreSr(Stored::B32, Reg::Ireg))
    } else if code == MINI_I64_STORE_SR {
        Some(Form::StoreSr(Stored::B64, Reg::Ireg))
    } else if code == MINI_I32_STORE8_SR {
        Some(Form::StoreSr(Stored::B8, Reg::Ireg))
    } else if code == MINI_I32_STORE16_SR {
        Some(Form::StoreSr(Stored::B16, Reg::Ireg))
    } else if code == MINI_F64_STORE_SR {
        Some(Form::StoreSr(Stored::B64, Reg::Freg64))
    } else if code == MINI_F32_STORE_SR {
        Some(Form::StoreSr(Stored::B32, Reg::Freg32))
    } else if code == MINI_I32_STORE_RS {
        Some(Form::StoreRs(Stored::B32))
    } else if code == MINI_I64_STORE_RS {
        Some(Form::StoreRs(Stored::B64))
    } else if code == MINI_I32_STORE8_RS {
        Some(Form::StoreRs(Stored::B8))
    } else if code == MINI_I32_STORE16_RS {
        Some(Form::StoreRs(Stored::B16))
    } else if code == MINI_MEMORY_SIZE {
        Some(Form::MemorySize)
    } else if code == MINI_MEM_COPY_WITHIN {
        Some(Form::MemoryCopy)
    } else if code == MINI_GLOBAL_GET_R {
        Some(Form::GlobalGet(Reg::Ireg))
    } else if code == MINI_GLOBAL_GET_F64 {
        Some(Form::GlobalGet(Reg::Freg64))
    } else if code == MINI_GLOBAL_GET_F32 {
        Some(Form::GlobalGet(Reg::Freg32))
    } else if code == MINI_GLOBAL_SET_S {
        Some(Form::GlobalSet)
    } else if code == MINI_CALL_RESIDUAL {
        Some(Form::CallInternal)
    } else if code == MINI_CALL_IMPORTED {
        Some(Form::CallImported)
    } else if code == MINI_CALL_INDIRECT {
        Some(Form::CallIndirect)
    } else if code == MINI_BR_ALWAYS {
        Some(Form::Br)
    } else if code == MINI_BR_U32_LE_SS {
        Some(Form::BrSs(BinOp::U32Le))
    } else if code == MINI_BR_I64_LE_SS {
        Some(Form::BrSs(BinOp::I64Le))
    } else if code == MINI_BR_I32_LE_SS {
        Some(Form::BrSs(BinOp::I32Le))
    } else if code == MINI_BR_I64_EQ_SS {
        Some(Form::BrSs(BinOp::I64Eq))
    } else if code == MINI_BR_I64_NE_SS {
        Some(Form::BrSs(BinOp::I64Ne))
    } else if code == MINI_BR_U64_LT_SS {
        Some(Form::BrSs(BinOp::U64Lt))
    } else if code == MINI_BR_I64_EQ_SI {
        Some(Form::BrSi(BinOp::I64Eq))
    } else if code == MINI_BR_I64_LE_SI {
        Some(Form::BrSi(BinOp::I64Le))
    } else if code == MINI_BR_I32_LT_SI {
        Some(Form::BrSi(BinOp::I32Lt))
    } else if code == MINI_BR_I32_NE_RI {
        Some(Form::BrRi(BinOp::I32Ne))
    } else if code == MINI_BR_I64_NE_RI {
        Some(Form::BrRi(BinOp::I64Ne))
    } else if code == MINI_BR_I64_LT_IR {
        Some(Form::BrIr(BinOp::I64Lt))
    } else if code == MINI_RETURN_S {
        Some(Form::ReturnS)
    } else if code == MINI_RETURN_VOID {
        Some(Form::ReturnVoid)
    } else if code == MINI_YIELD_STOCK {
        Some(Form::Yield)
    } else if code == MINI_TRAP {
        Some(Form::Trap)
    } else if code == MINI_RETURN_BAIL {
        Some(Form::Bail)
    } else {
        None
    }
}

/// What each opcode of the kernel does, and the operands it takes.
pub proof fn lemma_codes()
    ensures
        form(MINI_COPY_SI) == Some(Form::CopySi),
        form(MINI_COPY_SS) == Some(Form::CopySs),
        form(MINI_COPY_SR) == Some(Form::CopyFrom(Reg::Ireg)),
        form(MINI_COPY_S_FR) == Some(Form::CopyFrom(Reg::Freg64)),
        form(MINI_COPY_S_F32R) == Some(Form::CopyFrom(Reg::Freg32)),
        form(MINI_COPY_RS) == Some(Form::CopyRs),
        form(MINI_COPY_RI) == Some(Form::CopyRi),
        form(MINI_I64_REINTERP_F64) == Some(Form::IregFromFreg64),
        form(MINI_F64_REINTERP_I64) == Some(Form::Freg64FromIreg),
        form(MINI_I32_REINTERP_F32) == Some(Form::IregFromFreg32),
        form(MINI_F32_REINTERP_I32) == Some(Form::Freg32FromIreg),
        form(MINI_I64_ADD_SS_WR) == Some(Form::Ss(BinOp::I64Add)),
        form(MINI_I64_SUB_SS_WR) == Some(Form::Ss(BinOp::I64Sub)),
        form(MINI_I64_MUL_SS_WR) == Some(Form::Ss(BinOp::I64Mul)),
        form(MINI_I64_OR_SS_WR) == Some(Form::Ss(BinOp::I64Or)),
        form(MINI_I64_XOR_SS_WR) == Some(Form::Ss(BinOp::I64Xor)),
        form(MINI_I32_SUB_SS_WR) == Some(Form::Ss(BinOp::I32Sub)),
        form(MINI_I32_MUL_SS_WR) == Some(Form::Ss(BinOp::I32Mul)),
        form(MINI_I32_AND_SS_WR) == Some(Form::Ss(BinOp::I32And)),
        form(MINI_I32_OR_SS_WR) == Some(Form::Ss(BinOp::I32Or)),
        form(MINI_I32_XOR_SS_WR) == Some(Form::Ss(BinOp::I32Xor)),
        form(MINI_U64_SHR_SS_WR) == Some(Form::Ss(BinOp::U64Shr)),
        form(MINI_I32_EQ_SS_R) == Some(Form::Ss(BinOp::I32Eq)),
        form(MINI_I32_NE_SS_R) == Some(Form::Ss(BinOp::I32Ne)),
        form(MINI_I32_LT_SS_R) == Some(Form::Ss(BinOp::I32Lt)),
        form(MINI_I32_LE_SS_R) == Some(Form::Ss(BinOp::I32Le)),
        form(MINI_U32_LT_SS_R) == Some(Form::Ss(BinOp::U32Lt)),
        form(MINI_U32_LE_SS_R) == Some(Form::Ss(BinOp::U32Le)),
        form(MINI_I64_EQ_SS_R) == Some(Form::Ss(BinOp::I64Eq)),
        form(MINI_I64_NE_SS_R) == Some(Form::Ss(BinOp::I64Ne)),
        form(MINI_I64_LT_SS_R) == Some(Form::Ss(BinOp::I64Lt)),
        form(MINI_I64_LE_SS_R) == Some(Form::Ss(BinOp::I64Le)),
        form(MINI_U64_LT_SS_R) == Some(Form::Ss(BinOp::U64Lt)),
        form(MINI_U64_LE_SS_R) == Some(Form::Ss(BinOp::U64Le)),
        form(MINI_I32_ADD_RS_WR) == Some(Form::Rs(BinOp::I32Add)),
        form(MINI_I32_SUB_RS_WR) == Some(Form::Rs(BinOp::I32Sub)),
        form(MINI_I32_MUL_RS_WR) == Some(Form::Rs(BinOp::I32Mul)),
        form(MINI_I32_AND_RS_WR) == Some(Form::Rs(BinOp::I32And)),
        form(MINI_I32_OR_RS_WR) == Some(Form::Rs(BinOp::I32Or)),
        form(MINI_I32_XOR_RS_WR) == Some(Form::Rs(BinOp::I32Xor)),
        form(MINI_I64_ADD_RS_WR) == Some(Form::Rs(BinOp::I64Add)),
        form(MINI_I64_SUB_RS_WR) == Some(Form::Rs(BinOp::I64Sub)),
        form(MINI_I64_MUL_RS_WR) == Some(Form::Rs(BinOp::I64Mul)),
        form(MINI_I64_OR_RS_WR) == Some(Form::Rs(BinOp::I64Or)),
        form(MINI_I64_XOR_RS_WR) == Some(Form::Rs(BinOp::I64Xor)),
        form(MINI_I32_EQ_RS_R) == Some(Form::Rs(BinOp::I32Eq)),
        form(MINI_I32_NE_RS_R) == Some(Form::Rs(BinOp::I32Ne)),
        form(MINI_I32_LT_RS_R) == Some(Form::Rs(BinOp::I32Lt)),
        form(MINI_I32_LE_RS_R) == Some(Form::Rs(BinOp::I32Le)),
        form(MINI_U32_LT_RS_R) == Some(Form::Rs(BinOp::U32Lt)),
        form(MINI_U32_LE_RS_R) == Some(Form::Rs(BinOp::U32Le)),
        form(MINI_I64_EQ_RS_R) == Some(Form::Rs(BinOp::I64Eq)),
        form(MINI_I64_NE_RS_R) == Some(Form::Rs(BinOp::I64Ne)),
        form(MINI_I64_LT_RS_R) == Some(Form::Rs(BinOp::I64Lt)),
        form(MINI_I32_SUB_SR_WR) == Some(Form::Sr(BinOp::I32Sub)),
        form(MINI_I64_SUB_SR_WR) == Some(Form::Sr(BinOp::I64Sub)),
        form(MINI_I32_LT_SR_R) == Some(Form::Sr(BinOp::I32Lt)),
        form(MINI_I64_AND_SI_WR) == Some(Form::Si(BinOp::I64And)),
        form(MINI_I64_SHL_SI) == Some(Form::Si(BinOp::I64Shl)),
        form(MINI_I32_SHL_SI) == Some(Form::Si(BinOp::I32Shl)),
        form(MINI_I32_ROTL_SI) == Some(Form::Si(BinOp::I32Rotl)),
        form(MINI_I32_ROTR_SI) == Some(Form::Si(BinOp::I32Rotr)),
        form(MINI_I32_LT_SI_R) == Some(Form::Si(BinOp::I32Lt)),
        form(MINI_I64_LT_SI_R) == Some(Form::Si(BinOp::I64Lt)),
        form(MINI_I64_AND_RI_WR) == Some(Form::Ri(BinOp::I64And)),
        form(MINI_I64_OR_RI_WR) == Some(Form::Ri(BinOp::I64Or)),
        form(MINI_U32_SHR_RI) == Some(Form::Ri(BinOp::U32Shr)),
        form(MINI_I64_LT_IS_R) == Some(Form::Is(BinOp::I64Lt)),
        form(MINI_I32_ADD_SS_WB) == Some(Form::SsWb(BinOp::I32Add)),
        form(MINI_I64_ADD_SS_WB) == Some(Form::SsWb(BinOp::I64Add)),
        form(MINI_I32_ADD_RS_WB) == Some(Form::RsWb(BinOp::I32Add)),
        form(MINI_I64_ADD_RS_WB) == Some(Form::RsWb(BinOp::I64Add)),
        form(MINI_I32_ADD_SI_WB) == Some(Form::SiWb(BinOp::I32Add)),
        form(MINI_U64_SHR_SI) == Some(Form::ShiftMask),
        form(MINI_I64_SEXT32) == Some(Form::Sext32R),
        form(MINI_I64_SEXT32_S) == Some(Form::Sext32S),
        form(MINI_SELECT) == Some(Form::Select),
        form(MINI_F64_ARITH_RS) == Some(Form::Arith(FloatWidth::F64)),
        form(MINI_F64_MINMAX_RS) == Some(Form::MinMax(FloatWidth::F64)),
        form(MINI_F64_CMP_RS_R) == Some(Form::FloatTest(FloatWidth::F64)),
        form(MINI_F64_UNARY_S) == Some(Form::FloatUnary(FloatWidth::F64)),
        form(MINI_F64_CVT_S) == Some(Form::Convert(FloatWidth::F64)),
        form(MINI_F64_TRUNC_S) == Some(Form::Trunc(FloatWidth::F64)),
        form(MINI_F64_TRUNC_SAT_S) == Some(Form::TruncSat(FloatWidth::F64)),
        form(MINI_F32_ARITH_RS) == Some(Form::Arith(FloatWidth::F32)),
        form(MINI_F32_MINMAX_RS) == Some(Form::MinMax(FloatWidth::F32)),
        form(MINI_F32_CMP_RS_R) == Some(Form::FloatTest(FloatWidth::F32)),
        form(MINI_F32_UNARY_S) == Some(Form::FloatUnary(FloatWidth::F32)),
        form(MINI_F32_CVT_S) == Some(Form::Convert(FloatWidth::F32)),
        form(MINI_F32_TRUNC_S) == Some(Form::Trunc(FloatWidth::F32)),
        form(MINI_F32_TRUNC_SAT_S) == Some(Form::TruncSat(FloatWidth::F32)),
        form(MINI_F64_PROMOTE_S) == Some(Form::Promote),
        form(MINI_F32_DEMOTE_S) == Some(Form::Demote),
        form(MINI_I32_BITCOUNT_S) == Some(Form::BitCount(IntWidth::W32)),
        form(MINI_I64_BITCOUNT_S) == Some(Form::BitCount(IntWidth::W64)),
        form(MINI_I32_DIV_S) == Some(Form::DivRem(DivRem::I32DivS)),
        form(MINI_I32_DIV_U) == Some(Form::DivRem(DivRem::I32DivU)),
        form(MINI_I32_REM_S) == Some(Form::DivRem(DivRem::I32RemS)),
        form(MINI_I32_REM_U) == Some(Form::DivRem(DivRem::I32RemU)),
        form(MINI_I64_DIV_S) == Some(Form::DivRem(DivRem::I64DivS)),
        form(MINI_I64_DIV_U) == Some(Form::DivRem(DivRem::I64DivU)),
        form(MINI_I64_REM_S) == Some(Form::DivRem(DivRem::I64RemS)),
        form(MINI_I64_REM_U) == Some(Form::DivRem(DivRem::I64RemU)),
        form(MINI_I64_LOAD_MEM0_OFF) == Some(Form::Load(Reg::Ireg, Loaded::I64)),
        form(MINI_I32_LOAD_MEM0_OFF) == Some(Form::Load(Reg::Ireg, Loaded::I32)),
        form(MINI_U8_LOAD_MEM0_OFF) == Some(Form::Load(Reg::Ireg, Loaded::U8)),
        form(MINI_I8_LOAD_MEM0_OFF) == Some(Form::Load(Reg::Ireg, Loaded::I8)),
        form(MINI_U16_LOAD_MEM0_OFF) == Some(Form::Load(Reg::Ireg, Loaded::U16)),
        form(MINI_I16_LOAD_MEM0_OFF) == Some(Form::Load(Reg::Ireg, Loaded::I16)),
        form(MINI_F64_LOAD_MEM0_OFF) == Some(Form::Load(Reg::Freg64, Loaded::I64)),
        form(MINI_F32_LOAD_MEM0_OFF) == Some(Form::Load(Reg::Freg32, Loaded::I32)),
        form(MINI_I32_STORE_SR) == Some(Form::StoreSr(Stored::B32, Reg::Ireg)),
        form(MINI_I64_STORE_SR) == Some(Form::StoreSr(Stored::B64, Reg::Ireg)),
        form(MINI_I32_STORE8_SR) == Some(Form::StoreSr(Stored::B8, Reg::Ireg)),
        form(MINI_I32_STORE16_SR) == Some(Form::StoreSr(Stored::B16, Reg::Ireg)),
        form(MINI_F64_STORE_SR) == Some(Form::StoreSr(Stored::B64, Reg::Freg64)),
        form(MINI_F32_STORE_SR) == Some(Form::StoreSr(Stored::B32, Reg::Freg32)),
        form(MINI_I32_STORE_RS) == Some(Form::StoreRs(Stored::B32)),
        form(MINI_I64_STORE_RS) == Some(Form::StoreRs(Stored::B64)),
        form(MINI_I32_STORE8_RS) == Some(Form::StoreRs(Stored::B8)),
        form(MINI_I32_STORE16_RS) == Some(Form::StoreRs(Stored::B16)),
        form(MINI_MEMORY_SIZE) == Some(Form::MemorySize),
        form(MINI_MEM_COPY_WITHIN) == Some(Form::MemoryCopy),
        form(MINI_GLOBAL_GET_R) == Some(Form::GlobalGet(Reg::Ireg)),
        form(MINI_GLOBAL_GET_F64) == Some(Form::GlobalGet(Reg::Freg64)),
        form(MINI_GLOBAL_GET_F32) == Some(Form::GlobalGet(Reg::Freg32)),
        form(MINI_GLOBAL_SET_S) == Some(Form::GlobalSet),
        form(MINI_CALL_RESIDUAL) == Some(Form::CallInternal),
        form(MINI_CALL_IMPORTED) == Some(Form::CallImported),
        form(MINI_CALL_INDIRECT) == Some(Form::CallIndirect),
        form(MINI_BR_ALWAYS) == Some(Form::Br),
        form(MINI_BR_U32_LE_SS) == Some(Form::BrSs(BinOp::U32Le)),
        form(MINI_BR_I64_LE_SS) == Some(Form::BrSs(BinOp::I64Le)),
        form(MINI_BR_I32_LE_SS) == Some(Form::BrSs(BinOp::I32Le)),
        form(MINI_BR_I64_EQ_SS) == Some(Form::BrSs(BinOp::I64Eq)),
        form(MINI_BR_I64_NE_SS) == Some(Form::BrSs(BinOp::I64Ne)),
        form(MINI_BR_U64_LT_SS) == Some(Form::BrSs(BinOp::U64Lt)),
        form(MINI_BR_I64_EQ_SI) == Some(Form::BrSi(BinOp::I64Eq)),
        form(MINI_BR_I64_LE_SI) == Some(Form::BrSi(BinOp::I64Le)),
        form(MINI_BR_I32_LT_SI) == Some(Form::BrSi(BinOp::I32Lt)),
        form(MINI_BR_I32_NE_RI) == Some(Form::BrRi(BinOp::I32Ne)),
        form(MINI_BR_I64_NE_RI) == Some(Form::BrRi(BinOp::I64Ne)),
        form(MINI_BR_I64_LT_IR) == Some(Form::BrIr(BinOp::I64Lt)),
        form(MINI_RETURN_S) == Some(Form::ReturnS),
        form(MINI_RETURN_VOID) == Some(Form::ReturnVoid),
        form(MINI_YIELD_STOCK) == Some(Form::Yield),
        form(MINI_TRAP) == Some(Form::Trap),
        form(MINI_RETURN_BAIL) == Some(Form::Bail),
        operands(MINI_COPY_SI) == Some(Operands::Of2(Kind::Cell, Kind::Imm)),
        operands(MINI_COPY_SS) == Some(Operands::Of2(Kind::Cell, Kind::Cell)),
        operands(MINI_COPY_SR) == Some(Operands::Of1(Kind::Cell)),
        operands(MINI_COPY_S_FR) == Some(Operands::Of1(Kind::Cell)),
        operands(MINI_COPY_S_F32R) == Some(Operands::Of1(Kind::Cell)),
        operands(MINI_COPY_RS) == Some(Operands::Of1(Kind::Cell)),
        operands(MINI_COPY_RI) == Some(Operands::Of1(Kind::Imm)),
        operands(MINI_I64_REINTERP_F64) == Some(Operands::Of0),
        operands(MINI_F64_REINTERP_I64) == Some(Operands::Of0),
        operands(MINI_I32_REINTERP_F32) == Some(Operands::Of0),
        operands(MINI_F32_REINTERP_I32) == Some(Operands::Of0),
        operands(MINI_I64_ADD_SS_WR) == Some(Operands::Of2(Kind::Cell, Kind::Cell)),
        operands(MINI_I64_SUB_SS_WR) == Some(Operands::Of2(Kind::Cell, Kind::Cell)),
        operands(MINI_I64_MUL_SS_WR) == Some(Operands::Of2(Kind::Cell, Kind::Cell)),
        operands(MINI_I64_OR_SS_WR) == Some(Operands::Of2(Kind::Cell, Kind::Cell)),
        operands(MINI_I64_XOR_SS_WR) == Some(Operands::Of2(Kind::Cell, Kind::Cell)),
        operands(MINI_I32_SUB_SS_WR) == Some(Operands::Of2(Kind::Cell, Kind::Cell)),
        operands(MINI_I32_MUL_SS_WR) == Some(Operands::Of2(Kind::Cell, Kind::Cell)),
        operands(MINI_I32_AND_SS_WR) == Some(Operands::Of2(Kind::Cell, Kind::Cell)),
        operands(MINI_I32_OR_SS_WR) == Some(Operands::Of2(Kind::Cell, Kind::Cell)),
        operands(MINI_I32_XOR_SS_WR) == Some(Operands::Of2(Kind::Cell, Kind::Cell)),
        operands(MINI_U64_SHR_SS_WR) == Some(Operands::Of2(Kind::Cell, Kind::Cell)),
        operands(MINI_I32_EQ_SS_R) == Some(Operands::Of2(Kind::Cell, Kind::Cell)),
        operands(MINI_I32_NE_SS_R) == Some(Operands::Of2(Kind::Cell, Kind::Cell)),
        operands(MINI_I32_LT_SS_R) == Some(Operands::Of2(Kind::Cell, Kind::Cell)),
        operands(MINI_I32_LE_SS_R) == Some(Operands::Of2(Kind::Cell, Kind::Cell)),
        operands(MINI_U32_LT_SS_R) == Some(Operands::Of2(Kind::Cell, Kind::Cell)),
        operands(MINI_U32_LE_SS_R) == Some(Operands::Of2(Kind::Cell, Kind::Cell)),
        operands(MINI_I64_EQ_SS_R) == Some(Operands::Of2(Kind::Cell, Kind::Cell)),
        operands(MINI_I64_NE_SS_R) == Some(Operands::Of2(Kind::Cell, Kind::Cell)),
        operands(MINI_I64_LT_SS_R) == Some(Operands::Of2(Kind::Cell, Kind::Cell)),
        operands(MINI_I64_LE_SS_R) == Some(Operands::Of2(Kind::Cell, Kind::Cell)),
        operands(MINI_U64_LT_SS_R) == Some(Operands::Of2(Kind::Cell, Kind::Cell)),
        operands(MINI_U64_LE_SS_R) == Some(Operands::Of2(Kind::Cell, Kind::Cell)),
        operands(MINI_I32_ADD_RS_WR) == Some(Operands::Of1(Kind::Cell)),
        operands(MINI_I32_SUB_RS_WR) == Some(Operands::Of1(Kind::Cell)),
        operands(MINI_I32_MUL_RS_WR) == Some(Operands::Of1(Kind::Cell)),
        operands(MINI_I32_AND_RS_WR) == Some(Operands::Of1(Kind::Cell)),
        operands(MINI_I32_OR_RS_WR) == Some(Operands::Of1(Kind::Cell)),
        operands(MINI_I32_XOR_RS_WR) == Some(Operands::Of1(Kind::Cell)),
        operands(MINI_I64_ADD_RS_WR) == Some(Operands::Of1(Kind::Cell)),
        operands(MINI_I64_SUB_RS_WR) == Some(Operands::Of1(Kind::Cell)),
        operands(MINI_I64_MUL_RS_WR) == Some(Operands::Of1(Kind::Cell)),
        operands(MINI_I64_OR_RS_WR) == Some(Operands::Of1(Kind::Cell)),
        operands(MINI_I64_XOR_RS_WR) == Some(Operands::Of1(Kind::Cell)),
        operands(MINI_I32_EQ_RS_R) == Some(Operands::Of1(Kind::Cell)),
        operands(MINI_I32_NE_RS_R) == Some(Operands::Of1(Kind::Cell)),
        operands(MINI_I32_LT_RS_R) == Some(Operands::Of1(Kind::Cell)),
        operands(MINI_I32_LE_RS_R) == Some(Operands::Of1(Kind::Cell)),
        operands(MINI_U32_LT_RS_R) == Some(Operands::Of1(Kind::Cell)),
        operands(MINI_U32_LE_RS_R) == Some(Operands::Of1(Kind::Cell)),
        operands(MINI_I64_EQ_RS_R) == Some(Operands::Of1(Kind::Cell)),
        operands(MINI_I64_NE_RS_R) == Some(Operands::Of1(Kind::Cell)),
        operands(MINI_I64_LT_RS_R) == Some(Operands::Of1(Kind::Cell)),
        operands(MINI_I32_SUB_SR_WR) == Some(Operands::Of1(Kind::Cell)),
        operands(MINI_I64_SUB_SR_WR) == Some(Operands::Of1(Kind::Cell)),
        operands(MINI_I32_LT_SR_R) == Some(Operands::Of1(Kind::Cell)),
        operands(MINI_I64_AND_SI_WR) == Some(Operands::Of2(Kind::Cell, Kind::Imm)),
        operands(MINI_I64_SHL_SI) == Some(Operands::Of2(Kind::Cell, Kind::Imm)),
        operands(MINI_I32_SHL_SI) == Some(Operands::Of2(Kind::Cell, Kind::Imm)),
        operands(MINI_I32_ROTL_SI) == Some(Operands::Of2(Kind::Cell, Kind::Imm)),
        operands(MINI_I32_ROTR_SI) == Some(Operands::Of2(Kind::Cell, Kind::Imm)),
        operands(MINI_I32_LT_SI_R) == Some(Operands::Of2(Kind::Cell, Kind::Imm)),
        operands(MINI_I64_LT_SI_R) == Some(Operands::Of2(Kind::Cell, Kind::Imm)),
        operands(MINI_I64_AND_RI_WR) == Some(Operands::Of1(Kind::Imm)),
        operands(MINI_I64_OR_RI_WR) == Some(Operands::Of1(Kind::Imm)),
        operands(MINI_U32_SHR_RI) == Some(Operands::Of1(Kind::Imm)),
        operands(MINI_I64_LT_IS_R) == Some(Operands::Of2(Kind::Imm, Kind::Cell)),
        operands(MINI_I32_ADD_SS_WB) == Some(Operands::Of3(Kind::Cell, Kind::Cell, Kind::Cell)),
        operands(MINI_I64_ADD_SS_WB) == Some(Operands::Of3(Kind::Cell, Kind::Cell, Kind::Cell)),
        operands(MINI_I32_ADD_RS_WB) == Some(Operands::Of2(Kind::Cell, Kind::Cell)),
        operands(MINI_I64_ADD_RS_WB) == Some(Operands::Of2(Kind::Cell, Kind::Cell)),
        operands(MINI_I32_ADD_SI_WB) == Some(Operands::Of3(Kind::Cell, Kind::Cell, Kind::Imm)),
        operands(MINI_U64_SHR_SI) == Some(Operands::Of3(Kind::Cell, Kind::Imm, Kind::Imm)),
        operands(MINI_I64_SEXT32) == Some(Operands::Of0),
        operands(MINI_I64_SEXT32_S) == Some(Operands::Of1(Kind::Cell)),
        operands(MINI_SELECT) == Some(Operands::Of2(Kind::Cell, Kind::Cell)),
        operands(MINI_F64_ARITH_RS) == Some(Operands::Of2(Kind::Imm, Kind::Cell)),
        operands(MINI_F64_MINMAX_RS) == Some(Operands::Of2(Kind::Imm, Kind::Cell)),
        operands(MINI_F64_CMP_RS_R) == Some(Operands::Of2(Kind::Imm, Kind::Cell)),
        operands(MINI_F64_UNARY_S) == Some(Operands::Of2(Kind::Imm, Kind::Cell)),
        operands(MINI_F64_CVT_S) == Some(Operands::Of2(Kind::Imm, Kind::Cell)),
        operands(MINI_F64_TRUNC_S) == Some(Operands::Of2(Kind::Imm, Kind::Cell)),
        operands(MINI_F64_TRUNC_SAT_S) == Some(Operands::Of2(Kind::Imm, Kind::Cell)),
        operands(MINI_F32_ARITH_RS) == Some(Operands::Of2(Kind::Imm, Kind::Cell)),
        operands(MINI_F32_MINMAX_RS) == Some(Operands::Of2(Kind::Imm, Kind::Cell)),
        operands(MINI_F32_CMP_RS_R) == Some(Operands::Of2(Kind::Imm, Kind::Cell)),
        operands(MINI_F32_UNARY_S) == Some(Operands::Of2(Kind::Imm, Kind::Cell)),
        operands(MINI_F32_CVT_S) == Some(Operands::Of2(Kind::Imm, Kind::Cell)),
        operands(MINI_F32_TRUNC_S) == Some(Operands::Of2(Kind::Imm, Kind::Cell)),
        operands(MINI_F32_TRUNC_SAT_S) == Some(Operands::Of2(Kind::Imm, Kind::Cell)),
        operands(MINI_F64_PROMOTE_S) == Some(Operands::Of1(Kind::Cell)),
        operands(MINI_F32_DEMOTE_S) == Some(Operands::Of1(Kind::Cell)),
        operands(MINI_I32_BITCOUNT_S) == Some(Operands::Of2(Kind::Imm, Kind::Cell)),
        operands(MINI_I64_BITCOUNT_S) == Some(Operands::Of2(Kind::Imm, Kind::Cell)),
        operands(MINI_I32_DIV_S) == Some(Operands::Of2(Kind::Cell, Kind::Cell)),
        operands(MINI_I32_DIV_U) == Some(Operands::Of2(Kind::Cell, Kind::Cell)),
        operands(MINI_I32_REM_S) == Some(Operands::Of2(Kind::Cell, Kind::Cell)),
        operands(MINI_I32_REM_U) == Some(Operands::Of2(Kind::Cell, Kind::Cell)),
        operands(MINI_I64_DIV_S) == Some(Operands::Of2(Kind::Cell, Kind::Cell)),
        operands(MINI_I64_DIV_U) == Some(Operands::Of2(Kind::Cell, Kind::Cell)),
        operands(MINI_I64_REM_S) == Some(Operands::Of2(Kind::Cell, Kind::Cell)),
        operands(MINI_I64_REM_U) == Some(Operands::Of2(Kind::Cell, Kind::Cell)),
        operands(MINI_I64_LOAD_MEM0_OFF) == Some(Operands::Of1(Kind::Imm)),
        operands(MINI_I32_LOAD_MEM0_OFF) == Some(Operands::Of1(Kind::Imm)),
        operands(MINI_U8_LOAD_MEM0_OFF) == Some(Operands::Of1(Kind::Imm)),
        operands(MINI_I8_LOAD_MEM0_OFF) == Some(Operands::Of1(Kind::Imm)),
        operands(MINI_U16_LOAD_MEM0_OFF) == Some(Operands::Of1(Kind::Imm)),
        operands(MINI_I16_LOAD_MEM0_OFF) == Some(Operands::Of1(Kind::Imm)),
        operands(MINI_F64_LOAD_MEM0_OFF) == Some(Operands::Of1(Kind::Imm)),
        operands(MINI_F32_LOAD_MEM0_OFF) == Some(Operands::Of1(Kind::Imm)),
        operands(MINI_I32_STORE_SR) == Some(Operands::Of2(Kind::Cell, Kind::Imm)),
        operands(MINI_I64_STORE_SR) == Some(Operands::Of2(Kind::Cell, Kind::Imm)),
        operands(MINI_I32_STORE8_SR) == Some(Operands::Of2(Kind::Cell, Kind::Imm)),
        operands(MINI_I32_STORE16_SR) == Some(Operands::Of2(Kind::Cell, Kind::Imm)),
        operands(MINI_F64_STORE_SR) == Some(Operands::Of2(Kind::Cell, Kind::Imm)),
        operands(MINI_F32_STORE_SR) == Some(Operands::Of2(Kind::Cell, Kind::Imm)),
        operands(MINI_I32_STORE_RS) == Some(Operands::Of2(Kind::Imm, Kind::Cell)),
        operands(MINI_I64_STORE_RS) == Some(Operands::Of2(Kind::Imm, Kind::Cell)),
        operands(MINI_I32_STORE8_RS) == Some(Operands::Of2(Kind::Imm, Kind::Cell)),
        operands(MINI_I32_STORE16_RS) == Some(Operands::Of2(Kind::Imm, Kind::Cell)),
        operands(MINI_MEMORY_SIZE) == Some(Operands::Of0),
        operands(MINI_MEM_COPY_WITHIN) == Some(Operands::Of3(Kind::Cell, Kind::Cell, Kind::Cell)),
        operands(MINI_GLOBAL_GET_R) == Some(Operands::Of1(Kind::Imm)),
        operands(MINI_GLOBAL_GET_F64) == Some(Operands::Of1(Kind::Imm)),
        operands(MINI_GLOBAL_GET_F32) == Some(Operands::Of1(Kind::Imm)),
        operands(MINI_GLOBAL_SET_S) == Some(Operands::Of2(Kind::Imm, Kind::Cell)),
        operands(MINI_CALL_RESIDUAL) == Some(Operands::Of3(Kind::Imm, Kind::Cell, Kind::Imm)),
        operands(MINI_CALL_IMPORTED) == Some(Operands::Of3(Kind::Imm, Kind::Cell, Kind::Imm)),
        operands(MINI_CALL_INDIRECT) == Some(
            Operands::Of5(Kind::Imm, Kind::Imm, Kind::Cell, Kind::Cell, Kind::Imm),
        ),
        operands(MINI_BR_ALWAYS) == Some(Operands::Of1(Kind::Target)),
        operands(MINI_BR_U32_LE_SS) == Some(Operands::Of3(Kind::Target, Kind::Cell, Kind::Cell)),
        operands(MINI_BR_I64_LE_SS) == Some(Operands::Of3(Kind::Target, Kind::Cell, Kind::Cell)),
        operands(MINI_BR_I32_LE_SS) == Some(Operands::Of3(Kind::Target, Kind::Cell, Kind::Cell)),
        operands(MINI_BR_I64_EQ_SS) == Some(Operands::Of3(Kind::Target, Kind::Cell, Kind::Cell)),
        operands(MINI_BR_I64_NE_SS) == Some(Operands::Of3(Kind::Target, Kind::Cell, Kind::Cell)),
        operands(MINI_BR_U64_LT_SS) == Some(Operands::Of3(Kind::Target, Kind::Cell, Kind::Cell)),
        operands(MINI_BR_I64_EQ_SI) == Some(Operands::Of3(Kind::Target, Kind::Cell, Kind::Imm)),
        operands(MINI_BR_I64_LE_SI) == Some(Operands::Of3(Kind::Target, Kind::Cell, Kind::Imm)),
        operands(MINI_BR_I32_LT_SI) == Some(Operands::Of3(Kind::Target, Kind::Cell, Kind::Imm)),
        operands(MINI_BR_I32_NE_RI) == Some(Operands::Of2(Kind::Target, Kind::Imm)),
        operands(MINI_BR_I64_NE_RI) == Some(Operands::Of2(Kind::Target, Kind::Imm)),
        operands(MINI_BR_I64_LT_IR) == Some(Operands::Of2(Kind::Target, Kind::Imm)),
        operands(MINI_RETURN_S) == Some(Operands::Of1(Kind::Cell)),
        operands(MINI_RETURN_VOID) == Some(Operands::Of0),
        operands(MINI_YIELD_STOCK) == Some(Operands::Of2(Kind::Position, Kind::Count)),
        operands(MINI_TRAP) == Some(Operands::Of1(Kind::Imm)),
        operands(MINI_RETURN_BAIL) == Some(Operands::Of0),
{
    reveal(form);
    reveal(operands);
}

/// The float function that a selector of `MINI_F64_ARITH_RS` or `MINI_F32_ARITH_RS` names.
pub open spec fn arith_of(sel: i64) -> FloatBin {
    if sel == 0 {
        FloatBin::Add
    } else if sel == 1 {
        FloatBin::Sub
    } else if sel == 2 {
        FloatBin::Mul
    } else {
        FloatBin::Div
    }
}

/// What `MINI_F64_MINMAX_RS` or `MINI_F32_MINMAX_RS` computes of the accumulator and a slot.
pub open spec fn minmax<W>(res: Residuals<W>, w: FloatWidth, sel: i64, a: i64, b: i64) -> i64 {
    if sel == 0 {
        (res.float_bin)(w, FloatBin::Min, a, b)
    } else if sel == 1 {
        (res.float_bin)(w, FloatBin::Max, a, b)
    } else if sel == 2 {
        (res.float_bin)(w, FloatBin::Copysign, a, b)
    } else {
        (res.float_bin)(w, FloatBin::Copysign, b, a)
    }
}

/// What `MINI_F64_CMP_RS_R` or `MINI_F32_CMP_RS_R` finds of the accumulator and a slot.
pub open spec fn float_test<W>(res: Residuals<W>, w: FloatWidth, sel: i64, a: i64, b: i64) -> bool {
    if sel == 0 {
        (res.float_compare)(w, FloatCompare::Lt, a, b)
    } else if sel == 1 {
        (res.float_compare)(w, FloatCompare::Le, a, b)
    } else if sel == 2 {
        (res.float_compare)(w, FloatCompare::Eq, a, b)
    } else if sel == 3 {
        (res.float_compare)(w, FloatCompare::NotEq, a, b)
    } else if sel == 4 {
        (res.float_compare)(w, FloatCompare::Lt, b, a)
    } else {
        (res.float_compare)(w, FloatCompare::Le, b, a)
    }
}

/// The float function that a selector of `MINI_F64_UNARY_S` or `MINI_F32_UNARY_S` names.
pub open spec fn unary_of(sel: i64) -> FloatUnary {
    if sel == 0 {
        FloatUnary::Abs
    } else if sel == 1 {
        FloatUnary::Neg
    } else if sel == 2 {
        FloatUnary::Sqrt
    } else if sel == 3 {
        FloatUnary::Ceil
    } else if sel == 4 {
        FloatUnary::Floor
    } else if sel == 5 {
        FloatUnary::Trunc
    } else {
        FloatUnary::Nearest
    }
}

/// The integer type that a selector of a conversion names.
pub open spec fn kind_of(sel: i64) -> IntKind {
    if sel == 0 {
        IntKind::I32
    } else if sel == 1 {
        IntKind::U32
    } else if sel == 2 {
        IntKind::I64
    } else {
        IntKind::U64
    }
}

/// The count that a selector of `MINI_I32_BITCOUNT_S` or `MINI_I64_BITCOUNT_S` names.
pub open spec fn count_of(sel: i64) -> BitCount {
    if sel == 0 {
        BitCount::Clz
    } else if sel == 1 {
        BitCount::Ctz
    } else {
        BitCount::Popcnt
    }
}

/// The cell that an operand denotes.
pub open spec fn cell(w: Word) -> Cell {
    match w {
        Word::Slot(s) => Cell::Frame(s),
        Word::Span(head, _) => Cell::Frame(head),
        Word::Scratch(k) => Cell::Scratch(k),
        _ => arbitrary(),
    }
}

/// The frame slot that an operand denotes.
pub open spec fn first_slot(w: Word) -> u16 {
    cell(w)->Frame_0
}

/// The number that an operand denotes.
pub open spec fn imm(w: Word) -> i64 {
    w->Imm_0
}

impl<W> Machine<W> {
    /// The value of the cell that an operand denotes.
    pub open spec fn at(self, w: Word) -> i64 {
        self.cells[cell(w)]
    }

    /// Puts a value into the accumulator and into a cell.
    pub open spec fn write_back(self, w: Word, v: i64) -> Machine<W> {
        self.set_reg(Reg::Ireg, v).set_cell(cell(w), v)
    }
}

/// A conversion of the value of a cell.
pub open spec fn convert<W>(
    op: Conversion,
    w: Word,
    m: Machine<W>,
    res: Residuals<W>,
) -> Machine<W> {
    let (world, v) = (res.convert)(m.world, op, m.at(w));
    m.set_world(world).set_reg(conversion_reg(op), v)
}

/// Where a branch goes whose test gave `taken`.
pub open spec fn jump_if(taken: bool, target: Word) -> Flow {
    if taken {
        Flow::Jump(target->Target_0)
    } else {
        Flow::Next
    }
}

/// What an instruction does whose work lies outside of the program: on floats, on memory,
/// on globals, by division, or by a call.
#[verifier::opaque]
pub open spec fn step_outside<W>(
    form: Form,
    words: Seq<Word>,
    at: int,
    m: Machine<W>,
    res: Residuals<W>,
) -> Machine<W> {
    let a = words[at + 1];
    let b = words[at + 2];
    let c = words[at + 3];
    match form {
        Form::Arith(w) => {
            let v = (res.float_bin)(w, arith_of(imm(a)), m.reg(float_reg(w)), m.at(b));
            m.set_reg(float_reg(w), v)
        },
        Form::MinMax(w) => {
            let v = minmax(res, w, imm(a), m.reg(float_reg(w)), m.at(b));
            m.set_reg(float_reg(w), v)
        },
        Form::FloatTest(w) => {
            let v = truth(float_test(res, w, imm(a), m.reg(float_reg(w)), m.at(b)));
            m.set_reg(Reg::Ireg, v)
        },
        Form::FloatUnary(w) => {
            let v = (res.float_unary)(w, unary_of(imm(a)), m.at(b));
            m.set_reg(float_reg(w), v)
        },
        Form::Convert(w) => convert(Conversion::Convert(w, kind_of(imm(a))), b, m, res),
        Form::Trunc(w) => convert(Conversion::Trunc(w, kind_of(imm(a))), b, m, res),
        Form::TruncSat(w) => convert(Conversion::TruncSat(w, kind_of(imm(a))), b, m, res),
        Form::Promote => convert(Conversion::Promote, a, m, res),
        Form::Demote => convert(Conversion::Demote, a, m, res),
        Form::BitCount(w) => {
            let v = (res.bit_count)(w, count_of(imm(a)), m.at(b));
            m.set_reg(Reg::Ireg, v)
        },
        Form::DivRem(op) => {
            let (world, v) = (res.div_rem)(m.world, op, m.at(a), m.at(b));
            m.set_world(world).set_reg(Reg::Ireg, v)
        },
        Form::Load(reg, part) => {
            let (world, v) = (res.load)(m.world, part, effective(m.ireg, imm(a) as int));
            m.set_world(world).set_reg(reg, v)
        },
        Form::StoreSr(part, reg) => {
            let at = effective(m.at(a), imm(b) as int);
            m.set_world((res.store)(m.world, part, at, m.reg(reg)))
        },
        Form::StoreRs(part) => {
            let at = effective(m.ireg, imm(a) as int);
            m.set_world((res.store)(m.world, part, at, m.at(b)))
        },
        Form::MemorySize => m.set_reg(Reg::Ireg, (res.memory_size)(m.world)),
        Form::MemoryCopy => m.set_world((res.memory_copy)(m.world, m.at(a), m.at(b), m.at(c))),
        Form::GlobalGet(reg) => {
            let v = (res.global_get)(m.world, imm(a));
            m.set_reg(
                reg,
                if reg is Freg32 {
                    low32(v as int) as i64
                } else {
                    v
                },
            )
        },
        Form::GlobalSet => m.set_world((res.global_set)(m.world, imm(a), m.at(b))),
        Form::CallInternal => {
            let params = m.params(first_slot(b), imm(c) as u16);
            let (world, v) = (res.call)(m.world, Callee::Internal(imm(a)), params);
            m.set_world(world).set_reg(Reg::Ireg, v)
        },
        Form::CallImported => {
            let params = m.params(first_slot(b), imm(c) as u16);
            let (world, v) = (res.call)(m.world, Callee::Imported(imm(a)), params);
            m.set_world(world).set_cell(cell(b), v)
        },
        Form::CallIndirect => {
            let d = words[at + 4];
            let params = m.params(first_slot(d), imm(words[at + 5]) as u16);
            let callee = Callee::Indirect(imm(a), imm(b), m.at(c));
            let (world, v) = (res.call)(m.world, callee, params);
            m.set_world(world).set_cell(cell(d), v)
        },
        _ => m,
    }
}

/// What the instruction at `at` does.
pub open spec fn step<W>(words: Seq<Word>, at: int, m: Machine<W>, res: Residuals<W>) -> (
    Machine<W>,
    Flow,
) {
    let code = words[at]->Code_0;
    let a = words[at + 1];
    let b = words[at + 2];
    let c = words[at + 3];
    match form(code) {
        None => (m, Flow::Bail),
        Some(form) => match form {
            Form::CopySi => (m.set_cell(cell(a), imm(b)), Flow::Next),
            Form::CopySs => (m.set_cell(cell(a), m.at(b)), Flow::Next),
            Form::CopyFrom(reg) => (m.set_cell(cell(a), m.reg(reg)), Flow::Next),
            Form::CopyRs => (m.set_reg(Reg::Ireg, m.at(a)), Flow::Next),
            Form::CopyRi => (m.set_reg(Reg::Ireg, imm(a)), Flow::Next),
            Form::IregFromFreg64 => (m.set_reg(Reg::Ireg, m.freg64), Flow::Next),
            Form::Freg64FromIreg => (m.set_reg(Reg::Freg64, m.ireg), Flow::Next),
            Form::IregFromFreg32 => (m.set_reg(Reg::Ireg, wrap32(m.freg32 as int)), Flow::Next),
            Form::Freg32FromIreg => (
                m.set_reg(Reg::Freg32, low32(m.ireg as int) as i64),
                Flow::Next,
            ),
            Form::Ss(op) => (m.set_reg(Reg::Ireg, op.eval(m.at(a), m.at(b))), Flow::Next),
            Form::Rs(op) => (m.set_reg(Reg::Ireg, op.eval(m.ireg, m.at(a))), Flow::Next),
            Form::Sr(op) => (m.set_reg(Reg::Ireg, op.eval(m.at(a), m.ireg)), Flow::Next),
            Form::Si(op) => (m.set_reg(Reg::Ireg, op.eval(m.at(a), imm(b))), Flow::Next),
            Form::Ri(op) => (m.set_reg(Reg::Ireg, op.eval(m.ireg, imm(a))), Flow::Next),
            Form::Is(op) => (m.set_reg(Reg::Ireg, op.eval(imm(a), m.at(b))), Flow::Next),
            Form::SsWb(op) => (m.write_back(a, op.eval(m.at(b), m.at(c))), Flow::Next),
            Form::RsWb(op) => (m.write_back(a, op.eval(m.ireg, m.at(b))), Flow::Next),
            Form::SiWb(op) => (m.write_back(a, op.eval(m.at(b), imm(c))), Flow::Next),
            Form::ShiftMask => (
                m.set_reg(Reg::Ireg, (m.at(a) >> (imm(b) as u64)) & imm(c)),
                Flow::Next,
            ),
            Form::Sext32R => (m.set_reg(Reg::Ireg, wrap32(m.ireg as int)), Flow::Next),
            Form::Sext32S => (m.set_reg(Reg::Ireg, wrap32(m.at(a) as int)), Flow::Next),
            Form::Select => (
                m.set_reg(
                    Reg::Ireg,
                    if wrap32(m.ireg as int) != 0 {
                        m.at(a)
                    } else {
                        m.at(b)
                    },
                ),
                Flow::Next,
            ),
            Form::Br => (m, jump_if(true, a)),
            Form::BrSs(op) => (m, jump_if(op.eval(m.at(b), m.at(c)) != 0, a)),
            Form::BrSi(op) => (m, jump_if(op.eval(m.at(b), imm(c)) != 0, a)),
            Form::BrRi(op) => (m, jump_if(op.eval(m.ireg, imm(b)) != 0, a)),
            Form::BrIr(op) => (m, jump_if(op.eval(imm(b), m.ireg) != 0, a)),
            Form::ReturnS => (m, Flow::Return(m.at(a))),
            Form::ReturnVoid => (m, Flow::Return(0)),
            Form::Yield => (m, Flow::Yield),
            Form::Trap => (m, Flow::Trap(imm(a))),
            Form::Bail => (m, Flow::Bail),
            _ => (step_outside(form, words, at, m, res), Flow::Next),
        },
    }
}

/// Runs the words from `at` on: instruction by instruction, to their end or to the first
/// that sends control elsewhere.
pub open spec fn run_from<W>(words: Seq<Word>, at: int, m: Machine<W>, res: Residuals<W>) -> (
    Machine<W>,
    Flow,
)
    decreases
            if at < words.len() {
                words.len() - at
            } else {
                0
            },
{
    if at >= words.len() {
        (m, Flow::Next)
    } else {
        let (next, flow) = step(words, at, m, res);
        if flow is Next {
            run_from(words, at + width_at(words, at), next, res)
        } else {
            (next, flow)
        }
    }
}

/// Runs the words.
#[verifier::opaque]
pub open spec fn run<W>(words: Seq<Word>, m: Machine<W>, res: Residuals<W>) -> (Machine<W>, Flow) {
    run_from(words, 0, m, res)
}

/// Whether two machines agree in all that a function can observe, but for an accumulator
/// that is `spent`. The scratch cells are not observed.
pub open spec fn agree_but<W>(a: Machine<W>, b: Machine<W>, spent: Option<Reg>) -> bool {
    &&& forall|s: u16| #[trigger] a.slot(s) == b.slot(s)
    &&& a.world == b.world
    &&& spent != Some(Reg::Ireg) ==> a.ireg == b.ireg
    &&& spent != Some(Reg::Freg64) ==> a.freg64 == b.freg64
    &&& spent != Some(Reg::Freg32) ==> a.freg32 == b.freg32
}

/// Whether the words carry out the action from `m`: they are instructions, one behind the
/// other; they send control where the action sends it; and they leave a machine that agrees
/// with the one the action leaves, but for an accumulator that is `spent`.
pub open spec fn carries_out<W>(
    words: Seq<Word>,
    a: Action,
    spent: Option<Reg>,
    m: Machine<W>,
    res: Residuals<W>,
) -> bool {
    &&& shaped(words)
    &&& run(words, m, res).1 == perform(a, m, res).1
    &&& agree_but(run(words, m, res).0, perform(a, m, res).0, spent)
}

/// Whether the words carry out the action.
pub open spec fn does<W>(words: Seq<Word>, a: Action, m: Machine<W>, res: Residuals<W>) -> bool {
    carries_out(words, a, None, m, res)
}

/// Whether the words carry out the action but for what they leave in the integer
/// accumulator.
pub open spec fn does_but_ireg<W>(
    words: Seq<Word>,
    a: Action,
    m: Machine<W>,
    res: Residuals<W>,
) -> bool {
    carries_out(words, a, Some(Reg::Ireg), m, res)
}

} // verus!
