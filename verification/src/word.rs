//! The words of a MiniProgram before they are placed, and the shapes of its
//! instructions.

use crate::mini::{
    MINI_BR_ALWAYS, MINI_BR_I32_LE_SS, MINI_BR_I32_LT_SI, MINI_BR_I32_NE_RI, MINI_BR_I64_EQ_RI,
    MINI_BR_I64_EQ_RS, MINI_BR_I64_EQ_SI, MINI_BR_I64_EQ_SS, MINI_BR_I64_LE_SI, MINI_BR_I64_LE_SS,
    MINI_BR_I64_LT_IR, MINI_BR_I64_NE_RI, MINI_BR_I64_NE_RS, MINI_BR_I64_NE_SS, MINI_BR_U32_LE_RS,
    MINI_BR_U32_LE_SS, MINI_BR_U64_LT_SCRATCH0_S, MINI_BR_U64_LT_SS, MINI_CALL_IMPORTED,
    MINI_CALL_INDIRECT, MINI_CALL_INDIRECT_SCRATCH0, MINI_CALL_RESIDUAL, MINI_COPY_RI,
    MINI_COPY_RS, MINI_COPY_SCRATCH0_F32R, MINI_COPY_SCRATCH0_FR, MINI_COPY_SCRATCH0_I,
    MINI_COPY_SCRATCH0_R, MINI_COPY_SCRATCH1_I, MINI_COPY_SCRATCH1_R, MINI_COPY_SI, MINI_COPY_SR,
    MINI_COPY_SS, MINI_COPY_S_F32R, MINI_COPY_S_FR, MINI_DIVREM_SCRATCH01, MINI_DIVREM_SCRATCH0_S,
    MINI_DIVREM_S_SCRATCH0, MINI_F32_ARITH_RS, MINI_F32_ARITH_SCRATCH0, MINI_F32_CMP_RS_R,
    MINI_F32_CVT_S, MINI_F32_CVT_SCRATCH0, MINI_F32_DEMOTE_S, MINI_F32_DEMOTE_SCRATCH0,
    MINI_F32_LOAD_MEM0_OFF, MINI_F32_MINMAX_RS, MINI_F32_MINMAX_SCRATCH0, MINI_F32_REINTERP_I32,
    MINI_F32_STORE_RR, MINI_F32_STORE_SR, MINI_F32_TRUNC_S, MINI_F32_TRUNC_SAT_S,
    MINI_F32_TRUNC_SAT_SCRATCH0, MINI_F32_TRUNC_SCRATCH0, MINI_F32_UNARY_S,
    MINI_F32_UNARY_SCRATCH0, MINI_F64_ARITH_RS, MINI_F64_ARITH_SCRATCH0, MINI_F64_CMP_RS_R,
    MINI_F64_CVT_S, MINI_F64_CVT_SCRATCH0, MINI_F64_LOAD_MEM0_OFF, MINI_F64_MINMAX_RS,
    MINI_F64_MINMAX_SCRATCH0, MINI_F64_PROMOTE_S, MINI_F64_PROMOTE_SCRATCH0, MINI_F64_REINTERP_I64,
    MINI_F64_STORE_RR, MINI_F64_STORE_SR, MINI_F64_TRUNC_S, MINI_F64_TRUNC_SAT_S,
    MINI_F64_TRUNC_SAT_SCRATCH0, MINI_F64_TRUNC_SCRATCH0, MINI_F64_UNARY_S,
    MINI_F64_UNARY_SCRATCH0, MINI_GLOBAL_GET_F32, MINI_GLOBAL_GET_F64, MINI_GLOBAL_GET_R,
    MINI_GLOBAL_SET_F32R, MINI_GLOBAL_SET_FR, MINI_GLOBAL_SET_I, MINI_GLOBAL_SET_R,
    MINI_GLOBAL_SET_S, MINI_HALT, MINI_I16_LOAD_MEM0_OFF, MINI_I32_ADD_RS_WB, MINI_I32_ADD_RS_WR,
    MINI_I32_ADD_SCRATCH01_WB, MINI_I32_ADD_SCRATCH0_S_WB, MINI_I32_ADD_SI_WB, MINI_I32_ADD_SS_WB,
    MINI_I32_ADD_SS_WR, MINI_I32_AND_RS_WR, MINI_I32_AND_SS_WR, MINI_I32_BITCOUNT_S,
    MINI_I32_BITCOUNT_SCRATCH0, MINI_I32_DIV_S, MINI_I32_DIV_U, MINI_I32_EQ_RS_R,
    MINI_I32_EQ_SCRATCH0_S_R, MINI_I32_EQ_SS_R, MINI_I32_LE_RS_R, MINI_I32_LE_SCRATCH0_S_R,
    MINI_I32_LE_SS_R, MINI_I32_LOAD_MEM0_OFF, MINI_I32_LT_RS_R, MINI_I32_LT_SCRATCH0_S_R,
    MINI_I32_LT_SI_R, MINI_I32_LT_SR_R, MINI_I32_LT_SS_R, MINI_I32_MUL_RS_WR, MINI_I32_MUL_SS_WR,
    MINI_I32_NE_RS_R, MINI_I32_NE_SCRATCH0_S_R, MINI_I32_NE_SS_R, MINI_I32_OR_RS_WR,
    MINI_I32_OR_SS_WR, MINI_I32_REINTERP_F32, MINI_I32_REM_S, MINI_I32_REM_U, MINI_I32_ROTL_SI,
    MINI_I32_ROTR_SI, MINI_I32_SHL_RI, MINI_I32_SHL_SI, MINI_I32_STORE16_RS,
    MINI_I32_STORE16_SCRATCH0_R, MINI_I32_STORE16_SR, MINI_I32_STORE8_RS,
    MINI_I32_STORE8_SCRATCH0_R, MINI_I32_STORE8_SR, MINI_I32_STORE_RS, MINI_I32_STORE_SCRATCH0_I,
    MINI_I32_STORE_SCRATCH0_R, MINI_I32_STORE_SCRATCH0_S, MINI_I32_STORE_SR, MINI_I32_SUB_RS_WR,
    MINI_I32_SUB_SR_WR, MINI_I32_SUB_SS_WR, MINI_I32_XOR_RS_WR, MINI_I32_XOR_SS_WR,
    MINI_I64_ADD_RS_WB, MINI_I64_ADD_RS_WR, MINI_I64_ADD_SCRATCH01_WB, MINI_I64_ADD_SCRATCH0_S_WB,
    MINI_I64_ADD_SS_WB, MINI_I64_ADD_SS_WR, MINI_I64_AND_RI_WR, MINI_I64_AND_SCRATCH0_I_WR,
    MINI_I64_AND_SI_WR, MINI_I64_BITCOUNT_S, MINI_I64_BITCOUNT_SCRATCH0, MINI_I64_DIV_S,
    MINI_I64_DIV_U, MINI_I64_EQ_RS_R, MINI_I64_EQ_SCRATCH0_S_R, MINI_I64_EQ_SS_R,
    MINI_I64_LE_SCRATCH0_S_R, MINI_I64_LE_SS_R, MINI_I64_LOAD_MEM0_OFF, MINI_I64_LT_IS_R,
    MINI_I64_LT_RS_R, MINI_I64_LT_SCRATCH0_I_R, MINI_I64_LT_SI_R, MINI_I64_LT_SR_R,
    MINI_I64_LT_SS_R, MINI_I64_MUL_RS_WR, MINI_I64_MUL_SS_WR, MINI_I64_NE_RS_R,
    MINI_I64_NE_SCRATCH0_S_R, MINI_I64_NE_SS_R, MINI_I64_OR_RI_WR, MINI_I64_OR_RS_WR,
    MINI_I64_OR_SS_WR, MINI_I64_REINTERP_F64, MINI_I64_REM_S, MINI_I64_REM_U, MINI_I64_SEXT32,
    MINI_I64_SEXT32_S, MINI_I64_SHL_SI, MINI_I64_STORE_RS, MINI_I64_STORE_SCRATCH0_I,
    MINI_I64_STORE_SCRATCH0_R, MINI_I64_STORE_SR, MINI_I64_SUB_RS_WR, MINI_I64_SUB_SR_WR,
    MINI_I64_SUB_SS_WR, MINI_I64_XOR_RS_WR, MINI_I64_XOR_SS_WR, MINI_I8_LOAD_MEM0_OFF,
    MINI_MEMORY_SIZE, MINI_MEM_COPY_WITHIN, MINI_RETURN_BAIL, MINI_RETURN_F32_R, MINI_RETURN_F_R,
    MINI_RETURN_R, MINI_RETURN_S, MINI_RETURN_VOID, MINI_SELECT, MINI_SELECT_SCRATCH01,
    MINI_SELECT_SCRATCH0_S, MINI_SELECT_S_SCRATCH0, MINI_TRAP, MINI_U16_LOAD_MEM0_OFF,
    MINI_U32_LE_RS_R, MINI_U32_LE_SCRATCH01_R, MINI_U32_LE_SCRATCH0_S_R, MINI_U32_LE_SS_R,
    MINI_U32_LE_S_SCRATCH0_R, MINI_U32_LT_RS_R, MINI_U32_LT_SCRATCH01_R, MINI_U32_LT_SCRATCH0_S_R,
    MINI_U32_LT_SS_R, MINI_U32_LT_S_SCRATCH0_R, MINI_U32_SHR_RI, MINI_U64_LE_SCRATCH0_S_R,
    MINI_U64_LE_SS_R, MINI_U64_LT_SCRATCH01_R, MINI_U64_LT_SCRATCH0_S_R, MINI_U64_LT_SS_R,
    MINI_U64_LT_S_SCRATCH0_R, MINI_U64_SHR_SCRATCH01_WR, MINI_U64_SHR_SI, MINI_U64_SHR_SS_WR,
    MINI_U8_LOAD_MEM0_OFF, MINI_YIELD_STOCK,
    NUM_SCRATCH,
};
use vstd::prelude::*;

verus! {

/// One word of lowered code whose final value may still depend on the whole
/// function.
#[derive(Clone, Copy, Debug, PartialEq, Eq, Structural)]
pub enum Word {
    /// An opcode.
    Code(i64),
    /// An immediate, selector, count or index that stands for itself.
    Imm(i64),
    /// The cell of a frame slot.
    Slot(u16),
    /// The first cell of a run of frame slots: `head` and `len`, the parameters of a
    /// call. A call reads `len` cells from there and writes its result to the first.
    Span(u16, u16),
    /// The cell of a scratch slot.
    Scratch(u8),
    /// The code of the operation at this distance in bytes from this one.
    Target(i32),
    /// The byte position of this operation.
    Here,
    /// The number of frame slots that the program refers to.
    SlotCount,
}

/// What an operand of an instruction denotes.
pub enum Kind {
    /// The index of a cell.
    Cell,
    /// A number.
    Imm,
    /// The word index of an instruction.
    Target,
    /// The byte position of the operation.
    Position,
    /// The number of frame slots.
    Count,
}

/// The operands of an instruction, in order.
pub enum Operands {
    Of0,
    Of1(Kind),
    Of2(Kind, Kind),
    Of3(Kind, Kind, Kind),
    Of4(Kind, Kind, Kind, Kind),
    Of5(Kind, Kind, Kind, Kind, Kind),
}

/// The operands that follow `code` in the stream, or `None` for a number that is no
/// opcode.
#[verifier::opaque]
pub open spec fn operands(code: i64) -> Option<Operands> {
    if code == MINI_HALT
        || code == MINI_RETURN_R
        || code == MINI_I64_REINTERP_F64
        || code == MINI_F64_REINTERP_I64
        || code == MINI_RETURN_BAIL
        || code == MINI_MEMORY_SIZE
        || code == MINI_I64_SEXT32
        || code == MINI_RETURN_VOID
        || code == MINI_I32_REINTERP_F32
        || code == MINI_F32_REINTERP_I32
        || code == MINI_RETURN_F_R
        || code == MINI_RETURN_F32_R
        || code == MINI_COPY_SCRATCH0_R
        || code == MINI_COPY_SCRATCH0_FR
        || code == MINI_COPY_SCRATCH0_F32R
        || code == MINI_COPY_SCRATCH1_R
        || code == MINI_F64_PROMOTE_SCRATCH0
        || code == MINI_F32_DEMOTE_SCRATCH0
        || code == MINI_SELECT_SCRATCH01
        || code == MINI_U64_SHR_SCRATCH01_WR
        || code == MINI_U32_LT_SCRATCH01_R
        || code == MINI_U32_LE_SCRATCH01_R
        || code == MINI_U64_LT_SCRATCH01_R
    {
        Some(Operands::Of0)
    } else if code == MINI_COPY_SR
        || code == MINI_RETURN_S
        || code == MINI_COPY_RS
        || code == MINI_I32_LT_RS_R
        || code == MINI_I32_LT_SR_R
        || code == MINI_I32_EQ_RS_R
        || code == MINI_I32_NE_RS_R
        || code == MINI_I64_EQ_RS_R
        || code == MINI_I64_NE_RS_R
        || code == MINI_I64_LT_RS_R
        || code == MINI_I32_LE_RS_R
        || code == MINI_U32_LT_RS_R
        || code == MINI_U32_LE_RS_R
        || code == MINI_I64_SEXT32_S
        || code == MINI_COPY_S_FR
        || code == MINI_COPY_S_F32R
        || code == MINI_F64_PROMOTE_S
        || code == MINI_F32_DEMOTE_S
        || code == MINI_I32_AND_RS_WR
        || code == MINI_I32_OR_RS_WR
        || code == MINI_I32_SUB_RS_WR
        || code == MINI_I32_MUL_RS_WR
        || code == MINI_I32_XOR_RS_WR
        || code == MINI_I64_SUB_RS_WR
        || code == MINI_I64_MUL_RS_WR
        || code == MINI_I64_OR_RS_WR
        || code == MINI_I64_XOR_RS_WR
        || code == MINI_I32_SUB_SR_WR
        || code == MINI_I64_SUB_SR_WR
        || code == MINI_I32_ADD_RS_WR
        || code == MINI_I64_ADD_RS_WR
        || code == MINI_I64_LT_SR_R
        || code == MINI_U32_LT_SCRATCH0_S_R
        || code == MINI_U32_LE_SCRATCH0_S_R
        || code == MINI_U32_LT_S_SCRATCH0_R
        || code == MINI_U32_LE_S_SCRATCH0_R
        || code == MINI_I64_LE_SCRATCH0_S_R
        || code == MINI_U64_LT_SCRATCH0_S_R
        || code == MINI_U64_LT_S_SCRATCH0_R
        || code == MINI_I32_LT_SCRATCH0_S_R
        || code == MINI_I32_ADD_SCRATCH01_WB
        || code == MINI_I64_ADD_SCRATCH01_WB
        || code == MINI_SELECT_SCRATCH0_S
        || code == MINI_SELECT_S_SCRATCH0
        || code == MINI_I32_EQ_SCRATCH0_S_R
        || code == MINI_I32_NE_SCRATCH0_S_R
        || code == MINI_I32_LE_SCRATCH0_S_R
        || code == MINI_I64_EQ_SCRATCH0_S_R
        || code == MINI_I64_NE_SCRATCH0_S_R
        || code == MINI_U64_LE_SCRATCH0_S_R
    {
        Some(Operands::Of1(Kind::Cell))
    } else if code == MINI_I64_AND_RI_WR
        || code == MINI_U32_SHR_RI
        || code == MINI_COPY_RI
        || code == MINI_TRAP
        || code == MINI_I64_OR_RI_WR
        || code == MINI_I64_LOAD_MEM0_OFF
        || code == MINI_I32_LOAD_MEM0_OFF
        || code == MINI_U8_LOAD_MEM0_OFF
        || code == MINI_I8_LOAD_MEM0_OFF
        || code == MINI_U16_LOAD_MEM0_OFF
        || code == MINI_I16_LOAD_MEM0_OFF
        || code == MINI_F64_LOAD_MEM0_OFF
        || code == MINI_F32_LOAD_MEM0_OFF
        || code == MINI_GLOBAL_GET_R
        || code == MINI_GLOBAL_GET_F32
        || code == MINI_GLOBAL_GET_F64
        || code == MINI_COPY_SCRATCH0_I
        || code == MINI_COPY_SCRATCH1_I
        || code == MINI_DIVREM_SCRATCH01
        || code == MINI_I32_BITCOUNT_SCRATCH0
        || code == MINI_I64_BITCOUNT_SCRATCH0
        || code == MINI_F32_UNARY_SCRATCH0
        || code == MINI_F64_UNARY_SCRATCH0
        || code == MINI_F32_CVT_SCRATCH0
        || code == MINI_F64_CVT_SCRATCH0
        || code == MINI_F32_TRUNC_SAT_SCRATCH0
        || code == MINI_F64_TRUNC_SAT_SCRATCH0
        || code == MINI_F32_TRUNC_SCRATCH0
        || code == MINI_F64_TRUNC_SCRATCH0
        || code == MINI_F64_STORE_RR
        || code == MINI_F32_STORE_RR
        || code == MINI_GLOBAL_SET_R
        || code == MINI_GLOBAL_SET_FR
        || code == MINI_GLOBAL_SET_F32R
        || code == MINI_I32_SHL_RI
        || code == MINI_I64_LT_SCRATCH0_I_R
        || code == MINI_I32_STORE8_SCRATCH0_R
        || code == MINI_I32_STORE16_SCRATCH0_R
        || code == MINI_I64_STORE_SCRATCH0_R
        || code == MINI_I32_STORE_SCRATCH0_R
        || code == MINI_F32_ARITH_SCRATCH0
        || code == MINI_F64_ARITH_SCRATCH0
        || code == MINI_F32_MINMAX_SCRATCH0
        || code == MINI_F64_MINMAX_SCRATCH0
        || code == MINI_I64_AND_SCRATCH0_I_WR
    {
        Some(Operands::Of1(Kind::Imm))
    } else if code == MINI_BR_ALWAYS {
        Some(Operands::Of1(Kind::Target))
    } else if code == MINI_COPY_SS
        || code == MINI_I64_ADD_SS_WR
        || code == MINI_I64_MUL_SS_WR
        || code == MINI_I32_MUL_SS_WR
        || code == MINI_I32_ADD_RS_WB
        || code == MINI_I64_XOR_SS_WR
        || code == MINI_I64_ADD_RS_WB
        || code == MINI_I64_OR_SS_WR
        || code == MINI_I64_SUB_SS_WR
        || code == MINI_I32_XOR_SS_WR
        || code == MINI_I32_AND_SS_WR
        || code == MINI_I32_OR_SS_WR
        || code == MINI_I32_SUB_SS_WR
        || code == MINI_I32_EQ_SS_R
        || code == MINI_I32_NE_SS_R
        || code == MINI_I32_LT_SS_R
        || code == MINI_I32_LE_SS_R
        || code == MINI_U32_LT_SS_R
        || code == MINI_U32_LE_SS_R
        || code == MINI_I64_EQ_SS_R
        || code == MINI_I64_NE_SS_R
        || code == MINI_I64_LT_SS_R
        || code == MINI_I64_LE_SS_R
        || code == MINI_U64_LT_SS_R
        || code == MINI_U64_LE_SS_R
        || code == MINI_U64_SHR_SS_WR
        || code == MINI_SELECT
        || code == MINI_I32_DIV_S
        || code == MINI_I32_DIV_U
        || code == MINI_I32_REM_S
        || code == MINI_I32_REM_U
        || code == MINI_I64_DIV_S
        || code == MINI_I64_DIV_U
        || code == MINI_I64_REM_S
        || code == MINI_I64_REM_U
        || code == MINI_I32_ADD_SS_WR
        || code == MINI_I32_ADD_SCRATCH0_S_WB
        || code == MINI_I64_ADD_SCRATCH0_S_WB
    {
        Some(Operands::Of2(Kind::Cell, Kind::Cell))
    } else if code == MINI_COPY_SI
        || code == MINI_I64_AND_SI_WR
        || code == MINI_I64_SHL_SI
        || code == MINI_I32_SHL_SI
        || code == MINI_I32_LT_SI_R
        || code == MINI_I64_LT_SI_R
        || code == MINI_I32_STORE_SR
        || code == MINI_I64_STORE_SR
        || code == MINI_I32_STORE8_SR
        || code == MINI_I32_STORE16_SR
        || code == MINI_I32_ROTL_SI
        || code == MINI_I32_ROTR_SI
        || code == MINI_F64_STORE_SR
        || code == MINI_F32_STORE_SR
    {
        Some(Operands::Of2(Kind::Cell, Kind::Imm))
    } else if code == MINI_I64_LT_IS_R
        || code == MINI_I32_STORE_RS
        || code == MINI_I64_STORE_RS
        || code == MINI_I32_STORE8_RS
        || code == MINI_I32_STORE16_RS
        || code == MINI_F64_ARITH_RS
        || code == MINI_F64_CMP_RS_R
        || code == MINI_F64_UNARY_S
        || code == MINI_F64_MINMAX_RS
        || code == MINI_F64_CVT_S
        || code == MINI_F64_TRUNC_SAT_S
        || code == MINI_F64_TRUNC_S
        || code == MINI_I32_BITCOUNT_S
        || code == MINI_I64_BITCOUNT_S
        || code == MINI_F32_ARITH_RS
        || code == MINI_F32_MINMAX_RS
        || code == MINI_F32_CMP_RS_R
        || code == MINI_F32_UNARY_S
        || code == MINI_F32_CVT_S
        || code == MINI_F32_TRUNC_SAT_S
        || code == MINI_F32_TRUNC_S
        || code == MINI_GLOBAL_SET_S
        || code == MINI_DIVREM_SCRATCH0_S
        || code == MINI_DIVREM_S_SCRATCH0
        || code == MINI_I32_STORE_SCRATCH0_S
    {
        Some(Operands::Of2(Kind::Imm, Kind::Cell))
    } else if code == MINI_YIELD_STOCK {
        Some(Operands::Of2(Kind::Position, Kind::Count))
    } else if code == MINI_GLOBAL_SET_I
        || code == MINI_I32_STORE_SCRATCH0_I
        || code == MINI_I64_STORE_SCRATCH0_I
    {
        Some(Operands::Of2(Kind::Imm, Kind::Imm))
    } else if code == MINI_BR_I64_NE_RS
        || code == MINI_BR_I64_EQ_RS
        || code == MINI_BR_U32_LE_RS
        || code == MINI_BR_U64_LT_SCRATCH0_S
    {
        Some(Operands::Of2(Kind::Target, Kind::Cell))
    } else if code == MINI_BR_I32_NE_RI
        || code == MINI_BR_I64_NE_RI
        || code == MINI_BR_I64_LT_IR
        || code == MINI_BR_I64_EQ_RI
    {
        Some(Operands::Of2(Kind::Target, Kind::Imm))
    } else if code == MINI_I64_ADD_SS_WB
        || code == MINI_I32_ADD_SS_WB
        || code == MINI_MEM_COPY_WITHIN
    {
        Some(Operands::Of3(Kind::Cell, Kind::Cell, Kind::Cell))
    } else if code == MINI_I32_ADD_SI_WB {
        Some(Operands::Of3(Kind::Cell, Kind::Cell, Kind::Imm))
    } else if code == MINI_U64_SHR_SI {
        Some(Operands::Of3(Kind::Cell, Kind::Imm, Kind::Imm))
    } else if code == MINI_CALL_RESIDUAL
        || code == MINI_CALL_IMPORTED
    {
        Some(Operands::Of3(Kind::Imm, Kind::Cell, Kind::Imm))
    } else if code == MINI_BR_U32_LE_SS
        || code == MINI_BR_I64_LE_SS
        || code == MINI_BR_I32_LE_SS
        || code == MINI_BR_I64_EQ_SS
        || code == MINI_BR_I64_NE_SS
        || code == MINI_BR_U64_LT_SS
    {
        Some(Operands::Of3(Kind::Target, Kind::Cell, Kind::Cell))
    } else if code == MINI_BR_I64_EQ_SI
        || code == MINI_BR_I64_LE_SI
        || code == MINI_BR_I32_LT_SI
    {
        Some(Operands::Of3(Kind::Target, Kind::Cell, Kind::Imm))
    } else if code == MINI_CALL_INDIRECT_SCRATCH0 {
        Some(Operands::Of4(Kind::Imm, Kind::Imm, Kind::Cell, Kind::Imm))
    } else if code == MINI_CALL_INDIRECT {
        Some(Operands::Of5(Kind::Imm, Kind::Imm, Kind::Cell, Kind::Cell, Kind::Imm))
    } else {
        None
    }
}

impl Operands {
    /// The number of operands.
    pub open spec fn count(self) -> nat {
        match self {
            Operands::Of0 => 0,
            Operands::Of1(_) => 1,
            Operands::Of2(_, _) => 2,
            Operands::Of3(_, _, _) => 3,
            Operands::Of4(_, _, _, _) => 4,
            Operands::Of5(_, _, _, _, _) => 5,
        }
    }

    /// Whether the words behind an opcode at word `at` are these operands.
    pub open spec fn fit(self, words: Seq<Word>, at: int) -> bool {
        match self {
            Operands::Of0 => true,
            Operands::Of1(a) => words[at + 1].fits(a),
            Operands::Of2(a, b) => words[at + 1].fits(a) && words[at + 2].fits(b),
            Operands::Of3(a, b, c) => {
                &&& words[at + 1].fits(a)
                &&& words[at + 2].fits(b)
                &&& words[at + 3].fits(c)
            },
            Operands::Of4(a, b, c, d) => {
                &&& words[at + 1].fits(a)
                &&& words[at + 2].fits(b)
                &&& words[at + 3].fits(c)
                &&& words[at + 4].fits(d)
            },
            Operands::Of5(a, b, c, d, e) => {
                &&& words[at + 1].fits(a)
                &&& words[at + 2].fits(b)
                &&& words[at + 3].fits(c)
                &&& words[at + 4].fits(d)
                &&& words[at + 5].fits(e)
            },
        }
    }
}

/// The number of words of an instruction with opcode `code`.
pub open spec fn width(code: i64) -> nat {
    match operands(code) {
        Some(operands) => 1 + operands.count(),
        None => 1,
    }
}

impl Word {
    /// Whether the word can stand as an operand of this kind. There are `NUM_SCRATCH`
    /// scratch cells.
    pub open spec fn fits(self, kind: Kind) -> bool {
        match kind {
            Kind::Cell => match self {
                Word::Slot(_) => true,
                Word::Span(_, _) => true,
                Word::Scratch(k) => k < NUM_SCRATCH,
                _ => false,
            },
            Kind::Imm => self is Imm,
            Kind::Target => self is Target,
            Kind::Position => self is Here,
            Kind::Count => self is SlotCount,
        }
    }
}

/// Whether an instruction starts at word `at`: an opcode, followed by the operands
/// that belong to it.
pub open spec fn instruction_at(words: Seq<Word>, at: int) -> bool {
    &&& 0 <= at < words.len()
    &&& words[at] matches Word::Code(code) && (operands(code) matches Some(operands) && {
        &&& at + 1 + operands.count() <= words.len()
        &&& operands.fit(words, at)
    })
}

/// The length of the instruction at word `at`.
pub open spec fn width_at(words: Seq<Word>, at: int) -> nat {
    width(words[at]->Code_0)
}

/// Whether the words from `at` on are instructions, one behind the other.
pub open spec fn shaped_from(words: Seq<Word>, at: int) -> bool
    decreases words.len() - at,
{
    at == words.len() || (instruction_at(words, at) && shaped_from(
        words,
        at + width_at(words, at),
    ))
}

/// Whether the words are instructions, one behind the other.
#[verifier::opaque]
pub open spec fn shaped(words: Seq<Word>) -> bool {
    shaped_from(words, 0)
}

} // verus!
