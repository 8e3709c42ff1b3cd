//! Integer arithmetic and bitwise operations.
//!
//! The letters of a name give the operands in order: `R` or `r` the accumulator, `s`
//! a slot, `i` an immediate; the first letters give the result. A result `Rs` goes to
//! the accumulator and to a slot. An operand for which the kernel has no addressing
//! form is copied into a scratch slot first.

use crate::action::{Action, BinOp, Src};
use crate::mini::{
    MINI_COPY_RI, MINI_COPY_RS, MINI_COPY_SI, MINI_COPY_SR, MINI_I32_ADD_RS_WB, MINI_I32_ADD_RS_WR,
    MINI_I32_ADD_SI_WB, MINI_I32_ADD_SS_WB, MINI_I32_AND_RS_WR, MINI_I32_AND_SS_WR,
    MINI_I32_MUL_RS_WR, MINI_I32_MUL_SS_WR, MINI_I32_OR_RS_WR, MINI_I32_SUB_RS_WR,
    MINI_I32_SUB_SR_WR, MINI_I32_SUB_SS_WR, MINI_I32_XOR_RS_WR, MINI_I32_XOR_SS_WR,
    MINI_I64_ADD_RS_WB, MINI_I64_ADD_RS_WR, MINI_I64_ADD_SS_WB, MINI_I64_ADD_SS_WR,
    MINI_I64_AND_RI_WR, MINI_I64_AND_SI_WR, MINI_I64_MUL_RS_WR, MINI_I64_MUL_SS_WR,
    MINI_I64_OR_RI_WR, MINI_I64_OR_RS_WR, MINI_I64_OR_SS_WR, MINI_I64_SUB_RS_WR, MINI_I64_SUB_SR_WR,
    MINI_I64_SUB_SS_WR, MINI_I64_XOR_RS_WR, MINI_I64_XOR_SS_WR,
};
use crate::word::Word;
use crate::word::Word::{Code, Imm, Scratch, Slot};
use vstd::prelude::*;

verus! {

/// An integer operation with two operands.
#[allow(non_camel_case_types)]
#[derive(Clone, Copy, Debug, PartialEq, Eq, Structural)]
pub enum IntOp {
    /// `slots[result] = ireg = slots[lhs] + rhs` (i32).
    I32Add_Rs_si { result: u16, lhs: u16, rhs: i32 },
    /// `slots[result] = ireg = ireg + slots[rhs]` (i32).
    I32Add_Rs_rs { result: u16, rhs: u16 },
    /// `slots[result] = ireg = ireg + rhs` (i32).
    I32Add_Rs_ri { result: u16, rhs: i32 },
    /// `slots[result] = ireg = slots[lhs] + slots[rhs]` (i32).
    I32Add_Rs_ss { result: u16, lhs: u16, rhs: u16 },
    /// `ireg = slots[lhs] + slots[rhs]` (i32).
    I32Add_Rss { lhs: u16, rhs: u16 },
    /// `ireg = ireg + slots[rhs]` (i32).
    I32Add_Rrs { rhs: u16 },
    /// `ireg = slots[lhs] + rhs` (i32).
    I32Add_Rsi { lhs: u16, rhs: i32 },
    /// `ireg = ireg + rhs` (i32).
    I32Add_Rri { rhs: i32 },
    /// `ireg = slots[lhs] - slots[rhs]` (i32).
    I32Sub_Rss { lhs: u16, rhs: u16 },
    /// `ireg = ireg - slots[rhs]` (i32).
    I32Sub_Rrs { rhs: u16 },
    /// `ireg = slots[lhs] - ireg` (i32).
    I32Sub_Rsr { lhs: u16 },
    /// `ireg = lhs - slots[rhs]` (i32).
    I32Sub_Ris { lhs: i32, rhs: u16 },
    /// `ireg = lhs - ireg` (i32).
    I32Sub_Rir { lhs: i32 },
    /// `ireg = slots[lhs] * slots[rhs]` (i32).
    I32Mul_Rss { lhs: u16, rhs: u16 },
    /// `ireg = ireg * slots[rhs]` (i32).
    I32Mul_Rrs { rhs: u16 },
    /// `ireg = slots[lhs] * rhs` (i32).
    I32Mul_Rsi { lhs: u16, rhs: i32 },
    /// `ireg = ireg * rhs` (i32).
    I32Mul_Rri { rhs: i32 },
    /// `ireg = ireg & slots[rhs]` (i32).
    I32BitAnd_Rrs { rhs: u16 },
    /// `ireg = slots[lhs] & rhs` (i32).
    I32BitAnd_Rsi { lhs: u16, rhs: i32 },
    /// `ireg = ireg & rhs` (i32).
    I32BitAnd_Rri { rhs: i32 },
    /// `ireg = ireg | slots[rhs]` (i32).
    I32BitOr_Rrs { rhs: u16 },
    /// `ireg = ireg | rhs` (i32).
    I32BitOr_Rri { rhs: i32 },
    /// `ireg = slots[lhs] ^ slots[rhs]` (i32).
    I32BitXor_Rss { lhs: u16, rhs: u16 },
    /// `ireg = ireg ^ slots[rhs]` (i32).
    I32BitXor_Rrs { rhs: u16 },
    /// `ireg = ireg ^ rhs` (i32).
    I32BitXor_Rri { rhs: i32 },
    /// `slots[result] = ireg = slots[lhs] + rhs` (i64).
    I64Add_Rs_si { result: u16, lhs: u16, rhs: i64 },
    /// `slots[result] = ireg = ireg + slots[rhs]` (i64).
    I64Add_Rs_rs { result: u16, rhs: u16 },
    /// `slots[result] = ireg = ireg + rhs` (i64).
    I64Add_Rs_ri { result: u16, rhs: i64 },
    /// `slots[result] = ireg = slots[lhs] + slots[rhs]` (i64).
    I64Add_Rs_ss { result: u16, lhs: u16, rhs: u16 },
    /// `ireg = slots[lhs] + slots[rhs]` (i64).
    I64Add_Rss { lhs: u16, rhs: u16 },
    /// `ireg = ireg + slots[rhs]` (i64).
    I64Add_Rrs { rhs: u16 },
    /// `ireg = slots[lhs] + rhs` (i64).
    I64Add_Rsi { lhs: u16, rhs: i64 },
    /// `ireg = ireg + rhs` (i64).
    I64Add_Rri { rhs: i64 },
    /// `ireg = slots[lhs] - slots[rhs]` (i64).
    I64Sub_Rss { lhs: u16, rhs: u16 },
    /// `ireg = ireg - slots[rhs]` (i64).
    I64Sub_Rrs { rhs: u16 },
    /// `ireg = slots[lhs] - ireg` (i64).
    I64Sub_Rsr { lhs: u16 },
    /// `ireg = lhs - slots[rhs]` (i64).
    I64Sub_Ris { lhs: i64, rhs: u16 },
    /// `ireg = lhs - ireg` (i64).
    I64Sub_Rir { lhs: i64 },
    /// `ireg = slots[lhs] * slots[rhs]` (i64).
    I64Mul_Rss { lhs: u16, rhs: u16 },
    /// `ireg = ireg * slots[rhs]` (i64).
    I64Mul_Rrs { rhs: u16 },
    /// `ireg = slots[lhs] * rhs` (i64).
    I64Mul_Rsi { lhs: u16, rhs: i64 },
    /// `ireg = ireg * rhs` (i64).
    I64Mul_Rri { rhs: i64 },
    /// `ireg = slots[lhs] & rhs` (i64).
    I64BitAnd_Rsi { lhs: u16, rhs: i64 },
    /// `ireg = ireg & rhs` (i64).
    I64BitAnd_Rri { rhs: i64 },
    /// `ireg = slots[lhs] | slots[rhs]` (i64).
    I64BitOr_Rss { lhs: u16, rhs: u16 },
    /// `ireg = ireg | slots[rhs]` (i64).
    I64BitOr_Rrs { rhs: u16 },
    /// `ireg = slots[lhs] | rhs` (i64).
    I64BitOr_Rsi { lhs: u16, rhs: i64 },
    /// `ireg = ireg | rhs` (i64).
    I64BitOr_Rri { rhs: i64 },
    /// `ireg = slots[lhs] ^ slots[rhs]` (i64).
    I64BitXor_Rss { lhs: u16, rhs: u16 },
    /// `ireg = ireg ^ slots[rhs]` (i64).
    I64BitXor_Rrs { rhs: u16 },
    /// `ireg = ireg ^ rhs` (i64).
    I64BitXor_Rri { rhs: i64 },
}

impl IntOp {
    /// The words of the operation.
    pub open spec fn lowering(self) -> Seq<Word> {
        match self {
            IntOp::I32Add_Rs_si { result, lhs, rhs } => seq![
                Code(MINI_I32_ADD_SI_WB), Slot(result), Slot(lhs), Imm(rhs as i64),
            ],
            IntOp::I32Add_Rs_rs { result, rhs } => seq![
                Code(MINI_I32_ADD_RS_WB), Slot(result), Slot(rhs),
            ],
            IntOp::I32Add_Rs_ri { result, rhs } => seq![
                Code(MINI_COPY_SI), Scratch(0), Imm(rhs as i64),
                Code(MINI_I32_ADD_RS_WB), Slot(result), Scratch(0),
            ],
            IntOp::I32Add_Rs_ss { result, lhs, rhs } => seq![
                Code(MINI_I32_ADD_SS_WB), Slot(result), Slot(lhs), Slot(rhs),
            ],
            IntOp::I32Add_Rss { lhs, rhs } => seq![
                Code(MINI_I32_ADD_SS_WB), Scratch(0), Slot(lhs), Slot(rhs),
            ],
            IntOp::I32Add_Rrs { rhs } => seq![Code(MINI_I32_ADD_RS_WR), Slot(rhs)],
            IntOp::I32Add_Rsi { lhs, rhs } => seq![
                Code(MINI_COPY_SI), Scratch(1), Imm(rhs as i64),
                Code(MINI_I32_ADD_SS_WB), Scratch(0), Slot(lhs), Scratch(1),
            ],
            IntOp::I32Add_Rri { rhs } => seq![
                Code(MINI_COPY_SI), Scratch(1), Imm(rhs as i64),
                Code(MINI_I32_ADD_RS_WB), Scratch(0), Scratch(1),
            ],
            IntOp::I32Sub_Rss { lhs, rhs } => seq![Code(MINI_I32_SUB_SS_WR), Slot(lhs), Slot(rhs)],
            IntOp::I32Sub_Rrs { rhs } => seq![Code(MINI_I32_SUB_RS_WR), Slot(rhs)],
            IntOp::I32Sub_Rsr { lhs } => seq![Code(MINI_I32_SUB_SR_WR), Slot(lhs)],
            IntOp::I32Sub_Ris { lhs, rhs } => seq![
                Code(MINI_COPY_SI), Scratch(0), Imm(lhs as i64),
                Code(MINI_I32_SUB_SS_WR), Scratch(0), Slot(rhs),
            ],
            IntOp::I32Sub_Rir { lhs } => seq![
                Code(MINI_COPY_SR), Scratch(0),
                Code(MINI_COPY_RI), Imm(lhs as i64),
                Code(MINI_I32_SUB_RS_WR), Scratch(0),
            ],
            IntOp::I32Mul_Rss { lhs, rhs } => seq![Code(MINI_I32_MUL_SS_WR), Slot(lhs), Slot(rhs)],
            IntOp::I32Mul_Rrs { rhs } => seq![Code(MINI_I32_MUL_RS_WR), Slot(rhs)],
            IntOp::I32Mul_Rsi { lhs, rhs } => seq![
                Code(MINI_COPY_SI), Scratch(0), Imm(rhs as i64),
                Code(MINI_I32_MUL_SS_WR), Slot(lhs), Scratch(0),
            ],
            IntOp::I32Mul_Rri { rhs } => seq![
                Code(MINI_COPY_SR), Scratch(0),
                Code(MINI_COPY_RI), Imm(rhs as i64),
                Code(MINI_I32_MUL_RS_WR), Scratch(0),
            ],
            IntOp::I32BitAnd_Rrs { rhs } => seq![Code(MINI_I32_AND_RS_WR), Slot(rhs)],
            IntOp::I32BitAnd_Rsi { lhs, rhs } => seq![
                Code(MINI_COPY_SI), Scratch(0), Imm(rhs as i64),
                Code(MINI_I32_AND_SS_WR), Slot(lhs), Scratch(0),
            ],
            IntOp::I32BitAnd_Rri { rhs } => seq![
                Code(MINI_COPY_SR), Scratch(0),
                Code(MINI_COPY_RI), Imm(rhs as i64),
                Code(MINI_I32_AND_RS_WR), Scratch(0),
            ],
            IntOp::I32BitOr_Rrs { rhs } => seq![Code(MINI_I32_OR_RS_WR), Slot(rhs)],
            IntOp::I32BitOr_Rri { rhs } => seq![
                Code(MINI_COPY_SR), Scratch(0),
                Code(MINI_COPY_RI), Imm(rhs as i64),
                Code(MINI_I32_OR_RS_WR), Scratch(0),
            ],
            IntOp::I32BitXor_Rss { lhs, rhs } => seq![
                Code(MINI_I32_XOR_SS_WR), Slot(lhs), Slot(rhs),
            ],
            IntOp::I32BitXor_Rrs { rhs } => seq![Code(MINI_I32_XOR_RS_WR), Slot(rhs)],
            IntOp::I32BitXor_Rri { rhs } => seq![
                Code(MINI_COPY_SR), Scratch(0),
                Code(MINI_COPY_RI), Imm(rhs as i64),
                Code(MINI_I32_XOR_RS_WR), Scratch(0),
            ],
            IntOp::I64Add_Rs_si { result, lhs, rhs } => seq![
                Code(MINI_COPY_SI), Scratch(0), Imm(rhs),
                Code(MINI_I64_ADD_SS_WB), Slot(result), Slot(lhs), Scratch(0),
            ],
            IntOp::I64Add_Rs_rs { result, rhs } => seq![
                Code(MINI_I64_ADD_RS_WB), Slot(result), Slot(rhs),
            ],
            IntOp::I64Add_Rs_ri { result, rhs } => seq![
                Code(MINI_COPY_SR), Scratch(0),
                Code(MINI_COPY_SI), Scratch(1), Imm(rhs),
                Code(MINI_I64_ADD_SS_WB), Slot(result), Scratch(0), Scratch(1),
            ],
            IntOp::I64Add_Rs_ss { result, lhs, rhs } => seq![
                Code(MINI_I64_ADD_SS_WB), Slot(result), Slot(lhs), Slot(rhs),
            ],
            IntOp::I64Add_Rss { lhs, rhs } => seq![Code(MINI_I64_ADD_SS_WR), Slot(lhs), Slot(rhs)],
            IntOp::I64Add_Rrs { rhs } => seq![Code(MINI_I64_ADD_RS_WR), Slot(rhs)],
            IntOp::I64Add_Rsi { lhs, rhs } => seq![
                Code(MINI_COPY_SI), Scratch(1), Imm(rhs),
                Code(MINI_I64_ADD_SS_WB), Scratch(0), Slot(lhs), Scratch(1),
            ],
            IntOp::I64Add_Rri { rhs } => seq![
                Code(MINI_COPY_SI), Scratch(1), Imm(rhs),
                Code(MINI_I64_ADD_RS_WB), Scratch(0), Scratch(1),
            ],
            IntOp::I64Sub_Rss { lhs, rhs } => seq![Code(MINI_I64_SUB_SS_WR), Slot(lhs), Slot(rhs)],
            IntOp::I64Sub_Rrs { rhs } => seq![Code(MINI_I64_SUB_RS_WR), Slot(rhs)],
            IntOp::I64Sub_Rsr { lhs } => seq![Code(MINI_I64_SUB_SR_WR), Slot(lhs)],
            IntOp::I64Sub_Ris { lhs, rhs } => seq![
                Code(MINI_COPY_SI), Scratch(0), Imm(lhs),
                Code(MINI_I64_SUB_SS_WR), Scratch(0), Slot(rhs),
            ],
            IntOp::I64Sub_Rir { lhs } => seq![
                Code(MINI_COPY_SR), Scratch(0),
                Code(MINI_COPY_RI), Imm(lhs),
                Code(MINI_I64_SUB_RS_WR), Scratch(0),
            ],
            IntOp::I64Mul_Rss { lhs, rhs } => seq![Code(MINI_I64_MUL_SS_WR), Slot(lhs), Slot(rhs)],
            IntOp::I64Mul_Rrs { rhs } => seq![Code(MINI_I64_MUL_RS_WR), Slot(rhs)],
            IntOp::I64Mul_Rsi { lhs, rhs } => seq![
                Code(MINI_COPY_SI), Scratch(0), Imm(rhs),
                Code(MINI_I64_MUL_SS_WR), Slot(lhs), Scratch(0),
            ],
            IntOp::I64Mul_Rri { rhs } => seq![
                Code(MINI_COPY_SR), Scratch(0),
                Code(MINI_COPY_RI), Imm(rhs),
                Code(MINI_I64_MUL_RS_WR), Scratch(0),
            ],
            IntOp::I64BitAnd_Rsi { lhs, rhs } => seq![
                Code(MINI_I64_AND_SI_WR), Slot(lhs), Imm(rhs),
            ],
            IntOp::I64BitAnd_Rri { rhs } => seq![Code(MINI_I64_AND_RI_WR), Imm(rhs)],
            IntOp::I64BitOr_Rss { lhs, rhs } => seq![Code(MINI_I64_OR_SS_WR), Slot(lhs), Slot(rhs)],
            IntOp::I64BitOr_Rrs { rhs } => seq![Code(MINI_I64_OR_RS_WR), Slot(rhs)],
            IntOp::I64BitOr_Rsi { lhs, rhs } => seq![
                Code(MINI_COPY_RS), Slot(lhs),
                Code(MINI_I64_OR_RI_WR), Imm(rhs),
            ],
            IntOp::I64BitOr_Rri { rhs } => seq![
                Code(MINI_COPY_SR), Scratch(0),
                Code(MINI_COPY_RI), Imm(rhs),
                Code(MINI_I64_OR_RS_WR), Scratch(0),
            ],
            IntOp::I64BitXor_Rss { lhs, rhs } => seq![
                Code(MINI_I64_XOR_SS_WR), Slot(lhs), Slot(rhs),
            ],
            IntOp::I64BitXor_Rrs { rhs } => seq![Code(MINI_I64_XOR_RS_WR), Slot(rhs)],
            IntOp::I64BitXor_Rri { rhs } => seq![
                Code(MINI_COPY_SR), Scratch(0),
                Code(MINI_COPY_RI), Imm(rhs),
                Code(MINI_I64_XOR_RS_WR), Scratch(0),
            ],
        }
    }

    /// Lowers the operation.
    pub fn lower(self) -> (words: Vec<Word>)
        ensures
            words@ == self.lowering(),
    {
        let words = match self {
            IntOp::I32Add_Rs_si { result, lhs, rhs } => vec![
                Code(MINI_I32_ADD_SI_WB), Slot(result), Slot(lhs), Imm(rhs as i64),
            ],
            IntOp::I32Add_Rs_rs { result, rhs } => vec![
                Code(MINI_I32_ADD_RS_WB), Slot(result), Slot(rhs),
            ],
            IntOp::I32Add_Rs_ri { result, rhs } => vec![
                Code(MINI_COPY_SI), Scratch(0), Imm(rhs as i64),
                Code(MINI_I32_ADD_RS_WB), Slot(result), Scratch(0),
            ],
            IntOp::I32Add_Rs_ss { result, lhs, rhs } => vec![
                Code(MINI_I32_ADD_SS_WB), Slot(result), Slot(lhs), Slot(rhs),
            ],
            IntOp::I32Add_Rss { lhs, rhs } => vec![
                Code(MINI_I32_ADD_SS_WB), Scratch(0), Slot(lhs), Slot(rhs),
            ],
            IntOp::I32Add_Rrs { rhs } => vec![Code(MINI_I32_ADD_RS_WR), Slot(rhs)],
            IntOp::I32Add_Rsi { lhs, rhs } => vec![
                Code(MINI_COPY_SI), Scratch(1), Imm(rhs as i64),
                Code(MINI_I32_ADD_SS_WB), Scratch(0), Slot(lhs), Scratch(1),
            ],
            IntOp::I32Add_Rri { rhs } => vec![
                Code(MINI_COPY_SI), Scratch(1), Imm(rhs as i64),
                Code(MINI_I32_ADD_RS_WB), Scratch(0), Scratch(1),
            ],
            IntOp::I32Sub_Rss { lhs, rhs } => vec![Code(MINI_I32_SUB_SS_WR), Slot(lhs), Slot(rhs)],
            IntOp::I32Sub_Rrs { rhs } => vec![Code(MINI_I32_SUB_RS_WR), Slot(rhs)],
            IntOp::I32Sub_Rsr { lhs } => vec![Code(MINI_I32_SUB_SR_WR), Slot(lhs)],
            IntOp::I32Sub_Ris { lhs, rhs } => vec![
                Code(MINI_COPY_SI), Scratch(0), Imm(lhs as i64),
                Code(MINI_I32_SUB_SS_WR), Scratch(0), Slot(rhs),
            ],
            IntOp::I32Sub_Rir { lhs } => vec![
                Code(MINI_COPY_SR), Scratch(0),
                Code(MINI_COPY_RI), Imm(lhs as i64),
                Code(MINI_I32_SUB_RS_WR), Scratch(0),
            ],
            IntOp::I32Mul_Rss { lhs, rhs } => vec![Code(MINI_I32_MUL_SS_WR), Slot(lhs), Slot(rhs)],
            IntOp::I32Mul_Rrs { rhs } => vec![Code(MINI_I32_MUL_RS_WR), Slot(rhs)],
            IntOp::I32Mul_Rsi { lhs, rhs } => vec![
                Code(MINI_COPY_SI), Scratch(0), Imm(rhs as i64),
                Code(MINI_I32_MUL_SS_WR), Slot(lhs), Scratch(0),
            ],
            IntOp::I32Mul_Rri { rhs } => vec![
                Code(MINI_COPY_SR), Scratch(0),
                Code(MINI_COPY_RI), Imm(rhs as i64),
                Code(MINI_I32_MUL_RS_WR), Scratch(0),
            ],
            IntOp::I32BitAnd_Rrs { rhs } => vec![Code(MINI_I32_AND_RS_WR), Slot(rhs)],
            IntOp::I32BitAnd_Rsi { lhs, rhs } => vec![
                Code(MINI_COPY_SI), Scratch(0), Imm(rhs as i64),
                Code(MINI_I32_AND_SS_WR), Slot(lhs), Scratch(0),
            ],
            IntOp::I32BitAnd_Rri { rhs } => vec![
                Code(MINI_COPY_SR), Scratch(0),
                Code(MINI_COPY_RI), Imm(rhs as i64),
                Code(MINI_I32_AND_RS_WR), Scratch(0),
            ],
            IntOp::I32BitOr_Rrs { rhs } => vec![Code(MINI_I32_OR_RS_WR), Slot(rhs)],
            IntOp::I32BitOr_Rri { rhs } => vec![
                Code(MINI_COPY_SR), Scratch(0),
                Code(MINI_COPY_RI), Imm(rhs as i64),
                Code(MINI_I32_OR_RS_WR), Scratch(0),
            ],
            IntOp::I32BitXor_Rss { lhs, rhs } => vec![
                Code(MINI_I32_XOR_SS_WR), Slot(lhs), Slot(rhs),
            ],
            IntOp::I32BitXor_Rrs { rhs } => vec![Code(MINI_I32_XOR_RS_WR), Slot(rhs)],
            IntOp::I32BitXor_Rri { rhs } => vec![
                Code(MINI_COPY_SR), Scratch(0),
                Code(MINI_COPY_RI), Imm(rhs as i64),
                Code(MINI_I32_XOR_RS_WR), Scratch(0),
            ],
            IntOp::I64Add_Rs_si { result, lhs, rhs } => vec![
                Code(MINI_COPY_SI), Scratch(0), Imm(rhs),
                Code(MINI_I64_ADD_SS_WB), Slot(result), Slot(lhs), Scratch(0),
            ],
            IntOp::I64Add_Rs_rs { result, rhs } => vec![
                Code(MINI_I64_ADD_RS_WB), Slot(result), Slot(rhs),
            ],
            IntOp::I64Add_Rs_ri { result, rhs } => vec![
                Code(MINI_COPY_SR), Scratch(0),
                Code(MINI_COPY_SI), Scratch(1), Imm(rhs),
                Code(MINI_I64_ADD_SS_WB), Slot(result), Scratch(0), Scratch(1),
            ],
            IntOp::I64Add_Rs_ss { result, lhs, rhs } => vec![
                Code(MINI_I64_ADD_SS_WB), Slot(result), Slot(lhs), Slot(rhs),
            ],
            IntOp::I64Add_Rss { lhs, rhs } => vec![Code(MINI_I64_ADD_SS_WR), Slot(lhs), Slot(rhs)],
            IntOp::I64Add_Rrs { rhs } => vec![Code(MINI_I64_ADD_RS_WR), Slot(rhs)],
            IntOp::I64Add_Rsi { lhs, rhs } => vec![
                Code(MINI_COPY_SI), Scratch(1), Imm(rhs),
                Code(MINI_I64_ADD_SS_WB), Scratch(0), Slot(lhs), Scratch(1),
            ],
            IntOp::I64Add_Rri { rhs } => vec![
                Code(MINI_COPY_SI), Scratch(1), Imm(rhs),
                Code(MINI_I64_ADD_RS_WB), Scratch(0), Scratch(1),
            ],
            IntOp::I64Sub_Rss { lhs, rhs } => vec![Code(MINI_I64_SUB_SS_WR), Slot(lhs), Slot(rhs)],
            IntOp::I64Sub_Rrs { rhs } => vec![Code(MINI_I64_SUB_RS_WR), Slot(rhs)],
            IntOp::I64Sub_Rsr { lhs } => vec![Code(MINI_I64_SUB_SR_WR), Slot(lhs)],
            IntOp::I64Sub_Ris { lhs, rhs } => vec![
                Code(MINI_COPY_SI), Scratch(0), Imm(lhs),
                Code(MINI_I64_SUB_SS_WR), Scratch(0), Slot(rhs),
            ],
            IntOp::I64Sub_Rir { lhs } => vec![
                Code(MINI_COPY_SR), Scratch(0),
                Code(MINI_COPY_RI), Imm(lhs),
                Code(MINI_I64_SUB_RS_WR), Scratch(0),
            ],
            IntOp::I64Mul_Rss { lhs, rhs } => vec![Code(MINI_I64_MUL_SS_WR), Slot(lhs), Slot(rhs)],
            IntOp::I64Mul_Rrs { rhs } => vec![Code(MINI_I64_MUL_RS_WR), Slot(rhs)],
            IntOp::I64Mul_Rsi { lhs, rhs } => vec![
                Code(MINI_COPY_SI), Scratch(0), Imm(rhs),
                Code(MINI_I64_MUL_SS_WR), Slot(lhs), Scratch(0),
            ],
            IntOp::I64Mul_Rri { rhs } => vec![
                Code(MINI_COPY_SR), Scratch(0),
                Code(MINI_COPY_RI), Imm(rhs),
                Code(MINI_I64_MUL_RS_WR), Scratch(0),
            ],
            IntOp::I64BitAnd_Rsi { lhs, rhs } => vec![
                Code(MINI_I64_AND_SI_WR), Slot(lhs), Imm(rhs),
            ],
            IntOp::I64BitAnd_Rri { rhs } => vec![Code(MINI_I64_AND_RI_WR), Imm(rhs)],
            IntOp::I64BitOr_Rss { lhs, rhs } => vec![Code(MINI_I64_OR_SS_WR), Slot(lhs), Slot(rhs)],
            IntOp::I64BitOr_Rrs { rhs } => vec![Code(MINI_I64_OR_RS_WR), Slot(rhs)],
            IntOp::I64BitOr_Rsi { lhs, rhs } => vec![
                Code(MINI_COPY_RS), Slot(lhs),
                Code(MINI_I64_OR_RI_WR), Imm(rhs),
            ],
            IntOp::I64BitOr_Rri { rhs } => vec![
                Code(MINI_COPY_SR), Scratch(0),
                Code(MINI_COPY_RI), Imm(rhs),
                Code(MINI_I64_OR_RS_WR), Scratch(0),
            ],
            IntOp::I64BitXor_Rss { lhs, rhs } => vec![
                Code(MINI_I64_XOR_SS_WR), Slot(lhs), Slot(rhs),
            ],
            IntOp::I64BitXor_Rrs { rhs } => vec![Code(MINI_I64_XOR_RS_WR), Slot(rhs)],
            IntOp::I64BitXor_Rri { rhs } => vec![
                Code(MINI_COPY_SR), Scratch(0),
                Code(MINI_COPY_RI), Imm(rhs),
                Code(MINI_I64_XOR_RS_WR), Scratch(0),
            ],
        };
        assert(words@ =~= self.lowering());
        words
    }

    /// What the operation does.
    pub open spec fn action(self) -> Action {
        match self {
            IntOp::I32Add_Rs_si { result, lhs, rhs } => Action::Bin {
                op: BinOp::I32Add,
                lhs: Src::Slot(lhs),
                rhs: Src::Imm(rhs as i64),
                tee: Some(result),
            },
            IntOp::I32Add_Rs_rs { result, rhs } => Action::Bin {
                op: BinOp::I32Add,
                lhs: Src::Ireg,
                rhs: Src::Slot(rhs),
                tee: Some(result),
            },
            IntOp::I32Add_Rs_ri { result, rhs } => Action::Bin {
                op: BinOp::I32Add,
                lhs: Src::Ireg,
                rhs: Src::Imm(rhs as i64),
                tee: Some(result),
            },
            IntOp::I32Add_Rs_ss { result, lhs, rhs } => Action::Bin {
                op: BinOp::I32Add,
                lhs: Src::Slot(lhs),
                rhs: Src::Slot(rhs),
                tee: Some(result),
            },
            IntOp::I32Add_Rss { lhs, rhs } => Action::Bin {
                op: BinOp::I32Add,
                lhs: Src::Slot(lhs),
                rhs: Src::Slot(rhs),
                tee: None,
            },
            IntOp::I32Add_Rrs { rhs } => Action::Bin {
                op: BinOp::I32Add,
                lhs: Src::Ireg,
                rhs: Src::Slot(rhs),
                tee: None,
            },
            IntOp::I32Add_Rsi { lhs, rhs } => Action::Bin {
                op: BinOp::I32Add,
                lhs: Src::Slot(lhs),
                rhs: Src::Imm(rhs as i64),
                tee: None,
            },
            IntOp::I32Add_Rri { rhs } => Action::Bin {
                op: BinOp::I32Add,
                lhs: Src::Ireg,
                rhs: Src::Imm(rhs as i64),
                tee: None,
            },
            IntOp::I32Sub_Rss { lhs, rhs } => Action::Bin {
                op: BinOp::I32Sub,
                lhs: Src::Slot(lhs),
                rhs: Src::Slot(rhs),
                tee: None,
            },
            IntOp::I32Sub_Rrs { rhs } => Action::Bin {
                op: BinOp::I32Sub,
                lhs: Src::Ireg,
                rhs: Src::Slot(rhs),
                tee: None,
            },
            IntOp::I32Sub_Rsr { lhs } => Action::Bin {
                op: BinOp::I32Sub,
                lhs: Src::Slot(lhs),
                rhs: Src::Ireg,
                tee: None,
            },
            IntOp::I32Sub_Ris { lhs, rhs } => Action::Bin {
                op: BinOp::I32Sub,
                lhs: Src::Imm(lhs as i64),
                rhs: Src::Slot(rhs),
                tee: None,
            },
            IntOp::I32Sub_Rir { lhs } => Action::Bin {
                op: BinOp::I32Sub,
                lhs: Src::Imm(lhs as i64),
                rhs: Src::Ireg,
                tee: None,
            },
            IntOp::I32Mul_Rss { lhs, rhs } => Action::Bin {
                op: BinOp::I32Mul,
                lhs: Src::Slot(lhs),
                rhs: Src::Slot(rhs),
                tee: None,
            },
            IntOp::I32Mul_Rrs { rhs } => Action::Bin {
                op: BinOp::I32Mul,
                lhs: Src::Ireg,
                rhs: Src::Slot(rhs),
                tee: None,
            },
            IntOp::I32Mul_Rsi { lhs, rhs } => Action::Bin {
                op: BinOp::I32Mul,
                lhs: Src::Slot(lhs),
                rhs: Src::Imm(rhs as i64),
                tee: None,
            },
            IntOp::I32Mul_Rri { rhs } => Action::Bin {
                op: BinOp::I32Mul,
                lhs: Src::Ireg,
                rhs: Src::Imm(rhs as i64),
                tee: None,
            },
            IntOp::I32BitAnd_Rrs { rhs } => Action::Bin {
                op: BinOp::I32And,
                lhs: Src::Ireg,
                rhs: Src::Slot(rhs),
                tee: None,
            },
            IntOp::I32BitAnd_Rsi { lhs, rhs } => Action::Bin {
                op: BinOp::I32And,
                lhs: Src::Slot(lhs),
                rhs: Src::Imm(rhs as i64),
                tee: None,
            },
            IntOp::I32BitAnd_Rri { rhs } => Action::Bin {
                op: BinOp::I32And,
                lhs: Src::Ireg,
                rhs: Src::Imm(rhs as i64),
                tee: None,
            },
            IntOp::I32BitOr_Rrs { rhs } => Action::Bin {
                op: BinOp::I32Or,
                lhs: Src::Ireg,
                rhs: Src::Slot(rhs),
                tee: None,
            },
            IntOp::I32BitOr_Rri { rhs } => Action::Bin {
                op: BinOp::I32Or,
                lhs: Src::Ireg,
                rhs: Src::Imm(rhs as i64),
                tee: None,
            },
            IntOp::I32BitXor_Rss { lhs, rhs } => Action::Bin {
                op: BinOp::I32Xor,
                lhs: Src::Slot(lhs),
                rhs: Src::Slot(rhs),
                tee: None,
            },
            IntOp::I32BitXor_Rrs { rhs } => Action::Bin {
                op: BinOp::I32Xor,
                lhs: Src::Ireg,
                rhs: Src::Slot(rhs),
                tee: None,
            },
            IntOp::I32BitXor_Rri { rhs } => Action::Bin {
                op: BinOp::I32Xor,
                lhs: Src::Ireg,
                rhs: Src::Imm(rhs as i64),
                tee: None,
            },
            IntOp::I64Add_Rs_si { result, lhs, rhs } => Action::Bin {
                op: BinOp::I64Add,
                lhs: Src::Slot(lhs),
                rhs: Src::Imm(rhs),
                tee: Some(result),
            },
            IntOp::I64Add_Rs_rs { result, rhs } => Action::Bin {
                op: BinOp::I64Add,
                lhs: Src::Ireg,
                rhs: Src::Slot(rhs),
                tee: Some(result),
            },
            IntOp::I64Add_Rs_ri { result, rhs } => Action::Bin {
                op: BinOp::I64Add,
                lhs: Src::Ireg,
                rhs: Src::Imm(rhs),
                tee: Some(result),
            },
            IntOp::I64Add_Rs_ss { result, lhs, rhs } => Action::Bin {
                op: BinOp::I64Add,
                lhs: Src::Slot(lhs),
                rhs: Src::Slot(rhs),
                tee: Some(result),
            },
            IntOp::I64Add_Rss { lhs, rhs } => Action::Bin {
                op: BinOp::I64Add,
                lhs: Src::Slot(lhs),
                rhs: Src::Slot(rhs),
                tee: None,
            },
            IntOp::I64Add_Rrs { rhs } => Action::Bin {
                op: BinOp::I64Add,
                lhs: Src::Ireg,
                rhs: Src::Slot(rhs),
                tee: None,
            },
            IntOp::I64Add_Rsi { lhs, rhs } => Action::Bin {
                op: BinOp::I64Add,
                lhs: Src::Slot(lhs),
                rhs: Src::Imm(rhs),
                tee: None,
            },
            IntOp::I64Add_Rri { rhs } => Action::Bin {
                op: BinOp::I64Add,
                lhs: Src::Ireg,
                rhs: Src::Imm(rhs),
                tee: None,
            },
            IntOp::I64Sub_Rss { lhs, rhs } => Action::Bin {
                op: BinOp::I64Sub,
                lhs: Src::Slot(lhs),
                rhs: Src::Slot(rhs),
                tee: None,
            },
            IntOp::I64Sub_Rrs { rhs } => Action::Bin {
                op: BinOp::I64Sub,
                lhs: Src::Ireg,
                rhs: Src::Slot(rhs),
                tee: None,
            },
            IntOp::I64Sub_Rsr { lhs } => Action::Bin {
                op: BinOp::I64Sub,
                lhs: Src::Slot(lhs),
                rhs: Src::Ireg,
                tee: None,
            },
            IntOp::I64Sub_Ris { lhs, rhs } => Action::Bin {
                op: BinOp::I64Sub,
                lhs: Src::Imm(lhs),
                rhs: Src::Slot(rhs),
                tee: None,
            },
            IntOp::I64Sub_Rir { lhs } => Action::Bin {
                op: BinOp::I64Sub,
                lhs: Src::Imm(lhs),
                rhs: Src::Ireg,
                tee: None,
            },
            IntOp::I64Mul_Rss { lhs, rhs } => Action::Bin {
                op: BinOp::I64Mul,
                lhs: Src::Slot(lhs),
                rhs: Src::Slot(rhs),
                tee: None,
            },
            IntOp::I64Mul_Rrs { rhs } => Action::Bin {
                op: BinOp::I64Mul,
                lhs: Src::Ireg,
                rhs: Src::Slot(rhs),
                tee: None,
            },
            IntOp::I64Mul_Rsi { lhs, rhs } => Action::Bin {
                op: BinOp::I64Mul,
                lhs: Src::Slot(lhs),
                rhs: Src::Imm(rhs),
                tee: None,
            },
            IntOp::I64Mul_Rri { rhs } => Action::Bin {
                op: BinOp::I64Mul,
                lhs: Src::Ireg,
                rhs: Src::Imm(rhs),
                tee: None,
            },
            IntOp::I64BitAnd_Rsi { lhs, rhs } => Action::Bin {
                op: BinOp::I64And,
                lhs: Src::Slot(lhs),
                rhs: Src::Imm(rhs),
                tee: None,
            },
            IntOp::I64BitAnd_Rri { rhs } => Action::Bin {
                op: BinOp::I64And,
                lhs: Src::Ireg,
                rhs: Src::Imm(rhs),
                tee: None,
            },
            IntOp::I64BitOr_Rss { lhs, rhs } => Action::Bin {
                op: BinOp::I64Or,
                lhs: Src::Slot(lhs),
                rhs: Src::Slot(rhs),
                tee: None,
            },
            IntOp::I64BitOr_Rrs { rhs } => Action::Bin {
                op: BinOp::I64Or,
                lhs: Src::Ireg,
                rhs: Src::Slot(rhs),
                tee: None,
            },
            IntOp::I64BitOr_Rsi { lhs, rhs } => Action::Bin {
                op: BinOp::I64Or,
                lhs: Src::Slot(lhs),
                rhs: Src::Imm(rhs),
                tee: None,
            },
            IntOp::I64BitOr_Rri { rhs } => Action::Bin {
                op: BinOp::I64Or,
                lhs: Src::Ireg,
                rhs: Src::Imm(rhs),
                tee: None,
            },
            IntOp::I64BitXor_Rss { lhs, rhs } => Action::Bin {
                op: BinOp::I64Xor,
                lhs: Src::Slot(lhs),
                rhs: Src::Slot(rhs),
                tee: None,
            },
            IntOp::I64BitXor_Rrs { rhs } => Action::Bin {
                op: BinOp::I64Xor,
                lhs: Src::Ireg,
                rhs: Src::Slot(rhs),
                tee: None,
            },
            IntOp::I64BitXor_Rri { rhs } => Action::Bin {
                op: BinOp::I64Xor,
                lhs: Src::Ireg,
                rhs: Src::Imm(rhs),
                tee: None,
            },
        }
    }
}

} // verus!
