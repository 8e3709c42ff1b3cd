//! Branches. Their targets are distances in bytes from the start of the branch.

use crate::action::{canonical, Action, BinOp, Machine, Src};
use crate::mini::{
    MINI_BR_ALWAYS, MINI_BR_I32_LE_SS, MINI_BR_I32_LT_SI, MINI_BR_I32_NE_RI, MINI_BR_I64_EQ_SI,
    MINI_BR_I64_EQ_SS, MINI_BR_I64_LE_SI, MINI_BR_I64_LE_SS, MINI_BR_I64_LT_IR, MINI_BR_I64_NE_RI,
    MINI_BR_I64_NE_SS, MINI_BR_U32_LE_SS, MINI_BR_U64_LT_SS, MINI_COPY_RS, MINI_COPY_SI,
    MINI_COPY_SR, MINI_I32_LT_RS_R, MINI_I64_LE_SS_R, MINI_I64_LT_RS_R, MINI_U32_LE_SS_R,
    MINI_U32_LT_SS_R, MINI_U64_LT_SS_R,
};
use crate::word::Word;
use crate::word::Word::{Code, Imm, Scratch, Slot, Target};
use vstd::prelude::*;

verus! {

/// A branch within the function.
#[allow(non_camel_case_types)]
#[derive(Clone, Copy, Debug, PartialEq, Eq, Structural)]
pub enum BranchOp {
    /// Jump.
    Branch { offset: i32 },
    /// Jump if `ireg == slots[rhs]` (i32).
    BranchI32Eq_Rs { offset: i32, rhs: u16 },
    /// Jump if `slots[lhs] == rhs` (i32).
    BranchI32Eq_Si { offset: i32, lhs: u16, rhs: i32 },
    /// Jump if `ireg == rhs` (i32).
    BranchI32Eq_Ri { offset: i32, rhs: i32 },
    /// Jump if `ireg != slots[rhs]` (i32).
    BranchI32NotEq_Rs { offset: i32, rhs: u16 },
    /// Jump if `slots[lhs] != rhs` (i32).
    BranchI32NotEq_Si { offset: i32, lhs: u16, rhs: i32 },
    /// Jump if `ireg != rhs` (i32).
    BranchI32NotEq_Ri { offset: i32, rhs: i32 },
    /// Jump if `slots[lhs] < rhs` (i32).
    BranchI32Lt_Si { offset: i32, lhs: u16, rhs: i32 },
    /// Jump if `ireg < rhs` (i32).
    BranchI32Lt_Ri { offset: i32, rhs: i32 },
    /// Jump if `slots[lhs] <= slots[rhs]` (i32).
    BranchI32Le_Ss { offset: i32, lhs: u16, rhs: u16 },
    /// Jump if `slots[lhs] < slots[rhs]` (u32).
    BranchU32Lt_Ss { offset: i32, lhs: u16, rhs: u16 },
    /// Jump if `ireg < slots[rhs]` (u32).
    BranchU32Lt_Rs { offset: i32, rhs: u16 },
    /// Jump if `slots[lhs] < ireg` (u32).
    BranchU32Lt_Sr { offset: i32, lhs: u16 },
    /// Jump if `slots[lhs] < rhs` (u32).
    BranchU32Lt_Si { offset: i32, lhs: u16, rhs: u32 },
    /// Jump if `lhs < ireg` (u32).
    BranchU32Lt_Ir { offset: i32, lhs: u32 },
    /// Jump if `slots[lhs] <= slots[rhs]` (u32).
    BranchU32Le_Ss { offset: i32, lhs: u16, rhs: u16 },
    /// Jump if `ireg <= slots[rhs]` (u32).
    BranchU32Le_Rs { offset: i32, rhs: u16 },
    /// Jump if `slots[lhs] <= ireg` (u32).
    BranchU32Le_Sr { offset: i32, lhs: u16 },
    /// Jump if `lhs <= ireg` (u32).
    BranchU32Le_Ir { offset: i32, lhs: u32 },
    /// Jump if `slots[lhs] == slots[rhs]` (i64).
    BranchI64Eq_Ss { offset: i32, lhs: u16, rhs: u16 },
    /// Jump if `slots[lhs] == rhs` (i64).
    BranchI64Eq_Si { offset: i32, lhs: u16, rhs: i64 },
    /// Jump if `ireg == rhs` (i64).
    BranchI64Eq_Ri { offset: i32, rhs: i64 },
    /// Jump if `ireg != rhs` (i64).
    BranchI64NotEq_Ri { offset: i32, rhs: i64 },
    /// Jump if `ireg < slots[rhs]` (i64).
    BranchI64Lt_Rs { offset: i32, rhs: u16 },
    /// Jump if `lhs < ireg` (i64).
    BranchI64Lt_Ir { offset: i32, lhs: i64 },
    /// Jump if `slots[lhs] <= slots[rhs]` (i64).
    BranchI64Le_Ss { offset: i32, lhs: u16, rhs: u16 },
    /// Jump if `ireg <= slots[rhs]` (i64).
    BranchI64Le_Rs { offset: i32, rhs: u16 },
    /// Jump if `slots[lhs] <= rhs` (i64).
    BranchI64Le_Si { offset: i32, lhs: u16, rhs: i64 },
    /// Jump if `slots[lhs] < rhs` (u64).
    BranchU64Lt_Si { offset: i32, lhs: u16, rhs: u64 },
    /// Jump if `lhs < slots[rhs]` (u64).
    BranchU64Lt_Is { offset: i32, lhs: u64, rhs: u16 },
    /// Jump if `lhs < ireg` (u64).
    BranchU64Lt_Ir { offset: i32, lhs: u64 },
}

impl BranchOp {
    /// The words of the operation.
    pub open spec fn lowering(self) -> Seq<Word> {
        match self {
            BranchOp::Branch { offset } => seq![Code(MINI_BR_ALWAYS), Target(offset)],
            BranchOp::BranchI32Eq_Rs { offset, rhs } => seq![
                Code(MINI_COPY_SR), Scratch(0),
                Code(MINI_BR_I64_EQ_SS), Target(offset), Scratch(0), Slot(rhs),
            ],
            BranchOp::BranchI32Eq_Si { offset, lhs, rhs } => seq![
                Code(MINI_BR_I64_EQ_SI), Target(offset), Slot(lhs), Imm(rhs as i64),
            ],
            BranchOp::BranchI32Eq_Ri { offset, rhs } => seq![
                Code(MINI_COPY_SR), Scratch(0),
                Code(MINI_BR_I64_EQ_SI), Target(offset), Scratch(0), Imm(rhs as i64),
            ],
            BranchOp::BranchI32NotEq_Rs { offset, rhs } => seq![
                Code(MINI_COPY_SR), Scratch(0),
                Code(MINI_BR_I64_NE_SS), Target(offset), Scratch(0), Slot(rhs),
            ],
            BranchOp::BranchI32NotEq_Si { offset, lhs, rhs } => seq![
                Code(MINI_COPY_RS), Slot(lhs),
                Code(MINI_BR_I32_NE_RI), Target(offset), Imm(rhs as i64),
            ],
            BranchOp::BranchI32NotEq_Ri { offset, rhs } => seq![
                Code(MINI_BR_I32_NE_RI), Target(offset), Imm(rhs as i64),
            ],
            BranchOp::BranchI32Lt_Si { offset, lhs, rhs } => seq![
                Code(MINI_BR_I32_LT_SI), Target(offset), Slot(lhs), Imm(rhs as i64),
            ],
            BranchOp::BranchI32Lt_Ri { offset, rhs } => seq![
                Code(MINI_COPY_SI), Scratch(0), Imm(rhs as i64),
                Code(MINI_I32_LT_RS_R), Scratch(0),
                Code(MINI_BR_I32_NE_RI), Target(offset), Imm(0),
            ],
            BranchOp::BranchI32Le_Ss { offset, lhs, rhs } => seq![
                Code(MINI_BR_I32_LE_SS), Target(offset), Slot(lhs), Slot(rhs),
            ],
            BranchOp::BranchU32Lt_Ss { offset, lhs, rhs } => seq![
                Code(MINI_U32_LT_SS_R), Slot(lhs), Slot(rhs),
                Code(MINI_BR_I32_NE_RI), Target(offset), Imm(0),
            ],
            BranchOp::BranchU32Lt_Rs { offset, rhs } => seq![
                Code(MINI_COPY_SR), Scratch(0),
                Code(MINI_U32_LT_SS_R), Scratch(0), Slot(rhs),
                Code(MINI_BR_I32_NE_RI), Target(offset), Imm(0),
            ],
            BranchOp::BranchU32Lt_Sr { offset, lhs } => seq![
                Code(MINI_COPY_SR), Scratch(0),
                Code(MINI_U32_LT_SS_R), Slot(lhs), Scratch(0),
                Code(MINI_BR_I32_NE_RI), Target(offset), Imm(0),
            ],
            BranchOp::BranchU32Lt_Si { offset, lhs, rhs } => seq![
                Code(MINI_COPY_SI), Scratch(0), Imm(rhs as i64),
                Code(MINI_U32_LT_SS_R), Slot(lhs), Scratch(0),
                Code(MINI_BR_I32_NE_RI), Target(offset), Imm(0),
            ],
            BranchOp::BranchU32Lt_Ir { offset, lhs } => seq![
                Code(MINI_COPY_SI), Scratch(0), Imm(lhs as i64),
                Code(MINI_COPY_SR), Scratch(1),
                Code(MINI_U32_LT_SS_R), Scratch(0), Scratch(1),
                Code(MINI_BR_I32_NE_RI), Target(offset), Imm(0),
            ],
            BranchOp::BranchU32Le_Ss { offset, lhs, rhs } => seq![
                Code(MINI_BR_U32_LE_SS), Target(offset), Slot(lhs), Slot(rhs),
            ],
            BranchOp::BranchU32Le_Rs { offset, rhs } => seq![
                Code(MINI_COPY_SR), Scratch(0),
                Code(MINI_BR_U32_LE_SS), Target(offset), Scratch(0), Slot(rhs),
            ],
            BranchOp::BranchU32Le_Sr { offset, lhs } => seq![
                Code(MINI_COPY_SR), Scratch(0),
                Code(MINI_U32_LE_SS_R), Slot(lhs), Scratch(0),
                Code(MINI_BR_I32_NE_RI), Target(offset), Imm(0),
            ],
            BranchOp::BranchU32Le_Ir { offset, lhs } => seq![
                Code(MINI_COPY_SI), Scratch(0), Imm(lhs as i64),
                Code(MINI_COPY_SR), Scratch(1),
                Code(MINI_U32_LE_SS_R), Scratch(0), Scratch(1),
                Code(MINI_BR_I32_NE_RI), Target(offset), Imm(0),
            ],
            BranchOp::BranchI64Eq_Ss { offset, lhs, rhs } => seq![
                Code(MINI_BR_I64_EQ_SS), Target(offset), Slot(lhs), Slot(rhs),
            ],
            BranchOp::BranchI64Eq_Si { offset, lhs, rhs } => seq![
                Code(MINI_BR_I64_EQ_SI), Target(offset), Slot(lhs), Imm(rhs),
            ],
            BranchOp::BranchI64Eq_Ri { offset, rhs } => seq![
                Code(MINI_COPY_SR), Scratch(0),
                Code(MINI_BR_I64_EQ_SI), Target(offset), Scratch(0), Imm(rhs),
            ],
            BranchOp::BranchI64NotEq_Ri { offset, rhs } => seq![
                Code(MINI_BR_I64_NE_RI), Target(offset), Imm(rhs),
            ],
            BranchOp::BranchI64Lt_Rs { offset, rhs } => seq![
                Code(MINI_I64_LT_RS_R), Slot(rhs),
                Code(MINI_BR_I32_NE_RI), Target(offset), Imm(0),
            ],
            BranchOp::BranchI64Lt_Ir { offset, lhs } => seq![
                Code(MINI_BR_I64_LT_IR), Target(offset), Imm(lhs),
            ],
            BranchOp::BranchI64Le_Ss { offset, lhs, rhs } => seq![
                Code(MINI_BR_I64_LE_SS), Target(offset), Slot(lhs), Slot(rhs),
            ],
            BranchOp::BranchI64Le_Rs { offset, rhs } => seq![
                Code(MINI_COPY_SR), Scratch(0),
                Code(MINI_I64_LE_SS_R), Scratch(0), Slot(rhs),
                Code(MINI_BR_I32_NE_RI), Target(offset), Imm(0),
            ],
            BranchOp::BranchI64Le_Si { offset, lhs, rhs } => seq![
                Code(MINI_BR_I64_LE_SI), Target(offset), Slot(lhs), Imm(rhs),
            ],
            BranchOp::BranchU64Lt_Si { offset, lhs, rhs } => seq![
                Code(MINI_COPY_SI), Scratch(0), Imm(rhs as i64),
                Code(MINI_U64_LT_SS_R), Slot(lhs), Scratch(0),
                Code(MINI_BR_I32_NE_RI), Target(offset), Imm(0),
            ],
            BranchOp::BranchU64Lt_Is { offset, lhs, rhs } => seq![
                Code(MINI_COPY_SI), Scratch(0), Imm(lhs as i64),
                Code(MINI_BR_U64_LT_SS), Target(offset), Scratch(0), Slot(rhs),
            ],
            BranchOp::BranchU64Lt_Ir { offset, lhs } => seq![
                Code(MINI_COPY_SI), Scratch(0), Imm(lhs as i64),
                Code(MINI_COPY_SR), Scratch(1),
                Code(MINI_U64_LT_SS_R), Scratch(0), Scratch(1),
                Code(MINI_BR_I32_NE_RI), Target(offset), Imm(0),
            ],
        }
    }

    /// Lowers the operation.
    pub fn lower(self) -> (words: Vec<Word>)
        ensures
            words@ == self.lowering(),
    {
        let words = match self {
            BranchOp::Branch { offset } => vec![Code(MINI_BR_ALWAYS), Target(offset)],
            BranchOp::BranchI32Eq_Rs { offset, rhs } => vec![
                Code(MINI_COPY_SR), Scratch(0),
                Code(MINI_BR_I64_EQ_SS), Target(offset), Scratch(0), Slot(rhs),
            ],
            BranchOp::BranchI32Eq_Si { offset, lhs, rhs } => vec![
                Code(MINI_BR_I64_EQ_SI), Target(offset), Slot(lhs), Imm(rhs as i64),
            ],
            BranchOp::BranchI32Eq_Ri { offset, rhs } => vec![
                Code(MINI_COPY_SR), Scratch(0),
                Code(MINI_BR_I64_EQ_SI), Target(offset), Scratch(0), Imm(rhs as i64),
            ],
            BranchOp::BranchI32NotEq_Rs { offset, rhs } => vec![
                Code(MINI_COPY_SR), Scratch(0),
                Code(MINI_BR_I64_NE_SS), Target(offset), Scratch(0), Slot(rhs),
            ],
            BranchOp::BranchI32NotEq_Si { offset, lhs, rhs } => vec![
                Code(MINI_COPY_RS), Slot(lhs),
                Code(MINI_BR_I32_NE_RI), Target(offset), Imm(rhs as i64),
            ],
            BranchOp::BranchI32NotEq_Ri { offset, rhs } => vec![
                Code(MINI_BR_I32_NE_RI), Target(offset), Imm(rhs as i64),
            ],
            BranchOp::BranchI32Lt_Si { offset, lhs, rhs } => vec![
                Code(MINI_BR_I32_LT_SI), Target(offset), Slot(lhs), Imm(rhs as i64),
            ],
            BranchOp::BranchI32Lt_Ri { offset, rhs } => vec![
                Code(MINI_COPY_SI), Scratch(0), Imm(rhs as i64),
                Code(MINI_I32_LT_RS_R), Scratch(0),
                Code(MINI_BR_I32_NE_RI), Target(offset), Imm(0),
            ],
            BranchOp::BranchI32Le_Ss { offset, lhs, rhs } => vec![
                Code(MINI_BR_I32_LE_SS), Target(offset), Slot(lhs), Slot(rhs),
            ],
            BranchOp::BranchU32Lt_Ss { offset, lhs, rhs } => vec![
                Code(MINI_U32_LT_SS_R), Slot(lhs), Slot(rhs),
                Code(MINI_BR_I32_NE_RI), Target(offset), Imm(0),
            ],
            BranchOp::BranchU32Lt_Rs { offset, rhs } => vec![
                Code(MINI_COPY_SR), Scratch(0),
                Code(MINI_U32_LT_SS_R), Scratch(0), Slot(rhs),
                Code(MINI_BR_I32_NE_RI), Target(offset), Imm(0),
            ],
            BranchOp::BranchU32Lt_Sr { offset, lhs } => vec![
                Code(MINI_COPY_SR), Scratch(0),
                Code(MINI_U32_LT_SS_R), Slot(lhs), Scratch(0),
                Code(MINI_BR_I32_NE_RI), Target(offset), Imm(0),
            ],
            BranchOp::BranchU32Lt_Si { offset, lhs, rhs } => vec![
                Code(MINI_COPY_SI), Scratch(0), Imm(rhs as i64),
                Code(MINI_U32_LT_SS_R), Slot(lhs), Scratch(0),
                Code(MINI_BR_I32_NE_RI), Target(offset), Imm(0),
            ],
            BranchOp::BranchU32Lt_Ir { offset, lhs } => vec![
                Code(MINI_COPY_SI), Scratch(0), Imm(lhs as i64),
                Code(MINI_COPY_SR), Scratch(1),
                Code(MINI_U32_LT_SS_R), Scratch(0), Scratch(1),
                Code(MINI_BR_I32_NE_RI), Target(offset), Imm(0),
            ],
            BranchOp::BranchU32Le_Ss { offset, lhs, rhs } => vec![
                Code(MINI_BR_U32_LE_SS), Target(offset), Slot(lhs), Slot(rhs),
            ],
            BranchOp::BranchU32Le_Rs { offset, rhs } => vec![
                Code(MINI_COPY_SR), Scratch(0),
                Code(MINI_BR_U32_LE_SS), Target(offset), Scratch(0), Slot(rhs),
            ],
            BranchOp::BranchU32Le_Sr { offset, lhs } => vec![
                Code(MINI_COPY_SR), Scratch(0),
                Code(MINI_U32_LE_SS_R), Slot(lhs), Scratch(0),
                Code(MINI_BR_I32_NE_RI), Target(offset), Imm(0),
            ],
            BranchOp::BranchU32Le_Ir { offset, lhs } => vec![
                Code(MINI_COPY_SI), Scratch(0), Imm(lhs as i64),
                Code(MINI_COPY_SR), Scratch(1),
                Code(MINI_U32_LE_SS_R), Scratch(0), Scratch(1),
                Code(MINI_BR_I32_NE_RI), Target(offset), Imm(0),
            ],
            BranchOp::BranchI64Eq_Ss { offset, lhs, rhs } => vec![
                Code(MINI_BR_I64_EQ_SS), Target(offset), Slot(lhs), Slot(rhs),
            ],
            BranchOp::BranchI64Eq_Si { offset, lhs, rhs } => vec![
                Code(MINI_BR_I64_EQ_SI), Target(offset), Slot(lhs), Imm(rhs),
            ],
            BranchOp::BranchI64Eq_Ri { offset, rhs } => vec![
                Code(MINI_COPY_SR), Scratch(0),
                Code(MINI_BR_I64_EQ_SI), Target(offset), Scratch(0), Imm(rhs),
            ],
            BranchOp::BranchI64NotEq_Ri { offset, rhs } => vec![
                Code(MINI_BR_I64_NE_RI), Target(offset), Imm(rhs),
            ],
            BranchOp::BranchI64Lt_Rs { offset, rhs } => vec![
                Code(MINI_I64_LT_RS_R), Slot(rhs),
                Code(MINI_BR_I32_NE_RI), Target(offset), Imm(0),
            ],
            BranchOp::BranchI64Lt_Ir { offset, lhs } => vec![
                Code(MINI_BR_I64_LT_IR), Target(offset), Imm(lhs),
            ],
            BranchOp::BranchI64Le_Ss { offset, lhs, rhs } => vec![
                Code(MINI_BR_I64_LE_SS), Target(offset), Slot(lhs), Slot(rhs),
            ],
            BranchOp::BranchI64Le_Rs { offset, rhs } => vec![
                Code(MINI_COPY_SR), Scratch(0),
                Code(MINI_I64_LE_SS_R), Scratch(0), Slot(rhs),
                Code(MINI_BR_I32_NE_RI), Target(offset), Imm(0),
            ],
            BranchOp::BranchI64Le_Si { offset, lhs, rhs } => vec![
                Code(MINI_BR_I64_LE_SI), Target(offset), Slot(lhs), Imm(rhs),
            ],
            BranchOp::BranchU64Lt_Si { offset, lhs, rhs } => vec![
                Code(MINI_COPY_SI), Scratch(0), Imm(rhs as i64),
                Code(MINI_U64_LT_SS_R), Slot(lhs), Scratch(0),
                Code(MINI_BR_I32_NE_RI), Target(offset), Imm(0),
            ],
            BranchOp::BranchU64Lt_Is { offset, lhs, rhs } => vec![
                Code(MINI_COPY_SI), Scratch(0), Imm(lhs as i64),
                Code(MINI_BR_U64_LT_SS), Target(offset), Scratch(0), Slot(rhs),
            ],
            BranchOp::BranchU64Lt_Ir { offset, lhs } => vec![
                Code(MINI_COPY_SI), Scratch(0), Imm(lhs as i64),
                Code(MINI_COPY_SR), Scratch(1),
                Code(MINI_U64_LT_SS_R), Scratch(0), Scratch(1),
                Code(MINI_BR_I32_NE_RI), Target(offset), Imm(0),
            ],
        };
        assert(words@ =~= self.lowering());
        words
    }

    /// What the operation does.
    pub open spec fn action(self) -> Action {
        match self {
            BranchOp::Branch { offset } => Action::Branch { test: None, offset },
            BranchOp::BranchI32Eq_Rs { offset, rhs } => Action::Branch {
                test: Some((BinOp::I32Eq, Src::Ireg, Src::Slot(rhs))), offset,
            },
            BranchOp::BranchI32Eq_Si { offset, lhs, rhs } => Action::Branch {
                test: Some((BinOp::I32Eq, Src::Slot(lhs), Src::Imm(rhs as i64))), offset,
            },
            BranchOp::BranchI32Eq_Ri { offset, rhs } => Action::Branch {
                test: Some((BinOp::I32Eq, Src::Ireg, Src::Imm(rhs as i64))), offset,
            },
            BranchOp::BranchI32NotEq_Rs { offset, rhs } => Action::Branch {
                test: Some((BinOp::I32Ne, Src::Ireg, Src::Slot(rhs))), offset,
            },
            BranchOp::BranchI32NotEq_Si { offset, lhs, rhs } => Action::Branch {
                test: Some((BinOp::I32Ne, Src::Slot(lhs), Src::Imm(rhs as i64))), offset,
            },
            BranchOp::BranchI32NotEq_Ri { offset, rhs } => Action::Branch {
                test: Some((BinOp::I32Ne, Src::Ireg, Src::Imm(rhs as i64))), offset,
            },
            BranchOp::BranchI32Lt_Si { offset, lhs, rhs } => Action::Branch {
                test: Some((BinOp::I32Lt, Src::Slot(lhs), Src::Imm(rhs as i64))), offset,
            },
            BranchOp::BranchI32Lt_Ri { offset, rhs } => Action::Branch {
                test: Some((BinOp::I32Lt, Src::Ireg, Src::Imm(rhs as i64))), offset,
            },
            BranchOp::BranchI32Le_Ss { offset, lhs, rhs } => Action::Branch {
                test: Some((BinOp::I32Le, Src::Slot(lhs), Src::Slot(rhs))), offset,
            },
            BranchOp::BranchU32Lt_Ss { offset, lhs, rhs } => Action::Branch {
                test: Some((BinOp::U32Lt, Src::Slot(lhs), Src::Slot(rhs))), offset,
            },
            BranchOp::BranchU32Lt_Rs { offset, rhs } => Action::Branch {
                test: Some((BinOp::U32Lt, Src::Ireg, Src::Slot(rhs))), offset,
            },
            BranchOp::BranchU32Lt_Sr { offset, lhs } => Action::Branch {
                test: Some((BinOp::U32Lt, Src::Slot(lhs), Src::Ireg)), offset,
            },
            BranchOp::BranchU32Lt_Si { offset, lhs, rhs } => Action::Branch {
                test: Some((BinOp::U32Lt, Src::Slot(lhs), Src::Imm(rhs as i64))), offset,
            },
            BranchOp::BranchU32Lt_Ir { offset, lhs } => Action::Branch {
                test: Some((BinOp::U32Lt, Src::Imm(lhs as i64), Src::Ireg)), offset,
            },
            BranchOp::BranchU32Le_Ss { offset, lhs, rhs } => Action::Branch {
                test: Some((BinOp::U32Le, Src::Slot(lhs), Src::Slot(rhs))), offset,
            },
            BranchOp::BranchU32Le_Rs { offset, rhs } => Action::Branch {
                test: Some((BinOp::U32Le, Src::Ireg, Src::Slot(rhs))), offset,
            },
            BranchOp::BranchU32Le_Sr { offset, lhs } => Action::Branch {
                test: Some((BinOp::U32Le, Src::Slot(lhs), Src::Ireg)), offset,
            },
            BranchOp::BranchU32Le_Ir { offset, lhs } => Action::Branch {
                test: Some((BinOp::U32Le, Src::Imm(lhs as i64), Src::Ireg)), offset,
            },
            BranchOp::BranchI64Eq_Ss { offset, lhs, rhs } => Action::Branch {
                test: Some((BinOp::I64Eq, Src::Slot(lhs), Src::Slot(rhs))), offset,
            },
            BranchOp::BranchI64Eq_Si { offset, lhs, rhs } => Action::Branch {
                test: Some((BinOp::I64Eq, Src::Slot(lhs), Src::Imm(rhs))), offset,
            },
            BranchOp::BranchI64Eq_Ri { offset, rhs } => Action::Branch {
                test: Some((BinOp::I64Eq, Src::Ireg, Src::Imm(rhs))), offset,
            },
            BranchOp::BranchI64NotEq_Ri { offset, rhs } => Action::Branch {
                test: Some((BinOp::I64Ne, Src::Ireg, Src::Imm(rhs))), offset,
            },
            BranchOp::BranchI64Lt_Rs { offset, rhs } => Action::Branch {
                test: Some((BinOp::I64Lt, Src::Ireg, Src::Slot(rhs))), offset,
            },
            BranchOp::BranchI64Lt_Ir { offset, lhs } => Action::Branch {
                test: Some((BinOp::I64Lt, Src::Imm(lhs), Src::Ireg)), offset,
            },
            BranchOp::BranchI64Le_Ss { offset, lhs, rhs } => Action::Branch {
                test: Some((BinOp::I64Le, Src::Slot(lhs), Src::Slot(rhs))), offset,
            },
            BranchOp::BranchI64Le_Rs { offset, rhs } => Action::Branch {
                test: Some((BinOp::I64Le, Src::Ireg, Src::Slot(rhs))), offset,
            },
            BranchOp::BranchI64Le_Si { offset, lhs, rhs } => Action::Branch {
                test: Some((BinOp::I64Le, Src::Slot(lhs), Src::Imm(rhs))), offset,
            },
            BranchOp::BranchU64Lt_Si { offset, lhs, rhs } => Action::Branch {
                test: Some((BinOp::U64Lt, Src::Slot(lhs), Src::Imm(rhs as i64))), offset,
            },
            BranchOp::BranchU64Lt_Is { offset, lhs, rhs } => Action::Branch {
                test: Some((BinOp::U64Lt, Src::Imm(lhs as i64), Src::Slot(rhs))), offset,
            },
            BranchOp::BranchU64Lt_Ir { offset, lhs } => Action::Branch {
                test: Some((BinOp::U64Lt, Src::Imm(lhs as i64), Src::Ireg)), offset,
            },
        }
    }
}

impl BranchOp {
    /// What the words of the branch do: some tests of 32-bit operands compare all 64 bits.
    pub open spec fn effect(self) -> Action {
        match self {
            BranchOp::BranchI32Eq_Rs { offset, rhs } => Action::Branch {
                test: Some((BinOp::I64Eq, Src::Ireg, Src::Slot(rhs))), offset,
            },
            BranchOp::BranchI32Eq_Si { offset, lhs, rhs } => Action::Branch {
                test: Some((BinOp::I64Eq, Src::Slot(lhs), Src::Imm(rhs as i64))), offset,
            },
            BranchOp::BranchI32Eq_Ri { offset, rhs } => Action::Branch {
                test: Some((BinOp::I64Eq, Src::Ireg, Src::Imm(rhs as i64))), offset,
            },
            BranchOp::BranchI32NotEq_Rs { offset, rhs } => Action::Branch {
                test: Some((BinOp::I64Ne, Src::Ireg, Src::Slot(rhs))), offset,
            },
            _ => self.action(),
        }
    }

    /// Whether 32-bit operands that are compared in full hold sign-extended values.
    pub open spec fn operands_canonical<W>(self, m: Machine<W>) -> bool {
        match self {
            BranchOp::BranchI32Eq_Rs { rhs, .. } => canonical(m.ireg) && canonical(m.slot(rhs)),
            BranchOp::BranchI32Eq_Si { lhs, .. } => canonical(m.slot(lhs)),
            BranchOp::BranchI32Eq_Ri { .. } => canonical(m.ireg),
            BranchOp::BranchI32NotEq_Rs { rhs, .. } => canonical(m.ireg) && canonical(m.slot(rhs)),
            _ => true,
        }
    }

    /// Whether the words of the branch leave the integer accumulator as it is. Those that
    /// load an operand or the result of a test into it do not.
    pub open spec fn keeps_ireg(self) -> bool {
        match self {
            BranchOp::BranchI32NotEq_Si { .. } => false,
            BranchOp::BranchI32Lt_Ri { .. } => false,
            BranchOp::BranchU32Lt_Ss { .. } => false,
            BranchOp::BranchU32Lt_Rs { .. } => false,
            BranchOp::BranchU32Lt_Sr { .. } => false,
            BranchOp::BranchU32Lt_Si { .. } => false,
            BranchOp::BranchU32Lt_Ir { .. } => false,
            BranchOp::BranchU32Le_Sr { .. } => false,
            BranchOp::BranchU32Le_Ir { .. } => false,
            BranchOp::BranchI64Lt_Rs { .. } => false,
            BranchOp::BranchI64Le_Rs { .. } => false,
            BranchOp::BranchU64Lt_Si { .. } => false,
            BranchOp::BranchU64Lt_Ir { .. } => false,
            _ => true,
        }
    }
}

} // verus!
