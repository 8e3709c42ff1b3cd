//! Integer comparisons whose result is a value, 0 or 1, in the accumulator.

use crate::action::{Action, BinOp, Src};
use crate::mini::{
    MINI_COPY_SI, MINI_COPY_SR, MINI_I32_EQ_RS_R, MINI_I32_EQ_SS_R, MINI_I32_LE_RS_R,
    MINI_I32_LE_SS_R, MINI_I32_LT_RS_R, MINI_I32_LT_SI_R, MINI_I32_LT_SR_R, MINI_I32_LT_SS_R,
    MINI_I32_NE_RS_R, MINI_I32_NE_SS_R, MINI_I64_EQ_RS_R, MINI_I64_EQ_SS_R, MINI_I64_LE_SS_R,
    MINI_I64_LT_IS_R, MINI_I64_LT_RS_R, MINI_I64_LT_SI_R, MINI_I64_LT_SS_R, MINI_I64_NE_RS_R,
    MINI_I64_NE_SS_R, MINI_U32_LE_RS_R, MINI_U32_LE_SS_R, MINI_U32_LT_RS_R, MINI_U32_LT_SS_R,
    MINI_U64_LE_SS_R, MINI_U64_LT_SS_R,
};
use crate::word::Word;
use crate::word::Word::{Code, Imm, Scratch, Slot};
use vstd::prelude::*;

verus! {

/// An integer comparison used as a value.
#[allow(non_camel_case_types)]
#[derive(Clone, Copy, Debug, PartialEq, Eq, Structural)]
pub enum CompareOp {
    /// `ireg = slots[lhs] == slots[rhs]` (i32).
    I32Eq_Rss { lhs: u16, rhs: u16 },
    /// `ireg = ireg == slots[rhs]` (i32).
    I32Eq_Rrs { rhs: u16 },
    /// `ireg = slots[lhs] == rhs` (i32).
    I32Eq_Rsi { lhs: u16, rhs: i32 },
    /// `ireg = ireg == rhs` (i32).
    I32Eq_Rri { rhs: i32 },
    /// `ireg = ireg != slots[rhs]` (i32).
    I32NotEq_Rrs { rhs: u16 },
    /// `ireg = slots[lhs] != rhs` (i32).
    I32NotEq_Rsi { lhs: u16, rhs: i32 },
    /// `ireg = ireg < slots[rhs]` (i32).
    I32Lt_Rrs { rhs: u16 },
    /// `ireg = slots[lhs] < ireg` (i32).
    I32Lt_Rsr { lhs: u16 },
    /// `ireg = slots[lhs] < rhs` (i32).
    I32Lt_Rsi { lhs: u16, rhs: i32 },
    /// `ireg = lhs < slots[rhs]` (i32).
    I32Lt_Ris { lhs: i32, rhs: u16 },
    /// `ireg = ireg <= slots[rhs]` (i32).
    I32Le_Rrs { rhs: u16 },
    /// `ireg = slots[lhs] <= rhs` (i32).
    I32Le_Rsi { lhs: u16, rhs: i32 },
    /// `ireg = lhs <= slots[rhs]` (i32).
    I32Le_Ris { lhs: i32, rhs: u16 },
    /// `ireg = ireg < slots[rhs]` (u32).
    U32Lt_Rrs { rhs: u16 },
    /// `ireg = slots[lhs] < rhs` (u32).
    U32Lt_Rsi { lhs: u16, rhs: u32 },
    /// `ireg = lhs < slots[rhs]` (u32).
    U32Lt_Ris { lhs: u32, rhs: u16 },
    /// `ireg = ireg <= slots[rhs]` (u32).
    U32Le_Rrs { rhs: u16 },
    /// `ireg = slots[lhs] <= rhs` (u32).
    U32Le_Rsi { lhs: u16, rhs: u32 },
    /// `ireg = lhs <= slots[rhs]` (u32).
    U32Le_Ris { lhs: u32, rhs: u16 },
    /// `ireg = ireg == slots[rhs]` (i64).
    I64Eq_Rrs { rhs: u16 },
    /// `ireg = slots[lhs] == rhs` (i64).
    I64Eq_Rsi { lhs: u16, rhs: i64 },
    /// `ireg = ireg == rhs` (i64).
    I64Eq_Rri { rhs: i64 },
    /// `ireg = ireg != slots[rhs]` (i64).
    I64NotEq_Rrs { rhs: u16 },
    /// `ireg = slots[lhs] != rhs` (i64).
    I64NotEq_Rsi { lhs: u16, rhs: i64 },
    /// `ireg = slots[lhs] < slots[rhs]` (i64).
    I64Lt_Rss { lhs: u16, rhs: u16 },
    /// `ireg = ireg < slots[rhs]` (i64).
    I64Lt_Rrs { rhs: u16 },
    /// `ireg = slots[lhs] < ireg` (i64).
    I64Lt_Rsr { lhs: u16 },
    /// `ireg = slots[lhs] < rhs` (i64).
    I64Lt_Rsi { lhs: u16, rhs: i64 },
    /// `ireg = ireg < rhs` (i64).
    I64Lt_Rri { rhs: i64 },
    /// `ireg = lhs < slots[rhs]` (i64).
    I64Lt_Ris { lhs: i64, rhs: u16 },
    /// `ireg = slots[lhs] <= rhs` (i64).
    I64Le_Rsi { lhs: u16, rhs: i64 },
    /// `ireg = lhs <= slots[rhs]` (i64).
    I64Le_Ris { lhs: i64, rhs: u16 },
    /// `ireg = slots[lhs] < rhs` (u64).
    U64Lt_Rsi { lhs: u16, rhs: u64 },
    /// `ireg = lhs < slots[rhs]` (u64).
    U64Lt_Ris { lhs: u64, rhs: u16 },
    /// `ireg = slots[lhs] <= rhs` (u64).
    U64Le_Rsi { lhs: u16, rhs: u64 },
    /// `ireg = lhs <= slots[rhs]` (u64).
    U64Le_Ris { lhs: u64, rhs: u16 },
}

impl CompareOp {
    /// The words of the operation.
    pub open spec fn lowering(self) -> Seq<Word> {
        match self {
            CompareOp::I32Eq_Rss { lhs, rhs } => seq![Code(MINI_I32_EQ_SS_R), Slot(lhs), Slot(rhs)],
            CompareOp::I32Eq_Rrs { rhs } => seq![Code(MINI_I32_EQ_RS_R), Slot(rhs)],
            CompareOp::I32Eq_Rsi { lhs, rhs } => seq![
                Code(MINI_COPY_SI), Scratch(0), Imm(rhs as i64),
                Code(MINI_I32_EQ_SS_R), Slot(lhs), Scratch(0),
            ],
            CompareOp::I32Eq_Rri { rhs } => seq![
                Code(MINI_COPY_SI), Scratch(0), Imm(rhs as i64),
                Code(MINI_I32_EQ_RS_R), Scratch(0),
            ],
            CompareOp::I32NotEq_Rrs { rhs } => seq![Code(MINI_I32_NE_RS_R), Slot(rhs)],
            CompareOp::I32NotEq_Rsi { lhs, rhs } => seq![
                Code(MINI_COPY_SI), Scratch(0), Imm(rhs as i64),
                Code(MINI_I32_NE_SS_R), Slot(lhs), Scratch(0),
            ],
            CompareOp::I32Lt_Rrs { rhs } => seq![Code(MINI_I32_LT_RS_R), Slot(rhs)],
            CompareOp::I32Lt_Rsr { lhs } => seq![Code(MINI_I32_LT_SR_R), Slot(lhs)],
            CompareOp::I32Lt_Rsi { lhs, rhs } => seq![
                Code(MINI_I32_LT_SI_R), Slot(lhs), Imm(rhs as i64),
            ],
            CompareOp::I32Lt_Ris { lhs, rhs } => seq![
                Code(MINI_COPY_SI), Scratch(0), Imm(lhs as i64),
                Code(MINI_I32_LT_SS_R), Scratch(0), Slot(rhs),
            ],
            CompareOp::I32Le_Rrs { rhs } => seq![Code(MINI_I32_LE_RS_R), Slot(rhs)],
            CompareOp::I32Le_Rsi { lhs, rhs } => seq![
                Code(MINI_COPY_SI), Scratch(0), Imm(rhs as i64),
                Code(MINI_I32_LE_SS_R), Slot(lhs), Scratch(0),
            ],
            CompareOp::I32Le_Ris { lhs, rhs } => seq![
                Code(MINI_COPY_SI), Scratch(0), Imm(lhs as i64),
                Code(MINI_I32_LE_SS_R), Scratch(0), Slot(rhs),
            ],
            CompareOp::U32Lt_Rrs { rhs } => seq![Code(MINI_U32_LT_RS_R), Slot(rhs)],
            CompareOp::U32Lt_Rsi { lhs, rhs } => seq![
                Code(MINI_COPY_SI), Scratch(0), Imm(rhs as i64),
                Code(MINI_U32_LT_SS_R), Slot(lhs), Scratch(0),
            ],
            CompareOp::U32Lt_Ris { lhs, rhs } => seq![
                Code(MINI_COPY_SI), Scratch(0), Imm(lhs as i64),
                Code(MINI_U32_LT_SS_R), Scratch(0), Slot(rhs),
            ],
            CompareOp::U32Le_Rrs { rhs } => seq![Code(MINI_U32_LE_RS_R), Slot(rhs)],
            CompareOp::U32Le_Rsi { lhs, rhs } => seq![
                Code(MINI_COPY_SI), Scratch(0), Imm(rhs as i64),
                Code(MINI_U32_LE_SS_R), Slot(lhs), Scratch(0),
            ],
            CompareOp::U32Le_Ris { lhs, rhs } => seq![
                Code(MINI_COPY_SI), Scratch(0), Imm(lhs as i64),
                Code(MINI_U32_LE_SS_R), Scratch(0), Slot(rhs),
            ],
            CompareOp::I64Eq_Rrs { rhs } => seq![Code(MINI_I64_EQ_RS_R), Slot(rhs)],
            CompareOp::I64Eq_Rsi { lhs, rhs } => seq![
                Code(MINI_COPY_SI), Scratch(0), Imm(rhs),
                Code(MINI_I64_EQ_SS_R), Slot(lhs), Scratch(0),
            ],
            CompareOp::I64Eq_Rri { rhs } => seq![
                Code(MINI_COPY_SI), Scratch(0), Imm(rhs),
                Code(MINI_I64_EQ_RS_R), Scratch(0),
            ],
            CompareOp::I64NotEq_Rrs { rhs } => seq![Code(MINI_I64_NE_RS_R), Slot(rhs)],
            CompareOp::I64NotEq_Rsi { lhs, rhs } => seq![
                Code(MINI_COPY_SI), Scratch(0), Imm(rhs),
                Code(MINI_I64_NE_SS_R), Slot(lhs), Scratch(0),
            ],
            CompareOp::I64Lt_Rss { lhs, rhs } => seq![Code(MINI_I64_LT_SS_R), Slot(lhs), Slot(rhs)],
            CompareOp::I64Lt_Rrs { rhs } => seq![Code(MINI_I64_LT_RS_R), Slot(rhs)],
            CompareOp::I64Lt_Rsr { lhs } => seq![
                Code(MINI_COPY_SR), Scratch(0),
                Code(MINI_I64_LT_SS_R), Slot(lhs), Scratch(0),
            ],
            CompareOp::I64Lt_Rsi { lhs, rhs } => seq![Code(MINI_I64_LT_SI_R), Slot(lhs), Imm(rhs)],
            CompareOp::I64Lt_Rri { rhs } => seq![
                Code(MINI_COPY_SR), Scratch(0),
                Code(MINI_I64_LT_SI_R), Scratch(0), Imm(rhs),
            ],
            CompareOp::I64Lt_Ris { lhs, rhs } => seq![Code(MINI_I64_LT_IS_R), Imm(lhs), Slot(rhs)],
            CompareOp::I64Le_Rsi { lhs, rhs } => seq![
                Code(MINI_COPY_SI), Scratch(0), Imm(rhs),
                Code(MINI_I64_LE_SS_R), Slot(lhs), Scratch(0),
            ],
            CompareOp::I64Le_Ris { lhs, rhs } => seq![
                Code(MINI_COPY_SI), Scratch(0), Imm(lhs),
                Code(MINI_I64_LE_SS_R), Scratch(0), Slot(rhs),
            ],
            CompareOp::U64Lt_Rsi { lhs, rhs } => seq![
                Code(MINI_COPY_SI), Scratch(0), Imm(rhs as i64),
                Code(MINI_U64_LT_SS_R), Slot(lhs), Scratch(0),
            ],
            CompareOp::U64Lt_Ris { lhs, rhs } => seq![
                Code(MINI_COPY_SI), Scratch(0), Imm(lhs as i64),
                Code(MINI_U64_LT_SS_R), Scratch(0), Slot(rhs),
            ],
            CompareOp::U64Le_Rsi { lhs, rhs } => seq![
                Code(MINI_COPY_SI), Scratch(0), Imm(rhs as i64),
                Code(MINI_U64_LE_SS_R), Slot(lhs), Scratch(0),
            ],
            CompareOp::U64Le_Ris { lhs, rhs } => seq![
                Code(MINI_COPY_SI), Scratch(0), Imm(lhs as i64),
                Code(MINI_U64_LE_SS_R), Scratch(0), Slot(rhs),
            ],
        }
    }

    /// Lowers the operation.
    pub fn lower(self) -> (words: Vec<Word>)
        ensures
            words@ == self.lowering(),
    {
        let words = match self {
            CompareOp::I32Eq_Rss { lhs, rhs } => vec![Code(MINI_I32_EQ_SS_R), Slot(lhs), Slot(rhs)],
            CompareOp::I32Eq_Rrs { rhs } => vec![Code(MINI_I32_EQ_RS_R), Slot(rhs)],
            CompareOp::I32Eq_Rsi { lhs, rhs } => vec![
                Code(MINI_COPY_SI), Scratch(0), Imm(rhs as i64),
                Code(MINI_I32_EQ_SS_R), Slot(lhs), Scratch(0),
            ],
            CompareOp::I32Eq_Rri { rhs } => vec![
                Code(MINI_COPY_SI), Scratch(0), Imm(rhs as i64),
                Code(MINI_I32_EQ_RS_R), Scratch(0),
            ],
            CompareOp::I32NotEq_Rrs { rhs } => vec![Code(MINI_I32_NE_RS_R), Slot(rhs)],
            CompareOp::I32NotEq_Rsi { lhs, rhs } => vec![
                Code(MINI_COPY_SI), Scratch(0), Imm(rhs as i64),
                Code(MINI_I32_NE_SS_R), Slot(lhs), Scratch(0),
            ],
            CompareOp::I32Lt_Rrs { rhs } => vec![Code(MINI_I32_LT_RS_R), Slot(rhs)],
            CompareOp::I32Lt_Rsr { lhs } => vec![Code(MINI_I32_LT_SR_R), Slot(lhs)],
            CompareOp::I32Lt_Rsi { lhs, rhs } => vec![
                Code(MINI_I32_LT_SI_R), Slot(lhs), Imm(rhs as i64),
            ],
            CompareOp::I32Lt_Ris { lhs, rhs } => vec![
                Code(MINI_COPY_SI), Scratch(0), Imm(lhs as i64),
                Code(MINI_I32_LT_SS_R), Scratch(0), Slot(rhs),
            ],
            CompareOp::I32Le_Rrs { rhs } => vec![Code(MINI_I32_LE_RS_R), Slot(rhs)],
            CompareOp::I32Le_Rsi { lhs, rhs } => vec![
                Code(MINI_COPY_SI), Scratch(0), Imm(rhs as i64),
                Code(MINI_I32_LE_SS_R), Slot(lhs), Scratch(0),
            ],
            CompareOp::I32Le_Ris { lhs, rhs } => vec![
                Code(MINI_COPY_SI), Scratch(0), Imm(lhs as i64),
                Code(MINI_I32_LE_SS_R), Scratch(0), Slot(rhs),
            ],
            CompareOp::U32Lt_Rrs { rhs } => vec![Code(MINI_U32_LT_RS_R), Slot(rhs)],
            CompareOp::U32Lt_Rsi { lhs, rhs } => vec![
                Code(MINI_COPY_SI), Scratch(0), Imm(rhs as i64),
                Code(MINI_U32_LT_SS_R), Slot(lhs), Scratch(0),
            ],
            CompareOp::U32Lt_Ris { lhs, rhs } => vec![
                Code(MINI_COPY_SI), Scratch(0), Imm(lhs as i64),
                Code(MINI_U32_LT_SS_R), Scratch(0), Slot(rhs),
            ],
            CompareOp::U32Le_Rrs { rhs } => vec![Code(MINI_U32_LE_RS_R), Slot(rhs)],
            CompareOp::U32Le_Rsi { lhs, rhs } => vec![
                Code(MINI_COPY_SI), Scratch(0), Imm(rhs as i64),
                Code(MINI_U32_LE_SS_R), Slot(lhs), Scratch(0),
            ],
            CompareOp::U32Le_Ris { lhs, rhs } => vec![
                Code(MINI_COPY_SI), Scratch(0), Imm(lhs as i64),
                Code(MINI_U32_LE_SS_R), Scratch(0), Slot(rhs),
            ],
            CompareOp::I64Eq_Rrs { rhs } => vec![Code(MINI_I64_EQ_RS_R), Slot(rhs)],
            CompareOp::I64Eq_Rsi { lhs, rhs } => vec![
                Code(MINI_COPY_SI), Scratch(0), Imm(rhs),
                Code(MINI_I64_EQ_SS_R), Slot(lhs), Scratch(0),
            ],
            CompareOp::I64Eq_Rri { rhs } => vec![
                Code(MINI_COPY_SI), Scratch(0), Imm(rhs),
                Code(MINI_I64_EQ_RS_R), Scratch(0),
            ],
            CompareOp::I64NotEq_Rrs { rhs } => vec![Code(MINI_I64_NE_RS_R), Slot(rhs)],
            CompareOp::I64NotEq_Rsi { lhs, rhs } => vec![
                Code(MINI_COPY_SI), Scratch(0), Imm(rhs),
                Code(MINI_I64_NE_SS_R), Slot(lhs), Scratch(0),
            ],
            CompareOp::I64Lt_Rss { lhs, rhs } => vec![Code(MINI_I64_LT_SS_R), Slot(lhs), Slot(rhs)],
            CompareOp::I64Lt_Rrs { rhs } => vec![Code(MINI_I64_LT_RS_R), Slot(rhs)],
            CompareOp::I64Lt_Rsr { lhs } => vec![
                Code(MINI_COPY_SR), Scratch(0),
                Code(MINI_I64_LT_SS_R), Slot(lhs), Scratch(0),
            ],
            CompareOp::I64Lt_Rsi { lhs, rhs } => vec![Code(MINI_I64_LT_SI_R), Slot(lhs), Imm(rhs)],
            CompareOp::I64Lt_Rri { rhs } => vec![
                Code(MINI_COPY_SR), Scratch(0),
                Code(MINI_I64_LT_SI_R), Scratch(0), Imm(rhs),
            ],
            CompareOp::I64Lt_Ris { lhs, rhs } => vec![Code(MINI_I64_LT_IS_R), Imm(lhs), Slot(rhs)],
            CompareOp::I64Le_Rsi { lhs, rhs } => vec![
                Code(MINI_COPY_SI), Scratch(0), Imm(rhs),
                Code(MINI_I64_LE_SS_R), Slot(lhs), Scratch(0),
            ],
            CompareOp::I64Le_Ris { lhs, rhs } => vec![
                Code(MINI_COPY_SI), Scratch(0), Imm(lhs),
                Code(MINI_I64_LE_SS_R), Scratch(0), Slot(rhs),
            ],
            CompareOp::U64Lt_Rsi { lhs, rhs } => vec![
                Code(MINI_COPY_SI), Scratch(0), Imm(rhs as i64),
                Code(MINI_U64_LT_SS_R), Slot(lhs), Scratch(0),
            ],
            CompareOp::U64Lt_Ris { lhs, rhs } => vec![
                Code(MINI_COPY_SI), Scratch(0), Imm(lhs as i64),
                Code(MINI_U64_LT_SS_R), Scratch(0), Slot(rhs),
            ],
            CompareOp::U64Le_Rsi { lhs, rhs } => vec![
                Code(MINI_COPY_SI), Scratch(0), Imm(rhs as i64),
                Code(MINI_U64_LE_SS_R), Slot(lhs), Scratch(0),
            ],
            CompareOp::U64Le_Ris { lhs, rhs } => vec![
                Code(MINI_COPY_SI), Scratch(0), Imm(lhs as i64),
                Code(MINI_U64_LE_SS_R), Scratch(0), Slot(rhs),
            ],
        };
        assert(words@ =~= self.lowering());
        words
    }

    /// What the operation does.
    pub open spec fn action(self) -> Action {
        match self {
            CompareOp::I32Eq_Rss { lhs, rhs } => Action::Bin {
                op: BinOp::I32Eq,
                lhs: Src::Slot(lhs),
                rhs: Src::Slot(rhs),
                tee: None,
            },
            CompareOp::I32Eq_Rrs { rhs } => Action::Bin {
                op: BinOp::I32Eq,
                lhs: Src::Ireg,
                rhs: Src::Slot(rhs),
                tee: None,
            },
            CompareOp::I32Eq_Rsi { lhs, rhs } => Action::Bin {
                op: BinOp::I32Eq,
                lhs: Src::Slot(lhs),
                rhs: Src::Imm(rhs as i64),
                tee: None,
            },
            CompareOp::I32Eq_Rri { rhs } => Action::Bin {
                op: BinOp::I32Eq,
                lhs: Src::Ireg,
                rhs: Src::Imm(rhs as i64),
                tee: None,
            },
            CompareOp::I32NotEq_Rrs { rhs } => Action::Bin {
                op: BinOp::I32Ne,
                lhs: Src::Ireg,
                rhs: Src::Slot(rhs),
                tee: None,
            },
            CompareOp::I32NotEq_Rsi { lhs, rhs } => Action::Bin {
                op: BinOp::I32Ne,
                lhs: Src::Slot(lhs),
                rhs: Src::Imm(rhs as i64),
                tee: None,
            },
            CompareOp::I32Lt_Rrs { rhs } => Action::Bin {
                op: BinOp::I32Lt,
                lhs: Src::Ireg,
                rhs: Src::Slot(rhs),
                tee: None,
            },
            CompareOp::I32Lt_Rsr { lhs } => Action::Bin {
                op: BinOp::I32Lt,
                lhs: Src::Slot(lhs),
                rhs: Src::Ireg,
                tee: None,
            },
            CompareOp::I32Lt_Rsi { lhs, rhs } => Action::Bin {
                op: BinOp::I32Lt,
                lhs: Src::Slot(lhs),
                rhs: Src::Imm(rhs as i64),
                tee: None,
            },
            CompareOp::I32Lt_Ris { lhs, rhs } => Action::Bin {
                op: BinOp::I32Lt,
                lhs: Src::Imm(lhs as i64),
                rhs: Src::Slot(rhs),
                tee: None,
            },
            CompareOp::I32Le_Rrs { rhs } => Action::Bin {
                op: BinOp::I32Le,
                lhs: Src::Ireg,
                rhs: Src::Slot(rhs),
                tee: None,
            },
            CompareOp::I32Le_Rsi { lhs, rhs } => Action::Bin {
                op: BinOp::I32Le,
                lhs: Src::Slot(lhs),
                rhs: Src::Imm(rhs as i64),
                tee: None,
            },
            CompareOp::I32Le_Ris { lhs, rhs } => Action::Bin {
                op: BinOp::I32Le,
                lhs: Src::Imm(lhs as i64),
                rhs: Src::Slot(rhs),
                tee: None,
            },
            CompareOp::U32Lt_Rrs { rhs } => Action::Bin {
                op: BinOp::U32Lt,
                lhs: Src::Ireg,
                rhs: Src::Slot(rhs),
                tee: None,
            },
            CompareOp::U32Lt_Rsi { lhs, rhs } => Action::Bin {
                op: BinOp::U32Lt,
                lhs: Src::Slot(lhs),
                rhs: Src::Imm(rhs as i64),
                tee: None,
            },
            CompareOp::U32Lt_Ris { lhs, rhs } => Action::Bin {
                op: BinOp::U32Lt,
                lhs: Src::Imm(lhs as i64),
                rhs: Src::Slot(rhs),
                tee: None,
            },
            CompareOp::U32Le_Rrs { rhs } => Action::Bin {
                op: BinOp::U32Le,
                lhs: Src::Ireg,
                rhs: Src::Slot(rhs),
                tee: None,
            },
            CompareOp::U32Le_Rsi { lhs, rhs } => Action::Bin {
                op: BinOp::U32Le,
                lhs: Src::Slot(lhs),
                rhs: Src::Imm(rhs as i64),
                tee: None,
            },
            CompareOp::U32Le_Ris { lhs, rhs } => Action::Bin {
                op: BinOp::U32Le,
                lhs: Src::Imm(lhs as i64),
                rhs: Src::Slot(rhs),
                tee: None,
            },
            CompareOp::I64Eq_Rrs { rhs } => Action::Bin {
                op: BinOp::I64Eq,
                lhs: Src::Ireg,
                rhs: Src::Slot(rhs),
                tee: None,
            },
            CompareOp::I64Eq_Rsi { lhs, rhs } => Action::Bin {
                op: BinOp::I64Eq,
                lhs: Src::Slot(lhs),
                rhs: Src::Imm(rhs),
                tee: None,
            },
            CompareOp::I64Eq_Rri { rhs } => Action::Bin {
                op: BinOp::I64Eq,
                lhs: Src::Ireg,
                rhs: Src::Imm(rhs),
                tee: None,
            },
            CompareOp::I64NotEq_Rrs { rhs } => Action::Bin {
                op: BinOp::I64Ne,
                lhs: Src::Ireg,
                rhs: Src::Slot(rhs),
                tee: None,
            },
            CompareOp::I64NotEq_Rsi { lhs, rhs } => Action::Bin {
                op: BinOp::I64Ne,
                lhs: Src::Slot(lhs),
                rhs: Src::Imm(rhs),
                tee: None,
            },
            CompareOp::I64Lt_Rss { lhs, rhs } => Action::Bin {
                op: BinOp::I64Lt,
                lhs: Src::Slot(lhs),
                rhs: Src::Slot(rhs),
                tee: None,
            },
            CompareOp::I64Lt_Rrs { rhs } => Action::Bin {
                op: BinOp::I64Lt,
                lhs: Src::Ireg,
                rhs: Src::Slot(rhs),
                tee: None,
            },
            CompareOp::I64Lt_Rsr { lhs } => Action::Bin {
                op: BinOp::I64Lt,
                lhs: Src::Slot(lhs),
                rhs: Src::Ireg,
                tee: None,
            },
            CompareOp::I64Lt_Rsi { lhs, rhs } => Action::Bin {
                op: BinOp::I64Lt,
                lhs: Src::Slot(lhs),
                rhs: Src::Imm(rhs),
                tee: None,
            },
            CompareOp::I64Lt_Rri { rhs } => Action::Bin {
                op: BinOp::I64Lt,
                lhs: Src::Ireg,
                rhs: Src::Imm(rhs),
                tee: None,
            },
            CompareOp::I64Lt_Ris { lhs, rhs } => Action::Bin {
                op: BinOp::I64Lt,
                lhs: Src::Imm(lhs),
                rhs: Src::Slot(rhs),
                tee: None,
            },
            CompareOp::I64Le_Rsi { lhs, rhs } => Action::Bin {
                op: BinOp::I64Le,
                lhs: Src::Slot(lhs),
                rhs: Src::Imm(rhs),
                tee: None,
            },
            CompareOp::I64Le_Ris { lhs, rhs } => Action::Bin {
                op: BinOp::I64Le,
                lhs: Src::Imm(lhs),
                rhs: Src::Slot(rhs),
                tee: None,
            },
            CompareOp::U64Lt_Rsi { lhs, rhs } => Action::Bin {
                op: BinOp::U64Lt,
                lhs: Src::Slot(lhs),
                rhs: Src::Imm(rhs as i64),
                tee: None,
            },
            CompareOp::U64Lt_Ris { lhs, rhs } => Action::Bin {
                op: BinOp::U64Lt,
                lhs: Src::Imm(lhs as i64),
                rhs: Src::Slot(rhs),
                tee: None,
            },
            CompareOp::U64Le_Rsi { lhs, rhs } => Action::Bin {
                op: BinOp::U64Le,
                lhs: Src::Slot(lhs),
                rhs: Src::Imm(rhs as i64),
                tee: None,
            },
            CompareOp::U64Le_Ris { lhs, rhs } => Action::Bin {
                op: BinOp::U64Le,
                lhs: Src::Imm(lhs as i64),
                rhs: Src::Slot(rhs),
                tee: None,
            },
        }
    }
}

} // verus!
