//! Selections: one of two values, by a condition.

use crate::action::{Action, Src};
use crate::mini::{
    MINI_COPY_RS, MINI_COPY_SI, MINI_COPY_SR, MINI_SELECT,
};
use crate::word::Word;
use crate::word::Word::{Code, Imm, Scratch, Slot};
use vstd::prelude::*;

verus! {

/// A selection. The condition is a 32-bit value.
#[allow(non_camel_case_types)]
#[derive(Clone, Copy, Debug, PartialEq, Eq, Structural)]
pub enum SelectOp {
    /// `ireg = if ireg { slots[if_true] } else { slots[if_false] }`.
    U64Select_Rrss { if_true: u16, if_false: u16 },
    /// `ireg = if ireg { slots[if_true] } else { if_false }`.
    U64Select_Rrsi { if_true: u16, if_false: u64 },
    /// `ireg = if ireg { if_true } else { slots[if_false] }`.
    U64Select_Rris { if_true: u64, if_false: u16 },
    /// `ireg = if ireg { if_true } else { if_false }`.
    U64Select_Rrii { if_true: u64, if_false: u64 },
    /// `ireg = if ireg { ireg } else { slots[if_false] }`.
    U64Select_Rrrs { if_false: u16 },
    /// `ireg = if ireg { slots[if_true] } else { if_false }`.
    U32Select_Rrsi { if_true: u16, if_false: u32 },
    /// `ireg = if ireg { if_true } else { slots[if_false] }`.
    U32Select_Rris { if_true: u32, if_false: u16 },
    /// `ireg = if ireg { if_true } else { if_false }`.
    U32Select_Rrii { if_true: u32, if_false: u32 },
    /// `ireg = if slots[condition] { if_true } else { if_false }`.
    U32Select_Rsii { condition: u16, if_true: u32, if_false: u32 },
}

impl SelectOp {
    /// The words of the operation.
    pub open spec fn lowering(self) -> Seq<Word> {
        match self {
            SelectOp::U64Select_Rrss { if_true, if_false } => seq![
                Code(MINI_SELECT), Slot(if_true), Slot(if_false),
            ],
            SelectOp::U64Select_Rrsi { if_true, if_false } => seq![
                Code(MINI_COPY_SI), Scratch(0), Imm(if_false as i64),
                Code(MINI_SELECT), Slot(if_true), Scratch(0),
            ],
            SelectOp::U64Select_Rris { if_true, if_false } => seq![
                Code(MINI_COPY_SI), Scratch(0), Imm(if_true as i64),
                Code(MINI_SELECT), Scratch(0), Slot(if_false),
            ],
            SelectOp::U64Select_Rrii { if_true, if_false } => seq![
                Code(MINI_COPY_SI), Scratch(0), Imm(if_true as i64),
                Code(MINI_COPY_SI), Scratch(1), Imm(if_false as i64),
                Code(MINI_SELECT), Scratch(0), Scratch(1),
            ],
            SelectOp::U64Select_Rrrs { if_false } => seq![
                Code(MINI_COPY_SR), Scratch(0),
                Code(MINI_SELECT), Scratch(0), Slot(if_false),
            ],
            SelectOp::U32Select_Rrsi { if_true, if_false } => seq![
                Code(MINI_COPY_SI), Scratch(0), Imm(if_false as i64),
                Code(MINI_SELECT), Slot(if_true), Scratch(0),
            ],
            SelectOp::U32Select_Rris { if_true, if_false } => seq![
                Code(MINI_COPY_SI), Scratch(0), Imm(if_true as i64),
                Code(MINI_SELECT), Scratch(0), Slot(if_false),
            ],
            SelectOp::U32Select_Rrii { if_true, if_false } => seq![
                Code(MINI_COPY_SI), Scratch(0), Imm(if_true as i64),
                Code(MINI_COPY_SI), Scratch(1), Imm(if_false as i64),
                Code(MINI_SELECT), Scratch(0), Scratch(1),
            ],
            SelectOp::U32Select_Rsii { condition, if_true, if_false } => seq![
                Code(MINI_COPY_SI), Scratch(0), Imm(if_true as i64),
                Code(MINI_COPY_SI), Scratch(1), Imm(if_false as i64),
                Code(MINI_COPY_RS), Slot(condition),
                Code(MINI_SELECT), Scratch(0), Scratch(1),
            ],
        }
    }

    /// Lowers the operation.
    pub fn lower(self) -> (words: Vec<Word>)
        ensures
            words@ == self.lowering(),
    {
        let words = match self {
            SelectOp::U64Select_Rrss { if_true, if_false } => vec![
                Code(MINI_SELECT), Slot(if_true), Slot(if_false),
            ],
            SelectOp::U64Select_Rrsi { if_true, if_false } => vec![
                Code(MINI_COPY_SI), Scratch(0), Imm(if_false as i64),
                Code(MINI_SELECT), Slot(if_true), Scratch(0),
            ],
            SelectOp::U64Select_Rris { if_true, if_false } => vec![
                Code(MINI_COPY_SI), Scratch(0), Imm(if_true as i64),
                Code(MINI_SELECT), Scratch(0), Slot(if_false),
            ],
            SelectOp::U64Select_Rrii { if_true, if_false } => vec![
                Code(MINI_COPY_SI), Scratch(0), Imm(if_true as i64),
                Code(MINI_COPY_SI), Scratch(1), Imm(if_false as i64),
                Code(MINI_SELECT), Scratch(0), Scratch(1),
            ],
            SelectOp::U64Select_Rrrs { if_false } => vec![
                Code(MINI_COPY_SR), Scratch(0),
                Code(MINI_SELECT), Scratch(0), Slot(if_false),
            ],
            SelectOp::U32Select_Rrsi { if_true, if_false } => vec![
                Code(MINI_COPY_SI), Scratch(0), Imm(if_false as i64),
                Code(MINI_SELECT), Slot(if_true), Scratch(0),
            ],
            SelectOp::U32Select_Rris { if_true, if_false } => vec![
                Code(MINI_COPY_SI), Scratch(0), Imm(if_true as i64),
                Code(MINI_SELECT), Scratch(0), Slot(if_false),
            ],
            SelectOp::U32Select_Rrii { if_true, if_false } => vec![
                Code(MINI_COPY_SI), Scratch(0), Imm(if_true as i64),
                Code(MINI_COPY_SI), Scratch(1), Imm(if_false as i64),
                Code(MINI_SELECT), Scratch(0), Scratch(1),
            ],
            SelectOp::U32Select_Rsii { condition, if_true, if_false } => vec![
                Code(MINI_COPY_SI), Scratch(0), Imm(if_true as i64),
                Code(MINI_COPY_SI), Scratch(1), Imm(if_false as i64),
                Code(MINI_COPY_RS), Slot(condition),
                Code(MINI_SELECT), Scratch(0), Scratch(1),
            ],
        };
        assert(words@ =~= self.lowering());
        words
    }

    /// What the operation does.
    pub open spec fn action(self) -> Action {
        match self {
            SelectOp::U64Select_Rrss { if_true, if_false } => Action::Select {
                condition: Src::Ireg,
                if_true: Src::Slot(if_true),
                if_false: Src::Slot(if_false),
            },
            SelectOp::U64Select_Rrsi { if_true, if_false } => Action::Select {
                condition: Src::Ireg,
                if_true: Src::Slot(if_true),
                if_false: Src::Imm(if_false as i64),
            },
            SelectOp::U64Select_Rris { if_true, if_false } => Action::Select {
                condition: Src::Ireg,
                if_true: Src::Imm(if_true as i64),
                if_false: Src::Slot(if_false),
            },
            SelectOp::U64Select_Rrii { if_true, if_false } => Action::Select {
                condition: Src::Ireg,
                if_true: Src::Imm(if_true as i64),
                if_false: Src::Imm(if_false as i64),
            },
            SelectOp::U64Select_Rrrs { if_false } => Action::Select {
                condition: Src::Ireg,
                if_true: Src::Ireg,
                if_false: Src::Slot(if_false),
            },
            SelectOp::U32Select_Rrsi { if_true, if_false } => Action::Select {
                condition: Src::Ireg,
                if_true: Src::Slot(if_true),
                if_false: Src::Imm(if_false as i64),
            },
            SelectOp::U32Select_Rris { if_true, if_false } => Action::Select {
                condition: Src::Ireg,
                if_true: Src::Imm(if_true as i64),
                if_false: Src::Slot(if_false),
            },
            SelectOp::U32Select_Rrii { if_true, if_false } => Action::Select {
                condition: Src::Ireg,
                if_true: Src::Imm(if_true as i64),
                if_false: Src::Imm(if_false as i64),
            },
            SelectOp::U32Select_Rsii { condition, if_true, if_false } => Action::Select {
                condition: Src::Slot(condition),
                if_true: Src::Imm(if_true as i64),
                if_false: Src::Imm(if_false as i64),
            },
        }
    }
}

} // verus!
