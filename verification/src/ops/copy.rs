//! Copies between slots and accumulators.
//!
//! A slot that the opcode itself names (`U64Copy_S0r` and its like) is an operand here
//! as well.

use crate::action::{Action, Reg, Src};
use crate::mini::{
    MINI_COPY_RI, MINI_COPY_RS, MINI_COPY_SI, MINI_COPY_SR, MINI_COPY_SS, MINI_COPY_S_F32R,
    MINI_COPY_S_FR,
};
use crate::word::Word;
use crate::word::Word::{Code, Imm, Slot};
use vstd::prelude::*;

verus! {

/// A copy.
#[allow(non_camel_case_types)]
#[derive(Clone, Copy, Debug, PartialEq, Eq, Structural)]
pub enum CopyOp {
    /// `slots[result] = value`.
    U64Copy_Si { result: u16, value: u64 },
    /// `slots[result] = slots[value]`.
    U64Copy_Ss { result: u16, value: u16 },
    /// `slots[result] = slots[value]`, with both slots given by the opcode.
    U64Copy_SNsM { result: u16, value: u16 },
    /// `slots[result] = ireg`.
    U64Copy_Sr { result: u16 },
    /// `ireg = slots[value]`.
    U64Copy_Rs { value: u16 },
    /// `ireg = value`.
    U64Copy_Ri { value: u64 },
    /// `slots[result] = value as i32`.
    U32Copy_Si { result: u16, value: u32 },
    /// `ireg = value as i32`.
    U32Copy_Ri { value: u32 },
    /// `slots[result] = freg64`.
    F64Copy_Sr { result: u16 },
    /// `slots[result] = freg32`.
    F32Copy_Sr { result: u16 },
}

impl CopyOp {
    /// The words of the operation.
    pub open spec fn lowering(self) -> Seq<Word> {
        match self {
            CopyOp::U64Copy_Si { result, value } => seq![
                Code(MINI_COPY_SI), Slot(result), Imm(value as i64),
            ],
            CopyOp::U64Copy_Ss { result, value } => seq![
                Code(MINI_COPY_SS), Slot(result), Slot(value),
            ],
            CopyOp::U64Copy_SNsM { result, value } => seq![
                Code(MINI_COPY_SS), Slot(result), Slot(value),
            ],
            CopyOp::U64Copy_Sr { result } => seq![Code(MINI_COPY_SR), Slot(result)],
            CopyOp::U64Copy_Rs { value } => seq![Code(MINI_COPY_RS), Slot(value)],
            CopyOp::U64Copy_Ri { value } => seq![Code(MINI_COPY_RI), Imm(value as i64)],
            CopyOp::U32Copy_Si { result, value } => seq![
                Code(MINI_COPY_SI), Slot(result), Imm((value as i32) as i64),
            ],
            CopyOp::U32Copy_Ri { value } => seq![Code(MINI_COPY_RI), Imm((value as i32) as i64)],
            CopyOp::F64Copy_Sr { result } => seq![Code(MINI_COPY_S_FR), Slot(result)],
            CopyOp::F32Copy_Sr { result } => seq![Code(MINI_COPY_S_F32R), Slot(result)],
        }
    }

    /// Lowers the operation.
    pub fn lower(self) -> (words: Vec<Word>)
        ensures
            words@ == self.lowering(),
    {
        let words = match self {
            CopyOp::U64Copy_Si { result, value } => vec![
                Code(MINI_COPY_SI), Slot(result), Imm(value as i64),
            ],
            CopyOp::U64Copy_Ss { result, value } => vec![
                Code(MINI_COPY_SS), Slot(result), Slot(value),
            ],
            CopyOp::U64Copy_SNsM { result, value } => vec![
                Code(MINI_COPY_SS), Slot(result), Slot(value),
            ],
            CopyOp::U64Copy_Sr { result } => vec![Code(MINI_COPY_SR), Slot(result)],
            CopyOp::U64Copy_Rs { value } => vec![Code(MINI_COPY_RS), Slot(value)],
            CopyOp::U64Copy_Ri { value } => vec![Code(MINI_COPY_RI), Imm(value as i64)],
            CopyOp::U32Copy_Si { result, value } => vec![
                Code(MINI_COPY_SI), Slot(result), Imm((value as i32) as i64),
            ],
            CopyOp::U32Copy_Ri { value } => vec![Code(MINI_COPY_RI), Imm((value as i32) as i64)],
            CopyOp::F64Copy_Sr { result } => vec![Code(MINI_COPY_S_FR), Slot(result)],
            CopyOp::F32Copy_Sr { result } => vec![Code(MINI_COPY_S_F32R), Slot(result)],
        };
        assert(words@ =~= self.lowering());
        words
    }

    /// What the operation does.
    pub open spec fn action(self) -> Action {
        match self {
            CopyOp::U64Copy_Si { result, value } => Action::SetSlot {
                result,
                value: Src::Imm(value as i64),
            },
            CopyOp::U64Copy_Ss { result, value } => Action::SetSlot {
                result,
                value: Src::Slot(value),
            },
            CopyOp::U64Copy_SNsM { result, value } => Action::SetSlot {
                result,
                value: Src::Slot(value),
            },
            CopyOp::U64Copy_Sr { result } => Action::SetSlot { result, value: Src::Ireg },
            CopyOp::U64Copy_Rs { value } => Action::SetReg {
                reg: Reg::Ireg,
                value: Src::Slot(value),
            },
            CopyOp::U64Copy_Ri { value } => Action::SetReg {
                reg: Reg::Ireg,
                value: Src::Imm(value as i64),
            },
            CopyOp::U32Copy_Si { result, value } => Action::SetSlot {
                result,
                value: Src::Imm((value as i32) as i64),
            },
            CopyOp::U32Copy_Ri { value } => Action::SetReg {
                reg: Reg::Ireg,
                value: Src::Imm((value as i32) as i64),
            },
            CopyOp::F64Copy_Sr { result } => Action::SetSlot { result, value: Src::Freg64 },
            CopyOp::F32Copy_Sr { result } => Action::SetSlot { result, value: Src::Freg32 },
        }
    }
}

} // verus!
