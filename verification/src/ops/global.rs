//! Reads and writes of globals.

use crate::action::{Action, Reg, Src};
use crate::mini::{
    MINI_COPY_SI, MINI_COPY_SR, MINI_COPY_S_F32R, MINI_COPY_S_FR, MINI_GLOBAL_GET_F32,
    MINI_GLOBAL_GET_F64, MINI_GLOBAL_GET_R, MINI_GLOBAL_SET_S,
};
use crate::word::Word;
use crate::word::Word::{Code, Imm, Scratch, Slot};
use vstd::prelude::*;

verus! {

/// A read or write of a global.
#[allow(non_camel_case_types)]
#[derive(Clone, Copy, Debug, PartialEq, Eq, Structural)]
pub enum GlobalOp {
    /// `ireg = globals[global]`.
    GlobalGetU64_R { global: u32 },
    /// `freg64 = globals[global]`.
    GlobalGetF64_R { global: u32 },
    /// `freg32 = globals[global]`.
    GlobalGetF32_R { global: u32 },
    /// `globals[global] = slots[value]`.
    GlobalSetU64_S { global: u32, value: u16 },
    /// `globals[global] = ireg`.
    GlobalSetU64_R { global: u32 },
    /// `globals[global] = value`.
    GlobalSetU64_I { global: u32, value: u64 },
    /// `globals[global] = value`.
    GlobalSetU32_I { global: u32, value: u32 },
    /// `globals[global] = freg64`.
    GlobalSetF64_R { global: u32 },
    /// `globals[global] = freg32`.
    GlobalSetF32_R { global: u32 },
}

impl GlobalOp {
    /// The words of the operation.
    pub open spec fn lowering(self) -> Seq<Word> {
        match self {
            GlobalOp::GlobalGetU64_R { global } => seq![
                Code(MINI_GLOBAL_GET_R), Imm(global as i64),
            ],
            GlobalOp::GlobalGetF64_R { global } => seq![
                Code(MINI_GLOBAL_GET_F64), Imm(global as i64),
            ],
            GlobalOp::GlobalGetF32_R { global } => seq![
                Code(MINI_GLOBAL_GET_F32), Imm(global as i64),
            ],
            GlobalOp::GlobalSetU64_S { global, value } => seq![
                Code(MINI_GLOBAL_SET_S), Imm(global as i64), Slot(value),
            ],
            GlobalOp::GlobalSetU64_R { global } => seq![
                Code(MINI_COPY_SR), Scratch(0),
                Code(MINI_GLOBAL_SET_S), Imm(global as i64), Scratch(0),
            ],
            GlobalOp::GlobalSetU64_I { global, value } => seq![
                Code(MINI_COPY_SI), Scratch(0), Imm(value as i64),
                Code(MINI_GLOBAL_SET_S), Imm(global as i64), Scratch(0),
            ],
            GlobalOp::GlobalSetU32_I { global, value } => seq![
                Code(MINI_COPY_SI), Scratch(0), Imm(value as i64),
                Code(MINI_GLOBAL_SET_S), Imm(global as i64), Scratch(0),
            ],
            GlobalOp::GlobalSetF64_R { global } => seq![
                Code(MINI_COPY_S_FR), Scratch(0),
                Code(MINI_GLOBAL_SET_S), Imm(global as i64), Scratch(0),
            ],
            GlobalOp::GlobalSetF32_R { global } => seq![
                Code(MINI_COPY_S_F32R), Scratch(0),
                Code(MINI_GLOBAL_SET_S), Imm(global as i64), Scratch(0),
            ],
        }
    }

    /// Lowers the operation.
    pub fn lower(self) -> (words: Vec<Word>)
        ensures
            words@ == self.lowering(),
    {
        let words = match self {
            GlobalOp::GlobalGetU64_R { global } => vec![
                Code(MINI_GLOBAL_GET_R), Imm(global as i64),
            ],
            GlobalOp::GlobalGetF64_R { global } => vec![
                Code(MINI_GLOBAL_GET_F64), Imm(global as i64),
            ],
            GlobalOp::GlobalGetF32_R { global } => vec![
                Code(MINI_GLOBAL_GET_F32), Imm(global as i64),
            ],
            GlobalOp::GlobalSetU64_S { global, value } => vec![
                Code(MINI_GLOBAL_SET_S), Imm(global as i64), Slot(value),
            ],
            GlobalOp::GlobalSetU64_R { global } => vec![
                Code(MINI_COPY_SR), Scratch(0),
                Code(MINI_GLOBAL_SET_S), Imm(global as i64), Scratch(0),
            ],
            GlobalOp::GlobalSetU64_I { global, value } => vec![
                Code(MINI_COPY_SI), Scratch(0), Imm(value as i64),
                Code(MINI_GLOBAL_SET_S), Imm(global as i64), Scratch(0),
            ],
            GlobalOp::GlobalSetU32_I { global, value } => vec![
                Code(MINI_COPY_SI), Scratch(0), Imm(value as i64),
                Code(MINI_GLOBAL_SET_S), Imm(global as i64), Scratch(0),
            ],
            GlobalOp::GlobalSetF64_R { global } => vec![
                Code(MINI_COPY_S_FR), Scratch(0),
                Code(MINI_GLOBAL_SET_S), Imm(global as i64), Scratch(0),
            ],
            GlobalOp::GlobalSetF32_R { global } => vec![
                Code(MINI_COPY_S_F32R), Scratch(0),
                Code(MINI_GLOBAL_SET_S), Imm(global as i64), Scratch(0),
            ],
        };
        assert(words@ =~= self.lowering());
        words
    }

    /// What the operation does.
    pub open spec fn action(self) -> Action {
        match self {
            GlobalOp::GlobalGetU64_R { global } => Action::GlobalGet {
                reg: Reg::Ireg,
                index: global as i64,
            },
            GlobalOp::GlobalGetF64_R { global } => Action::GlobalGet {
                reg: Reg::Freg64,
                index: global as i64,
            },
            GlobalOp::GlobalGetF32_R { global } => Action::GlobalGet {
                reg: Reg::Freg32,
                index: global as i64,
            },
            GlobalOp::GlobalSetU64_S { global, value } => Action::GlobalSet {
                index: global as i64,
                value: Src::Slot(value),
            },
            GlobalOp::GlobalSetU64_R { global } => Action::GlobalSet {
                index: global as i64,
                value: Src::Ireg,
            },
            GlobalOp::GlobalSetU64_I { global, value } => Action::GlobalSet {
                index: global as i64,
                value: Src::Imm(value as i64),
            },
            GlobalOp::GlobalSetU32_I { global, value } => Action::GlobalSet {
                index: global as i64,
                value: Src::Imm(value as i64),
            },
            GlobalOp::GlobalSetF64_R { global } => Action::GlobalSet {
                index: global as i64,
                value: Src::Freg64,
            },
            GlobalOp::GlobalSetF32_R { global } => Action::GlobalSet {
                index: global as i64,
                value: Src::Freg32,
            },
        }
    }
}

} // verus!
