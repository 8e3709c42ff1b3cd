//! How the words of an operation depend on its operands.
//!
//! Operations that differ only in the slots that they name, or in their numbers, have the same
//! words, but for these slots and numbers, each in its place.

use crate::action::FloatWidth;
use crate::ops::bits::BitsOp;
use crate::ops::branch::BranchOp;
use crate::ops::compare::CompareOp;
use crate::ops::control::ControlOp;
use crate::ops::convert::ConvertOp;
use crate::ops::copy::CopyOp;
use crate::ops::divide::{DivideForm, DivideOp};
use crate::ops::float::{F64NotLe_Rss, FloatOp};
use crate::ops::global::GlobalOp;
use crate::ops::integer::IntOp;
use crate::ops::memory::{MemoryOp, StoreImm};
use crate::ops::select::SelectOp;
use crate::ops::Op;
use crate::word::Word;
use vstd::prelude::*;

verus! {

/// The word with its slot renamed, and its number 0.
pub open spec fn blank(w: Word, f: spec_fn(u16) -> u16) -> Word {
    match w {
        Word::Slot(s) => Word::Slot(f(s)),
        Word::Span(head, _) => Word::Span(f(head), 0),
        Word::Imm(_) => Word::Imm(0),
        Word::Target(_) => Word::Target(0),
        _ => w,
    }
}

/// Whether the words `b` are the words `a` with the slots renamed, up to numbers.
pub open spec fn like(a: Seq<Word>, b: Seq<Word>, f: spec_fn(u16) -> u16) -> bool {
    &&& a.len() == b.len()
    &&& forall|k: int|
        0 <= k < a.len() ==> blank(#[trigger] b[k], |s: u16| s) == blank(#[trigger] a[k], f)
}

impl StoreImm {
    /// 0, in the same width.
    pub open spec fn outline(self) -> StoreImm {
        match self {
            StoreImm::U64(_) => StoreImm::U64(0),
            StoreImm::U32(_) => StoreImm::U32(0),
            StoreImm::I8(_) => StoreImm::I8(0),
            StoreImm::I16(_) => StoreImm::I16(0),
        }
    }
}

impl CopyOp {
    /// The operation with its slots renamed, and all numbers 0.
    pub open spec fn outline(self, f: spec_fn(u16) -> u16) -> CopyOp {
        match self {
            CopyOp::U64Copy_Si { result, .. } => CopyOp::U64Copy_Si { result: f(result), value: 0 },
            CopyOp::U64Copy_Ss { result, value } => {
                CopyOp::U64Copy_Ss { result: f(result), value: f(value) }
            },
            CopyOp::U64Copy_SNsM { result, value } => {
                CopyOp::U64Copy_SNsM { result: f(result), value: f(value) }
            },
            CopyOp::U64Copy_Sr { result } => CopyOp::U64Copy_Sr { result: f(result) },
            CopyOp::U64Copy_Rs { value } => CopyOp::U64Copy_Rs { value: f(value) },
            CopyOp::U64Copy_Ri { .. } => CopyOp::U64Copy_Ri { value: 0 },
            CopyOp::U32Copy_Si { result, .. } => CopyOp::U32Copy_Si { result: f(result), value: 0 },
            CopyOp::U32Copy_Ri { .. } => CopyOp::U32Copy_Ri { value: 0 },
            CopyOp::F64Copy_Sr { result } => CopyOp::F64Copy_Sr { result: f(result) },
            CopyOp::F32Copy_Sr { result } => CopyOp::F32Copy_Sr { result: f(result) },
        }
    }
}

impl IntOp {
    /// The operation with its slots renamed, and all numbers 0.
    pub open spec fn outline(self, f: spec_fn(u16) -> u16) -> IntOp {
        match self {
            IntOp::I32Add_Rs_si { result, lhs, .. } => {
                IntOp::I32Add_Rs_si { result: f(result), lhs: f(lhs), rhs: 0 }
            },
            IntOp::I32Add_Rs_rs { result, rhs } => {
                IntOp::I32Add_Rs_rs { result: f(result), rhs: f(rhs) }
            },
            IntOp::I32Add_Rs_ri { result, .. } => IntOp::I32Add_Rs_ri { result: f(result), rhs: 0 },
            IntOp::I32Add_Rs_ss { result, lhs, rhs } => {
                IntOp::I32Add_Rs_ss { result: f(result), lhs: f(lhs), rhs: f(rhs) }
            },
            IntOp::I32Add_Rss { lhs, rhs } => IntOp::I32Add_Rss { lhs: f(lhs), rhs: f(rhs) },
            IntOp::I32Add_Rrs { rhs } => IntOp::I32Add_Rrs { rhs: f(rhs) },
            IntOp::I32Add_Rsi { lhs, .. } => IntOp::I32Add_Rsi { lhs: f(lhs), rhs: 0 },
            IntOp::I32Add_Rri { .. } => IntOp::I32Add_Rri { rhs: 0 },
            IntOp::I32Sub_Rss { lhs, rhs } => IntOp::I32Sub_Rss { lhs: f(lhs), rhs: f(rhs) },
            IntOp::I32Sub_Rrs { rhs } => IntOp::I32Sub_Rrs { rhs: f(rhs) },
            IntOp::I32Sub_Rsr { lhs } => IntOp::I32Sub_Rsr { lhs: f(lhs) },
            IntOp::I32Sub_Ris { rhs, .. } => IntOp::I32Sub_Ris { lhs: 0, rhs: f(rhs) },
            IntOp::I32Sub_Rir { .. } => IntOp::I32Sub_Rir { lhs: 0 },
            IntOp::I32Mul_Rss { lhs, rhs } => IntOp::I32Mul_Rss { lhs: f(lhs), rhs: f(rhs) },
            IntOp::I32Mul_Rrs { rhs } => IntOp::I32Mul_Rrs { rhs: f(rhs) },
            IntOp::I32Mul_Rsi { lhs, .. } => IntOp::I32Mul_Rsi { lhs: f(lhs), rhs: 0 },
            IntOp::I32Mul_Rri { .. } => IntOp::I32Mul_Rri { rhs: 0 },
            IntOp::I32BitAnd_Rrs { rhs } => IntOp::I32BitAnd_Rrs { rhs: f(rhs) },
            IntOp::I32BitAnd_Rsi { lhs, .. } => IntOp::I32BitAnd_Rsi { lhs: f(lhs), rhs: 0 },
            IntOp::I32BitAnd_Rri { .. } => IntOp::I32BitAnd_Rri { rhs: 0 },
            IntOp::I32BitOr_Rrs { rhs } => IntOp::I32BitOr_Rrs { rhs: f(rhs) },
            IntOp::I32BitOr_Rri { .. } => IntOp::I32BitOr_Rri { rhs: 0 },
            IntOp::I32BitXor_Rss { lhs, rhs } => IntOp::I32BitXor_Rss { lhs: f(lhs), rhs: f(rhs) },
            IntOp::I32BitXor_Rrs { rhs } => IntOp::I32BitXor_Rrs { rhs: f(rhs) },
            IntOp::I32BitXor_Rri { .. } => IntOp::I32BitXor_Rri { rhs: 0 },
            IntOp::I64Add_Rs_si { result, lhs, .. } => {
                IntOp::I64Add_Rs_si { result: f(result), lhs: f(lhs), rhs: 0 }
            },
            IntOp::I64Add_Rs_rs { result, rhs } => {
                IntOp::I64Add_Rs_rs { result: f(result), rhs: f(rhs) }
            },
            IntOp::I64Add_Rs_ri { result, .. } => IntOp::I64Add_Rs_ri { result: f(result), rhs: 0 },
            IntOp::I64Add_Rs_ss { result, lhs, rhs } => {
                IntOp::I64Add_Rs_ss { result: f(result), lhs: f(lhs), rhs: f(rhs) }
            },
            IntOp::I64Add_Rss { lhs, rhs } => IntOp::I64Add_Rss { lhs: f(lhs), rhs: f(rhs) },
            IntOp::I64Add_Rrs { rhs } => IntOp::I64Add_Rrs { rhs: f(rhs) },
            IntOp::I64Add_Rsi { lhs, .. } => IntOp::I64Add_Rsi { lhs: f(lhs), rhs: 0 },
            IntOp::I64Add_Rri { .. } => IntOp::I64Add_Rri { rhs: 0 },
            IntOp::I64Sub_Rss { lhs, rhs } => IntOp::I64Sub_Rss { lhs: f(lhs), rhs: f(rhs) },
            IntOp::I64Sub_Rrs { rhs } => IntOp::I64Sub_Rrs { rhs: f(rhs) },
            IntOp::I64Sub_Rsr { lhs } => IntOp::I64Sub_Rsr { lhs: f(lhs) },
            IntOp::I64Sub_Ris { rhs, .. } => IntOp::I64Sub_Ris { lhs: 0, rhs: f(rhs) },
            IntOp::I64Sub_Rir { .. } => IntOp::I64Sub_Rir { lhs: 0 },
            IntOp::I64Mul_Rss { lhs, rhs } => IntOp::I64Mul_Rss { lhs: f(lhs), rhs: f(rhs) },
            IntOp::I64Mul_Rrs { rhs } => IntOp::I64Mul_Rrs { rhs: f(rhs) },
            IntOp::I64Mul_Rsi { lhs, .. } => IntOp::I64Mul_Rsi { lhs: f(lhs), rhs: 0 },
            IntOp::I64Mul_Rri { .. } => IntOp::I64Mul_Rri { rhs: 0 },
            IntOp::I64BitAnd_Rsi { lhs, .. } => IntOp::I64BitAnd_Rsi { lhs: f(lhs), rhs: 0 },
            IntOp::I64BitAnd_Rri { .. } => IntOp::I64BitAnd_Rri { rhs: 0 },
            IntOp::I64BitOr_Rss { lhs, rhs } => IntOp::I64BitOr_Rss { lhs: f(lhs), rhs: f(rhs) },
            IntOp::I64BitOr_Rrs { rhs } => IntOp::I64BitOr_Rrs { rhs: f(rhs) },
            IntOp::I64BitOr_Rsi { lhs, .. } => IntOp::I64BitOr_Rsi { lhs: f(lhs), rhs: 0 },
            IntOp::I64BitOr_Rri { .. } => IntOp::I64BitOr_Rri { rhs: 0 },
            IntOp::I64BitXor_Rss { lhs, rhs } => IntOp::I64BitXor_Rss { lhs: f(lhs), rhs: f(rhs) },
            IntOp::I64BitXor_Rrs { rhs } => IntOp::I64BitXor_Rrs { rhs: f(rhs) },
            IntOp::I64BitXor_Rri { .. } => IntOp::I64BitXor_Rri { rhs: 0 },
        }
    }
}

impl BitsOp {
    /// The operation with its slots renamed, and all numbers 0, but 1 for a rotation by other than
    /// a multiple of the width.
    pub open spec fn outline(self, f: spec_fn(u16) -> u16) -> BitsOp {
        match self {
            BitsOp::I64Shl_Rsi { lhs, .. } => BitsOp::I64Shl_Rsi { lhs: f(lhs), rhs: 0 },
            BitsOp::I32Shl_Rsi { lhs, .. } => BitsOp::I32Shl_Rsi { lhs: f(lhs), rhs: 0 },
            BitsOp::I32Shl_Rri { .. } => BitsOp::I32Shl_Rri { rhs: 0 },
            BitsOp::I32Rotl_Rsi { lhs, rhs } => BitsOp::I32Rotl_Rsi {
                lhs: f(lhs),
                rhs: if rhs % 32 == 0 {
                    0
                } else {
                    1
                },
            },
            BitsOp::I32Rotr_Rsi { lhs, rhs } => BitsOp::I32Rotr_Rsi {
                lhs: f(lhs),
                rhs: if rhs % 32 == 0 {
                    0
                } else {
                    1
                },
            },
            BitsOp::U32Shr_Rri { .. } => BitsOp::U32Shr_Rri { rhs: 0 },
            BitsOp::U64Shr_Rsi { lhs, .. } => BitsOp::U64Shr_Rsi { lhs: f(lhs), rhs: 0 },
            BitsOp::U64Shr_Rir { .. } => BitsOp::U64Shr_Rir { lhs: 0 },
            BitsOp::I64Shr_Rsi { lhs, .. } => BitsOp::I64Shr_Rsi { lhs: f(lhs), rhs: 0 },
            BitsOp::I64Sext32_Rs { value } => BitsOp::I64Sext32_Rs { value: f(value) },
            BitsOp::I32WrapI64_Rs { value } => BitsOp::I32WrapI64_Rs { value: f(value) },
            BitsOp::Count_Rs { width, count, value } => {
                BitsOp::Count_Rs { width, count, value: f(value) }
            },
            _ => self,
        }
    }
}

impl CompareOp {
    /// The operation with its slots renamed, and all numbers 0.
    pub open spec fn outline(self, f: spec_fn(u16) -> u16) -> CompareOp {
        match self {
            CompareOp::I32Eq_Rss { lhs, rhs } => CompareOp::I32Eq_Rss { lhs: f(lhs), rhs: f(rhs) },
            CompareOp::I32Eq_Rrs { rhs } => CompareOp::I32Eq_Rrs { rhs: f(rhs) },
            CompareOp::I32Eq_Rsi { lhs, .. } => CompareOp::I32Eq_Rsi { lhs: f(lhs), rhs: 0 },
            CompareOp::I32Eq_Rri { .. } => CompareOp::I32Eq_Rri { rhs: 0 },
            CompareOp::I32NotEq_Rrs { rhs } => CompareOp::I32NotEq_Rrs { rhs: f(rhs) },
            CompareOp::I32NotEq_Rsi { lhs, .. } => CompareOp::I32NotEq_Rsi { lhs: f(lhs), rhs: 0 },
            CompareOp::I32Lt_Rrs { rhs } => CompareOp::I32Lt_Rrs { rhs: f(rhs) },
            CompareOp::I32Lt_Rsr { lhs } => CompareOp::I32Lt_Rsr { lhs: f(lhs) },
            CompareOp::I32Lt_Rsi { lhs, .. } => CompareOp::I32Lt_Rsi { lhs: f(lhs), rhs: 0 },
            CompareOp::I32Lt_Ris { rhs, .. } => CompareOp::I32Lt_Ris { lhs: 0, rhs: f(rhs) },
            CompareOp::I32Le_Rrs { rhs } => CompareOp::I32Le_Rrs { rhs: f(rhs) },
            CompareOp::I32Le_Rsi { lhs, .. } => CompareOp::I32Le_Rsi { lhs: f(lhs), rhs: 0 },
            CompareOp::I32Le_Ris { rhs, .. } => CompareOp::I32Le_Ris { lhs: 0, rhs: f(rhs) },
            CompareOp::U32Lt_Rrs { rhs } => CompareOp::U32Lt_Rrs { rhs: f(rhs) },
            CompareOp::U32Lt_Rsi { lhs, .. } => CompareOp::U32Lt_Rsi { lhs: f(lhs), rhs: 0 },
            CompareOp::U32Lt_Ris { rhs, .. } => CompareOp::U32Lt_Ris { lhs: 0, rhs: f(rhs) },
            CompareOp::U32Le_Rrs { rhs } => CompareOp::U32Le_Rrs { rhs: f(rhs) },
            CompareOp::U32Le_Rsi { lhs, .. } => CompareOp::U32Le_Rsi { lhs: f(lhs), rhs: 0 },
            CompareOp::U32Le_Ris { rhs, .. } => CompareOp::U32Le_Ris { lhs: 0, rhs: f(rhs) },
            CompareOp::I64Eq_Rrs { rhs } => CompareOp::I64Eq_Rrs { rhs: f(rhs) },
            CompareOp::I64Eq_Rsi { lhs, .. } => CompareOp::I64Eq_Rsi { lhs: f(lhs), rhs: 0 },
            CompareOp::I64Eq_Rri { .. } => CompareOp::I64Eq_Rri { rhs: 0 },
            CompareOp::I64NotEq_Rrs { rhs } => CompareOp::I64NotEq_Rrs { rhs: f(rhs) },
            CompareOp::I64NotEq_Rsi { lhs, .. } => CompareOp::I64NotEq_Rsi { lhs: f(lhs), rhs: 0 },
            CompareOp::I64Lt_Rss { lhs, rhs } => CompareOp::I64Lt_Rss { lhs: f(lhs), rhs: f(rhs) },
            CompareOp::I64Lt_Rrs { rhs } => CompareOp::I64Lt_Rrs { rhs: f(rhs) },
            CompareOp::I64Lt_Rsr { lhs } => CompareOp::I64Lt_Rsr { lhs: f(lhs) },
            CompareOp::I64Lt_Rsi { lhs, .. } => CompareOp::I64Lt_Rsi { lhs: f(lhs), rhs: 0 },
            CompareOp::I64Lt_Rri { .. } => CompareOp::I64Lt_Rri { rhs: 0 },
            CompareOp::I64Lt_Ris { rhs, .. } => CompareOp::I64Lt_Ris { lhs: 0, rhs: f(rhs) },
            CompareOp::I64Le_Rsi { lhs, .. } => CompareOp::I64Le_Rsi { lhs: f(lhs), rhs: 0 },
            CompareOp::I64Le_Ris { rhs, .. } => CompareOp::I64Le_Ris { lhs: 0, rhs: f(rhs) },
            CompareOp::U64Lt_Rsi { lhs, .. } => CompareOp::U64Lt_Rsi { lhs: f(lhs), rhs: 0 },
            CompareOp::U64Lt_Ris { rhs, .. } => CompareOp::U64Lt_Ris { lhs: 0, rhs: f(rhs) },
            CompareOp::U64Le_Rsi { lhs, .. } => CompareOp::U64Le_Rsi { lhs: f(lhs), rhs: 0 },
            CompareOp::U64Le_Ris { rhs, .. } => CompareOp::U64Le_Ris { lhs: 0, rhs: f(rhs) },
        }
    }
}

impl SelectOp {
    /// The operation with its slots renamed, and all numbers 0.
    pub open spec fn outline(self, f: spec_fn(u16) -> u16) -> SelectOp {
        match self {
            SelectOp::U64Select_Rrss { if_true, if_false } => {
                SelectOp::U64Select_Rrss { if_true: f(if_true), if_false: f(if_false) }
            },
            SelectOp::U64Select_Rrsi { if_true, .. } => {
                SelectOp::U64Select_Rrsi { if_true: f(if_true), if_false: 0 }
            },
            SelectOp::U64Select_Rris { if_false, .. } => {
                SelectOp::U64Select_Rris { if_true: 0, if_false: f(if_false) }
            },
            SelectOp::U64Select_Rrii { .. } => SelectOp::U64Select_Rrii { if_true: 0, if_false: 0 },
            SelectOp::U64Select_Rrrs { if_false } => {
                SelectOp::U64Select_Rrrs { if_false: f(if_false) }
            },
            SelectOp::U32Select_Rrsi { if_true, .. } => {
                SelectOp::U32Select_Rrsi { if_true: f(if_true), if_false: 0 }
            },
            SelectOp::U32Select_Rris { if_false, .. } => {
                SelectOp::U32Select_Rris { if_true: 0, if_false: f(if_false) }
            },
            SelectOp::U32Select_Rrii { .. } => SelectOp::U32Select_Rrii { if_true: 0, if_false: 0 },
            SelectOp::U32Select_Rsii { condition, .. } => {
                SelectOp::U32Select_Rsii { condition: f(condition), if_true: 0, if_false: 0 }
            },
        }
    }
}

impl FloatOp {
    /// The operation with its slots renamed, and all numbers 0.
    pub open spec fn outline(self, f: spec_fn(u16) -> u16) -> FloatOp {
        match self {
            FloatOp::Add_Rrs { rhs } => FloatOp::Add_Rrs { rhs: f(rhs) },
            FloatOp::Add_Rsr { lhs } => FloatOp::Add_Rsr { lhs: f(lhs) },
            FloatOp::Add_Rri { .. } => FloatOp::Add_Rri { bits: 0 },
            FloatOp::Sub_Rrs { rhs } => FloatOp::Sub_Rrs { rhs: f(rhs) },
            FloatOp::Sub_Rri { .. } => FloatOp::Sub_Rri { bits: 0 },
            FloatOp::Mul_Rrs { rhs } => FloatOp::Mul_Rrs { rhs: f(rhs) },
            FloatOp::Mul_Rri { .. } => FloatOp::Mul_Rri { bits: 0 },
            FloatOp::Div_Rrs { rhs } => FloatOp::Div_Rrs { rhs: f(rhs) },
            FloatOp::Div_Rri { .. } => FloatOp::Div_Rri { bits: 0 },
            FloatOp::Min_Rrs { rhs } => FloatOp::Min_Rrs { rhs: f(rhs) },
            FloatOp::Min_Rsr { lhs } => FloatOp::Min_Rsr { lhs: f(lhs) },
            FloatOp::Min_Rri { .. } => FloatOp::Min_Rri { bits: 0 },
            FloatOp::Max_Rrs { rhs } => FloatOp::Max_Rrs { rhs: f(rhs) },
            FloatOp::Max_Rsr { lhs } => FloatOp::Max_Rsr { lhs: f(lhs) },
            FloatOp::Max_Rri { .. } => FloatOp::Max_Rri { bits: 0 },
            FloatOp::Copysign_Rrs { rhs } => FloatOp::Copysign_Rrs { rhs: f(rhs) },
            FloatOp::Copysign_Rsr { lhs } => FloatOp::Copysign_Rsr { lhs: f(lhs) },
            FloatOp::Lt_Rrs { rhs } => FloatOp::Lt_Rrs { rhs: f(rhs) },
            FloatOp::Lt_Rsr { lhs } => FloatOp::Lt_Rsr { lhs: f(lhs) },
            FloatOp::Le_Rrs { rhs } => FloatOp::Le_Rrs { rhs: f(rhs) },
            FloatOp::Le_Rsr { lhs } => FloatOp::Le_Rsr { lhs: f(lhs) },
            FloatOp::Eq_Rrs { rhs } => FloatOp::Eq_Rrs { rhs: f(rhs) },
            FloatOp::NotEq_Rrs { rhs } => FloatOp::NotEq_Rrs { rhs: f(rhs) },
            FloatOp::Unary_Rs { op, value } => FloatOp::Unary_Rs { op, value: f(value) },
            _ => self,
        }
    }
}

impl ConvertOp {
    /// The operation with its slots renamed, and all numbers 0.
    pub open spec fn outline(self, f: spec_fn(u16) -> u16) -> ConvertOp {
        match self {
            ConvertOp::Convert_Rs { to, from, value } => {
                ConvertOp::Convert_Rs { to, from, value: f(value) }
            },
            ConvertOp::Trunc_Rs { from, to, value } => {
                ConvertOp::Trunc_Rs { from, to, value: f(value) }
            },
            ConvertOp::TruncSat_Rs { from, to, value } => {
                ConvertOp::TruncSat_Rs { from, to, value: f(value) }
            },
            ConvertOp::F64PromoteF32_Rs { value } => {
                ConvertOp::F64PromoteF32_Rs { value: f(value) }
            },
            ConvertOp::F32DemoteF64_Rs { value } => ConvertOp::F32DemoteF64_Rs { value: f(value) },
            _ => self,
        }
    }
}

impl MemoryOp {
    /// The operation with its slots renamed, and all numbers 0.
    pub open spec fn outline(self, f: spec_fn(u16) -> u16) -> MemoryOp {
        match self {
            MemoryOp::LoadMem0Offset16_Rr { load, .. } => {
                MemoryOp::LoadMem0Offset16_Rr { load, offset: 0 }
            },
            MemoryOp::LoadMem0Offset16_Rs { load, ptr, .. } => {
                MemoryOp::LoadMem0Offset16_Rs { load, ptr: f(ptr), offset: 0 }
            },
            MemoryOp::U64LoadExtend32Mem0Offset16_Rs { ptr, .. } => {
                MemoryOp::U64LoadExtend32Mem0Offset16_Rs { ptr: f(ptr), offset: 0 }
            },
            MemoryOp::U32Load_Ri { .. } => MemoryOp::U32Load_Ri { memory: 0, address: 0 },
            MemoryOp::U64Load_Ri { .. } => MemoryOp::U64Load_Ri { memory: 0, address: 0 },
            MemoryOp::U32LoadExtend8_Ri { .. } => {
                MemoryOp::U32LoadExtend8_Ri { memory: 0, address: 0 }
            },
            MemoryOp::U32LoadExtend16_Ri { .. } => {
                MemoryOp::U32LoadExtend16_Ri { memory: 0, address: 0 }
            },
            MemoryOp::U64LoadExtend32_Ri { .. } => {
                MemoryOp::U64LoadExtend32_Ri { memory: 0, address: 0 }
            },
            MemoryOp::U64LoadExtend8_Rs { ptr, .. } => {
                MemoryOp::U64LoadExtend8_Rs { memory: 0, ptr: f(ptr), offset: 0 }
            },
            MemoryOp::StoreMem0Offset16_Sr { store, ptr, .. } => {
                MemoryOp::StoreMem0Offset16_Sr { store, ptr: f(ptr), offset: 0 }
            },
            MemoryOp::StoreMem0Offset16_Rs { store, value, .. } => {
                MemoryOp::StoreMem0Offset16_Rs { store, offset: 0, value: f(value) }
            },
            MemoryOp::StoreMem0Offset16_Ss { store, ptr, value, .. } => {
                MemoryOp::StoreMem0Offset16_Ss { store, ptr: f(ptr), offset: 0, value: f(value) }
            },
            MemoryOp::StoreMem0Offset16_Si { ptr, value, .. } => {
                MemoryOp::StoreMem0Offset16_Si { ptr: f(ptr), offset: 0, value: value.outline() }
            },
            MemoryOp::StoreMem0Offset16_Ri { value, .. } => {
                MemoryOp::StoreMem0Offset16_Ri { offset: 0, value: value.outline() }
            },
            MemoryOp::I64StoreWrap32Mem0Offset16_Rs { value, .. } => {
                MemoryOp::I64StoreWrap32Mem0Offset16_Rs { offset: 0, value: f(value) }
            },
            MemoryOp::F64StoreMem0Offset16_Sr { ptr, .. } => {
                MemoryOp::F64StoreMem0Offset16_Sr { ptr: f(ptr), offset: 0 }
            },
            MemoryOp::F64StoreMem0Offset16_Rr { .. } => {
                MemoryOp::F64StoreMem0Offset16_Rr { offset: 0 }
            },
            MemoryOp::F32StoreMem0Offset16_Sr { ptr, .. } => {
                MemoryOp::F32StoreMem0Offset16_Sr { ptr: f(ptr), offset: 0 }
            },
            MemoryOp::F32StoreMem0Offset16_Rr { .. } => {
                MemoryOp::F32StoreMem0Offset16_Rr { offset: 0 }
            },
            MemoryOp::U64Store_Is { value, .. } => {
                MemoryOp::U64Store_Is { memory: 0, address: 0, value: f(value) }
            },
            MemoryOp::U32Store_Is { value, .. } => {
                MemoryOp::U32Store_Is { memory: 0, address: 0, value: f(value) }
            },
            MemoryOp::U32Store_Ir { .. } => MemoryOp::U32Store_Ir { memory: 0, address: 0 },
            MemoryOp::U32Store_Ii { .. } => {
                MemoryOp::U32Store_Ii { memory: 0, address: 0, value: 0 }
            },
            MemoryOp::MemorySize { .. } => MemoryOp::MemorySize { memory: 0 },
            MemoryOp::MemoryCopy { dst, src, len, .. } => MemoryOp::MemoryCopy {
                dst_memory: 0,
                src_memory: 0,
                dst: f(dst),
                src: f(src),
                len: f(len),
            },
            _ => self,
        }
    }
}

impl GlobalOp {
    /// The operation with its slots renamed, and all numbers 0.
    pub open spec fn outline(self, f: spec_fn(u16) -> u16) -> GlobalOp {
        match self {
            GlobalOp::GlobalGetU64_R { .. } => GlobalOp::GlobalGetU64_R { global: 0 },
            GlobalOp::GlobalGetF64_R { .. } => GlobalOp::GlobalGetF64_R { global: 0 },
            GlobalOp::GlobalGetF32_R { .. } => GlobalOp::GlobalGetF32_R { global: 0 },
            GlobalOp::GlobalSetU64_S { value, .. } => {
                GlobalOp::GlobalSetU64_S { global: 0, value: f(value) }
            },
            GlobalOp::GlobalSetU64_R { .. } => GlobalOp::GlobalSetU64_R { global: 0 },
            GlobalOp::GlobalSetU64_I { .. } => GlobalOp::GlobalSetU64_I { global: 0, value: 0 },
            GlobalOp::GlobalSetU32_I { .. } => GlobalOp::GlobalSetU32_I { global: 0, value: 0 },
            GlobalOp::GlobalSetF64_R { .. } => GlobalOp::GlobalSetF64_R { global: 0 },
            GlobalOp::GlobalSetF32_R { .. } => GlobalOp::GlobalSetF32_R { global: 0 },
        }
    }
}

impl BranchOp {
    /// The operation with its slots renamed, and all numbers 0.
    pub open spec fn outline(self, f: spec_fn(u16) -> u16) -> BranchOp {
        match self {
            BranchOp::Branch { .. } => BranchOp::Branch { offset: 0 },
            BranchOp::BranchI32Eq_Rs { rhs, .. } => {
                BranchOp::BranchI32Eq_Rs { offset: 0, rhs: f(rhs) }
            },
            BranchOp::BranchI32Eq_Si { lhs, .. } => {
                BranchOp::BranchI32Eq_Si { offset: 0, lhs: f(lhs), rhs: 0 }
            },
            BranchOp::BranchI32Eq_Ri { .. } => BranchOp::BranchI32Eq_Ri { offset: 0, rhs: 0 },
            BranchOp::BranchI32NotEq_Rs { rhs, .. } => {
                BranchOp::BranchI32NotEq_Rs { offset: 0, rhs: f(rhs) }
            },
            BranchOp::BranchI32NotEq_Si { lhs, .. } => {
                BranchOp::BranchI32NotEq_Si { offset: 0, lhs: f(lhs), rhs: 0 }
            },
            BranchOp::BranchI32NotEq_Ri { .. } => BranchOp::BranchI32NotEq_Ri { offset: 0, rhs: 0 },
            BranchOp::BranchI32Lt_Si { lhs, .. } => {
                BranchOp::BranchI32Lt_Si { offset: 0, lhs: f(lhs), rhs: 0 }
            },
            BranchOp::BranchI32Lt_Ri { .. } => BranchOp::BranchI32Lt_Ri { offset: 0, rhs: 0 },
            BranchOp::BranchI32Le_Ss { lhs, rhs, .. } => {
                BranchOp::BranchI32Le_Ss { offset: 0, lhs: f(lhs), rhs: f(rhs) }
            },
            BranchOp::BranchU32Lt_Ss { lhs, rhs, .. } => {
                BranchOp::BranchU32Lt_Ss { offset: 0, lhs: f(lhs), rhs: f(rhs) }
            },
            BranchOp::BranchU32Lt_Rs { rhs, .. } => {
                BranchOp::BranchU32Lt_Rs { offset: 0, rhs: f(rhs) }
            },
            BranchOp::BranchU32Lt_Sr { lhs, .. } => {
                BranchOp::BranchU32Lt_Sr { offset: 0, lhs: f(lhs) }
            },
            BranchOp::BranchU32Lt_Si { lhs, .. } => {
                BranchOp::BranchU32Lt_Si { offset: 0, lhs: f(lhs), rhs: 0 }
            },
            BranchOp::BranchU32Lt_Ir { .. } => BranchOp::BranchU32Lt_Ir { offset: 0, lhs: 0 },
            BranchOp::BranchU32Le_Ss { lhs, rhs, .. } => {
                BranchOp::BranchU32Le_Ss { offset: 0, lhs: f(lhs), rhs: f(rhs) }
            },
            BranchOp::BranchU32Le_Rs { rhs, .. } => {
                BranchOp::BranchU32Le_Rs { offset: 0, rhs: f(rhs) }
            },
            BranchOp::BranchU32Le_Sr { lhs, .. } => {
                BranchOp::BranchU32Le_Sr { offset: 0, lhs: f(lhs) }
            },
            BranchOp::BranchU32Le_Ir { .. } => BranchOp::BranchU32Le_Ir { offset: 0, lhs: 0 },
            BranchOp::BranchI64Eq_Ss { lhs, rhs, .. } => {
                BranchOp::BranchI64Eq_Ss { offset: 0, lhs: f(lhs), rhs: f(rhs) }
            },
            BranchOp::BranchI64Eq_Si { lhs, .. } => {
                BranchOp::BranchI64Eq_Si { offset: 0, lhs: f(lhs), rhs: 0 }
            },
            BranchOp::BranchI64Eq_Ri { .. } => BranchOp::BranchI64Eq_Ri { offset: 0, rhs: 0 },
            BranchOp::BranchI64NotEq_Ri { .. } => BranchOp::BranchI64NotEq_Ri { offset: 0, rhs: 0 },
            BranchOp::BranchI64Lt_Rs { rhs, .. } => {
                BranchOp::BranchI64Lt_Rs { offset: 0, rhs: f(rhs) }
            },
            BranchOp::BranchI64Lt_Ir { .. } => BranchOp::BranchI64Lt_Ir { offset: 0, lhs: 0 },
            BranchOp::BranchI64Le_Ss { lhs, rhs, .. } => {
                BranchOp::BranchI64Le_Ss { offset: 0, lhs: f(lhs), rhs: f(rhs) }
            },
            BranchOp::BranchI64Le_Rs { rhs, .. } => {
                BranchOp::BranchI64Le_Rs { offset: 0, rhs: f(rhs) }
            },
            BranchOp::BranchI64Le_Si { lhs, .. } => {
                BranchOp::BranchI64Le_Si { offset: 0, lhs: f(lhs), rhs: 0 }
            },
            BranchOp::BranchU64Lt_Si { lhs, .. } => {
                BranchOp::BranchU64Lt_Si { offset: 0, lhs: f(lhs), rhs: 0 }
            },
            BranchOp::BranchU64Lt_Is { rhs, .. } => {
                BranchOp::BranchU64Lt_Is { offset: 0, lhs: 0, rhs: f(rhs) }
            },
            BranchOp::BranchU64Lt_Ir { .. } => BranchOp::BranchU64Lt_Ir { offset: 0, lhs: 0 },
        }
    }
}

impl ControlOp {
    /// The operation with its slots renamed, and all numbers 0.
    pub open spec fn outline(self, f: spec_fn(u16) -> u16) -> ControlOp {
        match self {
            ControlOp::CallInternal { head, .. } => {
                ControlOp::CallInternal { func: 0, head: f(head), len: 0 }
            },
            ControlOp::CallImported { head, .. } => {
                ControlOp::CallImported { func: 0, head: f(head), len: 0 }
            },
            ControlOp::CallIndirect_S { index, head, .. } => ControlOp::CallIndirect_S {
                table: 0,
                func_type: 0,
                index: f(index),
                head: f(head),
                len: 0,
            },
            ControlOp::CallIndirect_R { head, .. } => {
                ControlOp::CallIndirect_R { table: 0, func_type: 0, head: f(head), len: 0 }
            },
            ControlOp::Trap { .. } => ControlOp::Trap { code: 0 },
            _ => self,
        }
    }
}

impl<T> DivideForm<T> {
    /// The operands with the slots renamed, and another number.
    pub open spec fn outline(self, f: spec_fn(u16) -> u16, zero: T) -> DivideForm<T> {
        match self {
            DivideForm::Rss { lhs, rhs } => DivideForm::Rss { lhs: f(lhs), rhs: f(rhs) },
            DivideForm::Rrs { rhs } => DivideForm::Rrs { rhs: f(rhs) },
            DivideForm::Rsr { lhs } => DivideForm::Rsr { lhs: f(lhs) },
            DivideForm::Rsi { lhs, .. } => DivideForm::Rsi { lhs: f(lhs), rhs: zero },
            DivideForm::Rri { .. } => DivideForm::Rri { rhs: zero },
            DivideForm::Ris { rhs, .. } => DivideForm::Ris { lhs: zero, rhs: f(rhs) },
            DivideForm::Rir { .. } => DivideForm::Rir { lhs: zero },
        }
    }
}

impl DivideOp {
    /// The operation with its slots renamed, and all numbers 0.
    pub open spec fn outline(self, f: spec_fn(u16) -> u16) -> DivideOp {
        match self {
            DivideOp::I32Div(form) => DivideOp::I32Div(form.outline(f, 0)),
            DivideOp::U32Div(form) => DivideOp::U32Div(form.outline(f, 0)),
            DivideOp::I32Rem(form) => DivideOp::I32Rem(form.outline(f, 0)),
            DivideOp::U32Rem(form) => DivideOp::U32Rem(form.outline(f, 0)),
            DivideOp::I64Div(form) => DivideOp::I64Div(form.outline(f, 0)),
            DivideOp::U64Div(form) => DivideOp::U64Div(form.outline(f, 0)),
            DivideOp::I64Rem(form) => DivideOp::I64Rem(form.outline(f, 0)),
            DivideOp::U64Rem(form) => DivideOp::U64Rem(form.outline(f, 0)),
        }
    }
}

impl Op {
    /// The operation with its slots renamed, and all numbers 0.
    pub open spec fn outline(self, f: spec_fn(u16) -> u16) -> Op {
        match self {
            Op::Copy(op) => Op::Copy(op.outline(f)),
            Op::Int(op) => Op::Int(op.outline(f)),
            Op::Bits(op) => Op::Bits(op.outline(f)),
            Op::Divide(op) => Op::Divide(op.outline(f)),
            Op::Compare(op) => Op::Compare(op.outline(f)),
            Op::Select(op) => Op::Select(op.outline(f)),
            Op::F32(op) => Op::F32(op.outline(f)),
            Op::F64(op) => Op::F64(op.outline(f)),
            Op::F64NotLe(op) => Op::F64NotLe(F64NotLe_Rss { lhs: f(op.lhs), rhs: f(op.rhs) }),
            Op::Convert(op) => Op::Convert(op.outline(f)),
            Op::Memory(op) => Op::Memory(op.outline(f)),
            Op::Global(op) => Op::Global(op.outline(f)),
            Op::Branch(op) => Op::Branch(op.outline(f)),
            Op::Control(op) => Op::Control(op.outline(f)),
            _ => self,
        }
    }
}

proof fn lemma_copy(op: CopyOp, f: spec_fn(u16) -> u16)
    ensures
        like(op.lowering(), op.outline(f).lowering(), f),
{
}

proof fn lemma_int(op: IntOp, f: spec_fn(u16) -> u16)
    ensures
        like(op.lowering(), op.outline(f).lowering(), f),
{
}

proof fn lemma_bits(op: BitsOp, f: spec_fn(u16) -> u16)
    ensures
        like(op.lowering(), op.outline(f).lowering(), f),
{
}

proof fn lemma_divide(op: DivideOp, f: spec_fn(u16) -> u16)
    ensures
        like(op.lowering(), op.outline(f).lowering(), f),
{
}

proof fn lemma_compare(op: CompareOp, f: spec_fn(u16) -> u16)
    ensures
        like(op.lowering(), op.outline(f).lowering(), f),
{
}

proof fn lemma_select(op: SelectOp, f: spec_fn(u16) -> u16)
    ensures
        like(op.lowering(), op.outline(f).lowering(), f),
{
}

#[verifier::rlimit(30)]
proof fn lemma_float(op: FloatOp, width: FloatWidth, f: spec_fn(u16) -> u16)
    ensures
        like(op.lowering(width), op.outline(f).lowering(width), f),
{
}

proof fn lemma_convert(op: ConvertOp, f: spec_fn(u16) -> u16)
    ensures
        like(op.lowering(), op.outline(f).lowering(), f),
{
}

proof fn lemma_load(op: MemoryOp, f: spec_fn(u16) -> u16)
    requires
        op is LoadMem0Offset16_Rr || op is LoadMem0Offset16_Rs,
    ensures
        like(op.lowering(), op.outline(f).lowering(), f),
{
}

proof fn lemma_store(op: MemoryOp, f: spec_fn(u16) -> u16)
    requires
        op is StoreMem0Offset16_Sr || op is StoreMem0Offset16_Rs || op is StoreMem0Offset16_Ss,
    ensures
        like(op.lowering(), op.outline(f).lowering(), f),
{
}

proof fn lemma_store_immediate(op: MemoryOp, f: spec_fn(u16) -> u16)
    requires
        op is StoreMem0Offset16_Si || op is StoreMem0Offset16_Ri,
    ensures
        like(op.lowering(), op.outline(f).lowering(), f),
{
}

proof fn lemma_memory(op: MemoryOp, f: spec_fn(u16) -> u16)
    ensures
        like(op.lowering(), op.outline(f).lowering(), f),
{
    match op {
        MemoryOp::LoadMem0Offset16_Rr { .. } => lemma_load(op, f),
        MemoryOp::LoadMem0Offset16_Rs { .. } => lemma_load(op, f),
        MemoryOp::StoreMem0Offset16_Sr { .. } => lemma_store(op, f),
        MemoryOp::StoreMem0Offset16_Rs { .. } => lemma_store(op, f),
        MemoryOp::StoreMem0Offset16_Ss { .. } => lemma_store(op, f),
        MemoryOp::StoreMem0Offset16_Si { .. } => lemma_store_immediate(op, f),
        MemoryOp::StoreMem0Offset16_Ri { .. } => lemma_store_immediate(op, f),
        _ => {},
    }
}

proof fn lemma_global(op: GlobalOp, f: spec_fn(u16) -> u16)
    ensures
        like(op.lowering(), op.outline(f).lowering(), f),
{
}

proof fn lemma_branch(op: BranchOp, f: spec_fn(u16) -> u16)
    ensures
        like(op.lowering(), op.outline(f).lowering(), f),
{
}

proof fn lemma_control(op: ControlOp, writes_result: bool, f: spec_fn(u16) -> u16)
    requires
        !(op is Return),
    ensures
        like(op.lowering(writes_result), op.outline(f).lowering(writes_result), f),
{
}

/// **Words are uniform.** Operations that differ only in their slots and numbers have the same
/// opcodes with the same kinds of operands, and the slots of the one stand where those of the
/// other do. A return, which names no slot, always reads slot 0.
pub proof fn law_uniform(op: Op, writes_result: bool, f: spec_fn(u16) -> u16)
    requires
        op.lowering(writes_result) is Some,
        op != Op::Control(ControlOp::Return),
    ensures
        op.outline(f).lowering(writes_result) is Some,
        like(op.lowering(writes_result)->0, op.outline(f).lowering(writes_result)->0, f),
{
    match op {
        Op::Copy(op) => lemma_copy(op, f),
        Op::Int(op) => lemma_int(op, f),
        Op::Bits(op) => lemma_bits(op, f),
        Op::Divide(op) => lemma_divide(op, f),
        Op::Compare(op) => lemma_compare(op, f),
        Op::Select(op) => lemma_select(op, f),
        Op::F32(op) => lemma_float(op, FloatWidth::F32, f),
        Op::F64(op) => lemma_float(op, FloatWidth::F64, f),
        Op::F64NotLe(_) => {},
        Op::Convert(op) => lemma_convert(op, f),
        Op::Memory(op) => lemma_memory(op, f),
        Op::Global(op) => lemma_global(op, f),
        Op::Branch(op) => lemma_branch(op, f),
        Op::Control(op) => lemma_control(op, writes_result, f),
        _ => {},
    }
}

} // verus!
