//! Conversions between integers and floats, and between the float widths.
//!
//! A source in an accumulator is copied into a scratch slot first, an integer from the
//! integer accumulator and a float from the accumulator of its width.

use crate::action::{Action, Conversion, FloatWidth, IntKind, Reg, Src};
use crate::mini::{
    MINI_COPY_SR, MINI_COPY_S_F32R, MINI_COPY_S_FR, MINI_F32_CVT_S, MINI_F32_DEMOTE_S,
    MINI_F32_REINTERP_I32, MINI_F32_TRUNC_S, MINI_F32_TRUNC_SAT_S, MINI_F64_CVT_S,
    MINI_F64_PROMOTE_S, MINI_F64_REINTERP_I64, MINI_F64_TRUNC_S, MINI_F64_TRUNC_SAT_S,
    MINI_I32_REINTERP_F32, MINI_I64_REINTERP_F64,
};
use crate::word::Word;
use crate::word::Word::{Code, Imm, Scratch, Slot};
use vstd::prelude::*;

verus! {

/// A conversion.
#[allow(non_camel_case_types)]
#[derive(Clone, Copy, Debug, PartialEq, Eq, Structural)]
pub enum ConvertOp {
    /// `freg = convert(slots[value])`: integer to float.
    Convert_Rs { to: FloatWidth, from: IntKind, value: u16 },
    /// `freg = convert(ireg)`: integer to float.
    Convert_Rr { to: FloatWidth, from: IntKind },
    /// `ireg = truncate(slots[value])`: float to integer.
    Trunc_Rs { from: FloatWidth, to: IntKind, value: u16 },
    /// `ireg = truncate(freg)`: float to integer.
    Trunc_Rr { from: FloatWidth, to: IntKind },
    /// `ireg = truncate_saturating(slots[value])`: float to integer.
    TruncSat_Rs { from: FloatWidth, to: IntKind, value: u16 },
    /// `ireg = truncate_saturating(freg)`: float to integer.
    TruncSat_Rr { from: FloatWidth, to: IntKind },
    /// `freg64 = promote(slots[value])`.
    F64PromoteF32_Rs { value: u16 },
    /// `freg64 = promote(freg32)`.
    F64PromoteF32_Rr,
    /// `freg32 = demote(slots[value])`.
    F32DemoteF64_Rs { value: u16 },
    /// `freg32 = demote(freg64)`.
    F32DemoteF64_Rr,
    /// `ireg = freg32`, as bits.
    I32ReinterpretF32_Rr,
    /// `freg32 = ireg`, as bits.
    F32ReinterpretI32_Rr,
    /// `ireg = freg64`, as bits.
    I64ReinterpretF64_Rr,
    /// `freg64 = ireg`, as bits.
    F64ReinterpretI64_Rr,
}

impl FloatWidth {
    /// The opcode of conversions from integers.
    pub open spec fn spec_convert_code(self) -> i64 {
        match self {
            FloatWidth::F32 => MINI_F32_CVT_S,
            FloatWidth::F64 => MINI_F64_CVT_S,
        }
    }

    /// The opcode of conversions from integers.
    #[verifier::when_used_as_spec(spec_convert_code)]
    pub fn convert_code(self) -> (code: i64)
        ensures
            code == self.convert_code(),
    {
        match self {
            FloatWidth::F32 => MINI_F32_CVT_S,
            FloatWidth::F64 => MINI_F64_CVT_S,
        }
    }

    /// The opcode of truncations that trap.
    pub open spec fn spec_trunc_code(self) -> i64 {
        match self {
            FloatWidth::F32 => MINI_F32_TRUNC_S,
            FloatWidth::F64 => MINI_F64_TRUNC_S,
        }
    }

    /// The opcode of truncations that trap.
    #[verifier::when_used_as_spec(spec_trunc_code)]
    pub fn trunc_code(self) -> (code: i64)
        ensures
            code == self.trunc_code(),
    {
        match self {
            FloatWidth::F32 => MINI_F32_TRUNC_S,
            FloatWidth::F64 => MINI_F64_TRUNC_S,
        }
    }

    /// The opcode of truncations that saturate.
    pub open spec fn spec_trunc_sat_code(self) -> i64 {
        match self {
            FloatWidth::F32 => MINI_F32_TRUNC_SAT_S,
            FloatWidth::F64 => MINI_F64_TRUNC_SAT_S,
        }
    }

    /// The opcode of truncations that saturate.
    #[verifier::when_used_as_spec(spec_trunc_sat_code)]
    pub fn trunc_sat_code(self) -> (code: i64)
        ensures
            code == self.trunc_sat_code(),
    {
        match self {
            FloatWidth::F32 => MINI_F32_TRUNC_SAT_S,
            FloatWidth::F64 => MINI_F64_TRUNC_SAT_S,
        }
    }
}

impl IntKind {
    /// The selector of the integer type.
    pub open spec fn spec_selector(self) -> i64 {
        match self {
            IntKind::I32 => 0,
            IntKind::U32 => 1,
            IntKind::I64 => 2,
            IntKind::U64 => 3,
        }
    }

    /// The selector of the integer type.
    #[verifier::when_used_as_spec(spec_selector)]
    pub fn selector(self) -> (sel: i64)
        ensures
            sel == self.selector(),
    {
        match self {
            IntKind::I32 => 0,
            IntKind::U32 => 1,
            IntKind::I64 => 2,
            IntKind::U64 => 3,
        }
    }
}

impl ConvertOp {
    /// The words of the operation.
    pub open spec fn lowering(self) -> Seq<Word> {
        match self {
            ConvertOp::Convert_Rs { to, from, value } => seq![
                Code(to.convert_code()), Imm(from.selector()), Slot(value),
            ],
            ConvertOp::Convert_Rr { to, from } => seq![
                Code(MINI_COPY_SR), Scratch(0),
                Code(to.convert_code()), Imm(from.selector()), Scratch(0),
            ],
            ConvertOp::Trunc_Rs { from, to, value } => seq![
                Code(from.trunc_code()), Imm(to.selector()), Slot(value),
            ],
            ConvertOp::Trunc_Rr { from, to } => seq![
                Code(from.spill_code()), Scratch(0),
                Code(from.trunc_code()), Imm(to.selector()), Scratch(0),
            ],
            ConvertOp::TruncSat_Rs { from, to, value } => seq![
                Code(from.trunc_sat_code()), Imm(to.selector()), Slot(value),
            ],
            ConvertOp::TruncSat_Rr { from, to } => seq![
                Code(from.spill_code()), Scratch(0),
                Code(from.trunc_sat_code()), Imm(to.selector()), Scratch(0),
            ],
            ConvertOp::F64PromoteF32_Rs { value } => seq![Code(MINI_F64_PROMOTE_S), Slot(value)],
            ConvertOp::F64PromoteF32_Rr => seq![
                Code(MINI_COPY_S_F32R), Scratch(0),
                Code(MINI_F64_PROMOTE_S), Scratch(0),
            ],
            ConvertOp::F32DemoteF64_Rs { value } => seq![Code(MINI_F32_DEMOTE_S), Slot(value)],
            ConvertOp::F32DemoteF64_Rr => seq![
                Code(MINI_COPY_S_FR), Scratch(0),
                Code(MINI_F32_DEMOTE_S), Scratch(0),
            ],
            ConvertOp::I32ReinterpretF32_Rr => seq![Code(MINI_I32_REINTERP_F32)],
            ConvertOp::F32ReinterpretI32_Rr => seq![Code(MINI_F32_REINTERP_I32)],
            ConvertOp::I64ReinterpretF64_Rr => seq![Code(MINI_I64_REINTERP_F64)],
            ConvertOp::F64ReinterpretI64_Rr => seq![Code(MINI_F64_REINTERP_I64)],
        }
    }

    /// Lowers the operation.
    pub fn lower(self) -> (words: Vec<Word>)
        ensures
            words@ == self.lowering(),
    {
        let words = match self {
            ConvertOp::Convert_Rs { to, from, value } => vec![
                Code(to.convert_code()), Imm(from.selector()), Slot(value),
            ],
            ConvertOp::Convert_Rr { to, from } => vec![
                Code(MINI_COPY_SR), Scratch(0),
                Code(to.convert_code()), Imm(from.selector()), Scratch(0),
            ],
            ConvertOp::Trunc_Rs { from, to, value } => vec![
                Code(from.trunc_code()), Imm(to.selector()), Slot(value),
            ],
            ConvertOp::Trunc_Rr { from, to } => vec![
                Code(from.spill_code()), Scratch(0),
                Code(from.trunc_code()), Imm(to.selector()), Scratch(0),
            ],
            ConvertOp::TruncSat_Rs { from, to, value } => vec![
                Code(from.trunc_sat_code()), Imm(to.selector()), Slot(value),
            ],
            ConvertOp::TruncSat_Rr { from, to } => vec![
                Code(from.spill_code()), Scratch(0),
                Code(from.trunc_sat_code()), Imm(to.selector()), Scratch(0),
            ],
            ConvertOp::F64PromoteF32_Rs { value } => vec![Code(MINI_F64_PROMOTE_S), Slot(value)],
            ConvertOp::F64PromoteF32_Rr => vec![
                Code(MINI_COPY_S_F32R), Scratch(0),
                Code(MINI_F64_PROMOTE_S), Scratch(0),
            ],
            ConvertOp::F32DemoteF64_Rs { value } => vec![Code(MINI_F32_DEMOTE_S), Slot(value)],
            ConvertOp::F32DemoteF64_Rr => vec![
                Code(MINI_COPY_S_FR), Scratch(0),
                Code(MINI_F32_DEMOTE_S), Scratch(0),
            ],
            ConvertOp::I32ReinterpretF32_Rr => vec![Code(MINI_I32_REINTERP_F32)],
            ConvertOp::F32ReinterpretI32_Rr => vec![Code(MINI_F32_REINTERP_I32)],
            ConvertOp::I64ReinterpretF64_Rr => vec![Code(MINI_I64_REINTERP_F64)],
            ConvertOp::F64ReinterpretI64_Rr => vec![Code(MINI_F64_REINTERP_I64)],
        };
        assert(words@ =~= self.lowering());
        words
    }

    /// What the operation does.
    pub open spec fn action(self) -> Action {
        match self {
            ConvertOp::Convert_Rs { to, from, value } => {
                Action::Convert { op: Conversion::Convert(to, from), value: Src::Slot(value) }
            },
            ConvertOp::Convert_Rr { to, from } => {
                Action::Convert { op: Conversion::Convert(to, from), value: Src::Ireg }
            },
            ConvertOp::Trunc_Rs { from, to, value } => {
                Action::Convert { op: Conversion::Trunc(from, to), value: Src::Slot(value) }
            },
            ConvertOp::Trunc_Rr { from, to } => {
                Action::Convert { op: Conversion::Trunc(from, to), value: from.src() }
            },
            ConvertOp::TruncSat_Rs { from, to, value } => {
                Action::Convert { op: Conversion::TruncSat(from, to), value: Src::Slot(value) }
            },
            ConvertOp::TruncSat_Rr { from, to } => {
                Action::Convert { op: Conversion::TruncSat(from, to), value: from.src() }
            },
            ConvertOp::F64PromoteF32_Rs { value } => {
                Action::Convert { op: Conversion::Promote, value: Src::Slot(value) }
            },
            ConvertOp::F64PromoteF32_Rr => {
                Action::Convert { op: Conversion::Promote, value: Src::Freg32 }
            },
            ConvertOp::F32DemoteF64_Rs { value } => {
                Action::Convert { op: Conversion::Demote, value: Src::Slot(value) }
            },
            ConvertOp::F32DemoteF64_Rr => {
                Action::Convert { op: Conversion::Demote, value: Src::Freg64 }
            },
            ConvertOp::I32ReinterpretF32_Rr => Action::Sext32 { value: Src::Freg32 },
            ConvertOp::F32ReinterpretI32_Rr => Action::Low32ToFreg32,
            ConvertOp::I64ReinterpretF64_Rr => {
                Action::SetReg { reg: Reg::Ireg, value: Src::Freg64 }
            },
            ConvertOp::F64ReinterpretI64_Rr => {
                Action::SetReg { reg: Reg::Freg64, value: Src::Ireg }
            },
        }
    }
}

} // verus!
