//! Integer division and remainder.
//!
//! Neither is commutative, so the operands reach the kernel's two-slot instruction in
//! their order: an operand in the accumulator or in the operation itself is copied into
//! a scratch slot first.

use crate::action::{Action, DivRem, Src};
use crate::mini::{
    MINI_COPY_SI, MINI_COPY_SR, MINI_I32_DIV_S, MINI_I32_DIV_U, MINI_I32_REM_S, MINI_I32_REM_U,
    MINI_I64_DIV_S, MINI_I64_DIV_U, MINI_I64_REM_S, MINI_I64_REM_U,
};
use crate::word::Word;
use crate::word::Word::{Code, Imm, Scratch, Slot};
use vstd::prelude::*;

verus! {

/// The operands of a division: each in a slot, in the accumulator, or an immediate.
#[derive(Clone, Copy, Debug, PartialEq, Eq, Structural)]
pub enum DivideForm<T> {
    /// `slots[lhs]` by `slots[rhs]`.
    Rss { lhs: u16, rhs: u16 },
    /// `ireg` by `slots[rhs]`.
    Rrs { rhs: u16 },
    /// `slots[lhs]` by `ireg`.
    Rsr { lhs: u16 },
    /// `slots[lhs]` by `rhs`.
    Rsi { lhs: u16, rhs: T },
    /// `ireg` by `rhs`.
    Rri { rhs: T },
    /// `lhs` by `slots[rhs]`.
    Ris { lhs: T, rhs: u16 },
    /// `lhs` by `ireg`.
    Rir { lhs: T },
}

/// An integer division (`Div`) or remainder (`Rem`), signed (`I`) or unsigned (`U`).
#[derive(Clone, Copy, Debug, PartialEq, Eq, Structural)]
pub enum DivideOp {
    I32Div(DivideForm<i32>),
    U32Div(DivideForm<u32>),
    I32Rem(DivideForm<i32>),
    U32Rem(DivideForm<u32>),
    I64Div(DivideForm<i64>),
    U64Div(DivideForm<u64>),
    I64Rem(DivideForm<i64>),
    U64Rem(DivideForm<u64>),
}

impl<T> DivideForm<T> {
    /// The same operands with the immediate, if there is one, extended by `word`.
    pub open spec fn extend(self, word: spec_fn(T) -> i64) -> DivideForm<i64> {
        match self {
            DivideForm::Rss { lhs, rhs } => DivideForm::Rss { lhs, rhs },
            DivideForm::Rrs { rhs } => DivideForm::Rrs { rhs },
            DivideForm::Rsr { lhs } => DivideForm::Rsr { lhs },
            DivideForm::Rsi { lhs, rhs } => DivideForm::Rsi { lhs, rhs: word(rhs) },
            DivideForm::Rri { rhs } => DivideForm::Rri { rhs: word(rhs) },
            DivideForm::Ris { lhs, rhs } => DivideForm::Ris { lhs: word(lhs), rhs },
            DivideForm::Rir { lhs } => DivideForm::Rir { lhs: word(lhs) },
        }
    }
}

impl DivideForm<i32> {
    /// Sign-extends the immediate.
    fn widen_i32(self) -> (form: DivideForm<i64>)
        ensures
            form == self.extend(|v: i32| v as i64),
    {
        match self {
            DivideForm::Rss { lhs, rhs } => DivideForm::Rss { lhs, rhs },
            DivideForm::Rrs { rhs } => DivideForm::Rrs { rhs },
            DivideForm::Rsr { lhs } => DivideForm::Rsr { lhs },
            DivideForm::Rsi { lhs, rhs } => DivideForm::Rsi { lhs, rhs: rhs as i64 },
            DivideForm::Rri { rhs } => DivideForm::Rri { rhs: rhs as i64 },
            DivideForm::Ris { lhs, rhs } => DivideForm::Ris { lhs: lhs as i64, rhs },
            DivideForm::Rir { lhs } => DivideForm::Rir { lhs: lhs as i64 },
        }
    }
}

impl DivideForm<u32> {
    /// Zero-extends the immediate.
    fn widen_u32(self) -> (form: DivideForm<i64>)
        ensures
            form == self.extend(|v: u32| v as i64),
    {
        match self {
            DivideForm::Rss { lhs, rhs } => DivideForm::Rss { lhs, rhs },
            DivideForm::Rrs { rhs } => DivideForm::Rrs { rhs },
            DivideForm::Rsr { lhs } => DivideForm::Rsr { lhs },
            DivideForm::Rsi { lhs, rhs } => DivideForm::Rsi { lhs, rhs: rhs as i64 },
            DivideForm::Rri { rhs } => DivideForm::Rri { rhs: rhs as i64 },
            DivideForm::Ris { lhs, rhs } => DivideForm::Ris { lhs: lhs as i64, rhs },
            DivideForm::Rir { lhs } => DivideForm::Rir { lhs: lhs as i64 },
        }
    }
}

impl DivideForm<u64> {
    /// Takes the immediate as a word of the same bits.
    fn widen_u64(self) -> (form: DivideForm<i64>)
        ensures
            form == self.extend(|v: u64| v as i64),
    {
        match self {
            DivideForm::Rss { lhs, rhs } => DivideForm::Rss { lhs, rhs },
            DivideForm::Rrs { rhs } => DivideForm::Rrs { rhs },
            DivideForm::Rsr { lhs } => DivideForm::Rsr { lhs },
            DivideForm::Rsi { lhs, rhs } => DivideForm::Rsi { lhs, rhs: rhs as i64 },
            DivideForm::Rri { rhs } => DivideForm::Rri { rhs: rhs as i64 },
            DivideForm::Ris { lhs, rhs } => DivideForm::Ris { lhs: lhs as i64, rhs },
            DivideForm::Rir { lhs } => DivideForm::Rir { lhs: lhs as i64 },
        }
    }
}

impl DivideForm<i64> {
    /// The words of the division that `code` names.
    pub open spec fn lowering(self, code: i64) -> Seq<Word> {
        match self {
            DivideForm::Rss { lhs, rhs } => seq![Code(code), Slot(lhs), Slot(rhs)],
            DivideForm::Rrs { rhs } => seq![
                Code(MINI_COPY_SR), Scratch(0),
                Code(code), Scratch(0), Slot(rhs),
            ],
            DivideForm::Rsr { lhs } => seq![
                Code(MINI_COPY_SR), Scratch(0),
                Code(code), Slot(lhs), Scratch(0),
            ],
            DivideForm::Rsi { lhs, rhs } => seq![
                Code(MINI_COPY_SI), Scratch(0), Imm(rhs),
                Code(code), Slot(lhs), Scratch(0),
            ],
            DivideForm::Rri { rhs } => seq![
                Code(MINI_COPY_SR), Scratch(0),
                Code(MINI_COPY_SI), Scratch(1), Imm(rhs),
                Code(code), Scratch(0), Scratch(1),
            ],
            DivideForm::Ris { lhs, rhs } => seq![
                Code(MINI_COPY_SI), Scratch(0), Imm(lhs),
                Code(code), Scratch(0), Slot(rhs),
            ],
            DivideForm::Rir { lhs } => seq![
                Code(MINI_COPY_SI), Scratch(0), Imm(lhs),
                Code(MINI_COPY_SR), Scratch(1),
                Code(code), Scratch(0), Scratch(1),
            ],
        }
    }

    /// Lowers the division that `code` names.
    fn lower(self, code: i64) -> (words: Vec<Word>)
        ensures
            words@ == self.lowering(code),
    {
        let words = match self {
            DivideForm::Rss { lhs, rhs } => vec![Code(code), Slot(lhs), Slot(rhs)],
            DivideForm::Rrs { rhs } => vec![
                Code(MINI_COPY_SR), Scratch(0),
                Code(code), Scratch(0), Slot(rhs),
            ],
            DivideForm::Rsr { lhs } => vec![
                Code(MINI_COPY_SR), Scratch(0),
                Code(code), Slot(lhs), Scratch(0),
            ],
            DivideForm::Rsi { lhs, rhs } => vec![
                Code(MINI_COPY_SI), Scratch(0), Imm(rhs),
                Code(code), Slot(lhs), Scratch(0),
            ],
            DivideForm::Rri { rhs } => vec![
                Code(MINI_COPY_SR), Scratch(0),
                Code(MINI_COPY_SI), Scratch(1), Imm(rhs),
                Code(code), Scratch(0), Scratch(1),
            ],
            DivideForm::Ris { lhs, rhs } => vec![
                Code(MINI_COPY_SI), Scratch(0), Imm(lhs),
                Code(code), Scratch(0), Slot(rhs),
            ],
            DivideForm::Rir { lhs } => vec![
                Code(MINI_COPY_SI), Scratch(0), Imm(lhs),
                Code(MINI_COPY_SR), Scratch(1),
                Code(code), Scratch(0), Scratch(1),
            ],
        };
        assert(words@ =~= self.lowering(code));
        words
    }

    /// The operands in order.
    pub open spec fn operands(self) -> (Src, Src) {
        match self {
            DivideForm::Rss { lhs, rhs } => (Src::Slot(lhs), Src::Slot(rhs)),
            DivideForm::Rrs { rhs } => (Src::Ireg, Src::Slot(rhs)),
            DivideForm::Rsr { lhs } => (Src::Slot(lhs), Src::Ireg),
            DivideForm::Rsi { lhs, rhs } => (Src::Slot(lhs), Src::Imm(rhs)),
            DivideForm::Rri { rhs } => (Src::Ireg, Src::Imm(rhs)),
            DivideForm::Ris { lhs, rhs } => (Src::Imm(lhs), Src::Slot(rhs)),
            DivideForm::Rir { lhs } => (Src::Imm(lhs), Src::Ireg),
        }
    }
}

impl DivideOp {
    /// The operands, with the immediate as a word: signed ones sign-extended, unsigned
    /// ones zero-extended.
    pub open spec fn form(self) -> DivideForm<i64> {
        match self {
            DivideOp::I32Div(form) => form.extend(|v: i32| v as i64),
            DivideOp::U32Div(form) => form.extend(|v: u32| v as i64),
            DivideOp::I32Rem(form) => form.extend(|v: i32| v as i64),
            DivideOp::U32Rem(form) => form.extend(|v: u32| v as i64),
            DivideOp::I64Div(form) => form,
            DivideOp::U64Div(form) => form.extend(|v: u64| v as i64),
            DivideOp::I64Rem(form) => form,
            DivideOp::U64Rem(form) => form.extend(|v: u64| v as i64),
        }
    }

    /// The opcode of the two-slot instruction.
    pub open spec fn code(self) -> i64 {
        match self {
            DivideOp::I32Div(_) => MINI_I32_DIV_S,
            DivideOp::U32Div(_) => MINI_I32_DIV_U,
            DivideOp::I32Rem(_) => MINI_I32_REM_S,
            DivideOp::U32Rem(_) => MINI_I32_REM_U,
            DivideOp::I64Div(_) => MINI_I64_DIV_S,
            DivideOp::U64Div(_) => MINI_I64_DIV_U,
            DivideOp::I64Rem(_) => MINI_I64_REM_S,
            DivideOp::U64Rem(_) => MINI_I64_REM_U,
        }
    }

    /// The words of the operation.
    pub open spec fn lowering(self) -> Seq<Word> {
        self.form().lowering(self.code())
    }

    /// Lowers the operation.
    pub fn lower(self) -> (words: Vec<Word>)
        ensures
            words@ == self.lowering(),
    {
        match self {
            DivideOp::I32Div(form) => form.widen_i32().lower(MINI_I32_DIV_S),
            DivideOp::U32Div(form) => form.widen_u32().lower(MINI_I32_DIV_U),
            DivideOp::I32Rem(form) => form.widen_i32().lower(MINI_I32_REM_S),
            DivideOp::U32Rem(form) => form.widen_u32().lower(MINI_I32_REM_U),
            DivideOp::I64Div(form) => form.lower(MINI_I64_DIV_S),
            DivideOp::U64Div(form) => form.widen_u64().lower(MINI_I64_DIV_U),
            DivideOp::I64Rem(form) => form.lower(MINI_I64_REM_S),
            DivideOp::U64Rem(form) => form.widen_u64().lower(MINI_I64_REM_U),
        }
    }

    /// The function that the operation computes.
    pub open spec fn function(self) -> DivRem {
        match self {
            DivideOp::I32Div(_) => DivRem::I32DivS,
            DivideOp::U32Div(_) => DivRem::I32DivU,
            DivideOp::I32Rem(_) => DivRem::I32RemS,
            DivideOp::U32Rem(_) => DivRem::I32RemU,
            DivideOp::I64Div(_) => DivRem::I64DivS,
            DivideOp::U64Div(_) => DivRem::I64DivU,
            DivideOp::I64Rem(_) => DivRem::I64RemS,
            DivideOp::U64Rem(_) => DivRem::I64RemU,
        }
    }

    /// What the operation does.
    pub open spec fn action(self) -> Action {
        let (lhs, rhs) = self.form().operands();
        Action::DivRem { op: self.function(), lhs, rhs }
    }
}

} // verus!
