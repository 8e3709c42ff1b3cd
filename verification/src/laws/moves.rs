//! Copies, selections and globals.

use crate::action::{Action, Machine, Reg, Residuals, Src};
use crate::kernel::{does, form, lemma_codes, step_outside, Form};
use crate::laws::patterns::{lemma_run_1, lemma_run_2, lemma_run_3, lemma_run_4};
use crate::mini::{
    MINI_COPY_SI, MINI_COPY_SR, MINI_COPY_S_F32R, MINI_COPY_S_FR, MINI_GLOBAL_GET_F32,
    MINI_GLOBAL_GET_F64, MINI_GLOBAL_GET_R, MINI_GLOBAL_SET_S,
};
use crate::ops::copy::CopyOp;
use crate::ops::global::GlobalOp;
use crate::ops::select::SelectOp;
use crate::word::Word::{Code, Imm, Scratch, Slot};
use crate::word::{operands, Kind, Operands};
use vstd::prelude::*;

verus! {

/// The words of a copy do what the copy does.
#[verifier::rlimit(40)]
pub(crate) proof fn lemma_copy<W>(op: CopyOp, m: Machine<W>, res: Residuals<W>)
    ensures
        does(op.lowering(), op.action(), m, res),
{
    lemma_codes();
    lemma_run_1(op.lowering(), m, res);
}

/// The words of a selection do what the selection does.
#[verifier::rlimit(40)]
pub(crate) proof fn lemma_select<W>(op: SelectOp, m: Machine<W>, res: Residuals<W>)
    ensures
        does(op.lowering(), op.action(), m, res),
{
    lemma_codes();
    let words = op.lowering();
    match op {
        SelectOp::U64Select_Rrss { .. } => lemma_run_1(words, m, res),
        SelectOp::U64Select_Rrsi { .. } => lemma_run_2(words, 3, m, res),
        SelectOp::U64Select_Rris { .. } => lemma_run_2(words, 3, m, res),
        SelectOp::U64Select_Rrii { .. } => lemma_run_3(words, 3, 6, m, res),
        SelectOp::U64Select_Rrrs { .. } => lemma_run_2(words, 2, m, res),
        SelectOp::U32Select_Rrsi { .. } => lemma_run_2(words, 3, m, res),
        SelectOp::U32Select_Rris { .. } => lemma_run_2(words, 3, m, res),
        SelectOp::U32Select_Rrii { .. } => lemma_run_3(words, 3, 6, m, res),
        SelectOp::U32Select_Rsii { .. } => lemma_run_4(words, 3, 6, 8, m, res),
    }
}

/// A write of a slot to a global.
proof fn by_set<W>(index: i64, value: u16, m: Machine<W>, res: Residuals<W>)
    ensures
        does(
            seq![Code(MINI_GLOBAL_SET_S), Imm(index), Slot(value)],
            Action::GlobalSet { index, value: Src::Slot(value) },
            m,
            res,
        ),
{
    lemma_codes();
    reveal(step_outside);
    lemma_run_1(seq![Code(MINI_GLOBAL_SET_S), Imm(index), Slot(value)], m, res);
}

/// A write of an immediate to a global.
proof fn by_copy_set<W>(index: i64, value: i64, m: Machine<W>, res: Residuals<W>)
    ensures
        does(
            seq![
                Code(MINI_COPY_SI), Scratch(0), Imm(value),
                Code(MINI_GLOBAL_SET_S), Imm(index), Scratch(0),
            ],
            Action::GlobalSet { index, value: Src::Imm(value) },
            m,
            res,
        ),
{
    lemma_codes();
    reveal(step_outside);
    let words = seq![
        Code(MINI_COPY_SI), Scratch(0), Imm(value),
        Code(MINI_GLOBAL_SET_S), Imm(index), Scratch(0),
    ];
    lemma_run_2(words, 3, m, res);
}

/// A write of an accumulator to a global.
proof fn by_spill_set<W>(
    spill: i64,
    reg: Reg,
    src: Src,
    index: i64,
    m: Machine<W>,
    res: Residuals<W>,
)
    requires
        form(spill) == Some(Form::CopyFrom(reg)),
        operands(spill) == Some(Operands::Of1(Kind::Cell)),
        m.value(src) == m.reg(reg),
    ensures
        does(
            seq![Code(spill), Scratch(0), Code(MINI_GLOBAL_SET_S), Imm(index), Scratch(0)],
            Action::GlobalSet { index, value: src },
            m,
            res,
        ),
{
    lemma_codes();
    reveal(step_outside);
    let words = seq![Code(spill), Scratch(0), Code(MINI_GLOBAL_SET_S), Imm(index), Scratch(0)];
    lemma_run_2(words, 2, m, res);
}

/// A read of a global.
proof fn by_get<W>(code: i64, reg: Reg, index: i64, m: Machine<W>, res: Residuals<W>)
    requires
        form(code) == Some(Form::GlobalGet(reg)),
        operands(code) == Some(Operands::Of1(Kind::Imm)),
    ensures
        does(seq![Code(code), Imm(index)], Action::GlobalGet { reg, index }, m, res),
{
    reveal(step_outside);
    lemma_run_1(seq![Code(code), Imm(index)], m, res);
}

/// The words of a read or write of a global do what that does.
pub(crate) proof fn lemma_global<W>(op: GlobalOp, m: Machine<W>, res: Residuals<W>)
    ensures
        does(op.lowering(), op.action(), m, res),
{
    lemma_codes();
    match op {
        GlobalOp::GlobalGetU64_R { global } => {
            by_get(MINI_GLOBAL_GET_R, Reg::Ireg, global as i64, m, res);
        },
        GlobalOp::GlobalGetF64_R { global } => {
            by_get(MINI_GLOBAL_GET_F64, Reg::Freg64, global as i64, m, res);
        },
        GlobalOp::GlobalGetF32_R { global } => {
            by_get(MINI_GLOBAL_GET_F32, Reg::Freg32, global as i64, m, res);
        },
        GlobalOp::GlobalSetU64_S { global, value } => by_set(global as i64, value, m, res),
        GlobalOp::GlobalSetU64_R { global } => {
            by_spill_set(MINI_COPY_SR, Reg::Ireg, Src::Ireg, global as i64, m, res);
        },
        GlobalOp::GlobalSetU64_I { global, value } => {
            by_copy_set(global as i64, value as i64, m, res);
        },
        GlobalOp::GlobalSetU32_I { global, value } => {
            by_copy_set(global as i64, value as i64, m, res);
        },
        GlobalOp::GlobalSetF64_R { global } => {
            by_spill_set(MINI_COPY_S_FR, Reg::Freg64, Src::Freg64, global as i64, m, res);
        },
        GlobalOp::GlobalSetF32_R { global } => {
            by_spill_set(MINI_COPY_S_F32R, Reg::Freg32, Src::Freg32, global as i64, m, res);
        },
    }
}

} // verus!
