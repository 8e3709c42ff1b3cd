//! Divisions, float operations and conversions.

use crate::action::{
    float_reg, perform, Action, Conversion, DivRem, FloatBin, FloatCompare, FloatWidth, Machine,
    Reg, Residuals, Src,
};
use crate::kernel::{arith_of, does, form, kind_of, lemma_codes, step_outside, unary_of, Form};
use crate::laws::patterns::{lemma_glue, lemma_run_1, lemma_run_2, lemma_run_3};
use crate::mini::{MINI_COPY_SI, MINI_COPY_SR};
use crate::ops::convert::ConvertOp;
use crate::ops::divide::{DivideForm, DivideOp};
use crate::ops::float::{float_bin, float_compare, FloatOp};
use crate::word::Word::{Code, Imm, Scratch, Slot};
use crate::word::{operands, Kind, Operands};
use vstd::prelude::*;

verus! {

/// The words of a division hand its operands over in their order.
#[verifier::rlimit(40)]
proof fn lemma_divide_form<W>(
    f: DivideForm<i64>,
    code: i64,
    op: DivRem,
    m: Machine<W>,
    res: Residuals<W>,
)
    requires
        form(code) == Some(Form::DivRem(op)),
        operands(code) == Some(Operands::Of2(Kind::Cell, Kind::Cell)),
    ensures
        does(
            f.lowering(code),
            Action::DivRem { op, lhs: f.operands().0, rhs: f.operands().1 },
            m,
            res,
        ),
{
    lemma_glue();
    reveal(step_outside);
    let words = f.lowering(code);
    match f {
        DivideForm::Rss { .. } => lemma_run_1(words, m, res),
        DivideForm::Rrs { .. } => lemma_run_2(words, 2, m, res),
        DivideForm::Rsr { .. } => lemma_run_2(words, 2, m, res),
        DivideForm::Rsi { .. } => lemma_run_2(words, 3, m, res),
        DivideForm::Rri { .. } => lemma_run_3(words, 2, 5, m, res),
        DivideForm::Ris { .. } => lemma_run_2(words, 3, m, res),
        DivideForm::Rir { .. } => lemma_run_3(words, 3, 5, m, res),
    }
}

/// The words of a division do what the division does.
pub(crate) proof fn lemma_divide<W>(op: DivideOp, m: Machine<W>, res: Residuals<W>)
    ensures
        does(op.lowering(), op.action(), m, res),
{
    lemma_codes();
    lemma_divide_form(op.form(), op.code(), op.function(), m, res);
}

/// Whether the instruction takes a selector and a slot.
spec fn takes_selector(code: i64, f: Form) -> bool {
    &&& form(code) == Some(f)
    &&& operands(code) == Some(Operands::Of2(Kind::Imm, Kind::Cell))
    &&& f is Arith || f is MinMax || f is FloatTest || f is FloatUnary || f is Convert || f is Trunc
        || f is TruncSat
}

/// The function that a selector of minima and maxima names.
spec fn minmax_of(sel: i64) -> FloatBin {
    if sel == 0 {
        FloatBin::Min
    } else if sel == 1 {
        FloatBin::Max
    } else {
        FloatBin::Copysign
    }
}

/// The comparison that a selector names.
spec fn compare_of(sel: int) -> FloatCompare {
    if sel == 0 {
        FloatCompare::Lt
    } else if sel == 1 {
        FloatCompare::Le
    } else if sel == 2 {
        FloatCompare::Eq
    } else {
        FloatCompare::NotEq
    }
}

/// A sum, difference, product or quotient with a slot.
proof fn by_arith<W>(w: FloatWidth, code: i64, sel: i64, s: u16, m: Machine<W>, res: Residuals<W>)
    requires
        takes_selector(code, Form::Arith(w)),
    ensures
        does(
            seq![Code(code), Imm(sel), Slot(s)],
            float_bin(w, arith_of(sel), w.src(), Src::Slot(s)),
            m,
            res,
        ),
{
    lemma_glue();
    reveal(step_outside);
    lemma_run_1(seq![Code(code), Imm(sel), Slot(s)], m, res);
}

/// A sum, difference, product or quotient with an immediate.
proof fn by_copy_arith<W>(
    w: FloatWidth,
    code: i64,
    sel: i64,
    v: i64,
    m: Machine<W>,
    res: Residuals<W>,
)
    requires
        takes_selector(code, Form::Arith(w)),
    ensures
        does(
            seq![Code(MINI_COPY_SI), Scratch(0), Imm(v), Code(code), Imm(sel), Scratch(0)],
            float_bin(w, arith_of(sel), w.src(), Src::Imm(v)),
            m,
            res,
        ),
{
    lemma_glue();
    reveal(step_outside);
    let words = seq![Code(MINI_COPY_SI), Scratch(0), Imm(v), Code(code), Imm(sel), Scratch(0)];
    lemma_run_2(words, 3, m, res);
}

/// A minimum, maximum or change of sign with a slot.
proof fn by_minmax<W>(w: FloatWidth, code: i64, sel: i64, s: u16, m: Machine<W>, res: Residuals<W>)
    requires
        takes_selector(code, Form::MinMax(w)),
        0 <= sel <= 2,
    ensures
        does(
            seq![Code(code), Imm(sel), Slot(s)],
            float_bin(w, minmax_of(sel), w.src(), Src::Slot(s)),
            m,
            res,
        ),
{
    lemma_glue();
    reveal(step_outside);
    lemma_run_1(seq![Code(code), Imm(sel), Slot(s)], m, res);
}

/// A change of the sign of a slot.
proof fn by_copysign_swapped<W>(
    w: FloatWidth,
    code: i64,
    sel: i64,
    s: u16,
    m: Machine<W>,
    res: Residuals<W>,
)
    requires
        takes_selector(code, Form::MinMax(w)),
        sel == 3,
    ensures
        does(
            seq![Code(code), Imm(sel), Slot(s)],
            float_bin(w, FloatBin::Copysign, Src::Slot(s), w.src()),
            m,
            res,
        ),
{
    lemma_glue();
    reveal(step_outside);
    lemma_run_1(seq![Code(code), Imm(sel), Slot(s)], m, res);
}

/// A minimum or maximum with an immediate.
proof fn by_copy_minmax<W>(
    w: FloatWidth,
    code: i64,
    sel: i64,
    v: i64,
    m: Machine<W>,
    res: Residuals<W>,
)
    requires
        takes_selector(code, Form::MinMax(w)),
        0 <= sel <= 2,
    ensures
        does(
            seq![Code(MINI_COPY_SI), Scratch(0), Imm(v), Code(code), Imm(sel), Scratch(0)],
            float_bin(w, minmax_of(sel), w.src(), Src::Imm(v)),
            m,
            res,
        ),
{
    lemma_glue();
    reveal(step_outside);
    let words = seq![Code(MINI_COPY_SI), Scratch(0), Imm(v), Code(code), Imm(sel), Scratch(0)];
    lemma_run_2(words, 3, m, res);
}

/// A comparison with a slot.
proof fn by_test<W>(w: FloatWidth, code: i64, sel: i64, s: u16, m: Machine<W>, res: Residuals<W>)
    requires
        takes_selector(code, Form::FloatTest(w)),
        0 <= sel <= 3,
    ensures
        does(
            seq![Code(code), Imm(sel), Slot(s)],
            float_compare(w, compare_of(sel as int), w.src(), Src::Slot(s)),
            m,
            res,
        ),
{
    lemma_glue();
    reveal(step_outside);
    lemma_run_1(seq![Code(code), Imm(sel), Slot(s)], m, res);
}

/// A comparison of a slot with the accumulator.
proof fn by_test_swapped<W>(
    w: FloatWidth,
    code: i64,
    sel: i64,
    s: u16,
    m: Machine<W>,
    res: Residuals<W>,
)
    requires
        takes_selector(code, Form::FloatTest(w)),
        4 <= sel <= 5,
    ensures
        does(
            seq![Code(code), Imm(sel), Slot(s)],
            float_compare(w, compare_of(sel - 4), Src::Slot(s), w.src()),
            m,
            res,
        ),
{
    lemma_glue();
    reveal(step_outside);
    lemma_run_1(seq![Code(code), Imm(sel), Slot(s)], m, res);
}

/// A function of a slot.
proof fn by_unary<W>(w: FloatWidth, code: i64, sel: i64, s: u16, m: Machine<W>, res: Residuals<W>)
    requires
        takes_selector(code, Form::FloatUnary(w)),
    ensures
        does(
            seq![Code(code), Imm(sel), Slot(s)],
            Action::FloatUnary { width: w, op: unary_of(sel), value: Src::Slot(s) },
            m,
            res,
        ),
{
    lemma_glue();
    reveal(step_outside);
    lemma_run_1(seq![Code(code), Imm(sel), Slot(s)], m, res);
}

/// A function of the accumulator.
proof fn by_spill_unary<W>(
    w: FloatWidth,
    spill: i64,
    code: i64,
    sel: i64,
    m: Machine<W>,
    res: Residuals<W>,
)
    requires
        form(spill) == Some(Form::CopyFrom(float_reg(w))),
        operands(spill) == Some(Operands::Of1(Kind::Cell)),
        takes_selector(code, Form::FloatUnary(w)),
    ensures
        does(
            seq![Code(spill), Scratch(0), Code(code), Imm(sel), Scratch(0)],
            Action::FloatUnary { width: w, op: unary_of(sel), value: w.src() },
            m,
            res,
        ),
{
    lemma_glue();
    reveal(step_outside);
    lemma_run_2(seq![Code(spill), Scratch(0), Code(code), Imm(sel), Scratch(0)], 2, m, res);
}

/// A conversion of a slot.
proof fn by_convert<W>(w: FloatWidth, code: i64, sel: i64, s: u16, m: Machine<W>, res: Residuals<W>)
    requires
        takes_selector(code, Form::Convert(w)),
    ensures
        does(
            seq![Code(code), Imm(sel), Slot(s)],
            Action::Convert { op: Conversion::Convert(w, kind_of(sel)), value: Src::Slot(s) },
            m,
            res,
        ),
{
    lemma_glue();
    reveal(step_outside);
    lemma_run_1(seq![Code(code), Imm(sel), Slot(s)], m, res);
}

/// A conversion of an accumulator.
proof fn by_spill_convert<W>(
    w: FloatWidth,
    spill: i64,
    code: i64,
    sel: i64,
    m: Machine<W>,
    res: Residuals<W>,
)
    requires
        form(spill) == Some(Form::CopyFrom(Reg::Ireg)),
        operands(spill) == Some(Operands::Of1(Kind::Cell)),
        takes_selector(code, Form::Convert(w)),
    ensures
        does(
            seq![Code(spill), Scratch(0), Code(code), Imm(sel), Scratch(0)],
            Action::Convert { op: Conversion::Convert(w, kind_of(sel)), value: Src::Ireg },
            m,
            res,
        ),
{
    lemma_glue();
    reveal(step_outside);
    lemma_run_2(seq![Code(spill), Scratch(0), Code(code), Imm(sel), Scratch(0)], 2, m, res);
}

/// A conversion of a slot.
proof fn by_trunc<W>(w: FloatWidth, code: i64, sel: i64, s: u16, m: Machine<W>, res: Residuals<W>)
    requires
        takes_selector(code, Form::Trunc(w)),
    ensures
        does(
            seq![Code(code), Imm(sel), Slot(s)],
            Action::Convert { op: Conversion::Trunc(w, kind_of(sel)), value: Src::Slot(s) },
            m,
            res,
        ),
{
    lemma_glue();
    reveal(step_outside);
    lemma_run_1(seq![Code(code), Imm(sel), Slot(s)], m, res);
}

/// A conversion of an accumulator.
proof fn by_spill_trunc<W>(
    w: FloatWidth,
    spill: i64,
    code: i64,
    sel: i64,
    m: Machine<W>,
    res: Residuals<W>,
)
    requires
        form(spill) == Some(Form::CopyFrom(float_reg(w))),
        operands(spill) == Some(Operands::Of1(Kind::Cell)),
        takes_selector(code, Form::Trunc(w)),
    ensures
        does(
            seq![Code(spill), Scratch(0), Code(code), Imm(sel), Scratch(0)],
            Action::Convert { op: Conversion::Trunc(w, kind_of(sel)), value: w.src() },
            m,
            res,
        ),
{
    lemma_glue();
    reveal(step_outside);
    lemma_run_2(seq![Code(spill), Scratch(0), Code(code), Imm(sel), Scratch(0)], 2, m, res);
}

/// A conversion of a slot.
proof fn by_trunc_sat<W>(
    w: FloatWidth,
    code: i64,
    sel: i64,
    s: u16,
    m: Machine<W>,
    res: Residuals<W>,
)
    requires
        takes_selector(code, Form::TruncSat(w)),
    ensures
        does(
            seq![Code(code), Imm(sel), Slot(s)],
            Action::Convert { op: Conversion::TruncSat(w, kind_of(sel)), value: Src::Slot(s) },
            m,
            res,
        ),
{
    lemma_glue();
    reveal(step_outside);
    lemma_run_1(seq![Code(code), Imm(sel), Slot(s)], m, res);
}

/// A conversion of an accumulator.
proof fn by_spill_trunc_sat<W>(
    w: FloatWidth,
    spill: i64,
    code: i64,
    sel: i64,
    m: Machine<W>,
    res: Residuals<W>,
)
    requires
        form(spill) == Some(Form::CopyFrom(float_reg(w))),
        operands(spill) == Some(Operands::Of1(Kind::Cell)),
        takes_selector(code, Form::TruncSat(w)),
    ensures
        does(
            seq![Code(spill), Scratch(0), Code(code), Imm(sel), Scratch(0)],
            Action::Convert { op: Conversion::TruncSat(w, kind_of(sel)), value: w.src() },
            m,
            res,
        ),
{
    lemma_glue();
    reveal(step_outside);
    lemma_run_2(seq![Code(spill), Scratch(0), Code(code), Imm(sel), Scratch(0)], 2, m, res);
}

/// What the words of a float operation do.
#[verifier::rlimit(40)]
pub(crate) proof fn lemma_float<W>(op: FloatOp, w: FloatWidth, m: Machine<W>, res: Residuals<W>)
    ensures
        does(op.lowering(w), op.effect(w), m, res),
{
    lemma_codes();
    let arith = w.arith_code();
    let minmax = w.minmax_code();
    let test = w.compare_code();
    match op {
        FloatOp::Add_Rrs { rhs } => by_arith(w, arith, 0, rhs, m, res),
        FloatOp::Add_Rsr { lhs } => by_arith(w, arith, 0, lhs, m, res),
        FloatOp::Add_Rri { bits } => by_copy_arith(w, arith, 0, bits as i64, m, res),
        FloatOp::Sub_Rrs { rhs } => by_arith(w, arith, 1, rhs, m, res),
        FloatOp::Sub_Rri { bits } => by_copy_arith(w, arith, 1, bits as i64, m, res),
        FloatOp::Mul_Rrs { rhs } => by_arith(w, arith, 2, rhs, m, res),
        FloatOp::Mul_Rri { bits } => by_copy_arith(w, arith, 2, bits as i64, m, res),
        FloatOp::Div_Rrs { rhs } => by_arith(w, arith, 3, rhs, m, res),
        FloatOp::Div_Rri { bits } => by_copy_arith(w, arith, 3, bits as i64, m, res),
        FloatOp::Min_Rrs { rhs } => by_minmax(w, minmax, 0, rhs, m, res),
        FloatOp::Min_Rsr { lhs } => by_minmax(w, minmax, 0, lhs, m, res),
        FloatOp::Min_Rri { bits } => by_copy_minmax(w, minmax, 0, bits as i64, m, res),
        FloatOp::Max_Rrs { rhs } => by_minmax(w, minmax, 1, rhs, m, res),
        FloatOp::Max_Rsr { lhs } => by_minmax(w, minmax, 1, lhs, m, res),
        FloatOp::Max_Rri { bits } => by_copy_minmax(w, minmax, 1, bits as i64, m, res),
        FloatOp::Copysign_Rrs { rhs } => by_minmax(w, minmax, 2, rhs, m, res),
        FloatOp::Copysign_Rsr { lhs } => by_copysign_swapped(w, minmax, 3, lhs, m, res),
        FloatOp::Lt_Rrs { rhs } => by_test(w, test, 0, rhs, m, res),
        FloatOp::Lt_Rsr { lhs } => by_test_swapped(w, test, 4, lhs, m, res),
        FloatOp::Le_Rrs { rhs } => by_test(w, test, 1, rhs, m, res),
        FloatOp::Le_Rsr { lhs } => by_test_swapped(w, test, 5, lhs, m, res),
        FloatOp::Eq_Rrs { rhs } => by_test(w, test, 2, rhs, m, res),
        FloatOp::NotEq_Rrs { rhs } => by_test(w, test, 3, rhs, m, res),
        FloatOp::Unary_Rs { op, value } => {
            by_unary(w, w.unary_code(), op.selector(), value, m, res);
        },
        FloatOp::Unary_Rr { op } => {
            by_spill_unary(w, w.spill_code(), w.unary_code(), op.selector(), m, res);
        },
    }
}

/// Where the order of swapped operands does not matter, the words do what the operation does.
pub(crate) proof fn lemma_float_faithful<W>(
    op: FloatOp,
    w: FloatWidth,
    m: Machine<W>,
    res: Residuals<W>,
)
    requires
        op.order_free(w, m, res),
    ensures
        perform(op.effect(w), m, res) == perform(op.action(w), m, res),
{
}

/// The words of a conversion do what the conversion does.
#[verifier::rlimit(40)]
pub(crate) proof fn lemma_convert<W>(op: ConvertOp, m: Machine<W>, res: Residuals<W>)
    ensures
        does(op.lowering(), op.action(), m, res),
{
    lemma_codes();
    match op {
        ConvertOp::Convert_Rs { to, from, value } => {
            by_convert(to, to.convert_code(), from.selector(), value, m, res);
        },
        ConvertOp::Convert_Rr { to, from } => {
            by_spill_convert(to, MINI_COPY_SR, to.convert_code(), from.selector(), m, res);
        },
        ConvertOp::Trunc_Rs { from, to, value } => {
            by_trunc(from, from.trunc_code(), to.selector(), value, m, res);
        },
        ConvertOp::Trunc_Rr { from, to } => {
            by_spill_trunc(from, from.spill_code(), from.trunc_code(), to.selector(), m, res);
        },
        ConvertOp::TruncSat_Rs { from, to, value } => {
            by_trunc_sat(from, from.trunc_sat_code(), to.selector(), value, m, res);
        },
        ConvertOp::TruncSat_Rr { from, to } => {
            let code = from.trunc_sat_code();
            by_spill_trunc_sat(from, from.spill_code(), code, to.selector(), m, res);
        },
        _ => lemma_convert_unselected(op, m, res),
    }
}

/// The words of a conversion without a selector do what the conversion does.
#[verifier::rlimit(40)]
proof fn lemma_convert_unselected<W>(op: ConvertOp, m: Machine<W>, res: Residuals<W>)
    requires
        !(op is Convert_Rs || op is Convert_Rr || op is Trunc_Rs || op is Trunc_Rr),
        !(op is TruncSat_Rs || op is TruncSat_Rr),
    ensures
        does(op.lowering(), op.action(), m, res),
{
    lemma_codes();
    reveal(step_outside);
    if op is F64PromoteF32_Rr || op is F32DemoteF64_Rr {
        lemma_run_2(op.lowering(), 2, m, res);
    } else {
        lemma_run_1(op.lowering(), m, res);
    }
}

} // verus!
