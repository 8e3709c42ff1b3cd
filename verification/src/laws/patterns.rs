//! The runs of the instruction sequences that operations are lowered to.
//!
//! Each lemma is about one pattern: an instruction alone, or behind copies that bring its
//! operands to where it reads them.

use crate::action::{Action, BinOp, Flow, Machine, Reg, Residuals, Src};
use crate::kernel::{does, does_but_ireg, form, run, run_from, step, Form};
use crate::mini::{
    MINI_BR_ALWAYS, MINI_BR_I32_NE_RI, MINI_COPY_RI, MINI_COPY_RS, MINI_COPY_SI, MINI_COPY_SR,
    MINI_COPY_S_F32R, MINI_COPY_S_FR,
};
use crate::word::Word::{Code, Imm, Scratch, Slot, Target};
use crate::word::{instruction_at, operands, shaped, shaped_from, width_at, Kind, Operands, Word};
use vstd::prelude::*;

verus! {

impl BinOp {
    /// Whether the function is a comparison.
    pub open spec fn is_test(self) -> bool {
        match self {
            BinOp::I32Eq => true,
            BinOp::I32Ne => true,
            BinOp::I32Lt => true,
            BinOp::I32Le => true,
            BinOp::U32Lt => true,
            BinOp::U32Le => true,
            BinOp::I64Eq => true,
            BinOp::I64Ne => true,
            BinOp::I64Lt => true,
            BinOp::I64Le => true,
            BinOp::U64Lt => true,
            BinOp::U64Le => true,
            _ => false,
        }
    }

    /// A comparison yields 0 or 1, so that its low 32 bits tell which.
    pub proof fn lemma_test(self, a: i64, b: i64)
        requires
            self.is_test(),
        ensures
            self.eval(a, b) == 0 || self.eval(a, b) == 1,
            (BinOp::I32Ne.eval(self.eval(a, b), 0) != 0) == (self.eval(a, b) != 0),
    {
        reveal(BinOp::eval);
    }

    /// Whether the order of the operands does not matter.
    pub open spec fn is_commutative(self) -> bool {
        match self {
            BinOp::I32Mul => true,
            BinOp::I32And => true,
            BinOp::I32Or => true,
            BinOp::I32Xor => true,
            BinOp::I64Mul => true,
            BinOp::I64And => true,
            BinOp::I64Or => true,
            BinOp::I64Xor => true,
            _ => false,
        }
    }

    /// Products and bitwise functions do not depend on the order of their operands.
    pub proof fn lemma_commutes(self, a: i64, b: i64)
        requires
            self.is_commutative(),
        ensures
            self.eval(a, b) == self.eval(b, a),
    {
        reveal(BinOp::eval);
        assert(a * b == b * a) by (nonlinear_arith);
        assert(a & b == b & a) by (bit_vector);
        assert(a | b == b | a) by (bit_vector);
        assert(a ^ b == b ^ a) by (bit_vector);
    }
}

/// The instructions that stand before others.
pub(crate) proof fn lemma_glue()
    ensures
        form(MINI_COPY_SI) == Some(Form::CopySi),
        operands(MINI_COPY_SI) == Some(Operands::Of2(Kind::Cell, Kind::Imm)),
        form(MINI_COPY_SR) == Some(Form::CopyFrom(Reg::Ireg)),
        operands(MINI_COPY_SR) == Some(Operands::Of1(Kind::Cell)),
        form(MINI_COPY_S_FR) == Some(Form::CopyFrom(Reg::Freg64)),
        operands(MINI_COPY_S_FR) == Some(Operands::Of1(Kind::Cell)),
        form(MINI_COPY_S_F32R) == Some(Form::CopyFrom(Reg::Freg32)),
        operands(MINI_COPY_S_F32R) == Some(Operands::Of1(Kind::Cell)),
        form(MINI_COPY_RS) == Some(Form::CopyRs),
        operands(MINI_COPY_RS) == Some(Operands::Of1(Kind::Cell)),
        form(MINI_COPY_RI) == Some(Form::CopyRi),
        operands(MINI_COPY_RI) == Some(Operands::Of1(Kind::Imm)),
        form(MINI_BR_I32_NE_RI) == Some(Form::BrRi(BinOp::I32Ne)),
        operands(MINI_BR_I32_NE_RI) == Some(Operands::Of2(Kind::Target, Kind::Imm)),
{
    reveal(form);
    reveal(operands);
}

/// One instruction.
pub(crate) proof fn lemma_run_1<W>(words: Seq<Word>, m: Machine<W>, res: Residuals<W>)
    requires
        instruction_at(words, 0),
        width_at(words, 0) == words.len(),
    ensures
        shaped(words),
        run(words, m, res) == step(words, 0, m, res),
{
    reveal(shaped);
    reveal(run);
    reveal_with_fuel(shaped_from, 2);
    reveal_with_fuel(run_from, 2);
}

/// What the instruction at `at` does behind those that led to `before`.
pub(crate) open spec fn follow<W>(
    words: Seq<Word>,
    at: int,
    before: (Machine<W>, Flow),
    res: Residuals<W>,
) -> (Machine<W>, Flow) {
    step(words, at, before.0, res)
}

/// Two instructions, the second at `b`.
pub(crate) proof fn lemma_run_2<W>(words: Seq<Word>, b: int, m: Machine<W>, res: Residuals<W>)
    requires
        instruction_at(words, 0),
        width_at(words, 0) == b,
        step(words, 0, m, res).1 is Next,
        instruction_at(words, b),
        b + width_at(words, b) == words.len(),
    ensures
        shaped(words),
        run(words, m, res) == follow(words, b, step(words, 0, m, res), res),
{
    reveal(shaped);
    reveal(run);
    reveal_with_fuel(shaped_from, 3);
    reveal_with_fuel(run_from, 3);
}

/// Three instructions, the others at `b` and `c`.
pub(crate) proof fn lemma_run_3<W>(
    words: Seq<Word>,
    b: int,
    c: int,
    m: Machine<W>,
    res: Residuals<W>,
)
    requires
        instruction_at(words, 0),
        width_at(words, 0) == b,
        step(words, 0, m, res).1 is Next,
        instruction_at(words, b),
        b + width_at(words, b) == c,
        follow(words, b, step(words, 0, m, res), res).1 is Next,
        instruction_at(words, c),
        c + width_at(words, c) == words.len(),
    ensures
        shaped(words),
        run(words, m, res) == follow(
            words,
            c,
            follow(words, b, step(words, 0, m, res), res),
            res,
        ),
{
    reveal(shaped);
    reveal(run);
    reveal_with_fuel(shaped_from, 4);
    reveal_with_fuel(run_from, 4);
}

/// Four instructions, the others at `b`, `c` and `d`.
pub(crate) proof fn lemma_run_4<W>(
    words: Seq<Word>,
    b: int,
    c: int,
    d: int,
    m: Machine<W>,
    res: Residuals<W>,
)
    requires
        instruction_at(words, 0),
        width_at(words, 0) == b,
        step(words, 0, m, res).1 is Next,
        instruction_at(words, b),
        b + width_at(words, b) == c,
        follow(words, b, step(words, 0, m, res), res).1 is Next,
        instruction_at(words, c),
        c + width_at(words, c) == d,
        follow(words, c, follow(words, b, step(words, 0, m, res), res), res).1 is Next,
        instruction_at(words, d),
        d + width_at(words, d) == words.len(),
    ensures
        shaped(words),
        run(words, m, res) == follow(
            words,
            d,
            follow(words, c, follow(words, b, step(words, 0, m, res), res), res),
            res,
        ),
{
    reveal(shaped);
    reveal(run);
    reveal_with_fuel(shaped_from, 5);
    reveal_with_fuel(run_from, 5);
}

/// Five instructions, the others at `b`, `c`, `d` and `e`.
pub(crate) proof fn lemma_run_5<W>(
    words: Seq<Word>,
    b: int,
    c: int,
    d: int,
    e: int,
    m: Machine<W>,
    res: Residuals<W>,
)
    requires
        instruction_at(words, 0),
        width_at(words, 0) == b,
        step(words, 0, m, res).1 is Next,
        instruction_at(words, b),
        b + width_at(words, b) == c,
        follow(words, b, step(words, 0, m, res), res).1 is Next,
        instruction_at(words, c),
        c + width_at(words, c) == d,
        follow(words, c, follow(words, b, step(words, 0, m, res), res), res).1 is Next,
        instruction_at(words, d),
        d + width_at(words, d) == e,
        follow(
            words,
            d,
            follow(words, c, follow(words, b, step(words, 0, m, res), res), res),
            res,
        ).1 is Next,
        instruction_at(words, e),
        e + width_at(words, e) == words.len(),
    ensures
        shaped(words),
        run(words, m, res) == follow(
            words,
            e,
            follow(
                words,
                d,
                follow(words, c, follow(words, b, step(words, 0, m, res), res), res),
                res,
            ),
            res,
        ),
{
    reveal(shaped);
    reveal(run);
    reveal_with_fuel(shaped_from, 6);
    reveal_with_fuel(run_from, 6);
}

/// `ireg = op(slots[lhs], slots[rhs])`.
pub(crate) proof fn by_ss<W>(
    code: i64,
    op: BinOp,
    lhs: u16,
    rhs: u16,
    m: Machine<W>,
    res: Residuals<W>,
)
    requires
        form(code) == Some(Form::Ss(op)),
        operands(code) == Some(Operands::Of2(Kind::Cell, Kind::Cell)),
    ensures
        does(
            seq![Code(code), Slot(lhs), Slot(rhs)],
            Action::Bin { op, lhs: Src::Slot(lhs), rhs: Src::Slot(rhs), tee: None },
            m,
            res,
        ),
{
    let words = seq![Code(code), Slot(lhs), Slot(rhs)];
    lemma_run_1(words, m, res);
}

/// `ireg = op(ireg, slots[rhs])`.
pub(crate) proof fn by_rs<W>(
    code: i64,
    op: BinOp,
    rhs: u16,
    m: Machine<W>,
    res: Residuals<W>,
)
    requires
        form(code) == Some(Form::Rs(op)),
        operands(code) == Some(Operands::Of1(Kind::Cell)),
    ensures
        does(
            seq![Code(code), Slot(rhs)],
            Action::Bin { op, lhs: Src::Ireg, rhs: Src::Slot(rhs), tee: None },
            m,
            res,
        ),
{
    let words = seq![Code(code), Slot(rhs)];
    lemma_run_1(words, m, res);
}

/// `ireg = op(slots[lhs], ireg)`.
pub(crate) proof fn by_sr<W>(
    code: i64,
    op: BinOp,
    lhs: u16,
    m: Machine<W>,
    res: Residuals<W>,
)
    requires
        form(code) == Some(Form::Sr(op)),
        operands(code) == Some(Operands::Of1(Kind::Cell)),
    ensures
        does(
            seq![Code(code), Slot(lhs)],
            Action::Bin { op, lhs: Src::Slot(lhs), rhs: Src::Ireg, tee: None },
            m,
            res,
        ),
{
    let words = seq![Code(code), Slot(lhs)];
    lemma_run_1(words, m, res);
}

/// `ireg = op(slots[lhs], rhs)`.
pub(crate) proof fn by_si<W>(
    code: i64,
    op: BinOp,
    lhs: u16,
    rhs: i64,
    m: Machine<W>,
    res: Residuals<W>,
)
    requires
        form(code) == Some(Form::Si(op)),
        operands(code) == Some(Operands::Of2(Kind::Cell, Kind::Imm)),
    ensures
        does(
            seq![Code(code), Slot(lhs), Imm(rhs)],
            Action::Bin { op, lhs: Src::Slot(lhs), rhs: Src::Imm(rhs), tee: None },
            m,
            res,
        ),
{
    let words = seq![Code(code), Slot(lhs), Imm(rhs)];
    lemma_run_1(words, m, res);
}

/// `ireg = op(ireg, rhs)`.
pub(crate) proof fn by_ri<W>(
    code: i64,
    op: BinOp,
    rhs: i64,
    m: Machine<W>,
    res: Residuals<W>,
)
    requires
        form(code) == Some(Form::Ri(op)),
        operands(code) == Some(Operands::Of1(Kind::Imm)),
    ensures
        does(
            seq![Code(code), Imm(rhs)],
            Action::Bin { op, lhs: Src::Ireg, rhs: Src::Imm(rhs), tee: None },
            m,
            res,
        ),
{
    let words = seq![Code(code), Imm(rhs)];
    lemma_run_1(words, m, res);
}

/// `ireg = op(lhs, slots[rhs])`.
pub(crate) proof fn by_is<W>(
    code: i64,
    op: BinOp,
    lhs: i64,
    rhs: u16,
    m: Machine<W>,
    res: Residuals<W>,
)
    requires
        form(code) == Some(Form::Is(op)),
        operands(code) == Some(Operands::Of2(Kind::Imm, Kind::Cell)),
    ensures
        does(
            seq![Code(code), Imm(lhs), Slot(rhs)],
            Action::Bin { op, lhs: Src::Imm(lhs), rhs: Src::Slot(rhs), tee: None },
            m,
            res,
        ),
{
    let words = seq![Code(code), Imm(lhs), Slot(rhs)];
    lemma_run_1(words, m, res);
}

/// `slots[result] = ireg = op(slots[lhs], slots[rhs])`.
pub(crate) proof fn by_ss_wb<W>(
    code: i64,
    op: BinOp,
    result: u16,
    lhs: u16,
    rhs: u16,
    m: Machine<W>,
    res: Residuals<W>,
)
    requires
        form(code) == Some(Form::SsWb(op)),
        operands(code) == Some(Operands::Of3(Kind::Cell, Kind::Cell, Kind::Cell)),
    ensures
        does(
            seq![Code(code), Slot(result), Slot(lhs), Slot(rhs)],
            Action::Bin { op, lhs: Src::Slot(lhs), rhs: Src::Slot(rhs), tee: Some(result) },
            m,
            res,
        ),
{
    let words = seq![Code(code), Slot(result), Slot(lhs), Slot(rhs)];
    lemma_run_1(words, m, res);
}

/// `ireg = op(slots[lhs], slots[rhs])`.
pub(crate) proof fn by_ss_wb_scratch<W>(
    code: i64,
    op: BinOp,
    lhs: u16,
    rhs: u16,
    m: Machine<W>,
    res: Residuals<W>,
)
    requires
        form(code) == Some(Form::SsWb(op)),
        operands(code) == Some(Operands::Of3(Kind::Cell, Kind::Cell, Kind::Cell)),
    ensures
        does(
            seq![Code(code), Scratch(0), Slot(lhs), Slot(rhs)],
            Action::Bin { op, lhs: Src::Slot(lhs), rhs: Src::Slot(rhs), tee: None },
            m,
            res,
        ),
{
    let words = seq![Code(code), Scratch(0), Slot(lhs), Slot(rhs)];
    lemma_run_1(words, m, res);
}

/// `slots[result] = ireg = op(ireg, slots[rhs])`.
pub(crate) proof fn by_rs_wb<W>(
    code: i64,
    op: BinOp,
    result: u16,
    rhs: u16,
    m: Machine<W>,
    res: Residuals<W>,
)
    requires
        form(code) == Some(Form::RsWb(op)),
        operands(code) == Some(Operands::Of2(Kind::Cell, Kind::Cell)),
    ensures
        does(
            seq![Code(code), Slot(result), Slot(rhs)],
            Action::Bin { op, lhs: Src::Ireg, rhs: Src::Slot(rhs), tee: Some(result) },
            m,
            res,
        ),
{
    let words = seq![Code(code), Slot(result), Slot(rhs)];
    lemma_run_1(words, m, res);
}

/// `slots[result] = ireg = op(slots[lhs], rhs)`.
pub(crate) proof fn by_si_wb<W>(
    code: i64,
    op: BinOp,
    result: u16,
    lhs: u16,
    rhs: i64,
    m: Machine<W>,
    res: Residuals<W>,
)
    requires
        form(code) == Some(Form::SiWb(op)),
        operands(code) == Some(Operands::Of3(Kind::Cell, Kind::Cell, Kind::Imm)),
    ensures
        does(
            seq![Code(code), Slot(result), Slot(lhs), Imm(rhs)],
            Action::Bin { op, lhs: Src::Slot(lhs), rhs: Src::Imm(rhs), tee: Some(result) },
            m,
            res,
        ),
{
    let words = seq![Code(code), Slot(result), Slot(lhs), Imm(rhs)];
    lemma_run_1(words, m, res);
}

/// `ireg = op(slots[lhs], rhs)`, behind a copy.
pub(crate) proof fn by_copy_then_ss_rhs<W>(
    code: i64,
    op: BinOp,
    lhs: u16,
    rhs: i64,
    m: Machine<W>,
    res: Residuals<W>,
)
    requires
        form(code) == Some(Form::Ss(op)),
        operands(code) == Some(Operands::Of2(Kind::Cell, Kind::Cell)),
    ensures
        does(
            seq![Code(MINI_COPY_SI), Scratch(0), Imm(rhs), Code(code), Slot(lhs), Scratch(0)],
            Action::Bin { op, lhs: Src::Slot(lhs), rhs: Src::Imm(rhs), tee: None },
            m,
            res,
        ),
{
    lemma_glue();
    let words = seq![Code(MINI_COPY_SI), Scratch(0), Imm(rhs), Code(code), Slot(lhs), Scratch(0)];
    lemma_run_2(words, 3, m, res);
}

/// `ireg = op(lhs, slots[rhs])`, behind a copy.
pub(crate) proof fn by_copy_then_ss_lhs<W>(
    code: i64,
    op: BinOp,
    lhs: i64,
    rhs: u16,
    m: Machine<W>,
    res: Residuals<W>,
)
    requires
        form(code) == Some(Form::Ss(op)),
        operands(code) == Some(Operands::Of2(Kind::Cell, Kind::Cell)),
    ensures
        does(
            seq![Code(MINI_COPY_SI), Scratch(0), Imm(lhs), Code(code), Scratch(0), Slot(rhs)],
            Action::Bin { op, lhs: Src::Imm(lhs), rhs: Src::Slot(rhs), tee: None },
            m,
            res,
        ),
{
    lemma_glue();
    let words = seq![Code(MINI_COPY_SI), Scratch(0), Imm(lhs), Code(code), Scratch(0), Slot(rhs)];
    lemma_run_2(words, 3, m, res);
}

/// `ireg = op(ireg, rhs)`, behind a copy.
pub(crate) proof fn by_copy_then_rs<W>(
    code: i64,
    op: BinOp,
    rhs: i64,
    m: Machine<W>,
    res: Residuals<W>,
)
    requires
        form(code) == Some(Form::Rs(op)),
        operands(code) == Some(Operands::Of1(Kind::Cell)),
    ensures
        does(
            seq![Code(MINI_COPY_SI), Scratch(0), Imm(rhs), Code(code), Scratch(0)],
            Action::Bin { op, lhs: Src::Ireg, rhs: Src::Imm(rhs), tee: None },
            m,
            res,
        ),
{
    lemma_glue();
    let words = seq![Code(MINI_COPY_SI), Scratch(0), Imm(rhs), Code(code), Scratch(0)];
    lemma_run_2(words, 3, m, res);
}

/// `ireg = op(lhs, ireg)`, behind two copies.
pub(crate) proof fn by_swap_then_rs<W>(
    code: i64,
    op: BinOp,
    lhs: i64,
    m: Machine<W>,
    res: Residuals<W>,
)
    requires
        form(code) == Some(Form::Rs(op)),
        operands(code) == Some(Operands::Of1(Kind::Cell)),
    ensures
        does(
            seq![
                Code(MINI_COPY_SR), Scratch(0),
                Code(MINI_COPY_RI), Imm(lhs),
                Code(code), Scratch(0),
            ],
            Action::Bin { op, lhs: Src::Imm(lhs), rhs: Src::Ireg, tee: None },
            m,
            res,
        ),
{
    lemma_glue();
    let words = seq![
        Code(MINI_COPY_SR), Scratch(0),
        Code(MINI_COPY_RI), Imm(lhs),
        Code(code), Scratch(0),
    ];
    lemma_run_3(words, 2, 4, m, res);
}

/// `ireg = op(slots[lhs], ireg)`, behind a copy.
pub(crate) proof fn by_spill_then_ss_rhs<W>(
    code: i64,
    op: BinOp,
    lhs: u16,
    m: Machine<W>,
    res: Residuals<W>,
)
    requires
        form(code) == Some(Form::Ss(op)),
        operands(code) == Some(Operands::Of2(Kind::Cell, Kind::Cell)),
    ensures
        does(
            seq![Code(MINI_COPY_SR), Scratch(0), Code(code), Slot(lhs), Scratch(0)],
            Action::Bin { op, lhs: Src::Slot(lhs), rhs: Src::Ireg, tee: None },
            m,
            res,
        ),
{
    lemma_glue();
    let words = seq![Code(MINI_COPY_SR), Scratch(0), Code(code), Slot(lhs), Scratch(0)];
    lemma_run_2(words, 2, m, res);
}

/// `ireg = op(ireg, rhs)`, behind a copy.
pub(crate) proof fn by_spill_then_si<W>(
    code: i64,
    op: BinOp,
    rhs: i64,
    m: Machine<W>,
    res: Residuals<W>,
)
    requires
        form(code) == Some(Form::Si(op)),
        operands(code) == Some(Operands::Of2(Kind::Cell, Kind::Imm)),
    ensures
        does(
            seq![Code(MINI_COPY_SR), Scratch(0), Code(code), Scratch(0), Imm(rhs)],
            Action::Bin { op, lhs: Src::Ireg, rhs: Src::Imm(rhs), tee: None },
            m,
            res,
        ),
{
    lemma_glue();
    let words = seq![Code(MINI_COPY_SR), Scratch(0), Code(code), Scratch(0), Imm(rhs)];
    lemma_run_2(words, 2, m, res);
}

/// `ireg = op(lhs, ireg)`, behind two copies.
pub(crate) proof fn by_copy_spill_then_ss<W>(
    code: i64,
    op: BinOp,
    lhs: i64,
    m: Machine<W>,
    res: Residuals<W>,
)
    requires
        form(code) == Some(Form::Ss(op)),
        operands(code) == Some(Operands::Of2(Kind::Cell, Kind::Cell)),
    ensures
        does(
            seq![
                Code(MINI_COPY_SI), Scratch(0), Imm(lhs),
                Code(MINI_COPY_SR), Scratch(1),
                Code(code), Scratch(0), Scratch(1),
            ],
            Action::Bin { op, lhs: Src::Imm(lhs), rhs: Src::Ireg, tee: None },
            m,
            res,
        ),
{
    lemma_glue();
    let words = seq![
        Code(MINI_COPY_SI), Scratch(0), Imm(lhs),
        Code(MINI_COPY_SR), Scratch(1),
        Code(code), Scratch(0), Scratch(1),
    ];
    lemma_run_3(words, 3, 5, m, res);
}

/// `slots[result] = ireg = op(ireg, rhs)`, behind a copy.
pub(crate) proof fn by_copy_then_rs_wb<W>(
    code: i64,
    op: BinOp,
    result: u16,
    rhs: i64,
    m: Machine<W>,
    res: Residuals<W>,
)
    requires
        form(code) == Some(Form::RsWb(op)),
        operands(code) == Some(Operands::Of2(Kind::Cell, Kind::Cell)),
    ensures
        does(
            seq![Code(MINI_COPY_SI), Scratch(0), Imm(rhs), Code(code), Slot(result), Scratch(0)],
            Action::Bin { op, lhs: Src::Ireg, rhs: Src::Imm(rhs), tee: Some(result) },
            m,
            res,
        ),
{
    lemma_glue();
    let words = seq![
        Code(MINI_COPY_SI), Scratch(0), Imm(rhs),
        Code(code), Slot(result), Scratch(0),
    ];
    lemma_run_2(words, 3, m, res);
}

/// `ireg = op(ireg, rhs)`, behind a copy.
pub(crate) proof fn by_copy_then_rs_wb_scratch<W>(
    code: i64,
    op: BinOp,
    rhs: i64,
    m: Machine<W>,
    res: Residuals<W>,
)
    requires
        form(code) == Some(Form::RsWb(op)),
        operands(code) == Some(Operands::Of2(Kind::Cell, Kind::Cell)),
    ensures
        does(
            seq![Code(MINI_COPY_SI), Scratch(1), Imm(rhs), Code(code), Scratch(0), Scratch(1)],
            Action::Bin { op, lhs: Src::Ireg, rhs: Src::Imm(rhs), tee: None },
            m,
            res,
        ),
{
    lemma_glue();
    let words = seq![Code(MINI_COPY_SI), Scratch(1), Imm(rhs), Code(code), Scratch(0), Scratch(1)];
    lemma_run_2(words, 3, m, res);
}

/// `slots[result] = ireg = op(slots[lhs], rhs)`, behind a copy.
pub(crate) proof fn by_copy_then_ss_wb<W>(
    code: i64,
    op: BinOp,
    result: u16,
    lhs: u16,
    rhs: i64,
    m: Machine<W>,
    res: Residuals<W>,
)
    requires
        form(code) == Some(Form::SsWb(op)),
        operands(code) == Some(Operands::Of3(Kind::Cell, Kind::Cell, Kind::Cell)),
    ensures
        does(
            seq![
                Code(MINI_COPY_SI), Scratch(0), Imm(rhs),
                Code(code), Slot(result), Slot(lhs), Scratch(0),
            ],
            Action::Bin { op, lhs: Src::Slot(lhs), rhs: Src::Imm(rhs), tee: Some(result) },
            m,
            res,
        ),
{
    lemma_glue();
    let words = seq![
        Code(MINI_COPY_SI), Scratch(0), Imm(rhs),
        Code(code), Slot(result), Slot(lhs), Scratch(0),
    ];
    lemma_run_2(words, 3, m, res);
}

/// `ireg = op(slots[lhs], rhs)`, behind a copy.
pub(crate) proof fn by_copy_then_ss_wb_scratch<W>(
    code: i64,
    op: BinOp,
    lhs: u16,
    rhs: i64,
    m: Machine<W>,
    res: Residuals<W>,
)
    requires
        form(code) == Some(Form::SsWb(op)),
        operands(code) == Some(Operands::Of3(Kind::Cell, Kind::Cell, Kind::Cell)),
    ensures
        does(
            seq![
                Code(MINI_COPY_SI), Scratch(1), Imm(rhs),
                Code(code), Scratch(0), Slot(lhs), Scratch(1),
            ],
            Action::Bin { op, lhs: Src::Slot(lhs), rhs: Src::Imm(rhs), tee: None },
            m,
            res,
        ),
{
    lemma_glue();
    let words = seq![
        Code(MINI_COPY_SI), Scratch(1), Imm(rhs),
        Code(code), Scratch(0), Slot(lhs), Scratch(1),
    ];
    lemma_run_2(words, 3, m, res);
}

/// `slots[result] = ireg = op(ireg, rhs)`, behind two copies.
pub(crate) proof fn by_spill_copy_then_ss_wb<W>(
    code: i64,
    op: BinOp,
    result: u16,
    rhs: i64,
    m: Machine<W>,
    res: Residuals<W>,
)
    requires
        form(code) == Some(Form::SsWb(op)),
        operands(code) == Some(Operands::Of3(Kind::Cell, Kind::Cell, Kind::Cell)),
    ensures
        does(
            seq![
                Code(MINI_COPY_SR), Scratch(0),
                Code(MINI_COPY_SI), Scratch(1), Imm(rhs),
                Code(code), Slot(result), Scratch(0), Scratch(1),
            ],
            Action::Bin { op, lhs: Src::Ireg, rhs: Src::Imm(rhs), tee: Some(result) },
            m,
            res,
        ),
{
    lemma_glue();
    let words = seq![
        Code(MINI_COPY_SR), Scratch(0),
        Code(MINI_COPY_SI), Scratch(1), Imm(rhs),
        Code(code), Slot(result), Scratch(0), Scratch(1),
    ];
    lemma_run_3(words, 2, 5, m, res);
}

/// `ireg = op(slots[lhs], rhs)`, behind a copy.
pub(crate) proof fn by_load_then_ri<W>(
    code: i64,
    op: BinOp,
    lhs: u16,
    rhs: i64,
    m: Machine<W>,
    res: Residuals<W>,
)
    requires
        form(code) == Some(Form::Ri(op)),
        operands(code) == Some(Operands::Of1(Kind::Imm)),
    ensures
        does(
            seq![Code(MINI_COPY_RS), Slot(lhs), Code(code), Imm(rhs)],
            Action::Bin { op, lhs: Src::Slot(lhs), rhs: Src::Imm(rhs), tee: None },
            m,
            res,
        ),
{
    lemma_glue();
    let words = seq![Code(MINI_COPY_RS), Slot(lhs), Code(code), Imm(rhs)];
    lemma_run_2(words, 2, m, res);
}

/// A jump if `op(slots[lhs], slots[rhs])`.
pub(crate) proof fn by_br_ss<W>(
    code: i64,
    op: BinOp,
    lhs: u16,
    rhs: u16,
    offset: i32,
    m: Machine<W>,
    res: Residuals<W>,
)
    requires
        form(code) == Some(Form::BrSs(op)),
        operands(code) == Some(Operands::Of3(Kind::Target, Kind::Cell, Kind::Cell)),
    ensures
        does(
            seq![Code(code), Target(offset), Slot(lhs), Slot(rhs)],
            Action::Branch { test: Some((op, Src::Slot(lhs), Src::Slot(rhs))), offset },
            m,
            res,
        ),
{
    let words = seq![Code(code), Target(offset), Slot(lhs), Slot(rhs)];
    lemma_run_1(words, m, res);
}

/// A jump if `op(slots[lhs], rhs)`.
pub(crate) proof fn by_br_si<W>(
    code: i64,
    op: BinOp,
    lhs: u16,
    rhs: i64,
    offset: i32,
    m: Machine<W>,
    res: Residuals<W>,
)
    requires
        form(code) == Some(Form::BrSi(op)),
        operands(code) == Some(Operands::Of3(Kind::Target, Kind::Cell, Kind::Imm)),
    ensures
        does(
            seq![Code(code), Target(offset), Slot(lhs), Imm(rhs)],
            Action::Branch { test: Some((op, Src::Slot(lhs), Src::Imm(rhs))), offset },
            m,
            res,
        ),
{
    let words = seq![Code(code), Target(offset), Slot(lhs), Imm(rhs)];
    lemma_run_1(words, m, res);
}

/// A jump if `op(ireg, rhs)`.
pub(crate) proof fn by_br_ri<W>(
    code: i64,
    op: BinOp,
    rhs: i64,
    offset: i32,
    m: Machine<W>,
    res: Residuals<W>,
)
    requires
        form(code) == Some(Form::BrRi(op)),
        operands(code) == Some(Operands::Of2(Kind::Target, Kind::Imm)),
    ensures
        does(
            seq![Code(code), Target(offset), Imm(rhs)],
            Action::Branch { test: Some((op, Src::Ireg, Src::Imm(rhs))), offset },
            m,
            res,
        ),
{
    let words = seq![Code(code), Target(offset), Imm(rhs)];
    lemma_run_1(words, m, res);
}

/// A jump if `op(lhs, ireg)`.
pub(crate) proof fn by_br_ir<W>(
    code: i64,
    op: BinOp,
    lhs: i64,
    offset: i32,
    m: Machine<W>,
    res: Residuals<W>,
)
    requires
        form(code) == Some(Form::BrIr(op)),
        operands(code) == Some(Operands::Of2(Kind::Target, Kind::Imm)),
    ensures
        does(
            seq![Code(code), Target(offset), Imm(lhs)],
            Action::Branch { test: Some((op, Src::Imm(lhs), Src::Ireg)), offset },
            m,
            res,
        ),
{
    let words = seq![Code(code), Target(offset), Imm(lhs)];
    lemma_run_1(words, m, res);
}

/// A jump if `op(ireg, slots[rhs])`, behind a copy.
pub(crate) proof fn by_spill_then_br_ss<W>(
    code: i64,
    op: BinOp,
    rhs: u16,
    offset: i32,
    m: Machine<W>,
    res: Residuals<W>,
)
    requires
        form(code) == Some(Form::BrSs(op)),
        operands(code) == Some(Operands::Of3(Kind::Target, Kind::Cell, Kind::Cell)),
    ensures
        does(
            seq![Code(MINI_COPY_SR), Scratch(0), Code(code), Target(offset), Scratch(0), Slot(rhs)],
            Action::Branch { test: Some((op, Src::Ireg, Src::Slot(rhs))), offset },
            m,
            res,
        ),
{
    lemma_glue();
    let words = seq![
        Code(MINI_COPY_SR), Scratch(0),
        Code(code), Target(offset), Scratch(0), Slot(rhs),
    ];
    lemma_run_2(words, 2, m, res);
}

/// A jump if `op(ireg, rhs)`, behind a copy.
pub(crate) proof fn by_spill_then_br_si<W>(
    code: i64,
    op: BinOp,
    rhs: i64,
    offset: i32,
    m: Machine<W>,
    res: Residuals<W>,
)
    requires
        form(code) == Some(Form::BrSi(op)),
        operands(code) == Some(Operands::Of3(Kind::Target, Kind::Cell, Kind::Imm)),
    ensures
        does(
            seq![Code(MINI_COPY_SR), Scratch(0), Code(code), Target(offset), Scratch(0), Imm(rhs)],
            Action::Branch { test: Some((op, Src::Ireg, Src::Imm(rhs))), offset },
            m,
            res,
        ),
{
    lemma_glue();
    let words = seq![
        Code(MINI_COPY_SR), Scratch(0),
        Code(code), Target(offset), Scratch(0), Imm(rhs),
    ];
    lemma_run_2(words, 2, m, res);
}

/// A jump if `op(lhs, slots[rhs])`, behind a copy.
pub(crate) proof fn by_copy_then_br_ss<W>(
    code: i64,
    op: BinOp,
    lhs: i64,
    rhs: u16,
    offset: i32,
    m: Machine<W>,
    res: Residuals<W>,
)
    requires
        form(code) == Some(Form::BrSs(op)),
        operands(code) == Some(Operands::Of3(Kind::Target, Kind::Cell, Kind::Cell)),
    ensures
        does(
            seq![
                Code(MINI_COPY_SI), Scratch(0), Imm(lhs),
                Code(code), Target(offset), Scratch(0), Slot(rhs),
            ],
            Action::Branch { test: Some((op, Src::Imm(lhs), Src::Slot(rhs))), offset },
            m,
            res,
        ),
{
    lemma_glue();
    let words = seq![
        Code(MINI_COPY_SI), Scratch(0), Imm(lhs),
        Code(code), Target(offset), Scratch(0), Slot(rhs),
    ];
    lemma_run_2(words, 3, m, res);
}

/// A jump if `op(slots[lhs], rhs)`, behind a copy.
pub(crate) proof fn by_load_then_br_ri<W>(
    code: i64,
    op: BinOp,
    lhs: u16,
    rhs: i64,
    offset: i32,
    m: Machine<W>,
    res: Residuals<W>,
)
    requires
        form(code) == Some(Form::BrRi(op)),
        operands(code) == Some(Operands::Of2(Kind::Target, Kind::Imm)),
    ensures
        does_but_ireg(
            seq![Code(MINI_COPY_RS), Slot(lhs), Code(code), Target(offset), Imm(rhs)],
            Action::Branch { test: Some((op, Src::Slot(lhs), Src::Imm(rhs))), offset },
            m,
            res,
        ),
{
    lemma_glue();
    let words = seq![Code(MINI_COPY_RS), Slot(lhs), Code(code), Target(offset), Imm(rhs)];
    lemma_run_2(words, 2, m, res);
}

/// A jump if `op(slots[lhs], slots[rhs])`, by a test into the accumulator.
pub(crate) proof fn by_test_ss<W>(
    code: i64,
    op: BinOp,
    lhs: u16,
    rhs: u16,
    offset: i32,
    m: Machine<W>,
    res: Residuals<W>,
)
    requires
        form(code) == Some(Form::Ss(op)),
        operands(code) == Some(Operands::Of2(Kind::Cell, Kind::Cell)),
        op.is_test(),
    ensures
        does_but_ireg(
            seq![Code(code), Slot(lhs), Slot(rhs), Code(MINI_BR_I32_NE_RI), Target(offset), Imm(0)],
            Action::Branch { test: Some((op, Src::Slot(lhs), Src::Slot(rhs))), offset },
            m,
            res,
        ),
{
    lemma_glue();
    let words = seq![
        Code(code), Slot(lhs), Slot(rhs),
        Code(MINI_BR_I32_NE_RI), Target(offset), Imm(0),
    ];
    op.lemma_test(m.value(Src::Slot(lhs)), m.value(Src::Slot(rhs)));
    let tested = step(words, 0, m, res);
    assert(tested.1 is Next);
    assert(tested.0.ireg == op.eval(m.value(Src::Slot(lhs)), m.value(Src::Slot(rhs))));
    lemma_run_2(words, 3, m, res);
}

/// A jump if `op(ireg, slots[rhs])`, by a test into the accumulator.
pub(crate) proof fn by_test_rs<W>(
    code: i64,
    op: BinOp,
    rhs: u16,
    offset: i32,
    m: Machine<W>,
    res: Residuals<W>,
)
    requires
        form(code) == Some(Form::Rs(op)),
        operands(code) == Some(Operands::Of1(Kind::Cell)),
        op.is_test(),
    ensures
        does_but_ireg(
            seq![Code(code), Slot(rhs), Code(MINI_BR_I32_NE_RI), Target(offset), Imm(0)],
            Action::Branch { test: Some((op, Src::Ireg, Src::Slot(rhs))), offset },
            m,
            res,
        ),
{
    lemma_glue();
    let words = seq![Code(code), Slot(rhs), Code(MINI_BR_I32_NE_RI), Target(offset), Imm(0)];
    op.lemma_test(m.value(Src::Ireg), m.value(Src::Slot(rhs)));
    let tested = step(words, 0, m, res);
    assert(tested.1 is Next);
    assert(tested.0.ireg == op.eval(m.value(Src::Ireg), m.value(Src::Slot(rhs))));
    lemma_run_2(words, 2, m, res);
}

/// A jump if `op(ireg, rhs)`, behind a copy, by a test into the accumulator.
pub(crate) proof fn by_copy_then_test_rs<W>(
    code: i64,
    op: BinOp,
    rhs: i64,
    offset: i32,
    m: Machine<W>,
    res: Residuals<W>,
)
    requires
        form(code) == Some(Form::Rs(op)),
        operands(code) == Some(Operands::Of1(Kind::Cell)),
        op.is_test(),
    ensures
        does_but_ireg(
            seq![
                Code(MINI_COPY_SI), Scratch(0), Imm(rhs),
                Code(code), Scratch(0),
                Code(MINI_BR_I32_NE_RI), Target(offset), Imm(0),
            ],
            Action::Branch { test: Some((op, Src::Ireg, Src::Imm(rhs))), offset },
            m,
            res,
        ),
{
    lemma_glue();
    let words = seq![
        Code(MINI_COPY_SI), Scratch(0), Imm(rhs),
        Code(code), Scratch(0),
        Code(MINI_BR_I32_NE_RI), Target(offset), Imm(0),
    ];
    op.lemma_test(m.value(Src::Ireg), m.value(Src::Imm(rhs)));
    let tested = step(words, 0, m, res);
    let tested = follow(words, 3, tested, res);
    assert(tested.1 is Next);
    assert(tested.0.ireg == op.eval(m.value(Src::Ireg), m.value(Src::Imm(rhs))));
    lemma_run_3(words, 3, 5, m, res);
}

/// A jump if `op(slots[lhs], rhs)`, behind a copy, by a test into the accumulator.
pub(crate) proof fn by_copy_then_test_ss<W>(
    code: i64,
    op: BinOp,
    lhs: u16,
    rhs: i64,
    offset: i32,
    m: Machine<W>,
    res: Residuals<W>,
)
    requires
        form(code) == Some(Form::Ss(op)),
        operands(code) == Some(Operands::Of2(Kind::Cell, Kind::Cell)),
        op.is_test(),
    ensures
        does_but_ireg(
            seq![
                Code(MINI_COPY_SI), Scratch(0), Imm(rhs),
                Code(code), Slot(lhs), Scratch(0),
                Code(MINI_BR_I32_NE_RI), Target(offset), Imm(0),
            ],
            Action::Branch { test: Some((op, Src::Slot(lhs), Src::Imm(rhs))), offset },
            m,
            res,
        ),
{
    lemma_glue();
    let words = seq![
        Code(MINI_COPY_SI), Scratch(0), Imm(rhs),
        Code(code), Slot(lhs), Scratch(0),
        Code(MINI_BR_I32_NE_RI), Target(offset), Imm(0),
    ];
    op.lemma_test(m.value(Src::Slot(lhs)), m.value(Src::Imm(rhs)));
    let tested = step(words, 0, m, res);
    let tested = follow(words, 3, tested, res);
    assert(tested.1 is Next);
    assert(tested.0.ireg == op.eval(m.value(Src::Slot(lhs)), m.value(Src::Imm(rhs))));
    lemma_run_3(words, 3, 6, m, res);
}

/// A jump if `op(ireg, slots[rhs])`, behind a copy, by a test into the accumulator.
pub(crate) proof fn by_spill_then_test_lhs<W>(
    code: i64,
    op: BinOp,
    rhs: u16,
    offset: i32,
    m: Machine<W>,
    res: Residuals<W>,
)
    requires
        form(code) == Some(Form::Ss(op)),
        operands(code) == Some(Operands::Of2(Kind::Cell, Kind::Cell)),
        op.is_test(),
    ensures
        does_but_ireg(
            seq![
                Code(MINI_COPY_SR), Scratch(0),
                Code(code), Scratch(0), Slot(rhs),
                Code(MINI_BR_I32_NE_RI), Target(offset), Imm(0),
            ],
            Action::Branch { test: Some((op, Src::Ireg, Src::Slot(rhs))), offset },
            m,
            res,
        ),
{
    lemma_glue();
    let words = seq![
        Code(MINI_COPY_SR), Scratch(0),
        Code(code), Scratch(0), Slot(rhs),
        Code(MINI_BR_I32_NE_RI), Target(offset), Imm(0),
    ];
    op.lemma_test(m.value(Src::Ireg), m.value(Src::Slot(rhs)));
    let tested = step(words, 0, m, res);
    let tested = follow(words, 2, tested, res);
    assert(tested.1 is Next);
    assert(tested.0.ireg == op.eval(m.value(Src::Ireg), m.value(Src::Slot(rhs))));
    lemma_run_3(words, 2, 5, m, res);
}

/// A jump if `op(slots[lhs], ireg)`, behind a copy, by a test into the accumulator.
pub(crate) proof fn by_spill_then_test_rhs<W>(
    code: i64,
    op: BinOp,
    lhs: u16,
    offset: i32,
    m: Machine<W>,
    res: Residuals<W>,
)
    requires
        form(code) == Some(Form::Ss(op)),
        operands(code) == Some(Operands::Of2(Kind::Cell, Kind::Cell)),
        op.is_test(),
    ensures
        does_but_ireg(
            seq![
                Code(MINI_COPY_SR), Scratch(0),
                Code(code), Slot(lhs), Scratch(0),
                Code(MINI_BR_I32_NE_RI), Target(offset), Imm(0),
            ],
            Action::Branch { test: Some((op, Src::Slot(lhs), Src::Ireg)), offset },
            m,
            res,
        ),
{
    lemma_glue();
    let words = seq![
        Code(MINI_COPY_SR), Scratch(0),
        Code(code), Slot(lhs), Scratch(0),
        Code(MINI_BR_I32_NE_RI), Target(offset), Imm(0),
    ];
    op.lemma_test(m.value(Src::Slot(lhs)), m.value(Src::Ireg));
    let tested = step(words, 0, m, res);
    let tested = follow(words, 2, tested, res);
    assert(tested.1 is Next);
    assert(tested.0.ireg == op.eval(m.value(Src::Slot(lhs)), m.value(Src::Ireg)));
    lemma_run_3(words, 2, 5, m, res);
}

/// A jump if `op(lhs, ireg)`, behind two copies, by a test into the accumulator.
pub(crate) proof fn by_copy_spill_then_test<W>(
    code: i64,
    op: BinOp,
    lhs: i64,
    offset: i32,
    m: Machine<W>,
    res: Residuals<W>,
)
    requires
        form(code) == Some(Form::Ss(op)),
        operands(code) == Some(Operands::Of2(Kind::Cell, Kind::Cell)),
        op.is_test(),
    ensures
        does_but_ireg(
            seq![
                Code(MINI_COPY_SI), Scratch(0), Imm(lhs),
                Code(MINI_COPY_SR), Scratch(1),
                Code(code), Scratch(0), Scratch(1),
                Code(MINI_BR_I32_NE_RI), Target(offset), Imm(0),
            ],
            Action::Branch { test: Some((op, Src::Imm(lhs), Src::Ireg)), offset },
            m,
            res,
        ),
{
    lemma_glue();
    let words = seq![
        Code(MINI_COPY_SI), Scratch(0), Imm(lhs),
        Code(MINI_COPY_SR), Scratch(1),
        Code(code), Scratch(0), Scratch(1),
        Code(MINI_BR_I32_NE_RI), Target(offset), Imm(0),
    ];
    op.lemma_test(m.value(Src::Imm(lhs)), m.value(Src::Ireg));
    let tested = step(words, 0, m, res);
    let tested = follow(words, 3, tested, res);
    let tested = follow(words, 5, tested, res);
    assert(tested.1 is Next);
    assert(tested.0.ireg == op.eval(m.value(Src::Imm(lhs)), m.value(Src::Ireg)));
    lemma_run_4(words, 3, 5, 8, m, res);
}

/// A jump.
pub(crate) proof fn by_br<W>(offset: i32, m: Machine<W>, res: Residuals<W>)
    ensures
        does(
            seq![Code(MINI_BR_ALWAYS), Target(offset)],
            Action::Branch { test: None, offset },
            m,
            res,
        ),
{
    reveal(form);
    reveal(operands);
    lemma_run_1(seq![Code(MINI_BR_ALWAYS), Target(offset)], m, res);
}

} // verus!
