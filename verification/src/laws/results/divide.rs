//! What divisions and remainders leave behind.

use crate::action::{DivRem, Machine, Residuals};
use crate::kernel::run;
use crate::laws::numeric::lemma_divide;
use crate::ops::divide::{DivideForm, DivideOp};
use vstd::prelude::*;

verus! {

/// The value of the dividend, with an immediate extended by `word`.
pub open spec fn dividend<T, W>(
    form: DivideForm<T>,
    m: Machine<W>,
    word: spec_fn(T) -> i64,
) -> i64 {
    match form {
        DivideForm::Rss { lhs, .. } => m.slot(lhs),
        DivideForm::Rrs { .. } => m.ireg,
        DivideForm::Rsr { lhs } => m.slot(lhs),
        DivideForm::Rsi { lhs, .. } => m.slot(lhs),
        DivideForm::Rri { .. } => m.ireg,
        DivideForm::Ris { lhs, .. } => word(lhs),
        DivideForm::Rir { lhs } => word(lhs),
    }
}

/// The value of the divisor, with an immediate extended by `word`.
pub open spec fn divisor<T, W>(form: DivideForm<T>, m: Machine<W>, word: spec_fn(T) -> i64) -> i64 {
    match form {
        DivideForm::Rss { rhs, .. } => m.slot(rhs),
        DivideForm::Rrs { rhs } => m.slot(rhs),
        DivideForm::Rsr { .. } => m.ireg,
        DivideForm::Rsi { rhs, .. } => word(rhs),
        DivideForm::Rri { rhs } => word(rhs),
        DivideForm::Ris { rhs, .. } => m.slot(rhs),
        DivideForm::Rir { .. } => m.ireg,
    }
}

/// **Divisions.** The words of a division divide its first operand by its second, for every form
/// and whatever the slots are, and put the quotient or the remainder into the accumulator. An
/// immediate is sign-extended in a signed division, and zero-extended in an unsigned one.
/// Nothing else changes but what the division does outside, where it can trap.
#[verifier::rlimit(60)]
pub proof fn law_divide<W>(op: DivideOp, m: Machine<W>, res: Residuals<W>)
    ensures
        ({
            let (after, flow) = run(op.lowering(), m, res);
            let (function, first, second) = match op {
                DivideOp::I32Div(form) => (
                    DivRem::I32DivS,
                    dividend(form, m, |v: i32| v as i64),
                    divisor(form, m, |v: i32| v as i64),
                ),
                DivideOp::U32Div(form) => (
                    DivRem::I32DivU,
                    dividend(form, m, |v: u32| v as i64),
                    divisor(form, m, |v: u32| v as i64),
                ),
                DivideOp::I32Rem(form) => (
                    DivRem::I32RemS,
                    dividend(form, m, |v: i32| v as i64),
                    divisor(form, m, |v: i32| v as i64),
                ),
                DivideOp::U32Rem(form) => (
                    DivRem::I32RemU,
                    dividend(form, m, |v: u32| v as i64),
                    divisor(form, m, |v: u32| v as i64),
                ),
                DivideOp::I64Div(form) => (
                    DivRem::I64DivS,
                    dividend(form, m, |v: i64| v),
                    divisor(form, m, |v: i64| v),
                ),
                DivideOp::U64Div(form) => (
                    DivRem::I64DivU,
                    dividend(form, m, |v: u64| v as i64),
                    divisor(form, m, |v: u64| v as i64),
                ),
                DivideOp::I64Rem(form) => (
                    DivRem::I64RemS,
                    dividend(form, m, |v: i64| v),
                    divisor(form, m, |v: i64| v),
                ),
                DivideOp::U64Rem(form) => (
                    DivRem::I64RemU,
                    dividend(form, m, |v: u64| v as i64),
                    divisor(form, m, |v: u64| v as i64),
                ),
            };
            &&& flow is Next
            &&& (after.world, after.ireg) == (res.div_rem)(m.world, function, first, second)
            &&& forall|s: u16| #[trigger] after.slot(s) == m.slot(s)
            &&& after.freg64 == m.freg64
            &&& after.freg32 == m.freg32
        }),
{
    lemma_divide(op, m, res);
}

} // verus!
