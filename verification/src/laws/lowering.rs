//! The words of an operation do what the operation does.

use crate::action::{truth, Action, BinOp, FloatCompare, FloatWidth, Machine, Reg, Residuals};
use crate::kernel::{carries_out, lemma_codes, step_outside};
use crate::laws::arith::{lemma_branch, lemma_branch_faithful, lemma_compare, lemma_integer};
use crate::laws::memory::{lemma_control, lemma_memory, lemma_memory_faithful};
use crate::laws::moves::{lemma_copy, lemma_global, lemma_select};
use crate::laws::numeric::{lemma_convert, lemma_divide, lemma_float, lemma_float_faithful};
use crate::laws::patterns::lemma_run_5;
use crate::laws::shifts::lemma_bits;
use crate::ops::float::F64NotLe_Rss;
use crate::ops::Op;
use vstd::prelude::*;

verus! {

impl Op {
    /// What the words of the operation do, if there are any, in every state of the machine.
    /// In states that the operation is `representable` in it is what the operation does.
    pub open spec fn effect(self, writes_result: bool) -> Option<Action> {
        match self {
            Op::F32(op) => Some(op.effect(FloatWidth::F32)),
            Op::F64(op) => Some(op.effect(FloatWidth::F64)),
            Op::Memory(op) => if op.supported() {
                Some(op.effect())
            } else {
                None
            },
            Op::Branch(op) => Some(op.effect()),
            _ => self.action(writes_result),
        }
    }

    /// Whether the words can stand for the operation: 32-bit operands that they compare in full
    /// hold sign-extended values, the order of float operands that they swap does not matter,
    /// and fixed addresses have 32 bits.
    pub open spec fn representable<W>(self, m: Machine<W>, res: Residuals<W>) -> bool {
        match self {
            Op::F32(op) => op.order_free(FloatWidth::F32, m, res),
            Op::F64(op) => op.order_free(FloatWidth::F64, m, res),
            Op::Branch(op) => op.operands_canonical(m),
            Op::Memory(op) => op.in_reach(),
            _ => true,
        }
    }

    /// The accumulator that the words use up although the operation leaves it as it is.
    pub open spec fn spends(self) -> Option<Reg> {
        match self {
            Op::Branch(op) => if op.keeps_ireg() {
                None
            } else {
                Some(Reg::Ireg)
            },
            Op::Memory(op) => if op.keeps_ireg() {
                None
            } else {
                Some(Reg::Ireg)
            },
            Op::F64NotLe(_) => Some(Reg::Freg64),
            _ => None,
        }
    }
}

/// The test `!(lhs <= rhs)` of f64 values.
proof fn lemma_not_le<W>(op: F64NotLe_Rss, m: Machine<W>, res: Residuals<W>)
    ensures
        carries_out(op.lowering(), op.action(), Some(Reg::Freg64), m, res),
{
    lemma_codes();
    reveal(step_outside);
    let le = (res.float_compare)(
        FloatWidth::F64,
        FloatCompare::Le,
        m.slot(op.lhs),
        m.slot(op.rhs),
    );
    assert(BinOp::I32Eq.eval(truth(le), 0) == truth(!le)) by {
        reveal(BinOp::eval);
    }
    lemma_run_5(op.lowering(), 2, 3, 6, 9, m, res);
}

/// **What words do.** Whatever the state of the machine, the words of an operation are whole
/// instructions and carry out the effect of the operation, up to an accumulator that they may
/// use up.
pub proof fn law_effect<W>(op: Op, writes_result: bool, m: Machine<W>, res: Residuals<W>)
    requires
        op.lowering(writes_result) is Some,
    ensures
        op.effect(writes_result) is Some,
        carries_out(
            op.lowering(writes_result)->0,
            op.effect(writes_result)->0,
            op.spends(),
            m,
            res,
        ),
{
    match op {
        Op::Copy(op) => lemma_copy(op, m, res),
        Op::Int(op) => lemma_integer(op, m, res),
        Op::Bits(op) => lemma_bits(op, m, res),
        Op::Divide(op) => lemma_divide(op, m, res),
        Op::Compare(op) => lemma_compare(op, m, res),
        Op::Select(op) => lemma_select(op, m, res),
        Op::F32(op) => lemma_float(op, FloatWidth::F32, m, res),
        Op::F64(op) => lemma_float(op, FloatWidth::F64, m, res),
        Op::F64NotLe(op) => lemma_not_le(op, m, res),
        Op::Convert(op) => lemma_convert(op, m, res),
        Op::Memory(op) => lemma_memory(op, m, res),
        Op::Global(op) => lemma_global(op, m, res),
        Op::Branch(op) => lemma_branch(op, m, res),
        Op::Control(op) => lemma_control(op, writes_result, m, res),
        Op::Unlowered(_) => {},
        Op::Other(_) => {},
    }
}

/// **Lowering preserves meaning.** The words of an operation carry out what the operation
/// does, in every state of the machine in which they can stand for it, up to an accumulator
/// that they may use up.
pub proof fn law_lowering<W>(op: Op, writes_result: bool, m: Machine<W>, res: Residuals<W>)
    requires
        op.lowering(writes_result) is Some,
        op.representable(m, res),
    ensures
        op.action(writes_result) is Some,
        carries_out(
            op.lowering(writes_result)->0,
            op.action(writes_result)->0,
            op.spends(),
            m,
            res,
        ),
{
    law_effect(op, writes_result, m, res);
    match op {
        Op::F32(op) => lemma_float_faithful(op, FloatWidth::F32, m, res),
        Op::F64(op) => lemma_float_faithful(op, FloatWidth::F64, m, res),
        Op::Memory(op) => lemma_memory_faithful(op, m, res),
        Op::Branch(op) => lemma_branch_faithful(op, m, res),
        _ => {},
    }
}

} // verus!
