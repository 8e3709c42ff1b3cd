//! Which operations leave 32-bit values sign-extended.
//!
//! Cells and the integer accumulator hold a 32-bit value sign-extended, and some branches
//! compare such values in full. Operations with 32-bit results keep to that form. Immediates
//! that are zero-extended do not: those of `U32Select` forms above `i32::MAX`, and those that
//! are written to globals.

use crate::action::{
    canonical, perform, wrap32, Action, BinOp, FloatWidth, Machine, Reg, Residuals,
};
use crate::kernel::run;
use crate::laws::effects::writes_slot;
use crate::laws::lowering::law_lowering;
use crate::ops::bits::BitsOp;
use crate::ops::branch::BranchOp;
use crate::ops::copy::CopyOp;
use crate::ops::memory::{MemLoad, MemoryOp};
use crate::ops::select::SelectOp;
use crate::ops::Op;
use vstd::prelude::*;

verus! {

impl BinOp {
    /// Whether the result is a 32-bit value: that of a 32-bit function or of a comparison.
    pub open spec fn is_32(self) -> bool {
        match self {
            BinOp::I32Add => true,
            BinOp::I32Sub => true,
            BinOp::I32Mul => true,
            BinOp::I32And => true,
            BinOp::I32Or => true,
            BinOp::I32Xor => true,
            BinOp::I32Shl => true,
            BinOp::U32Shr => true,
            BinOp::I32Rotl => true,
            BinOp::I32Rotr => true,
            _ => self.is_test(),
        }
    }

    /// A 32-bit result is sign-extended.
    proof fn lemma_canonical(self, a: i64, b: i64)
        requires
            self.is_32(),
        ensures
            canonical(self.eval(a, b)),
    {
        reveal(BinOp::eval);
    }
}

/// Whether the action writes a 32-bit value, sign-extended, wherever it writes one: into the
/// integer accumulator or into a slot. A copy or a selection does so if its sources are such
/// values.
pub open spec fn yields_canonical<W>(a: Action, m: Machine<W>) -> bool {
    match a {
        Action::SetSlot { value, .. } => canonical(m.value(value)),
        Action::SetReg { reg, value } => reg is Ireg && canonical(m.value(value)),
        Action::Bin { op, .. } => op.is_32(),
        Action::DivRem { op, .. } => op.is_32(),
        Action::BitCount { .. } => true,
        Action::Sext32 { .. } => true,
        Action::Select { if_true, if_false, .. } => {
            canonical(m.value(if_true)) && canonical(m.value(if_false))
        },
        Action::FloatCompare { .. } => true,
        Action::Load { reg, part, .. } => reg is Ireg && part.is_canonical(),
        Action::LoadAt { part, .. } => part.is_canonical(),
        _ => false,
    }
}

/// **32-bit results are sign-extended.** After an operation that yields a 32-bit value the
/// integer accumulator holds it sign-extended, if it was written, or if it was sign-extended
/// before; and so does every slot that was written.
pub proof fn law_canonical<W>(op: Op, writes_result: bool, m: Machine<W>, res: Residuals<W>)
    requires
        op.lowering(writes_result) is Some,
        op.representable(m, res),
        res.sign_extends(),
        op.action(writes_result) matches Some(a) && yields_canonical(a, m),
    ensures
        ({
            let a = op.action(writes_result)->0;
            let after = run(op.lowering(writes_result)->0, m, res).0;
            &&& !(a is SetSlot) || canonical(m.ireg) ==> canonical(after.ireg)
            &&& forall|s: u16| writes_slot(a, s) ==> canonical(#[trigger] after.slot(s))
        }),
{
    law_lowering(op, writes_result, m, res);
    let a = op.action(writes_result)->0;
    lemma_unspent(op, writes_result);
    lemma_perform_canonical(a, m, res);
    let after = run(op.lowering(writes_result)->0, m, res).0;
    let want = perform(a, m, res).0;
    assert forall|s: u16| writes_slot(a, s) implies canonical(#[trigger] after.slot(s)) by {
        assert(canonical(want.slot(s)));
    }
}

/// **A test of a 32-bit result can be compared in full.** Behind an operation that yields a 32-bit
/// value in the accumulator, the words can stand for an i32 equality branch on it and an
/// immediate.
pub proof fn law_test_behind<W>(
    op: Op,
    writes_result: bool,
    offset: i32,
    rhs: i32,
    m: Machine<W>,
    res: Residuals<W>,
)
    requires
        op.lowering(writes_result) is Some,
        op.is_32(),
        op.representable(m, res),
        res.sign_extends(),
        !(op.action(writes_result)->0 is SetSlot),
    ensures
        Op::Branch(BranchOp::BranchI32Eq_Ri { offset, rhs }).representable(
            run(op.lowering(writes_result)->0, m, res).0,
            res,
        ),
{
    law_lowering(op, writes_result, m, res);
    law_results_32(op, writes_result, m);
    law_canonical(op, writes_result, m, res);
}

/// The words of an operation that yields an integer leave it in the accumulator.
proof fn lemma_unspent(op: Op, writes_result: bool)
    requires
        op.action(writes_result) matches Some(a) && (a is SetSlot || a is SetReg || a is Bin
            || a is DivRem || a is BitCount || a is Sext32 || a is Select || a is FloatCompare
            || a is LoadAt || (a matches Action::Load { reg, .. } && reg is Ireg)),
    ensures
        op.spends() != Some(Reg::Ireg),
{
}

proof fn lemma_perform_canonical<W>(a: Action, m: Machine<W>, res: Residuals<W>)
    requires
        res.sign_extends(),
        yields_canonical(a, m),
    ensures
        !(a is SetSlot) || canonical(m.ireg) ==> canonical(perform(a, m, res).0.ireg),
        forall|s: u16| writes_slot(a, s) ==> canonical(#[trigger] perform(a, m, res).0.slot(s)),
{
    match a {
        Action::Bin { op, lhs, rhs, .. } => op.lemma_canonical(m.value(lhs), m.value(rhs)),
        _ => {},
    }
}

impl Op {
    /// Whether the result of the operation is a 32-bit value whatever its operands are.
    pub open spec fn is_32(self) -> bool {
        match self {
            Op::Copy(op) => match op {
                CopyOp::U32Copy_Si { .. } => true,
                CopyOp::U32Copy_Ri { .. } => true,
                _ => false,
            },
            Op::Int(op) => op.action() matches Action::Bin { op, .. } && op.is_32(),
            Op::Bits(op) => match op {
                BitsOp::I64Shl_Rsi { .. } => false,
                BitsOp::U64Shr_Rsi { .. } => false,
                BitsOp::U64Shr_Rir { .. } => false,
                BitsOp::I64Shr_Rsi { .. } => false,
                _ => true,
            },
            Op::Divide(op) => op.function().is_32(),
            Op::Compare(_) => true,
            Op::Select(op) => match op {
                SelectOp::U32Select_Rrii { if_true, if_false } => {
                    if_true <= i32::MAX && if_false <= i32::MAX
                },
                SelectOp::U32Select_Rsii { if_true, if_false, .. } => {
                    if_true <= i32::MAX && if_false <= i32::MAX
                },
                _ => false,
            },
            Op::F32(op) => op.action(FloatWidth::F32) is FloatCompare,
            Op::F64(op) => op.action(FloatWidth::F64) is FloatCompare,
            Op::F64NotLe(_) => true,
            Op::Convert(op) => op is I32ReinterpretF32_Rr,
            Op::Memory(op) => match op {
                MemoryOp::LoadMem0Offset16_Rr { load, .. } => load.is_32(),
                MemoryOp::LoadMem0Offset16_Rs { load, .. } => load.is_32(),
                MemoryOp::U32Load_Ri { .. } => true,
                MemoryOp::U32LoadExtend8_Ri { .. } => true,
                MemoryOp::U32LoadExtend16_Ri { .. } => true,
                MemoryOp::U64LoadExtend8_Rs { .. } => true,
                _ => false,
            },
            _ => false,
        }
    }
}

impl MemLoad {
    /// Whether the load yields a 32-bit value.
    pub open spec fn is_32(self) -> bool {
        self.reg() is Ireg && self.part().is_canonical()
    }
}

/// **Which results are sign-extended.** Whatever the state, the operations with a 32-bit result
/// yield it sign-extended: 32-bit arithmetic, shifts and divisions, comparisons, counts,
/// extensions, loads of 32 bits and less, and 32-bit immediates.
pub proof fn law_results_32<W>(op: Op, writes_result: bool, m: Machine<W>)
    requires
        op.is_32(),
        op.action(writes_result) is Some,
    ensures
        yields_canonical(op.action(writes_result)->0, m),
{
    match op {
        Op::Copy(op) => match op {
            CopyOp::U32Copy_Si { value, .. } => lemma_narrow(value),
            CopyOp::U32Copy_Ri { value } => lemma_narrow(value),
            _ => {},
        },
        _ => {},
    }
}

/// A 32-bit immediate of a copy is sign-extended.
proof fn lemma_narrow(v: u32)
    ensures
        canonical((v as i32) as i64),
{
}

/// **Selected immediates are zero-extended.** A 32-bit selection of an immediate leaves it
/// sign-extended if and only if it is no more than `i32::MAX`.
pub proof fn law_select_immediate<W>(
    if_true: u32,
    if_false: u32,
    m: Machine<W>,
    res: Residuals<W>,
)
    ensures
        ({
            let op = Op::Select(SelectOp::U32Select_Rrii { if_true, if_false });
            let after = run(op.lowering(true)->0, m, res).0;
            let chosen = if wrap32(m.ireg as int) != 0 {
                if_true
            } else {
                if_false
            };
            &&& after.ireg == chosen
            &&& canonical(after.ireg) <==> chosen <= i32::MAX
        }),
{
    let op = Op::Select(SelectOp::U32Select_Rrii { if_true, if_false });
    law_lowering(op, true, m, res);
}

} // verus!
