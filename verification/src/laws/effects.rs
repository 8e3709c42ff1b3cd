//! What operations leave alone.

use crate::action::{conversion_reg, float_reg, perform, Action, Machine, Reg, Residuals, Src};
use crate::kernel::run;
use crate::laws::lowering::law_effect;
use crate::ops::Op;
use crate::prepass::{eligible, MiniProgram};
use crate::stream::OpAt;
use vstd::prelude::*;

verus! {

/// Whether the action writes the accumulator.
pub open spec fn writes(a: Action, r: Reg) -> bool {
    match a {
        Action::SetReg { reg, .. } => r == reg,
        Action::Bin { .. } => r is Ireg,
        Action::DivRem { .. } => r is Ireg,
        Action::BitCount { .. } => r is Ireg,
        Action::Sext32 { .. } => r is Ireg,
        Action::Low32ToFreg32 => r is Freg32,
        Action::Select { .. } => r is Ireg,
        Action::FloatBin { width, .. } => r == float_reg(width),
        Action::FloatCompare { .. } => r is Ireg,
        Action::FloatUnary { width, .. } => r == float_reg(width),
        Action::Convert { op, .. } => r == conversion_reg(op),
        Action::Load { reg, .. } => r == reg,
        Action::LoadAt { .. } => r is Ireg,
        Action::MemorySize => r is Ireg,
        Action::GlobalGet { reg, .. } => r == reg,
        Action::CallInternal { .. } => r is Ireg,
        _ => false,
    }
}

/// Whether the action writes the frame slot.
pub open spec fn writes_slot(a: Action, slot: u16) -> bool {
    match a {
        Action::SetSlot { result, .. } => slot == result,
        Action::Bin { tee, .. } => tee == Some(slot),
        Action::CallImported { head, .. } => slot == head,
        Action::CallIndirect { head, .. } => slot == head,
        _ => false,
    }
}

proof fn lemma_perform_keeps<W>(a: Action, m: Machine<W>, res: Residuals<W>)
    ensures
        forall|r: Reg| !writes(a, r) ==> #[trigger] perform(a, m, res).0.reg(r) == m.reg(r),
        forall|s: u16| !writes_slot(a, s) ==> #[trigger] perform(a, m, res).0.slot(s) == m.slot(s),
{
}

/// The words write what the operation writes.
proof fn lemma_same_results(op: Op, writes_result: bool)
    requires
        op.lowering(writes_result) is Some,
    ensures
        op.action(writes_result) is Some,
        op.effect(writes_result) is Some,
        forall|r: Reg|
            writes(op.effect(writes_result)->0, r) == writes(op.action(writes_result)->0, r),
        forall|s: u16|
            writes_slot(op.effect(writes_result)->0, s) == writes_slot(
                op.action(writes_result)->0,
                s,
            ),
{
}

/// The words of an operation leave alone what the operation does not write.
proof fn lemma_keeps<W>(op: Op, writes_result: bool, m: Machine<W>, res: Residuals<W>)
    requires
        op.lowering(writes_result) is Some,
    ensures
        ({
            let a = op.action(writes_result)->0;
            let got = run(op.lowering(writes_result)->0, m, res).0;
            &&& forall|r: Reg|
                !writes(a, r) && op.spends() != Some(r) ==> #[trigger] got.reg(r) == m.reg(r)
            &&& forall|s: u16| !writes_slot(a, s) ==> #[trigger] got.slot(s) == m.slot(s)
        }),
{
    law_effect(op, writes_result, m, res);
    lemma_same_results(op, writes_result);
    let a = op.effect(writes_result)->0;
    lemma_perform_keeps(a, m, res);
    let got = run(op.lowering(writes_result)->0, m, res).0;
    let want = perform(a, m, res).0;
    assert forall|r: Reg| !writes(a, r) && op.spends() != Some(r) implies #[trigger] got.reg(r)
        == m.reg(r) by {
        assert(want.reg(r) == m.reg(r));
    }
    assert forall|s: u16| !writes_slot(a, s) implies #[trigger] got.slot(s) == m.slot(s) by {
        assert(want.slot(s) == m.slot(s));
    }
}

/// **Accumulators are apart.** The words of an operation leave an accumulator alone that the
/// operation does not write, but for one that they use up. So an integer in `ireg` survives across
/// float operations, but for f32 and f64 loads at a pointer in a slot, whose words bring the
/// pointer there; and a float survives across integer operations and float comparisons, but for
/// `F64NotLe_Rss`, whose words bring an operand into the f64 accumulator.
pub proof fn law_accumulators<W>(
    op: Op,
    writes_result: bool,
    r: Reg,
    m: Machine<W>,
    res: Residuals<W>,
)
    requires
        op.lowering(writes_result) is Some,
        !writes(op.action(writes_result)->0, r),
        op.spends() != Some(r),
    ensures
        run(op.lowering(writes_result)->0, m, res).0.reg(r) == m.reg(r),
{
    lemma_keeps(op, writes_result, m, res);
    assert(run(op.lowering(writes_result)->0, m, res).0.reg(r) == m.reg(r));
}

/// **Only results are written.** The words of an operation leave every frame slot alone that is
/// no result of the operation: what they copy on the way goes to scratch cells.
pub proof fn law_frame<W>(
    op: Op,
    writes_result: bool,
    slot: u16,
    m: Machine<W>,
    res: Residuals<W>,
)
    requires
        op.lowering(writes_result) is Some,
        !writes_slot(op.action(writes_result)->0, slot),
    ensures
        run(op.lowering(writes_result)->0, m, res).0.slot(slot) == m.slot(slot),
{
    lemma_keeps(op, writes_result, m, res);
}

/// **A function without globals needs none.** If `uses_globals` is false, no operation of the
/// function reads or writes a global.
pub proof fn law_no_globals(program: MiniProgram, ops: Seq<OpAt>, writes_result: bool, i: int)
    requires
        eligible(ops, writes_result),
        program.is_program_of(ops, writes_result),
        !program.uses_globals,
        0 <= i < ops.len(),
    ensures
        ops[i].op.action(writes_result) is Some,
        !(ops[i].op.action(writes_result)->0 is GlobalGet),
        !(ops[i].op.action(writes_result)->0 is GlobalSet),
{
    assert(ops[i].op.lowering(writes_result) is Some);
    assert(!(ops[i].op is Global));
    lemma_global_actions(ops[i].op, writes_result);
}

/// Only operations on globals are about globals.
proof fn lemma_global_actions(op: Op, writes_result: bool)
    requires
        op.lowering(writes_result) is Some,
        !(op is Global),
    ensures
        op.action(writes_result) is Some,
        !(op.action(writes_result)->0 is GlobalGet),
        !(op.action(writes_result)->0 is GlobalSet),
{
}

/// **A function without a result slot returns nothing.** If `writes_result` is false, the
/// function returns the dummy value 0 whatever its slots hold.
pub proof fn law_void<W>(
    program: MiniProgram,
    ops: Seq<OpAt>,
    i: int,
    m: Machine<W>,
    res: Residuals<W>,
)
    requires
        eligible(ops, false),
        program.is_program_of(ops, false),
        0 <= i < ops.len(),
        run(ops[i].op.lowering(false)->0, m, res).1 is Return,
    ensures
        !program.writes_result,
        run(ops[i].op.lowering(false)->0, m, res).1->Return_0 == 0,
{
    assert(ops[i].op.lowering(false) is Some);
    let op = ops[i].op;
    law_effect(op, false, m, res);
    lemma_void_effects(op);
    let a = op.effect(false)->0;
    if !(a is Return) {
        lemma_returns(a, m, res);
    }
}

/// What a function without a result slot returns.
proof fn lemma_void_effects(op: Op)
    ensures
        op.effect(false) matches Some(Action::Return { value }) ==> value == Src::Imm(0),
{
}

/// Only returns return.
proof fn lemma_returns<W>(a: Action, m: Machine<W>, res: Residuals<W>)
    requires
        !(a is Return),
    ensures
        !(perform(a, m, res).1 is Return),
{
}

} // verus!
