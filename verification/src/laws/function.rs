//! The kernel on a function: any number of operations.
//!
//! Some operations use up an accumulator that they do not write. What it then holds is not what
//! the function left there, until it is written again. A run that does not read it in between
//! is carried out.

use crate::action::{perform, Action, Flow, Machine, Reg, Residuals, Src};
use crate::kernel::agree_but;
use crate::laws::effects::writes;
use crate::laws::execution::{control_after, law_operation, Control};
use crate::ops::Op;
use crate::prepass::{eligible, word_index, MiniProgram};
use crate::stream::{index_at, OpAt};
use vstd::prelude::*;

verus! {

/// Where a function stands.
pub enum Place {
    /// Before this operation.
    Before(int),
    /// Outside: it has handed over to the stock executor, at the operation at this byte.
    Yielded(i64),
    /// Outside: it has returned, given up or trapped.
    Gone(Flow),
}

/// Where a function stands behind operation `i`, if that sends control to `flow`.
pub open spec fn place_after(ops: Seq<OpAt>, i: int, flow: Flow) -> Place {
    match flow {
        Flow::Next => Place::Before(i + 1),
        Flow::Jump(offset) => Place::Before(index_at(ops, ops[i].pos + offset)),
        Flow::Yield => Place::Yielded(ops[i].pos as i64),
        _ => Place::Gone(flow),
    }
}

/// `n` operations of a function, from operation `i` on, as far as it goes.
pub open spec fn function_run<W>(
    ops: Seq<OpAt>,
    writes_result: bool,
    i: int,
    m: Machine<W>,
    res: Residuals<W>,
    n: nat,
) -> (Place, Machine<W>)
    decreases n,
{
    if n == 0 || !(0 <= i < ops.len()) {
        (Place::Before(i), m)
    } else {
        let (next, flow) = perform(ops[i].op.action(writes_result)->0, m, res);
        match place_after(ops, i, flow) {
            Place::Before(j) => function_run(ops, writes_result, j, next, res, (n - 1) as nat),
            place => (place, next),
        }
    }
}

/// Whether the operand is the accumulator.
pub open spec fn is_reg(s: Src, r: Reg) -> bool {
    match s {
        Src::Ireg => r is Ireg,
        Src::Freg64 => r is Freg64,
        Src::Freg32 => r is Freg32,
        _ => false,
    }
}

/// Whether the action reads the accumulator.
pub open spec fn reads(a: Action, r: Reg) -> bool {
    match a {
        Action::SetSlot { value, .. } => is_reg(value, r),
        Action::SetReg { value, .. } => is_reg(value, r),
        Action::Bin { lhs, rhs, .. } => is_reg(lhs, r) || is_reg(rhs, r),
        Action::DivRem { lhs, rhs, .. } => is_reg(lhs, r) || is_reg(rhs, r),
        Action::BitCount { value, .. } => is_reg(value, r),
        Action::Sext32 { value } => is_reg(value, r),
        Action::Low32ToFreg32 => r is Ireg,
        Action::Select { condition, if_true, if_false } => {
            is_reg(condition, r) || is_reg(if_true, r) || is_reg(if_false, r)
        },
        Action::FloatBin { lhs, rhs, .. } => is_reg(lhs, r) || is_reg(rhs, r),
        Action::FloatCompare { lhs, rhs, .. } => is_reg(lhs, r) || is_reg(rhs, r),
        Action::FloatUnary { value, .. } => is_reg(value, r),
        Action::Convert { value, .. } => is_reg(value, r),
        Action::Load { ptr, .. } => is_reg(ptr, r),
        Action::Store { ptr, value, .. } => is_reg(ptr, r) || is_reg(value, r),
        Action::StoreAt { value, .. } => is_reg(value, r),
        Action::GlobalSet { value, .. } => is_reg(value, r),
        Action::Branch { test, .. } => match test {
            Some((_, lhs, rhs)) => is_reg(lhs, r) || is_reg(rhs, r),
            None => false,
        },
        Action::CallIndirect { index, .. } => is_reg(index, r),
        Action::Return { value } => is_reg(value, r),
        _ => false,
    }
}

/// Whether two machines agree in all that a function can observe, but for the accumulators that
/// are `dead`. The scratch cells are not observed.
pub open spec fn agree_but_dead<W>(a: Machine<W>, b: Machine<W>, dead: Set<Reg>) -> bool {
    &&& forall|s: u16| #[trigger] a.slot(s) == b.slot(s)
    &&& a.world == b.world
    &&& forall|r: Reg| !dead.contains(r) ==> #[trigger] a.reg(r) == b.reg(r)
}

/// The accumulators that are dead behind an operation, if `dead` are so before it: those that
/// it does not write, and the one that it uses up.
pub open spec fn dead_after(op: Op, writes_result: bool, dead: Set<Reg>) -> Set<Reg> {
    Set::new(
        |r: Reg|
            (dead.contains(r) && !writes(op.action(writes_result)->0, r)) || op.spends() == Some(r),
    )
}

/// Whether a run of `n` operations is one that the words can stand for: each operation is
/// representable where it is met, and none reads an accumulator that is dead.
pub open spec fn clear<W>(
    ops: Seq<OpAt>,
    writes_result: bool,
    i: int,
    m: Machine<W>,
    res: Residuals<W>,
    dead: Set<Reg>,
    n: nat,
) -> bool
    decreases n,
{
    n == 0 || !(0 <= i < ops.len()) || {
        let op = ops[i].op;
        let action = op.action(writes_result)->0;
        let (next, flow) = perform(action, m, res);
        &&& op.representable(m, res)
        &&& forall|r: Reg| dead.contains(r) ==> !reads(action, r)
        &&& place_after(ops, i, flow) matches Place::Before(j) ==> clear(
            ops,
            writes_result,
            j,
            next,
            res,
            dead_after(op, writes_result, dead),
            (n - 1) as nat,
        )
    }
}

/// The accumulators that are dead behind a run.
pub open spec fn dead_behind<W>(
    ops: Seq<OpAt>,
    writes_result: bool,
    i: int,
    m: Machine<W>,
    res: Residuals<W>,
    dead: Set<Reg>,
    n: nat,
) -> Set<Reg>
    decreases n,
{
    if n == 0 || !(0 <= i < ops.len()) {
        dead
    } else {
        let op = ops[i].op;
        let (next, flow) = perform(op.action(writes_result)->0, m, res);
        let dead = dead_after(op, writes_result, dead);
        match place_after(ops, i, flow) {
            Place::Before(j) => dead_behind(
                ops,
                writes_result,
                j,
                next,
                res,
                dead,
                (n - 1) as nat,
            ),
            _ => dead,
        }
    }
}

/// The word before which the kernel stands where the function stands before an operation.
pub open spec fn control_at(ops: Seq<OpAt>, writes_result: bool, place: Place) -> Control {
    match place {
        Place::Before(i) => Control::At(word_index(ops, writes_result, i) as int),
        Place::Yielded(byte) => Control::Yielded(byte),
        Place::Gone(flow) => Control::Gone(flow),
    }
}

/// An operand has the same value on machines that agree but for accumulators that it is not.
proof fn lemma_value_agrees<W>(s: Src, x: Machine<W>, y: Machine<W>, dead: Set<Reg>)
    requires
        agree_but_dead(x, y, dead),
        forall|r: Reg| dead.contains(r) ==> !is_reg(s, r),
    ensures
        x.value(s) == y.value(s),
{
    match s {
        Src::Slot(k) => {
            assert(x.slot(k) == y.slot(k));
        },
        Src::Ireg => {
            assert(is_reg(s, Reg::Ireg));
            assert(x.reg(Reg::Ireg) == y.reg(Reg::Ireg));
        },
        Src::Freg64 => {
            assert(is_reg(s, Reg::Freg64));
            assert(x.reg(Reg::Freg64) == y.reg(Reg::Freg64));
        },
        Src::Freg32 => {
            assert(is_reg(s, Reg::Freg32));
            assert(x.reg(Reg::Freg32) == y.reg(Reg::Freg32));
        },
        Src::Imm(_) => {},
    }
}

/// Machines that agree in their slots agree in parameters.
proof fn lemma_params_agree<W>(head: u16, len: u16, x: Machine<W>, y: Machine<W>)
    requires
        forall|s: u16| #[trigger] x.slot(s) == y.slot(s),
    ensures
        x.params(head, len) == y.params(head, len),
{
    assert(x.params(head, len) =~= y.params(head, len));
}

/// The operands of an action have the same values on machines that agree but for accumulators
/// that it does not read.
proof fn lemma_operands_agree<W>(a: Action, x: Machine<W>, y: Machine<W>, dead: Set<Reg>)
    requires
        agree_but_dead(x, y, dead),
        forall|r: Reg| dead.contains(r) ==> !reads(a, r),
    ensures
        match a {
            Action::SetSlot { value, .. } => x.value(value) == y.value(value),
            Action::SetReg { value, .. } => x.value(value) == y.value(value),
            Action::Bin { lhs, rhs, .. } => {
                x.value(lhs) == y.value(lhs) && x.value(rhs) == y.value(rhs)
            },
            Action::DivRem { lhs, rhs, .. } => {
                x.value(lhs) == y.value(lhs) && x.value(rhs) == y.value(rhs)
            },
            Action::BitCount { value, .. } => x.value(value) == y.value(value),
            Action::Sext32 { value } => x.value(value) == y.value(value),
            Action::Low32ToFreg32 => x.ireg == y.ireg,
            Action::Select { condition, if_true, if_false } => {
                &&& x.value(condition) == y.value(condition)
                &&& x.value(if_true) == y.value(if_true)
                &&& x.value(if_false) == y.value(if_false)
            },
            Action::FloatBin { lhs, rhs, .. } => {
                x.value(lhs) == y.value(lhs) && x.value(rhs) == y.value(rhs)
            },
            Action::FloatCompare { lhs, rhs, .. } => {
                x.value(lhs) == y.value(lhs) && x.value(rhs) == y.value(rhs)
            },
            Action::FloatUnary { value, .. } => x.value(value) == y.value(value),
            Action::Convert { value, .. } => x.value(value) == y.value(value),
            Action::Load { ptr, .. } => x.value(ptr) == y.value(ptr),
            Action::Store { ptr, value, .. } => {
                x.value(ptr) == y.value(ptr) && x.value(value) == y.value(value)
            },
            Action::StoreAt { value, .. } => x.value(value) == y.value(value),
            Action::GlobalSet { value, .. } => x.value(value) == y.value(value),
            Action::Branch { test, .. } => test matches Some((_, lhs, rhs)) ==> {
                x.value(lhs) == y.value(lhs) && x.value(rhs) == y.value(rhs)
            },
            Action::CallInternal { head, len, .. } => x.params(head, len) == y.params(head, len),
            Action::CallImported { head, len, .. } => x.params(head, len) == y.params(head, len),
            Action::CallIndirect { index, head, len, .. } => {
                &&& x.value(index) == y.value(index)
                &&& x.params(head, len) == y.params(head, len)
            },
            Action::Return { value } => x.value(value) == y.value(value),
            _ => true,
        },
{
    match a {
        Action::SetSlot { value, .. } => lemma_value_agrees(value, x, y, dead),
        Action::SetReg { value, .. } => lemma_value_agrees(value, x, y, dead),
        Action::Bin { lhs, rhs, .. } => {
            lemma_value_agrees(lhs, x, y, dead);
            lemma_value_agrees(rhs, x, y, dead);
        },
        Action::DivRem { lhs, rhs, .. } => {
            lemma_value_agrees(lhs, x, y, dead);
            lemma_value_agrees(rhs, x, y, dead);
        },
        Action::BitCount { value, .. } => lemma_value_agrees(value, x, y, dead),
        Action::Sext32 { value } => lemma_value_agrees(value, x, y, dead),
        Action::Low32ToFreg32 => lemma_value_agrees(Src::Ireg, x, y, dead),
        Action::Select { condition, if_true, if_false } => {
            lemma_value_agrees(condition, x, y, dead);
            lemma_value_agrees(if_true, x, y, dead);
            lemma_value_agrees(if_false, x, y, dead);
        },
        Action::FloatBin { lhs, rhs, .. } => {
            lemma_value_agrees(lhs, x, y, dead);
            lemma_value_agrees(rhs, x, y, dead);
        },
        Action::FloatCompare { lhs, rhs, .. } => {
            lemma_value_agrees(lhs, x, y, dead);
            lemma_value_agrees(rhs, x, y, dead);
        },
        Action::FloatUnary { value, .. } => lemma_value_agrees(value, x, y, dead),
        Action::Convert { value, .. } => lemma_value_agrees(value, x, y, dead),
        Action::Load { ptr, .. } => lemma_value_agrees(ptr, x, y, dead),
        Action::Store { ptr, value, .. } => {
            lemma_value_agrees(ptr, x, y, dead);
            lemma_value_agrees(value, x, y, dead);
        },
        Action::StoreAt { value, .. } => lemma_value_agrees(value, x, y, dead),
        Action::GlobalSet { value, .. } => lemma_value_agrees(value, x, y, dead),
        Action::Branch { test, .. } => match test {
            Some((_, lhs, rhs)) => {
                lemma_value_agrees(lhs, x, y, dead);
                lemma_value_agrees(rhs, x, y, dead);
            },
            None => {},
        },
        Action::CallInternal { head, len, .. } => lemma_params_agree(head, len, x, y),
        Action::CallImported { head, len, .. } => lemma_params_agree(head, len, x, y),
        Action::CallIndirect { index, head, len, .. } => {
            lemma_value_agrees(index, x, y, dead);
            lemma_params_agree(head, len, x, y);
        },
        Action::Return { value } => lemma_value_agrees(value, x, y, dead),
        _ => {},
    }
}

/// An action sends control to the same place, and does the same outside.
proof fn lemma_flow_agrees<W>(
    a: Action,
    x: Machine<W>,
    y: Machine<W>,
    dead: Set<Reg>,
    res: Residuals<W>,
)
    requires
        agree_but_dead(x, y, dead),
        forall|r: Reg| dead.contains(r) ==> !reads(a, r),
    ensures
        perform(a, x, res).1 == perform(a, y, res).1,
        perform(a, x, res).0.world == perform(a, y, res).0.world,
{
    lemma_operands_agree(a, x, y, dead);
    match a {
        Action::MemoryCopy { dst, src, len } => {
            assert(x.slot(dst) == y.slot(dst));
            assert(x.slot(src) == y.slot(src));
            assert(x.slot(len) == y.slot(len));
        },
        _ => {},
    }
}

/// An action leaves the same in a slot.
proof fn lemma_slot_agrees<W>(
    a: Action,
    x: Machine<W>,
    y: Machine<W>,
    dead: Set<Reg>,
    res: Residuals<W>,
    s: u16,
)
    requires
        agree_but_dead(x, y, dead),
        forall|r: Reg| dead.contains(r) ==> !reads(a, r),
    ensures
        perform(a, x, res).0.slot(s) == perform(a, y, res).0.slot(s),
{
    lemma_operands_agree(a, x, y, dead);
    assert(x.slot(s) == y.slot(s));
}

/// An action leaves the same in an accumulator that was the same, or that it writes.
proof fn lemma_reg_agrees<W>(
    a: Action,
    x: Machine<W>,
    y: Machine<W>,
    dead: Set<Reg>,
    res: Residuals<W>,
    r: Reg,
)
    requires
        agree_but_dead(x, y, dead),
        forall|r: Reg| dead.contains(r) ==> !reads(a, r),
        !dead.contains(r) || writes(a, r),
    ensures
        perform(a, x, res).0.reg(r) == perform(a, y, res).0.reg(r),
{
    lemma_operands_agree(a, x, y, dead);
    assert(!dead.contains(r) ==> x.reg(r) == y.reg(r));
}

/// Whether the words can stand for an operation does not depend on what it does not read.
proof fn lemma_representable_agrees<W>(
    op: Op,
    writes_result: bool,
    x: Machine<W>,
    y: Machine<W>,
    dead: Set<Reg>,
    res: Residuals<W>,
)
    requires
        op.action(writes_result) is Some,
        agree_but_dead(x, y, dead),
        forall|r: Reg| dead.contains(r) ==> !reads(op.action(writes_result)->0, r),
        op.representable(y, res),
    ensures
        op.representable(x, res),
{
    lemma_operands_agree(op.action(writes_result)->0, x, y, dead);
}

/// One operation, from a machine that agrees but for dead accumulators.
proof fn lemma_operation_dead<W>(
    program: MiniProgram,
    ops: Seq<OpAt>,
    writes_result: bool,
    i: int,
    got: Machine<W>,
    want: Machine<W>,
    res: Residuals<W>,
    dead: Set<Reg>,
) -> (n: nat)
    requires
        eligible(ops, writes_result),
        program.is_program_of(ops, writes_result),
        program.words@.len() <= i64::MAX,
        0 <= i < ops.len(),
        agree_but_dead(got, want, dead),
        ops[i].op.representable(want, res),
        forall|r: Reg| dead.contains(r) ==> !reads(ops[i].op.action(writes_result)->0, r),
    ensures
        ({
            let (next, flow) = perform(ops[i].op.action(writes_result)->0, want, res);
            let start = word_index(ops, writes_result, i) as int;
            let (control, after) = program.run(start, got, res, n);
            &&& control == control_at(ops, writes_result, place_after(ops, i, flow))
            &&& agree_but_dead(after, next, dead_after(ops[i].op, writes_result, dead))
        }),
{
    let op = ops[i].op;
    assert(op.lowering(writes_result) is Some);
    let a = op.action(writes_result)->0;
    lemma_representable_agrees(op, writes_result, got, want, dead, res);
    law_operation(program, ops, writes_result, i, got, res);
    lemma_flow_agrees(a, got, want, dead, res);
    let start = word_index(ops, writes_result, i) as int;
    let (mid, flow) = perform(a, got, res);
    let next = perform(a, want, res).0;
    let n = choose|n: nat|
        {
            let (control, after) = #[trigger] program.run(start, got, res, n);
            &&& agree_but(after, mid, op.spends())
            &&& control == control_after(ops, writes_result, i, flow)
        };
    let after = program.run(start, got, res, n).1;
    let left = dead_after(op, writes_result, dead);
    assert forall|s: u16| #[trigger] after.slot(s) == next.slot(s) by {
        assert(after.slot(s) == mid.slot(s));
        lemma_slot_agrees(a, got, want, dead, res, s);
    }
    assert forall|r: Reg| !left.contains(r) implies #[trigger] after.reg(r) == next.reg(r) by {
        assert(op.spends() != Some(r));
        assert(!dead.contains(r) || writes(a, r));
        lemma_reg_agrees(a, got, want, dead, res, r);
        assert(after.reg(r) == mid.reg(r));
    }
    n
}

/// A run of the kernel can be taken in two parts.
proof fn lemma_run_parts<W>(
    program: MiniProgram,
    pc: int,
    m: Machine<W>,
    res: Residuals<W>,
    a: nat,
    b: nat,
)
    ensures
        ({
            let (control, mid) = program.run(pc, m, res, a);
            program.run(pc, m, res, a + b) == match control {
                Control::At(to) => program.run(to, mid, res, b),
                _ => (control, mid),
            }
        }),
    decreases a,
{
    if a > 0 {
        let (control, next) = program.step(pc, m, res);
        if let Control::At(to) = control {
            lemma_run_parts(program, to, next, res, (a - 1) as nat, b);
        }
    }
}

/// Any number of operations, from a machine that agrees but for dead accumulators.
proof fn lemma_function<W>(
    program: MiniProgram,
    ops: Seq<OpAt>,
    writes_result: bool,
    i: int,
    got: Machine<W>,
    want: Machine<W>,
    res: Residuals<W>,
    dead: Set<Reg>,
    n: nat,
) -> (k: nat)
    requires
        eligible(ops, writes_result),
        program.is_program_of(ops, writes_result),
        program.words@.len() <= i64::MAX,
        agree_but_dead(got, want, dead),
        clear(ops, writes_result, i, want, res, dead, n),
    ensures
        ({
            let (place, end) = function_run(ops, writes_result, i, want, res, n);
            let start = word_index(ops, writes_result, i) as int;
            let (control, after) = program.run(start, got, res, k);
            let left = dead_behind(ops, writes_result, i, want, res, dead, n);
            &&& control == control_at(ops, writes_result, place)
            &&& agree_but_dead(after, end, left)
        }),
    decreases n,
{
    if n == 0 || !(0 <= i < ops.len()) {
        0
    } else {
        let op = ops[i].op;
        let (next, flow) = perform(op.action(writes_result)->0, want, res);
        let start = word_index(ops, writes_result, i) as int;
        let a = lemma_operation_dead(program, ops, writes_result, i, got, want, res, dead);
        let after = program.run(start, got, res, a).1;
        match place_after(ops, i, flow) {
            Place::Before(j) => {
                let left = dead_after(op, writes_result, dead);
                let b = lemma_function(
                    program,
                    ops,
                    writes_result,
                    j,
                    after,
                    next,
                    res,
                    left,
                    (n - 1) as nat,
                );
                lemma_run_parts(program, start, got, res, a, b);
                a + b
            },
            _ => a,
        }
    }
}

/// **The program carries out the function.** Put before the first word of an operation, the
/// kernel, instruction by instruction of the program, does what `n` operations of the function
/// do from there on, and then stands where the function stands, or has left as the function has.
/// It leaves the frame, the state outside and the accumulators as the function leaves them, but
/// for accumulators that the words of some operation used up and that were not written again.
/// The run is one in which no operation reads an accumulator in between, and in which the words
/// can stand for every operation that is met.
pub proof fn law_function<W>(
    program: MiniProgram,
    ops: Seq<OpAt>,
    writes_result: bool,
    i: int,
    m: Machine<W>,
    res: Residuals<W>,
    n: nat,
)
    requires
        eligible(ops, writes_result),
        program.is_program_of(ops, writes_result),
        program.words@.len() <= i64::MAX,
        clear(ops, writes_result, i, m, res, Set::empty(), n),
    ensures
        ({
            let (place, end) = function_run(ops, writes_result, i, m, res, n);
            let start = word_index(ops, writes_result, i) as int;
            exists|k: nat|
                {
                    let (control, after) = #[trigger] program.run(start, m, res, k);
                    &&& control == control_at(ops, writes_result, place)
                    &&& agree_but_dead(
                        after,
                        end,
                        dead_behind(ops, writes_result, i, m, res, Set::empty(), n),
                    )
                }
        }),
{
    let k = lemma_function(program, ops, writes_result, i, m, m, res, Set::empty(), n);
    let start = word_index(ops, writes_result, i) as int;
    let (control, after) = program.run(start, m, res, k);
}

/// **The program returns what the function returns.** If a function run from its start returns a
/// value in `n` operations, the kernel, started at the first word of the program, returns that
/// value.
pub proof fn law_returns<W>(
    program: MiniProgram,
    ops: Seq<OpAt>,
    writes_result: bool,
    m: Machine<W>,
    res: Residuals<W>,
    n: nat,
    v: i64,
)
    requires
        eligible(ops, writes_result),
        program.is_program_of(ops, writes_result),
        program.words@.len() <= i64::MAX,
        clear(ops, writes_result, 0, m, res, Set::empty(), n),
        function_run(ops, writes_result, 0, m, res, n).0 == Place::Gone(Flow::Return(v)),
    ensures
        exists|k: nat|
            (#[trigger] program.run(0, m, res, k)).0 == Control::Gone(Flow::Return(v)),
{
    assert(ops.take(0) =~= Seq::<OpAt>::empty());
    assert(word_index(ops, writes_result, 0) == 0);
    let k = lemma_function(program, ops, writes_result, 0, m, m, res, Set::empty(), n);
    assert(program.run(0, m, res, k).0 == Control::Gone(Flow::Return(v)));
}

} // verus!
