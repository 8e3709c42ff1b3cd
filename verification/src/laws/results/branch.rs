//! Where branches go, in numbers.

use crate::action::{canonical, low32, low64, wrap32, BinOp, Flow, Machine, Residuals};
use crate::kernel::run;
use crate::laws::arith::lemma_branch;
use crate::laws::results::lemma_word_u64;
use crate::ops::branch::BranchOp;
use vstd::prelude::*;

verus! {

/// **Branches.** The words of a branch go the distance that it names if its test holds, and on
/// if not. Four tests of 32-bit operands compare all 64 bits. The frame, the float accumulators
/// and the state outside do not change, nor does the integer accumulator but for the branches
/// that are listed.
#[verifier::rlimit(60)]
pub proof fn law_branch<W>(op: BranchOp, m: Machine<W>, res: Residuals<W>)
    ensures
        ({
            let (after, flow) = run(op.lowering(), m, res);
            let holds = match op {
                BranchOp::Branch { .. } => true,
                BranchOp::BranchI32Eq_Rs { rhs, .. } => m.ireg == m.slot(rhs),
                BranchOp::BranchI32Eq_Si { lhs, rhs, .. } => m.slot(lhs) == rhs,
                BranchOp::BranchI32Eq_Ri { rhs, .. } => m.ireg == rhs,
                BranchOp::BranchI32NotEq_Rs { rhs, .. } => m.ireg != m.slot(rhs),
                BranchOp::BranchI32NotEq_Si { lhs, rhs, .. } => {
                    wrap32(m.slot(lhs) as int) != wrap32(rhs as int)
                },
                BranchOp::BranchI32NotEq_Ri { rhs, .. } => {
                    wrap32(m.ireg as int) != wrap32(rhs as int)
                },
                BranchOp::BranchI32Lt_Si { lhs, rhs, .. } => {
                    wrap32(m.slot(lhs) as int) < wrap32(rhs as int)
                },
                BranchOp::BranchI32Lt_Ri { rhs, .. } => wrap32(m.ireg as int) < wrap32(rhs as int),
                BranchOp::BranchI32Le_Ss { lhs, rhs, .. } => {
                    wrap32(m.slot(lhs) as int) <= wrap32(m.slot(rhs) as int)
                },
                BranchOp::BranchU32Lt_Ss { lhs, rhs, .. } => {
                    low32(m.slot(lhs) as int) < low32(m.slot(rhs) as int)
                },
                BranchOp::BranchU32Lt_Rs { rhs, .. } => {
                    low32(m.ireg as int) < low32(m.slot(rhs) as int)
                },
                BranchOp::BranchU32Lt_Sr { lhs, .. } => {
                    low32(m.slot(lhs) as int) < low32(m.ireg as int)
                },
                BranchOp::BranchU32Lt_Si { lhs, rhs, .. } => low32(m.slot(lhs) as int) < rhs,
                BranchOp::BranchU32Lt_Ir { lhs, .. } => lhs < low32(m.ireg as int),
                BranchOp::BranchU32Le_Ss { lhs, rhs, .. } => {
                    low32(m.slot(lhs) as int) <= low32(m.slot(rhs) as int)
                },
                BranchOp::BranchU32Le_Rs { rhs, .. } => {
                    low32(m.ireg as int) <= low32(m.slot(rhs) as int)
                },
                BranchOp::BranchU32Le_Sr { lhs, .. } => {
                    low32(m.slot(lhs) as int) <= low32(m.ireg as int)
                },
                BranchOp::BranchU32Le_Ir { lhs, .. } => lhs <= low32(m.ireg as int),
                BranchOp::BranchI64Eq_Ss { lhs, rhs, .. } => m.slot(lhs) == m.slot(rhs),
                BranchOp::BranchI64Eq_Si { lhs, rhs, .. } => m.slot(lhs) == rhs,
                BranchOp::BranchI64Eq_Ri { rhs, .. } => m.ireg == rhs,
                BranchOp::BranchI64NotEq_Ri { rhs, .. } => m.ireg != rhs,
                BranchOp::BranchI64Lt_Rs { rhs, .. } => m.ireg < m.slot(rhs),
                BranchOp::BranchI64Lt_Ir { lhs, .. } => lhs < m.ireg,
                BranchOp::BranchI64Le_Ss { lhs, rhs, .. } => m.slot(lhs) <= m.slot(rhs),
                BranchOp::BranchI64Le_Rs { rhs, .. } => m.ireg <= m.slot(rhs),
                BranchOp::BranchI64Le_Si { lhs, rhs, .. } => m.slot(lhs) <= rhs,
                BranchOp::BranchU64Lt_Si { lhs, rhs, .. } => low64(m.slot(lhs) as int) < rhs,
                BranchOp::BranchU64Lt_Is { lhs, rhs, .. } => lhs < low64(m.slot(rhs) as int),
                BranchOp::BranchU64Lt_Ir { lhs, .. } => lhs < low64(m.ireg as int),
            };
            let distance = match op {
                BranchOp::Branch { offset } => offset,
                BranchOp::BranchI32Eq_Rs { offset, .. } => offset,
                BranchOp::BranchI32Eq_Si { offset, .. } => offset,
                BranchOp::BranchI32Eq_Ri { offset, .. } => offset,
                BranchOp::BranchI32NotEq_Rs { offset, .. } => offset,
                BranchOp::BranchI32NotEq_Si { offset, .. } => offset,
                BranchOp::BranchI32NotEq_Ri { offset, .. } => offset,
                BranchOp::BranchI32Lt_Si { offset, .. } => offset,
                BranchOp::BranchI32Lt_Ri { offset, .. } => offset,
                BranchOp::BranchI32Le_Ss { offset, .. } => offset,
                BranchOp::BranchU32Lt_Ss { offset, .. } => offset,
                BranchOp::BranchU32Lt_Rs { offset, .. } => offset,
                BranchOp::BranchU32Lt_Sr { offset, .. } => offset,
                BranchOp::BranchU32Lt_Si { offset, .. } => offset,
                BranchOp::BranchU32Lt_Ir { offset, .. } => offset,
                BranchOp::BranchU32Le_Ss { offset, .. } => offset,
                BranchOp::BranchU32Le_Rs { offset, .. } => offset,
                BranchOp::BranchU32Le_Sr { offset, .. } => offset,
                BranchOp::BranchU32Le_Ir { offset, .. } => offset,
                BranchOp::BranchI64Eq_Ss { offset, .. } => offset,
                BranchOp::BranchI64Eq_Si { offset, .. } => offset,
                BranchOp::BranchI64Eq_Ri { offset, .. } => offset,
                BranchOp::BranchI64NotEq_Ri { offset, .. } => offset,
                BranchOp::BranchI64Lt_Rs { offset, .. } => offset,
                BranchOp::BranchI64Lt_Ir { offset, .. } => offset,
                BranchOp::BranchI64Le_Ss { offset, .. } => offset,
                BranchOp::BranchI64Le_Rs { offset, .. } => offset,
                BranchOp::BranchI64Le_Si { offset, .. } => offset,
                BranchOp::BranchU64Lt_Si { offset, .. } => offset,
                BranchOp::BranchU64Lt_Is { offset, .. } => offset,
                BranchOp::BranchU64Lt_Ir { offset, .. } => offset,
            };
            let lost = match op {
                BranchOp::BranchI32NotEq_Si { .. } => true,
                BranchOp::BranchI32Lt_Ri { .. } => true,
                BranchOp::BranchU32Lt_Ss { .. } => true,
                BranchOp::BranchU32Lt_Rs { .. } => true,
                BranchOp::BranchU32Lt_Sr { .. } => true,
                BranchOp::BranchU32Lt_Si { .. } => true,
                BranchOp::BranchU32Lt_Ir { .. } => true,
                BranchOp::BranchU32Le_Sr { .. } => true,
                BranchOp::BranchU32Le_Ir { .. } => true,
                BranchOp::BranchI64Lt_Rs { .. } => true,
                BranchOp::BranchI64Le_Rs { .. } => true,
                BranchOp::BranchU64Lt_Si { .. } => true,
                BranchOp::BranchU64Lt_Ir { .. } => true,
                _ => false,
            };
            &&& flow == if holds {
                Flow::Jump(distance)
            } else {
                Flow::Next
            }
            &&& !lost ==> after.ireg == m.ireg
            &&& forall|s: u16| #[trigger] after.slot(s) == m.slot(s)
            &&& after.freg64 == m.freg64
            &&& after.freg32 == m.freg32
            &&& after.world == m.world
        }),
{
    lemma_branch(op, m, res);
    reveal(BinOp::eval);
    assert forall|v: u64| low64((#[trigger] (v as i64)) as int) == v by {
        lemma_word_u64(v);
    }
}

/// **Sign-extended operands compare in full.** On sign-extended operands the tests that compare
/// all 64 bits hold exactly where the low 32 bits are equal, or differ.
pub proof fn law_full_comparison(a: i64, b: i64)
    requires
        canonical(a),
        canonical(b),
    ensures
        a == b <==> wrap32(a as int) == wrap32(b as int),
{
}

} // verus!
