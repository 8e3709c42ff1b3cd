//! What integer operations and comparisons leave behind, in numbers.

use crate::action::{low32, low64, wrap32, wrap64, BinOp, Machine, Residuals};
use crate::kernel::run;
use crate::laws::arith::{lemma_compare, lemma_integer};
use crate::laws::results::lemma_word_u64;
use crate::ops::compare::CompareOp;
use crate::ops::integer::IntOp;
use vstd::prelude::*;

verus! {

/// **Integer arithmetic.** The words of an integer operation put the function of the operands, in
/// their order, into the accumulator, and into the result slot if there is one. A 32-bit result
/// is the low 32 bits of the exact one, sign-extended, and a 64-bit result the low 64 bits.
/// Nothing else changes.
#[verifier::rlimit(60)]
pub proof fn law_integer<W>(op: IntOp, m: Machine<W>, res: Residuals<W>)
    ensures
        ({
            let (after, flow) = run(op.lowering(), m, res);
            &&& flow is Next
            &&& after.ireg == match op {
                IntOp::I32Add_Rs_si { lhs, rhs, .. } => wrap32(m.slot(lhs) + rhs),
                IntOp::I32Add_Rs_rs { rhs, .. } => wrap32(m.ireg + m.slot(rhs)),
                IntOp::I32Add_Rs_ri { rhs, .. } => wrap32(m.ireg + rhs),
                IntOp::I32Add_Rs_ss { lhs, rhs, .. } => wrap32(m.slot(lhs) + m.slot(rhs)),
                IntOp::I32Add_Rss { lhs, rhs } => wrap32(m.slot(lhs) + m.slot(rhs)),
                IntOp::I32Add_Rrs { rhs } => wrap32(m.ireg + m.slot(rhs)),
                IntOp::I32Add_Rsi { lhs, rhs } => wrap32(m.slot(lhs) + rhs),
                IntOp::I32Add_Rri { rhs } => wrap32(m.ireg + rhs),
                IntOp::I32Sub_Rss { lhs, rhs } => wrap32(m.slot(lhs) - m.slot(rhs)),
                IntOp::I32Sub_Rrs { rhs } => wrap32(m.ireg - m.slot(rhs)),
                IntOp::I32Sub_Rsr { lhs } => wrap32(m.slot(lhs) - m.ireg),
                IntOp::I32Sub_Ris { lhs, rhs } => wrap32(lhs - m.slot(rhs)),
                IntOp::I32Sub_Rir { lhs } => wrap32(lhs - m.ireg),
                IntOp::I32Mul_Rss { lhs, rhs } => wrap32(m.slot(lhs) * m.slot(rhs)),
                IntOp::I32Mul_Rrs { rhs } => wrap32(m.ireg * m.slot(rhs)),
                IntOp::I32Mul_Rsi { lhs, rhs } => wrap32(m.slot(lhs) * rhs),
                IntOp::I32Mul_Rri { rhs } => wrap32(m.ireg * rhs),
                IntOp::I32BitAnd_Rrs { rhs } => wrap32((m.ireg & m.slot(rhs)) as int),
                IntOp::I32BitAnd_Rsi { lhs, rhs } => wrap32((m.slot(lhs) & (rhs as i64)) as int),
                IntOp::I32BitAnd_Rri { rhs } => wrap32((m.ireg & (rhs as i64)) as int),
                IntOp::I32BitOr_Rrs { rhs } => wrap32((m.ireg | m.slot(rhs)) as int),
                IntOp::I32BitOr_Rri { rhs } => wrap32((m.ireg | (rhs as i64)) as int),
                IntOp::I32BitXor_Rss { lhs, rhs } => wrap32((m.slot(lhs) ^ m.slot(rhs)) as int),
                IntOp::I32BitXor_Rrs { rhs } => wrap32((m.ireg ^ m.slot(rhs)) as int),
                IntOp::I32BitXor_Rri { rhs } => wrap32((m.ireg ^ (rhs as i64)) as int),
                IntOp::I64Add_Rs_si { lhs, rhs, .. } => wrap64(m.slot(lhs) + rhs),
                IntOp::I64Add_Rs_rs { rhs, .. } => wrap64(m.ireg + m.slot(rhs)),
                IntOp::I64Add_Rs_ri { rhs, .. } => wrap64(m.ireg + rhs),
                IntOp::I64Add_Rs_ss { lhs, rhs, .. } => wrap64(m.slot(lhs) + m.slot(rhs)),
                IntOp::I64Add_Rss { lhs, rhs } => wrap64(m.slot(lhs) + m.slot(rhs)),
                IntOp::I64Add_Rrs { rhs } => wrap64(m.ireg + m.slot(rhs)),
                IntOp::I64Add_Rsi { lhs, rhs } => wrap64(m.slot(lhs) + rhs),
                IntOp::I64Add_Rri { rhs } => wrap64(m.ireg + rhs),
                IntOp::I64Sub_Rss { lhs, rhs } => wrap64(m.slot(lhs) - m.slot(rhs)),
                IntOp::I64Sub_Rrs { rhs } => wrap64(m.ireg - m.slot(rhs)),
                IntOp::I64Sub_Rsr { lhs } => wrap64(m.slot(lhs) - m.ireg),
                IntOp::I64Sub_Ris { lhs, rhs } => wrap64(lhs - m.slot(rhs)),
                IntOp::I64Sub_Rir { lhs } => wrap64(lhs - m.ireg),
                IntOp::I64Mul_Rss { lhs, rhs } => wrap64(m.slot(lhs) * m.slot(rhs)),
                IntOp::I64Mul_Rrs { rhs } => wrap64(m.ireg * m.slot(rhs)),
                IntOp::I64Mul_Rsi { lhs, rhs } => wrap64(m.slot(lhs) * rhs),
                IntOp::I64Mul_Rri { rhs } => wrap64(m.ireg * rhs),
                IntOp::I64BitAnd_Rsi { lhs, rhs } => m.slot(lhs) & rhs,
                IntOp::I64BitAnd_Rri { rhs } => m.ireg & rhs,
                IntOp::I64BitOr_Rss { lhs, rhs } => m.slot(lhs) | m.slot(rhs),
                IntOp::I64BitOr_Rrs { rhs } => m.ireg | m.slot(rhs),
                IntOp::I64BitOr_Rsi { lhs, rhs } => m.slot(lhs) | rhs,
                IntOp::I64BitOr_Rri { rhs } => m.ireg | rhs,
                IntOp::I64BitXor_Rss { lhs, rhs } => m.slot(lhs) ^ m.slot(rhs),
                IntOp::I64BitXor_Rrs { rhs } => m.ireg ^ m.slot(rhs),
                IntOp::I64BitXor_Rri { rhs } => m.ireg ^ rhs,
            }
            &&& forall|s: u16| #[trigger]
                after.slot(s) == if (match op {
                    IntOp::I32Add_Rs_si { result, .. } => s == result,
                    IntOp::I32Add_Rs_rs { result, .. } => s == result,
                    IntOp::I32Add_Rs_ri { result, .. } => s == result,
                    IntOp::I32Add_Rs_ss { result, .. } => s == result,
                    IntOp::I64Add_Rs_si { result, .. } => s == result,
                    IntOp::I64Add_Rs_rs { result, .. } => s == result,
                    IntOp::I64Add_Rs_ri { result, .. } => s == result,
                    IntOp::I64Add_Rs_ss { result, .. } => s == result,
                    _ => false,
                }) {
                    after.ireg
                } else {
                    m.slot(s)
                }
            &&& after.freg64 == m.freg64
            &&& after.freg32 == m.freg32
            &&& after.world == m.world
        }),
{
    lemma_integer(op, m, res);
    reveal(BinOp::eval);
}

/// **Comparisons.** The words of a comparison put 1 into the accumulator if the first operand is
/// to the second as the comparison says, and 0 if not: 32-bit operands by their low 32 bits,
/// signed or from 0 on, and 64-bit operands likewise. Nothing else changes.
#[verifier::rlimit(60)]
pub proof fn law_compare<W>(op: CompareOp, m: Machine<W>, res: Residuals<W>)
    ensures
        ({
            let (after, flow) = run(op.lowering(), m, res);
            let holds = match op {
                CompareOp::I32Eq_Rss { lhs, rhs } => {
                    wrap32(m.slot(lhs) as int) == wrap32(m.slot(rhs) as int)
                },
                CompareOp::I32Eq_Rrs { rhs } => wrap32(m.ireg as int) == wrap32(m.slot(rhs) as int),
                CompareOp::I32Eq_Rsi { lhs, rhs } => {
                    wrap32(m.slot(lhs) as int) == wrap32(rhs as int)
                },
                CompareOp::I32Eq_Rri { rhs } => wrap32(m.ireg as int) == wrap32(rhs as int),
                CompareOp::I32NotEq_Rrs { rhs } => {
                    wrap32(m.ireg as int) != wrap32(m.slot(rhs) as int)
                },
                CompareOp::I32NotEq_Rsi { lhs, rhs } => {
                    wrap32(m.slot(lhs) as int) != wrap32(rhs as int)
                },
                CompareOp::I32Lt_Rrs { rhs } => wrap32(m.ireg as int) < wrap32(m.slot(rhs) as int),
                CompareOp::I32Lt_Rsr { lhs } => wrap32(m.slot(lhs) as int) < wrap32(m.ireg as int),
                CompareOp::I32Lt_Rsi { lhs, rhs } => {
                    wrap32(m.slot(lhs) as int) < wrap32(rhs as int)
                },
                CompareOp::I32Lt_Ris { lhs, rhs } => {
                    wrap32(lhs as int) < wrap32(m.slot(rhs) as int)
                },
                CompareOp::I32Le_Rrs { rhs } => wrap32(m.ireg as int) <= wrap32(m.slot(rhs) as int),
                CompareOp::I32Le_Rsi { lhs, rhs } => {
                    wrap32(m.slot(lhs) as int) <= wrap32(rhs as int)
                },
                CompareOp::I32Le_Ris { lhs, rhs } => {
                    wrap32(lhs as int) <= wrap32(m.slot(rhs) as int)
                },
                CompareOp::U32Lt_Rrs { rhs } => low32(m.ireg as int) < low32(m.slot(rhs) as int),
                CompareOp::U32Lt_Rsi { lhs, rhs } => low32(m.slot(lhs) as int) < rhs,
                CompareOp::U32Lt_Ris { lhs, rhs } => lhs < low32(m.slot(rhs) as int),
                CompareOp::U32Le_Rrs { rhs } => low32(m.ireg as int) <= low32(m.slot(rhs) as int),
                CompareOp::U32Le_Rsi { lhs, rhs } => low32(m.slot(lhs) as int) <= rhs,
                CompareOp::U32Le_Ris { lhs, rhs } => lhs <= low32(m.slot(rhs) as int),
                CompareOp::I64Eq_Rrs { rhs } => m.ireg == m.slot(rhs),
                CompareOp::I64Eq_Rsi { lhs, rhs } => m.slot(lhs) == rhs,
                CompareOp::I64Eq_Rri { rhs } => m.ireg == rhs,
                CompareOp::I64NotEq_Rrs { rhs } => m.ireg != m.slot(rhs),
                CompareOp::I64NotEq_Rsi { lhs, rhs } => m.slot(lhs) != rhs,
                CompareOp::I64Lt_Rss { lhs, rhs } => m.slot(lhs) < m.slot(rhs),
                CompareOp::I64Lt_Rrs { rhs } => m.ireg < m.slot(rhs),
                CompareOp::I64Lt_Rsr { lhs } => m.slot(lhs) < m.ireg,
                CompareOp::I64Lt_Rsi { lhs, rhs } => m.slot(lhs) < rhs,
                CompareOp::I64Lt_Rri { rhs } => m.ireg < rhs,
                CompareOp::I64Lt_Ris { lhs, rhs } => lhs < m.slot(rhs),
                CompareOp::I64Le_Rsi { lhs, rhs } => m.slot(lhs) <= rhs,
                CompareOp::I64Le_Ris { lhs, rhs } => lhs <= m.slot(rhs),
                CompareOp::U64Lt_Rsi { lhs, rhs } => low64(m.slot(lhs) as int) < rhs,
                CompareOp::U64Lt_Ris { lhs, rhs } => lhs < low64(m.slot(rhs) as int),
                CompareOp::U64Le_Rsi { lhs, rhs } => low64(m.slot(lhs) as int) <= rhs,
                CompareOp::U64Le_Ris { lhs, rhs } => lhs <= low64(m.slot(rhs) as int),
            };
            &&& flow is Next
            &&& after.ireg == if holds {
                1i64
            } else {
                0
            }
            &&& forall|s: u16| #[trigger] after.slot(s) == m.slot(s)
            &&& after.freg64 == m.freg64
            &&& after.freg32 == m.freg32
            &&& after.world == m.world
        }),
{
    lemma_compare(op, m, res);
    reveal(BinOp::eval);
    assert forall|v: u64| low64((#[trigger] (v as i64)) as int) == v by {
        lemma_word_u64(v);
    }
}

} // verus!
