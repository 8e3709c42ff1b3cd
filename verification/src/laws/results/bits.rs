//! What shifts, rotations, bit counts and extensions leave behind, in numbers.

use crate::action::{low32, low64, wrap32, wrap64, BinOp, Flow, Machine, Residuals};
use crate::kernel::run;
use crate::laws::results::lemma_word_u64;
use crate::laws::shifts::lemma_bits;
use crate::ops::bits::BitsOp;
use vstd::arithmetic::power2::pow2;
use vstd::prelude::*;

verus! {

/// **Shifts, rotations and counts.** The words of an operation on bits put into the accumulator
/// the product with a power of two, the quotient of the bits by one, the rotated bits, a count,
/// or the low 32 bits sign-extended. Amounts count modulo the width. Nothing else changes. An
/// arithmetic right shift is left to the stock executor, with the machine as it is.
#[verifier::rlimit(60)]
pub proof fn law_bits<W>(op: BitsOp, m: Machine<W>, res: Residuals<W>)
    ensures
        ({
            let (after, flow) = run(op.lowering(), m, res);
            &&& flow == if op is I64Shr_Rsi {
                Flow::Yield
            } else {
                Flow::Next
            }
            &&& after.ireg == match op {
                BitsOp::I64Shl_Rsi { lhs, rhs } => {
                    wrap64(m.slot(lhs) * pow2((rhs as int % 64) as nat))
                },
                BitsOp::I32Shl_Rsi { lhs, rhs } => {
                    wrap32(m.slot(lhs) * pow2((rhs as int % 32) as nat))
                },
                BitsOp::I32Shl_Rri { rhs } => wrap32(m.ireg * pow2((rhs as int % 32) as nat)),
                BitsOp::I32Rotl_Rsi { lhs, rhs } => {
                    let low = low32(m.slot(lhs) as int);
                    let k = rhs as int % 32;
                    wrap32(low * pow2(k as nat) + low / pow2((32 - k) as nat) as int)
                },
                BitsOp::I32Rotr_Rsi { lhs, rhs } => {
                    let low = low32(m.slot(lhs) as int);
                    let k = (32 - rhs as int % 32) % 32;
                    wrap32(low * pow2(k as nat) + low / pow2((32 - k) as nat) as int)
                },
                BitsOp::U32Shr_Rri { rhs } => {
                    wrap32(low32(m.ireg as int) / pow2((rhs as int % 32) as nat) as int)
                },
                BitsOp::U64Shr_Rsi { lhs, rhs } => {
                    wrap64(low64(m.slot(lhs) as int) / pow2((rhs as int % 64) as nat) as int)
                },
                BitsOp::U64Shr_Rir { lhs } => {
                    wrap64(lhs as int / pow2((m.ireg as int % 64) as nat) as int)
                },
                BitsOp::I64Shr_Rsi { .. } => m.ireg,
                BitsOp::I64Sext32_Rr => wrap32(m.ireg as int),
                BitsOp::I64Sext32_Rs { value } => wrap32(m.slot(value) as int),
                BitsOp::I32WrapI64_Rr => wrap32(m.ireg as int),
                BitsOp::I32WrapI64_Rs { value } => wrap32(m.slot(value) as int),
                BitsOp::Count_Rs { width, count, value } => {
                    (res.bit_count)(width, count, m.slot(value))
                },
                BitsOp::Count_Rr { width, count } => (res.bit_count)(width, count, m.ireg),
            }
            &&& forall|s: u16| #[trigger] after.slot(s) == m.slot(s)
            &&& after.freg64 == m.freg64
            &&& after.freg32 == m.freg32
            &&& after.world == m.world
        }),
{
    lemma_bits(op, m, res);
    reveal(BinOp::eval);
    if let BitsOp::U64Shr_Rir { lhs } = op {
        lemma_word_u64(lhs);
    }
}

} // verus!
