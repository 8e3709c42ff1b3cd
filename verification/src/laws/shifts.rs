//! Shifts, rotations, bit counts and extensions.

use crate::action::{low32, low64, rotl32, wrap32, wrap64, BinOp, Machine, Residuals};
use crate::kernel::{does, lemma_codes, step_outside};
use crate::laws::patterns::{
    by_copy_spill_then_ss, by_ri, by_si, by_spill_then_si, lemma_run_1, lemma_run_2,
};
use crate::mini::{
    MINI_I32_ROTL_SI, MINI_I32_ROTR_SI, MINI_I32_SHL_SI, MINI_I64_SHL_SI, MINI_U32_SHR_RI,
    MINI_U64_SHR_SS_WR,
};
use crate::ops::bits::{high_bits_cleared, BitsOp};
use vstd::arithmetic::power2::{
    lemma2_to64, lemma2_to64_rest, lemma_pow2_pos, lemma_pow2_strictly_increases, pow2,
};
use vstd::bits::{lemma_u64_shl_is_mul, lemma_u64_shr_is_div};
use vstd::prelude::*;

verus! {

/// The bits of `a` as a number from 0 on.
proof fn lemma_low64(a: i64)
    ensures
        a as u64 == low64(a as int),
{
    assert(a < 0 ==> (a as u64) == (a as i128 + 0x1_0000_0000_0000_0000i128) as u64)
        by (bit_vector);
}

/// The mask that leaves `k` low bits.
proof fn lemma_mask(k: u64)
    requires
        0 < k < 64,
    ensures
        1u64 << k == pow2(k as nat),
        0 < 1u64 << k <= 0x8000_0000_0000_0000,
        ((1u64 << k) - 1) as i64 == high_bits_cleared(64 - k),
{
    lemma2_to64();
    lemma2_to64_rest();
    lemma_pow2_pos(k as nat);
    if k < 63 {
        lemma_pow2_strictly_increases(k as nat, 63);
    }
    lemma_u64_shl_is_mul(1, k);
}

/// An arithmetic shift whose copies of the sign are masked off divides the bits, taken as a
/// number from 0 on.
proof fn lemma_masked_quotient(a: i64, n: u64)
    requires
        0 < n < 64,
    ensures
        (a >> n) & high_bits_cleared(n as int) == low64(a as int) / pow2(n as nat) as int,
{
    lemma_low64(a);
    let u = a as u64;
    let k: u64 = (64 - n) as u64;
    lemma_mask(k);
    let mask: u64 = ((1u64 << k) - 1) as u64;
    assert(((a >> n) & (mask as i64)) as u64 == (a as u64) >> n) by (bit_vector)
        requires
            0 < n < 64,
            k == 64 - n,
            mask == (1u64 << k) - 1,
    ;
    assert(((a >> n) & (mask as i64)) >= 0) by (bit_vector)
        requires
            0 < n < 64,
            k == 64 - n,
            mask == (1u64 << k) - 1,
    ;
    lemma_u64_shr_is_div(u, n);
}

/// An arithmetic shift whose copies of the sign are masked off is a logical shift.
proof fn lemma_masked_shift(a: i64, n: u64)
    requires
        n < 64,
    ensures
        (a >> n) & high_bits_cleared(n as int) == BinOp::U64Shr.eval(a, n as i64),
{
    if n == 0 {
        assert((a >> 0u64) & (-1i64) == a) by (bit_vector);
        assert(pow2(0) == 1) by {
            lemma2_to64();
        }
        assert(low64(a as int) / 1 == low64(a as int));
        assert(wrap64(low64(a as int)) == a);
    } else {
        lemma_masked_quotient(a, n);
    }
    reveal(BinOp::eval);
}

/// A rotation by nothing is a shift by nothing.
proof fn lemma_no_rotation(a: i64, n: i64)
    requires
        n as int % 32 == 0,
    ensures
        BinOp::I32Rotl.eval(a, n) == BinOp::I32Shl.eval(a, 0),
        BinOp::I32Rotr.eval(a, n) == BinOp::I32Shl.eval(a, 0),
{
    reveal(BinOp::eval);
    lemma2_to64();
    let low = low32(a as int);
    assert(pow2(0) == 1 && pow2(32) == 0x1_0000_0000);
    assert(low * pow2(0) as int == low) by (nonlinear_arith)
        requires
            pow2(0) == 1,
    ;
    assert(a * pow2(0) as int == a) by (nonlinear_arith)
        requires
            pow2(0) == 1,
    ;
    assert(low / pow2(32) as int == 0);
    assert(rotl32(a as int, 0) == wrap32(low));
    assert(wrap32(low) == wrap32(a as int));
}

/// The amount of a shift counts modulo the width of the operand.
proof fn lemma_amount(a: i64, n: i64)
    requires
        0 <= n,
    ensures
        BinOp::I64Shl.eval(a, (n as int % 64) as i64) == BinOp::I64Shl.eval(a, n),
        BinOp::U64Shr.eval(a, (n as int % 64) as i64) == BinOp::U64Shr.eval(a, n),
        BinOp::I32Shl.eval(a, (n as int % 32) as i64) == BinOp::I32Shl.eval(a, n),
        BinOp::U32Shr.eval(a, (n as int % 32) as i64) == BinOp::U32Shr.eval(a, n),
        BinOp::I32Rotl.eval(a, (n as int % 32) as i64) == BinOp::I32Rotl.eval(a, n),
        BinOp::I32Rotr.eval(a, (n as int % 32) as i64) == BinOp::I32Rotr.eval(a, n),
{
    reveal(BinOp::eval);
}

/// The words of a bit count do what the count does.
proof fn lemma_count<W>(op: BitsOp, m: Machine<W>, res: Residuals<W>)
    requires
        op is Count_Rs || op is Count_Rr,
    ensures
        does(op.lowering(), op.action(), m, res),
{
    lemma_codes();
    reveal(step_outside);
    if op is Count_Rs {
        lemma_run_1(op.lowering(), m, res);
    } else {
        lemma_run_2(op.lowering(), 2, m, res);
    }
}

/// The words of a logical shift by an immediate do what the shift does.
proof fn lemma_shift_right<W>(lhs: u16, rhs: u8, m: Machine<W>, res: Residuals<W>)
    ensures
        does(
            BitsOp::U64Shr_Rsi { lhs, rhs }.lowering(),
            BitsOp::U64Shr_Rsi { lhs, rhs }.action(),
            m,
            res,
        ),
{
    lemma_codes();
    lemma_amount(m.slot(lhs), rhs as i64);
    lemma_masked_shift(m.slot(lhs), (rhs % 64) as u64);
    lemma_run_1(BitsOp::U64Shr_Rsi { lhs, rhs }.lowering(), m, res);
}

/// The words of a shift, rotation, bit count or extension do what that does.
pub(crate) proof fn lemma_bits<W>(op: BitsOp, m: Machine<W>, res: Residuals<W>)
    ensures
        does(op.lowering(), op.action(), m, res),
{
    lemma_codes();
    match op {
        BitsOp::I64Shl_Rsi { lhs, rhs } => {
            lemma_amount(m.slot(lhs), rhs as i64);
            by_si(MINI_I64_SHL_SI, BinOp::I64Shl, lhs, (rhs % 64) as i64, m, res);
        },
        BitsOp::I32Shl_Rsi { lhs, rhs } => {
            lemma_amount(m.slot(lhs), rhs as i64);
            by_si(MINI_I32_SHL_SI, BinOp::I32Shl, lhs, (rhs % 32) as i64, m, res);
        },
        BitsOp::I32Shl_Rri { rhs } => {
            by_spill_then_si(MINI_I32_SHL_SI, BinOp::I32Shl, rhs as i64, m, res);
        },
        BitsOp::I32Rotl_Rsi { lhs, rhs } => {
            lemma_amount(m.slot(lhs), rhs as i64);
            if rhs % 32 == 0 {
                lemma_no_rotation(m.slot(lhs), rhs as i64);
                by_si(MINI_I32_SHL_SI, BinOp::I32Shl, lhs, 0, m, res);
            } else {
                by_si(MINI_I32_ROTL_SI, BinOp::I32Rotl, lhs, (rhs % 32) as i64, m, res);
            }
        },
        BitsOp::I32Rotr_Rsi { lhs, rhs } => {
            lemma_amount(m.slot(lhs), rhs as i64);
            if rhs % 32 == 0 {
                lemma_no_rotation(m.slot(lhs), rhs as i64);
                by_si(MINI_I32_SHL_SI, BinOp::I32Shl, lhs, 0, m, res);
            } else {
                by_si(MINI_I32_ROTR_SI, BinOp::I32Rotr, lhs, (rhs % 32) as i64, m, res);
            }
        },
        BitsOp::U32Shr_Rri { rhs } => {
            lemma_amount(m.ireg, rhs as i64);
            by_ri(MINI_U32_SHR_RI, BinOp::U32Shr, (rhs % 32) as i64, m, res);
        },
        BitsOp::U64Shr_Rsi { lhs, rhs } => lemma_shift_right(lhs, rhs, m, res),
        BitsOp::U64Shr_Rir { lhs } => {
            by_copy_spill_then_ss(MINI_U64_SHR_SS_WR, BinOp::U64Shr, lhs as i64, m, res);
        },
        BitsOp::I64Shr_Rsi { .. } => lemma_run_1(op.lowering(), m, res),
        BitsOp::I64Sext32_Rr => lemma_run_1(op.lowering(), m, res),
        BitsOp::I64Sext32_Rs { .. } => lemma_run_1(op.lowering(), m, res),
        BitsOp::I32WrapI64_Rr => lemma_run_1(op.lowering(), m, res),
        BitsOp::I32WrapI64_Rs { .. } => lemma_run_1(op.lowering(), m, res),
        BitsOp::Count_Rs { .. } => lemma_count(op, m, res),
        BitsOp::Count_Rr { .. } => lemma_count(op, m, res),
    }
}

} // verus!
