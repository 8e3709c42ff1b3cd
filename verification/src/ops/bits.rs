//! Shifts, rotations, bit counts and extensions.

use crate::action::{Action, BinOp, BitCount, IntWidth, Src};
use crate::mini::{
    MINI_COPY_SI, MINI_COPY_SR, MINI_I32_BITCOUNT_S, MINI_I32_ROTL_SI, MINI_I32_ROTR_SI,
    MINI_I32_SHL_SI, MINI_I64_BITCOUNT_S, MINI_I64_SEXT32, MINI_I64_SEXT32_S, MINI_I64_SHL_SI,
    MINI_U32_SHR_RI, MINI_U64_SHR_SI, MINI_U64_SHR_SS_WR, MINI_YIELD_STOCK,
};
use crate::word::Word;
use crate::word::Word::{Code, Here, Imm, Scratch, Slot, SlotCount};
use vstd::arithmetic::power2::{
    lemma2_to64, lemma2_to64_rest, lemma_pow2_pos, lemma_pow2_strictly_increases, pow2,
};
use vstd::bits::lemma_u64_shl_is_mul;
use vstd::prelude::*;

verus! {

/// An operation on the bits of one value. Shift amounts are bytes; an operation takes
/// them modulo the width of its operand.
#[allow(non_camel_case_types)]
#[derive(Clone, Copy, Debug, PartialEq, Eq, Structural)]
pub enum BitsOp {
    /// `ireg = slots[lhs] << rhs` (i64).
    I64Shl_Rsi { lhs: u16, rhs: u8 },
    /// `ireg = slots[lhs] << rhs` (i32).
    I32Shl_Rsi { lhs: u16, rhs: u8 },
    /// `ireg = ireg << rhs` (i32).
    I32Shl_Rri { rhs: u8 },
    /// `ireg = rotate_left(slots[lhs], rhs)` (i32).
    I32Rotl_Rsi { lhs: u16, rhs: u8 },
    /// `ireg = rotate_right(slots[lhs], rhs)` (i32).
    I32Rotr_Rsi { lhs: u16, rhs: u8 },
    /// `ireg = ireg >> rhs` (u32).
    U32Shr_Rri { rhs: u8 },
    /// `ireg = slots[lhs] >> rhs` (u64).
    U64Shr_Rsi { lhs: u16, rhs: u8 },
    /// `ireg = lhs >> ireg` (u64).
    U64Shr_Rir { lhs: u64 },
    /// `ireg = slots[lhs] >> rhs` (i64).
    I64Shr_Rsi { lhs: u16, rhs: u8 },
    /// `ireg = sign_extend_32(ireg)`.
    I64Sext32_Rr,
    /// `ireg = sign_extend_32(slots[value])`.
    I64Sext32_Rs { value: u16 },
    /// `ireg = wrap(ireg)`: a 32-bit value is held sign-extended.
    I32WrapI64_Rr,
    /// `ireg = wrap(slots[value])`.
    I32WrapI64_Rs { value: u16 },
    /// `ireg = count(slots[value])`.
    Count_Rs { width: IntWidth, count: BitCount, value: u16 },
    /// `ireg = count(ireg)`.
    Count_Rr { width: IntWidth, count: BitCount },
}

impl IntWidth {
    /// The opcode of the bit counts of this width.
    pub open spec fn spec_bitcount_code(self) -> i64 {
        match self {
            IntWidth::W32 => MINI_I32_BITCOUNT_S,
            IntWidth::W64 => MINI_I64_BITCOUNT_S,
        }
    }

    /// The opcode of the bit counts of this width.
    #[verifier::when_used_as_spec(spec_bitcount_code)]
    pub fn bitcount_code(self) -> (code: i64)
        ensures
            code == self.bitcount_code(),
    {
        match self {
            IntWidth::W32 => MINI_I32_BITCOUNT_S,
            IntWidth::W64 => MINI_I64_BITCOUNT_S,
        }
    }
}

impl BitCount {
    /// The selector of the count.
    pub open spec fn spec_selector(self) -> i64 {
        match self {
            BitCount::Clz => 0,
            BitCount::Ctz => 1,
            BitCount::Popcnt => 2,
        }
    }

    /// The selector of the count.
    #[verifier::when_used_as_spec(spec_selector)]
    pub fn selector(self) -> (sel: i64)
        ensures
            sel == self.selector(),
    {
        match self {
            BitCount::Clz => 0,
            BitCount::Ctz => 1,
            BitCount::Popcnt => 2,
        }
    }
}

/// The mask that clears the `n` high bits of a word, as a signed number.
pub open spec fn high_bits_cleared(n: int) -> i64 {
    if n == 0 {
        -1i64
    } else {
        (pow2((64 - n) as nat) - 1) as i64
    }
}

/// Computes the mask that clears the `n` high bits of a word.
fn clear_high_bits(n: u8) -> (mask: i64)
    requires
        n < 64,
    ensures
        mask == high_bits_cleared(n as int),
{
    if n == 0 {
        -1
    } else {
        let bits: u64 = 64 - n as u64;
        proof {
            lemma2_to64();
            lemma2_to64_rest();
            lemma_pow2_pos(bits as nat);
            if bits < 63 {
                lemma_pow2_strictly_increases(bits as nat, 63);
            }
            lemma_u64_shl_is_mul(1, bits);
        }
        ((1u64 << bits) - 1) as i64
    }
}

impl BitsOp {
    /// The words of the operation.
    pub open spec fn lowering(self) -> Seq<Word> {
        match self {
            BitsOp::I64Shl_Rsi { lhs, rhs } => seq![
                Code(MINI_I64_SHL_SI), Slot(lhs), Imm((rhs % 64) as i64),
            ],
            BitsOp::I32Shl_Rsi { lhs, rhs } => seq![
                Code(MINI_I32_SHL_SI), Slot(lhs), Imm((rhs % 32) as i64),
            ],
            BitsOp::I32Shl_Rri { rhs } => seq![
                Code(MINI_COPY_SR), Scratch(0),
                Code(MINI_I32_SHL_SI), Scratch(0), Imm(rhs as i64),
            ],
            BitsOp::I32Rotl_Rsi { lhs, rhs } => if rhs % 32 == 0 {
                // The rotation instruction takes no amount of zero.
                seq![Code(MINI_I32_SHL_SI), Slot(lhs), Imm(0)]
            } else {
                seq![Code(MINI_I32_ROTL_SI), Slot(lhs), Imm((rhs % 32) as i64)]
            },
            BitsOp::I32Rotr_Rsi { lhs, rhs } => if rhs % 32 == 0 {
                seq![Code(MINI_I32_SHL_SI), Slot(lhs), Imm(0)]
            } else {
                seq![Code(MINI_I32_ROTR_SI), Slot(lhs), Imm((rhs % 32) as i64)]
            },
            BitsOp::U32Shr_Rri { rhs } => seq![Code(MINI_U32_SHR_RI), Imm((rhs % 32) as i64)],
            BitsOp::U64Shr_Rsi { lhs, rhs } => seq![
                Code(MINI_U64_SHR_SI), Slot(lhs),
                Imm((rhs % 64) as i64), Imm(high_bits_cleared(rhs as int % 64)),
            ],
            BitsOp::U64Shr_Rir { lhs } => seq![
                Code(MINI_COPY_SI), Scratch(0), Imm(lhs as i64),
                Code(MINI_COPY_SR), Scratch(1),
                Code(MINI_U64_SHR_SS_WR), Scratch(0), Scratch(1),
            ],
            // The kernel has no arithmetic shift.
            BitsOp::I64Shr_Rsi { .. } => seq![Code(MINI_YIELD_STOCK), Here, SlotCount],
            BitsOp::I64Sext32_Rr => seq![Code(MINI_I64_SEXT32)],
            BitsOp::I64Sext32_Rs { value } => seq![Code(MINI_I64_SEXT32_S), Slot(value)],
            BitsOp::I32WrapI64_Rr => seq![Code(MINI_I64_SEXT32)],
            BitsOp::I32WrapI64_Rs { value } => seq![Code(MINI_I64_SEXT32_S), Slot(value)],
            BitsOp::Count_Rs { width, count, value } => seq![
                Code(width.bitcount_code()), Imm(count.selector()), Slot(value),
            ],
            BitsOp::Count_Rr { width, count } => seq![
                Code(MINI_COPY_SR), Scratch(0),
                Code(width.bitcount_code()), Imm(count.selector()), Scratch(0),
            ],
        }
    }

    /// Lowers the operation.
    pub fn lower(self) -> (words: Vec<Word>)
        ensures
            words@ == self.lowering(),
    {
        let words = match self {
            BitsOp::I64Shl_Rsi { lhs, rhs } => vec![
                Code(MINI_I64_SHL_SI), Slot(lhs), Imm((rhs % 64) as i64),
            ],
            BitsOp::I32Shl_Rsi { lhs, rhs } => vec![
                Code(MINI_I32_SHL_SI), Slot(lhs), Imm((rhs % 32) as i64),
            ],
            BitsOp::I32Shl_Rri { rhs } => vec![
                Code(MINI_COPY_SR), Scratch(0),
                Code(MINI_I32_SHL_SI), Scratch(0), Imm(rhs as i64),
            ],
            BitsOp::I32Rotl_Rsi { lhs, rhs } => if rhs % 32 == 0 {
                vec![Code(MINI_I32_SHL_SI), Slot(lhs), Imm(0)]
            } else {
                vec![Code(MINI_I32_ROTL_SI), Slot(lhs), Imm((rhs % 32) as i64)]
            },
            BitsOp::I32Rotr_Rsi { lhs, rhs } => if rhs % 32 == 0 {
                vec![Code(MINI_I32_SHL_SI), Slot(lhs), Imm(0)]
            } else {
                vec![Code(MINI_I32_ROTR_SI), Slot(lhs), Imm((rhs % 32) as i64)]
            },
            BitsOp::U32Shr_Rri { rhs } => vec![Code(MINI_U32_SHR_RI), Imm((rhs % 32) as i64)],
            BitsOp::U64Shr_Rsi { lhs, rhs } => vec![
                Code(MINI_U64_SHR_SI), Slot(lhs),
                Imm((rhs % 64) as i64), Imm(clear_high_bits(rhs % 64)),
            ],
            BitsOp::U64Shr_Rir { lhs } => vec![
                Code(MINI_COPY_SI), Scratch(0), Imm(lhs as i64),
                Code(MINI_COPY_SR), Scratch(1),
                Code(MINI_U64_SHR_SS_WR), Scratch(0), Scratch(1),
            ],
            BitsOp::I64Shr_Rsi { .. } => vec![Code(MINI_YIELD_STOCK), Here, SlotCount],
            BitsOp::I64Sext32_Rr => vec![Code(MINI_I64_SEXT32)],
            BitsOp::I64Sext32_Rs { value } => vec![Code(MINI_I64_SEXT32_S), Slot(value)],
            BitsOp::I32WrapI64_Rr => vec![Code(MINI_I64_SEXT32)],
            BitsOp::I32WrapI64_Rs { value } => vec![Code(MINI_I64_SEXT32_S), Slot(value)],
            BitsOp::Count_Rs { width, count, value } => vec![
                Code(width.bitcount_code()), Imm(count.selector()), Slot(value),
            ],
            BitsOp::Count_Rr { width, count } => vec![
                Code(MINI_COPY_SR), Scratch(0),
                Code(width.bitcount_code()), Imm(count.selector()), Scratch(0),
            ],
        };
        assert(words@ =~= self.lowering());
        words
    }

    /// What the operation does.
    pub open spec fn action(self) -> Action {
        match self {
            BitsOp::I64Shl_Rsi { lhs, rhs } => shift(BinOp::I64Shl, Src::Slot(lhs), rhs),
            BitsOp::I32Shl_Rsi { lhs, rhs } => shift(BinOp::I32Shl, Src::Slot(lhs), rhs),
            BitsOp::I32Shl_Rri { rhs } => shift(BinOp::I32Shl, Src::Ireg, rhs),
            BitsOp::I32Rotl_Rsi { lhs, rhs } => shift(BinOp::I32Rotl, Src::Slot(lhs), rhs),
            BitsOp::I32Rotr_Rsi { lhs, rhs } => shift(BinOp::I32Rotr, Src::Slot(lhs), rhs),
            BitsOp::U32Shr_Rri { rhs } => shift(BinOp::U32Shr, Src::Ireg, rhs),
            BitsOp::U64Shr_Rsi { lhs, rhs } => shift(BinOp::U64Shr, Src::Slot(lhs), rhs),
            BitsOp::U64Shr_Rir { lhs } => Action::Bin {
                op: BinOp::U64Shr,
                lhs: Src::Imm(lhs as i64),
                rhs: Src::Ireg,
                tee: None,
            },
            BitsOp::I64Shr_Rsi { .. } => Action::Yield,
            BitsOp::I64Sext32_Rr => Action::Sext32 { value: Src::Ireg },
            BitsOp::I64Sext32_Rs { value } => Action::Sext32 { value: Src::Slot(value) },
            BitsOp::I32WrapI64_Rr => Action::Sext32 { value: Src::Ireg },
            BitsOp::I32WrapI64_Rs { value } => Action::Sext32 { value: Src::Slot(value) },
            BitsOp::Count_Rs { width, count, value } => Action::BitCount {
                width,
                op: count,
                value: Src::Slot(value),
            },
            BitsOp::Count_Rr { width, count } => Action::BitCount {
                width,
                op: count,
                value: Src::Ireg,
            },
        }
    }
}

/// `ireg = op(value, amount)`.
pub open spec fn shift(op: BinOp, value: Src, amount: u8) -> Action {
    Action::Bin { op, lhs: value, rhs: Src::Imm(amount as i64), tee: None }
}

} // verus!
