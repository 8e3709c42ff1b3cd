//! The numbers among the words of an operation.

use crate::mini::MINI_COPY_RI;
use crate::ops::bits::BitsOp;
use crate::ops::branch::BranchOp;
use crate::ops::compare::CompareOp;
use crate::ops::integer::IntOp;
use crate::ops::memory::{MemoryOp, StoreImm};
use crate::ops::select::SelectOp;
use crate::word::Word;
use vstd::arithmetic::power2::{lemma2_to64, lemma2_to64_rest, pow2};
use vstd::prelude::*;

verus! {

impl IntOp {
    /// Whether the number is an immediate of the operation.
    pub open spec fn has_number(self, v: i64) -> bool {
        match self {
            IntOp::I32Add_Rs_si { rhs, .. } => v == rhs,
            IntOp::I32Add_Rs_ri { rhs, .. } => v == rhs,
            IntOp::I32Add_Rsi { rhs, .. } => v == rhs,
            IntOp::I32Add_Rri { rhs } => v == rhs,
            IntOp::I32Mul_Rsi { rhs, .. } => v == rhs,
            IntOp::I32Mul_Rri { rhs } => v == rhs,
            IntOp::I32BitAnd_Rsi { rhs, .. } => v == rhs,
            IntOp::I32BitAnd_Rri { rhs } => v == rhs,
            IntOp::I32BitOr_Rri { rhs } => v == rhs,
            IntOp::I32BitXor_Rri { rhs } => v == rhs,
            IntOp::I32Sub_Ris { lhs, .. } => v == lhs,
            IntOp::I32Sub_Rir { lhs } => v == lhs,
            IntOp::I64Add_Rs_si { rhs, .. } => v == rhs,
            IntOp::I64Add_Rs_ri { rhs, .. } => v == rhs,
            IntOp::I64Add_Rsi { rhs, .. } => v == rhs,
            IntOp::I64Add_Rri { rhs } => v == rhs,
            IntOp::I64Mul_Rsi { rhs, .. } => v == rhs,
            IntOp::I64Mul_Rri { rhs } => v == rhs,
            IntOp::I64BitAnd_Rsi { rhs, .. } => v == rhs,
            IntOp::I64BitAnd_Rri { rhs } => v == rhs,
            IntOp::I64BitOr_Rsi { rhs, .. } => v == rhs,
            IntOp::I64BitOr_Rri { rhs } => v == rhs,
            IntOp::I64BitXor_Rri { rhs } => v == rhs,
            IntOp::I64Sub_Ris { lhs, .. } => v == lhs,
            IntOp::I64Sub_Rir { lhs } => v == lhs,
            _ => false,
        }
    }
}

impl CompareOp {
    /// Whether the number is an immediate of the operation.
    pub open spec fn has_number(self, v: i64) -> bool {
        match self {
            CompareOp::I32Eq_Rsi { rhs, .. } => v == rhs,
            CompareOp::I32Eq_Rri { rhs } => v == rhs,
            CompareOp::I32NotEq_Rsi { rhs, .. } => v == rhs,
            CompareOp::I32Lt_Rsi { rhs, .. } => v == rhs,
            CompareOp::I32Le_Rsi { rhs, .. } => v == rhs,
            CompareOp::I32Lt_Ris { lhs, .. } => v == lhs,
            CompareOp::I32Le_Ris { lhs, .. } => v == lhs,
            CompareOp::U32Lt_Rsi { rhs, .. } => v == rhs,
            CompareOp::U32Le_Rsi { rhs, .. } => v == rhs,
            CompareOp::U32Lt_Ris { lhs, .. } => v == lhs,
            CompareOp::U32Le_Ris { lhs, .. } => v == lhs,
            CompareOp::I64Eq_Rsi { rhs, .. } => v == rhs,
            CompareOp::I64Eq_Rri { rhs } => v == rhs,
            CompareOp::I64NotEq_Rsi { rhs, .. } => v == rhs,
            CompareOp::I64Lt_Rsi { rhs, .. } => v == rhs,
            CompareOp::I64Lt_Rri { rhs } => v == rhs,
            CompareOp::I64Le_Rsi { rhs, .. } => v == rhs,
            CompareOp::I64Lt_Ris { lhs, .. } => v == lhs,
            CompareOp::I64Le_Ris { lhs, .. } => v == lhs,
            CompareOp::U64Lt_Rsi { rhs, .. } => v == rhs as i64,
            CompareOp::U64Le_Rsi { rhs, .. } => v == rhs as i64,
            CompareOp::U64Lt_Ris { lhs, .. } => v == lhs as i64,
            CompareOp::U64Le_Ris { lhs, .. } => v == lhs as i64,
            _ => false,
        }
    }
}

impl SelectOp {
    /// Whether the number is an immediate of the operation.
    pub open spec fn has_number(self, v: i64) -> bool {
        match self {
            SelectOp::U64Select_Rrsi { if_false, .. } => v == if_false as i64,
            SelectOp::U64Select_Rris { if_true, .. } => v == if_true as i64,
            SelectOp::U64Select_Rrii { if_true, if_false } => {
                v == if_true as i64 || v == if_false as i64
            },
            SelectOp::U32Select_Rrsi { if_false, .. } => v == if_false,
            SelectOp::U32Select_Rris { if_true, .. } => v == if_true,
            SelectOp::U32Select_Rrii { if_true, if_false } => v == if_true || v == if_false,
            SelectOp::U32Select_Rsii { if_true, if_false, .. } => v == if_true || v == if_false,
            _ => false,
        }
    }
}

impl BranchOp {
    /// Whether the number is an immediate of the operation, or 0, for the test of a comparison.
    pub open spec fn has_number(self, v: i64) -> bool {
        match self {
            BranchOp::BranchI32Eq_Si { rhs, .. } => v == rhs || v == 0,
            BranchOp::BranchI32Eq_Ri { rhs, .. } => v == rhs || v == 0,
            BranchOp::BranchI32NotEq_Si { rhs, .. } => v == rhs || v == 0,
            BranchOp::BranchI32NotEq_Ri { rhs, .. } => v == rhs || v == 0,
            BranchOp::BranchI32Lt_Si { rhs, .. } => v == rhs || v == 0,
            BranchOp::BranchI32Lt_Ri { rhs, .. } => v == rhs || v == 0,
            BranchOp::BranchU32Lt_Si { rhs, .. } => v == rhs || v == 0,
            BranchOp::BranchU32Lt_Ir { lhs, .. } => v == lhs || v == 0,
            BranchOp::BranchU32Le_Ir { lhs, .. } => v == lhs || v == 0,
            BranchOp::BranchI64Eq_Si { rhs, .. } => v == rhs || v == 0,
            BranchOp::BranchI64Eq_Ri { rhs, .. } => v == rhs || v == 0,
            BranchOp::BranchI64NotEq_Ri { rhs, .. } => v == rhs || v == 0,
            BranchOp::BranchI64Le_Si { rhs, .. } => v == rhs || v == 0,
            BranchOp::BranchI64Lt_Ir { lhs, .. } => v == lhs || v == 0,
            BranchOp::BranchU64Lt_Si { rhs, .. } => v == rhs as i64 || v == 0,
            BranchOp::BranchU64Lt_Is { lhs, .. } => v == lhs as i64 || v == 0,
            BranchOp::BranchU64Lt_Ir { lhs, .. } => v == lhs as i64 || v == 0,
            _ => v == 0,
        }
    }
}

impl BitsOp {
    /// Whether the number is the shift amount of the operation, within the width but for one
    /// operation, the value that it shifts, or the mask of the bits that a shift leaves.
    pub open spec fn has_number(self, v: i64) -> bool {
        match self {
            BitsOp::I64Shl_Rsi { rhs, .. } => v == rhs % 64,
            BitsOp::I32Shl_Rsi { rhs, .. } => v == rhs % 32,
            BitsOp::I32Shl_Rri { rhs } => v == rhs,
            BitsOp::I32Rotl_Rsi { rhs, .. } => v == rhs % 32,
            BitsOp::I32Rotr_Rsi { rhs, .. } => v == rhs % 32,
            BitsOp::U32Shr_Rri { rhs } => v == rhs % 32,
            BitsOp::U64Shr_Rsi { rhs, .. } => {
                ||| v == rhs % 64
                ||| v == if rhs % 64 == 0 {
                    -1
                } else {
                    pow2((64 - rhs % 64) as nat) - 1
                }
            },
            BitsOp::U64Shr_Rir { lhs } => v == lhs as i64,
            _ => true,
        }
    }
}

/// Whether this is the number that a store has for its immediate.
pub open spec fn is_immediate(value: StoreImm, v: i64) -> bool {
    match value {
        StoreImm::U64(n) => v == n as i64,
        StoreImm::U32(n) => v == n,
        StoreImm::I8(n) => v == n,
        StoreImm::I16(n) => v == n,
    }
}

impl MemoryOp {
    /// Whether the number is the offset, the address or the immediate of the operation, the offset
    /// 0 from an address, or the mask of the low 32 bits.
    pub open spec fn has_number(self, v: i64) -> bool {
        match self {
            MemoryOp::LoadMem0Offset16_Rr { offset, .. } => v == offset,
            MemoryOp::LoadMem0Offset16_Rs { offset, .. } => v == offset,
            MemoryOp::U64LoadExtend32Mem0Offset16_Rs { offset, .. } => {
                v == offset || v == 0xFFFF_FFFF
            },
            MemoryOp::StoreMem0Offset16_Sr { offset, .. } => v == offset,
            MemoryOp::StoreMem0Offset16_Rs { offset, .. } => v == offset,
            MemoryOp::StoreMem0Offset16_Ss { offset, .. } => v == offset,
            MemoryOp::I64StoreWrap32Mem0Offset16_Rs { offset, .. } => v == offset,
            MemoryOp::F64StoreMem0Offset16_Sr { offset, .. } => v == offset,
            MemoryOp::F64StoreMem0Offset16_Rr { offset } => v == offset,
            MemoryOp::F32StoreMem0Offset16_Sr { offset, .. } => v == offset,
            MemoryOp::F32StoreMem0Offset16_Rr { offset } => v == offset,
            MemoryOp::U32Load_Ri { address, .. } => v == address as i64 || v == 0,
            MemoryOp::U64Load_Ri { address, .. } => v == address as i64 || v == 0,
            MemoryOp::U32LoadExtend8_Ri { address, .. } => v == address as i64 || v == 0,
            MemoryOp::U32LoadExtend16_Ri { address, .. } => v == address as i64 || v == 0,
            MemoryOp::U64LoadExtend32_Ri { address, .. } => {
                v == address as i64 || v == 0 || v == 0xFFFF_FFFF
            },
            MemoryOp::U64Store_Is { address, .. } => v == address as i64 || v == 0,
            MemoryOp::U32Store_Is { address, .. } => v == address as i64 || v == 0,
            MemoryOp::U32Store_Ir { address, .. } => v == address as i64 || v == 0,
            MemoryOp::U64LoadExtend8_Rs { offset, .. } => v == offset as i64,
            MemoryOp::StoreMem0Offset16_Si { offset, value, .. } => {
                v == offset || is_immediate(value, v)
            },
            MemoryOp::StoreMem0Offset16_Ri { offset, value } => {
                v == offset || is_immediate(value, v)
            },
            MemoryOp::U32Store_Ii { address, value, .. } => {
                v == address as i64 || v == 0 || v == value
            },
            _ => false,
        }
    }

    /// The fixed address of the operation, if it has one.
    pub open spec fn fixed(self) -> Option<u64> {
        match self {
            MemoryOp::U32Load_Ri { address, .. } => Some(address),
            MemoryOp::U64Load_Ri { address, .. } => Some(address),
            MemoryOp::U32LoadExtend8_Ri { address, .. } => Some(address),
            MemoryOp::U32LoadExtend16_Ri { address, .. } => Some(address),
            MemoryOp::U64LoadExtend32_Ri { address, .. } => Some(address),
            MemoryOp::U64Store_Is { address, .. } => Some(address),
            MemoryOp::U32Store_Is { address, .. } => Some(address),
            MemoryOp::U32Store_Ir { address, .. } => Some(address),
            MemoryOp::U32Store_Ii { address, .. } => Some(address),
            _ => None,
        }
    }
}

/// Immediates of an operation on integers stand among its words as the numbers that they are.
pub proof fn law_integer_numbers(op: IntOp)
    ensures
        forall|k: int|
            0 <= k < op.lowering().len() && (#[trigger] op.lowering()[k]) is Imm ==> op.has_number(
                op.lowering()[k]->Imm_0,
            ),
{
}

/// Immediates of a comparison stand among its words as the numbers that they are.
pub proof fn law_compare_numbers(op: CompareOp)
    ensures
        forall|k: int|
            0 <= k < op.lowering().len() && (#[trigger] op.lowering()[k]) is Imm ==> op.has_number(
                op.lowering()[k]->Imm_0,
            ),
{
}

/// Immediates of a selection stand among its words as the numbers that they are.
pub proof fn law_select_numbers(op: SelectOp)
    ensures
        forall|k: int|
            0 <= k < op.lowering().len() && (#[trigger] op.lowering()[k]) is Imm ==> op.has_number(
                op.lowering()[k]->Imm_0,
            ),
{
}

/// Immediates of a branch stand among its words as the numbers that they are.
pub proof fn law_branch_numbers(op: BranchOp)
    ensures
        forall|k: int|
            0 <= k < op.lowering().len() && (#[trigger] op.lowering()[k]) is Imm ==> op.has_number(
                op.lowering()[k]->Imm_0,
            ),
{
}

/// Shift amounts stand among the words of an operation within its width, but for one operation.
pub proof fn law_bits_numbers(op: BitsOp)
    ensures
        forall|k: int|
            0 <= k < op.lowering().len() && (#[trigger] op.lowering()[k]) is Imm ==> op.has_number(
                op.lowering()[k]->Imm_0,
            ),
{
    lemma2_to64();
    lemma2_to64_rest();
}

/// Offsets, addresses and immediates of an operation on memory stand among its words as the
/// numbers that they are, and a fixed address is what the accumulator gets.
pub proof fn law_memory_numbers(op: MemoryOp)
    ensures
        forall|k: int|
            0 <= k < op.lowering().len() && (#[trigger] op.lowering()[k]) is Imm ==> op.has_number(
                op.lowering()[k]->Imm_0,
            ),
        op.fixed() matches Some(address) ==> forall|k: int|
            0 <= k < op.lowering().len() && #[trigger] op.lowering()[k] == Word::Code(MINI_COPY_RI)
                ==> op.lowering()[k + 1] == Word::Imm(address as i64),
{
}

} // verus!
