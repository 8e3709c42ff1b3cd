//! What copies, selections and accesses to globals leave behind.

use crate::action::{low32, wrap32, Machine, Residuals};
use crate::kernel::run;
use crate::laws::moves::{lemma_copy, lemma_global, lemma_select};
use crate::ops::copy::CopyOp;
use crate::ops::global::GlobalOp;
use crate::ops::select::SelectOp;
use vstd::prelude::*;

verus! {

/// **Copies.** The words of a copy put its value into the slot or the accumulator that it names,
/// and change nothing else. An immediate of 32 bits is sign-extended.
pub proof fn law_copy<W>(op: CopyOp, m: Machine<W>, res: Residuals<W>)
    ensures
        ({
            let (after, flow) = run(op.lowering(), m, res);
            &&& flow is Next
            &&& after.ireg == match op {
                CopyOp::U64Copy_Rs { value } => m.slot(value),
                CopyOp::U64Copy_Ri { value } => value as i64,
                CopyOp::U32Copy_Ri { value } => wrap32(value as int),
                _ => m.ireg,
            }
            &&& forall|s: u16| #[trigger]
                after.slot(s) == match op {
                    CopyOp::U64Copy_Si { result, value } if s == result => value as i64,
                    CopyOp::U64Copy_Ss { result, value } if s == result => m.slot(value),
                    CopyOp::U64Copy_SNsM { result, value } if s == result => m.slot(value),
                    CopyOp::U64Copy_Sr { result } if s == result => m.ireg,
                    CopyOp::U32Copy_Si { result, value } if s == result => wrap32(value as int),
                    CopyOp::F64Copy_Sr { result } if s == result => m.freg64,
                    CopyOp::F32Copy_Sr { result } if s == result => m.freg32,
                    _ => m.slot(s),
                }
            &&& after.freg64 == m.freg64
            &&& after.freg32 == m.freg32
            &&& after.world == m.world
        }),
{
    lemma_copy(op, m, res);
    assert forall|v: u32| (#[trigger] (v as i32)) as i64 == wrap32(v as int) by {
        lemma_word_u32(v);
    }
}

/// A 32-bit immediate keeps its bits.
proof fn lemma_word_u32(v: u32)
    ensures
        (v as i32) as i64 == wrap32(v as int),
{
    assert(v < 0x8000_0000 ==> (v as i32) as i64 == v as i64) by (bit_vector);
    assert(v >= 0x8000_0000 ==> (v as i32) as i64 == v as i64 - 0x1_0000_0000i64) by (bit_vector);
}

/// **Selections.** The words of a selection put one of two values into the accumulator: the first
/// if the low 32 bits of the condition are not zero, and the second if they are. Nothing else
/// changes.
pub proof fn law_select<W>(op: SelectOp, m: Machine<W>, res: Residuals<W>)
    ensures
        ({
            let (after, flow) = run(op.lowering(), m, res);
            let condition = match op {
                SelectOp::U32Select_Rsii { condition, .. } => m.slot(condition),
                _ => m.ireg,
            };
            &&& flow is Next
            &&& wrap32(condition as int) != 0 ==> after.ireg == match op {
                SelectOp::U64Select_Rrss { if_true, .. } => m.slot(if_true),
                SelectOp::U64Select_Rrsi { if_true, .. } => m.slot(if_true),
                SelectOp::U64Select_Rris { if_true, .. } => if_true as i64,
                SelectOp::U64Select_Rrii { if_true, .. } => if_true as i64,
                SelectOp::U64Select_Rrrs { .. } => m.ireg,
                SelectOp::U32Select_Rrsi { if_true, .. } => m.slot(if_true),
                SelectOp::U32Select_Rris { if_true, .. } => if_true as i64,
                SelectOp::U32Select_Rrii { if_true, .. } => if_true as i64,
                SelectOp::U32Select_Rsii { if_true, .. } => if_true as i64,
            }
            &&& wrap32(condition as int) == 0 ==> after.ireg == match op {
                SelectOp::U64Select_Rrss { if_false, .. } => m.slot(if_false),
                SelectOp::U64Select_Rrsi { if_false, .. } => if_false as i64,
                SelectOp::U64Select_Rris { if_false, .. } => m.slot(if_false),
                SelectOp::U64Select_Rrii { if_false, .. } => if_false as i64,
                SelectOp::U64Select_Rrrs { if_false } => m.slot(if_false),
                SelectOp::U32Select_Rrsi { if_false, .. } => if_false as i64,
                SelectOp::U32Select_Rris { if_false, .. } => m.slot(if_false),
                SelectOp::U32Select_Rrii { if_false, .. } => if_false as i64,
                SelectOp::U32Select_Rsii { if_false, .. } => if_false as i64,
            }
            &&& forall|s: u16| #[trigger] after.slot(s) == m.slot(s)
            &&& after.freg64 == m.freg64
            &&& after.freg32 == m.freg32
            &&& after.world == m.world
        }),
{
    lemma_select(op, m, res);
}

/// **Globals.** The words of an access to a global read the global that it names into the
/// accumulator of its type, or write its value there. Nothing else changes.
pub proof fn law_global<W>(op: GlobalOp, m: Machine<W>, res: Residuals<W>)
    ensures
        ({
            let (after, flow) = run(op.lowering(), m, res);
            &&& flow is Next
            &&& after.ireg == match op {
                GlobalOp::GlobalGetU64_R { global } => (res.global_get)(m.world, global as i64),
                _ => m.ireg,
            }
            &&& after.freg64 == match op {
                GlobalOp::GlobalGetF64_R { global } => (res.global_get)(m.world, global as i64),
                _ => m.freg64,
            }
            &&& after.freg32 == match op {
                GlobalOp::GlobalGetF32_R { global } => {
                    low32((res.global_get)(m.world, global as i64) as int) as i64
                },
                _ => m.freg32,
            }
            &&& after.world == match op {
                GlobalOp::GlobalSetU64_S { global, value } => {
                    (res.global_set)(m.world, global as i64, m.slot(value))
                },
                GlobalOp::GlobalSetU64_R { global } => {
                    (res.global_set)(m.world, global as i64, m.ireg)
                },
                GlobalOp::GlobalSetU64_I { global, value } => {
                    (res.global_set)(m.world, global as i64, value as i64)
                },
                GlobalOp::GlobalSetU32_I { global, value } => {
                    (res.global_set)(m.world, global as i64, value as i64)
                },
                GlobalOp::GlobalSetF64_R { global } => {
                    (res.global_set)(m.world, global as i64, m.freg64)
                },
                GlobalOp::GlobalSetF32_R { global } => {
                    (res.global_set)(m.world, global as i64, m.freg32)
                },
                _ => m.world,
            }
            &&& forall|s: u16| #[trigger] after.slot(s) == m.slot(s)
        }),
{
    lemma_global(op, m, res);
}

} // verus!
