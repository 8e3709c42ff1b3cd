//! What operations on memory, calls and returns leave behind.

use crate::action::{low32, Callee, Flow, Loaded, Machine, Residuals, Stored};
use crate::kernel::run;
use crate::laws::memory::{lemma_control, lemma_memory};
use crate::ops::control::ControlOp;
use crate::ops::memory::{MemLoad, MemStore, MemoryOp, StoreImm};
use vstd::prelude::*;

verus! {

/// **Loads.** The words of a load read the part of memory that it names, at the sum of its pointer,
/// taken as an unsigned 32-bit number, and its offset, into the accumulator of its type. A load
/// at a fixed address takes that for the pointer. A zero-extending 32-bit load yields the low 32
/// bits of what the sign-extending one reads. The frame and the other float accumulator do not
/// change; the integer accumulator can be used up by a float load at a pointer in a slot.
#[verifier::rlimit(60)]
pub proof fn law_load<W>(op: MemoryOp, m: Machine<W>, res: Residuals<W>)
    requires
        match op {
            MemoryOp::LoadMem0Offset16_Rr { .. } => true,
            MemoryOp::LoadMem0Offset16_Rs { .. } => true,
            MemoryOp::U64LoadExtend32Mem0Offset16_Rs { .. } => true,
            MemoryOp::U32Load_Ri { .. } => true,
            MemoryOp::U64Load_Ri { .. } => true,
            MemoryOp::U32LoadExtend8_Ri { .. } => true,
            MemoryOp::U32LoadExtend16_Ri { .. } => true,
            MemoryOp::U64LoadExtend32_Ri { .. } => true,
            MemoryOp::U64LoadExtend8_Rs { .. } => true,
            _ => false,
        },
    ensures
        ({
            let (after, flow) = run(op.lowering(), m, res);
            let (ptr, offset) = match op {
                MemoryOp::LoadMem0Offset16_Rr { offset, .. } => (m.ireg, offset as int),
                MemoryOp::LoadMem0Offset16_Rs { ptr, offset, .. } => (m.slot(ptr), offset as int),
                MemoryOp::U64LoadExtend32Mem0Offset16_Rs { ptr, offset } => {
                    (m.slot(ptr), offset as int)
                },
                MemoryOp::U32Load_Ri { address, .. } => (address as i64, 0),
                MemoryOp::U64Load_Ri { address, .. } => (address as i64, 0),
                MemoryOp::U32LoadExtend8_Ri { address, .. } => (address as i64, 0),
                MemoryOp::U32LoadExtend16_Ri { address, .. } => (address as i64, 0),
                MemoryOp::U64LoadExtend32_Ri { address, .. } => (address as i64, 0),
                MemoryOp::U64LoadExtend8_Rs { ptr, offset, .. } => {
                    (m.slot(ptr), (offset as i64) as int)
                },
                _ => arbitrary(),
            };
            let kind = match op {
                MemoryOp::LoadMem0Offset16_Rr { load, .. } => load,
                MemoryOp::LoadMem0Offset16_Rs { load, .. } => load,
                MemoryOp::U64Load_Ri { .. } => MemLoad::U64,
                MemoryOp::U32LoadExtend8_Ri { .. } => MemLoad::U32Extend8,
                MemoryOp::U32LoadExtend16_Ri { .. } => MemLoad::U32Extend16,
                MemoryOp::U64LoadExtend8_Rs { .. } => MemLoad::U32Extend8,
                _ => MemLoad::U32,
            };
            let part = match kind {
                MemLoad::U64 => Loaded::I64,
                MemLoad::U32 => Loaded::I32,
                MemLoad::F64 => Loaded::I64,
                MemLoad::F32 => Loaded::I32,
                MemLoad::U32Extend8 => Loaded::U8,
                MemLoad::I32Extend8 => Loaded::I8,
                MemLoad::U32Extend16 => Loaded::U16,
                MemLoad::I32Extend16 => Loaded::I16,
            };
            let zero_extends = op is U64LoadExtend32Mem0Offset16_Rs || op is U64LoadExtend32_Ri;
            let (world, v) = (res.load)(m.world, part, low32(ptr as int) + offset);
            &&& flow is Next
            &&& after.world == world
            &&& kind is F64 ==> after.freg64 == v
            &&& !(kind is F64) ==> after.freg64 == m.freg64
            &&& kind is F32 ==> after.freg32 == v
            &&& !(kind is F32) ==> after.freg32 == m.freg32
            &&& !(kind is F64 || kind is F32) ==> after.ireg == if zero_extends {
                low32(v as int)
            } else {
                v as int
            }
            &&& (kind is F64 || kind is F32) && op is LoadMem0Offset16_Rr ==> after.ireg == m.ireg
            &&& forall|s: u16| #[trigger] after.slot(s) == m.slot(s)
        }),
{
    lemma_memory(op, m, res);
}

/// **Stores.** The words of a store write its value, whatever it is, in the width that it names, at
/// the sum of its pointer, taken as an unsigned 32-bit number, and its offset. An immediate is
/// written as the number it is. The frame and the float accumulators do not change, nor does the
/// integer accumulator where the words do not bring a pointer or a value there.
#[verifier::rlimit(60)]
pub proof fn law_store<W>(op: MemoryOp, m: Machine<W>, res: Residuals<W>)
    requires
        match op {
            MemoryOp::StoreMem0Offset16_Sr { .. } => true,
            MemoryOp::StoreMem0Offset16_Rs { .. } => true,
            MemoryOp::StoreMem0Offset16_Ss { .. } => true,
            MemoryOp::StoreMem0Offset16_Si { .. } => true,
            MemoryOp::StoreMem0Offset16_Ri { .. } => true,
            MemoryOp::I64StoreWrap32Mem0Offset16_Rs { .. } => true,
            MemoryOp::F64StoreMem0Offset16_Sr { .. } => true,
            MemoryOp::F64StoreMem0Offset16_Rr { .. } => true,
            MemoryOp::F32StoreMem0Offset16_Sr { .. } => true,
            MemoryOp::F32StoreMem0Offset16_Rr { .. } => true,
            MemoryOp::U64Store_Is { .. } => true,
            MemoryOp::U32Store_Is { .. } => true,
            MemoryOp::U32Store_Ir { .. } => true,
            MemoryOp::U32Store_Ii { .. } => true,
            _ => false,
        },
    ensures
        ({
            let (after, flow) = run(op.lowering(), m, res);
            let (ptr, offset) = match op {
                MemoryOp::StoreMem0Offset16_Sr { ptr, offset, .. } => (m.slot(ptr), offset as int),
                MemoryOp::StoreMem0Offset16_Rs { offset, .. } => (m.ireg, offset as int),
                MemoryOp::StoreMem0Offset16_Ss { ptr, offset, .. } => (m.slot(ptr), offset as int),
                MemoryOp::StoreMem0Offset16_Si { ptr, offset, .. } => (m.slot(ptr), offset as int),
                MemoryOp::StoreMem0Offset16_Ri { offset, .. } => (m.ireg, offset as int),
                MemoryOp::I64StoreWrap32Mem0Offset16_Rs { offset, .. } => (m.ireg, offset as int),
                MemoryOp::F64StoreMem0Offset16_Sr { ptr, offset } => (m.slot(ptr), offset as int),
                MemoryOp::F64StoreMem0Offset16_Rr { offset } => (m.ireg, offset as int),
                MemoryOp::F32StoreMem0Offset16_Sr { ptr, offset } => (m.slot(ptr), offset as int),
                MemoryOp::F32StoreMem0Offset16_Rr { offset } => (m.ireg, offset as int),
                MemoryOp::U64Store_Is { address, .. } => (address as i64, 0),
                MemoryOp::U32Store_Is { address, .. } => (address as i64, 0),
                MemoryOp::U32Store_Ir { address, .. } => (address as i64, 0),
                MemoryOp::U32Store_Ii { address, .. } => (address as i64, 0),
                _ => arbitrary(),
            };
            let value = match op {
                MemoryOp::StoreMem0Offset16_Sr { .. } => m.ireg,
                MemoryOp::StoreMem0Offset16_Rs { value, .. } => m.slot(value),
                MemoryOp::StoreMem0Offset16_Ss { value, .. } => m.slot(value),
                MemoryOp::StoreMem0Offset16_Si { value: StoreImm::U64(v), .. } => v as i64,
                MemoryOp::StoreMem0Offset16_Si { value: StoreImm::U32(v), .. } => v as i64,
                MemoryOp::StoreMem0Offset16_Si { value: StoreImm::I8(v), .. } => v as i64,
                MemoryOp::StoreMem0Offset16_Si { value: StoreImm::I16(v), .. } => v as i64,
                MemoryOp::StoreMem0Offset16_Ri { value: StoreImm::U64(v), .. } => v as i64,
                MemoryOp::StoreMem0Offset16_Ri { value: StoreImm::U32(v), .. } => v as i64,
                MemoryOp::StoreMem0Offset16_Ri { value: StoreImm::I8(v), .. } => v as i64,
                MemoryOp::StoreMem0Offset16_Ri { value: StoreImm::I16(v), .. } => v as i64,
                MemoryOp::I64StoreWrap32Mem0Offset16_Rs { value, .. } => m.slot(value),
                MemoryOp::F64StoreMem0Offset16_Sr { .. } => m.freg64,
                MemoryOp::F64StoreMem0Offset16_Rr { .. } => m.freg64,
                MemoryOp::F32StoreMem0Offset16_Sr { .. } => m.freg32,
                MemoryOp::F32StoreMem0Offset16_Rr { .. } => m.freg32,
                MemoryOp::U64Store_Is { value, .. } => m.slot(value),
                MemoryOp::U32Store_Is { value, .. } => m.slot(value),
                MemoryOp::U32Store_Ir { .. } => m.ireg,
                MemoryOp::U32Store_Ii { value, .. } => value as i64,
                _ => arbitrary(),
            };
            let part = match op {
                MemoryOp::StoreMem0Offset16_Sr { store, .. } => width_of(store),
                MemoryOp::StoreMem0Offset16_Rs { store, .. } => width_of(store),
                MemoryOp::StoreMem0Offset16_Ss { store, .. } => width_of(store),
                MemoryOp::StoreMem0Offset16_Si { value, .. } => width_of_immediate(value),
                MemoryOp::StoreMem0Offset16_Ri { value, .. } => width_of_immediate(value),
                MemoryOp::F64StoreMem0Offset16_Sr { .. } => Stored::B64,
                MemoryOp::F64StoreMem0Offset16_Rr { .. } => Stored::B64,
                MemoryOp::U64Store_Is { .. } => Stored::B64,
                _ => Stored::B32,
            };
            let kept = op is StoreMem0Offset16_Sr || op is StoreMem0Offset16_Rs
                || op is I64StoreWrap32Mem0Offset16_Rs || op is F64StoreMem0Offset16_Sr
                || op is F64StoreMem0Offset16_Rr || op is F32StoreMem0Offset16_Sr
                || op is F32StoreMem0Offset16_Rr;
            &&& flow is Next
            &&& after.world == (res.store)(m.world, part, low32(ptr as int) + offset, value)
            &&& kept ==> after.ireg == m.ireg
            &&& after.freg64 == m.freg64
            &&& after.freg32 == m.freg32
            &&& forall|s: u16| #[trigger] after.slot(s) == m.slot(s)
        }),
{
    lemma_memory(op, m, res);
}

/// How many bits a store of an integer writes.
pub open spec fn width_of(store: MemStore) -> Stored {
    match store {
        MemStore::U64 => Stored::B64,
        MemStore::U32 => Stored::B32,
        MemStore::I32Wrap8 => Stored::B8,
        MemStore::I32Wrap16 => Stored::B16,
    }
}

/// How many bits a store of an immediate writes.
pub open spec fn width_of_immediate(value: StoreImm) -> Stored {
    match value {
        StoreImm::U64(_) => Stored::B64,
        StoreImm::U32(_) => Stored::B32,
        StoreImm::I8(_) => Stored::B8,
        StoreImm::I16(_) => Stored::B16,
    }
}

/// **The memory as a whole.** The size of the memory goes to the accumulator; a copy moves as many
/// bytes as its third slot says from where its second slot says to where its first one says; and
/// a load at a dynamic offset is left to the stock executor. Nothing else changes.
pub proof fn law_memory<W>(op: MemoryOp, m: Machine<W>, res: Residuals<W>)
    requires
        op is MemorySize || op is MemoryCopy || op is U32LoadExtend8_Rr,
    ensures
        ({
            let (after, flow) = run(op.lowering(), m, res);
            &&& flow == if op is U32LoadExtend8_Rr {
                Flow::Yield
            } else {
                Flow::Next
            }
            &&& after.ireg == if op is MemorySize {
                (res.memory_size)(m.world)
            } else {
                m.ireg
            }
            &&& after.world == match op {
                MemoryOp::MemoryCopy { dst, src, len, .. } => {
                    (res.memory_copy)(m.world, m.slot(dst), m.slot(src), m.slot(len))
                },
                _ => m.world,
            }
            &&& after.freg64 == m.freg64
            &&& after.freg32 == m.freg32
            &&& forall|s: u16| #[trigger] after.slot(s) == m.slot(s)
        }),
{
    lemma_memory(op, m, res);
}

/// **Calls.** The words of a call hand the callee, which is the one that it names, the values of
/// `len` slots from `head` on, and put its result into the accumulator, for a function of the
/// module, and into slot `head`, for any other. Nothing else changes but what the call does
/// outside.
#[verifier::rlimit(60)]
pub proof fn law_call<W>(op: ControlOp, writes_result: bool, m: Machine<W>, res: Residuals<W>)
    requires
        op is CallInternal || op is CallImported || op is CallIndirect_S || op is CallIndirect_R,
    ensures
        ({
            let (after, flow) = run(op.lowering(writes_result), m, res);
            let (callee, head, len) = match op {
                ControlOp::CallInternal { func, head, len } => (
                    Callee::Internal(func as i64),
                    head,
                    len,
                ),
                ControlOp::CallImported { func, head, len } => (
                    Callee::Imported(func as i64),
                    head,
                    len,
                ),
                ControlOp::CallIndirect_S { table, func_type, index, head, len } => (
                    Callee::Indirect(table as i64, func_type as i64, m.slot(index)),
                    head,
                    len,
                ),
                ControlOp::CallIndirect_R { table, func_type, head, len } => (
                    Callee::Indirect(table as i64, func_type as i64, m.ireg),
                    head,
                    len,
                ),
                _ => arbitrary(),
            };
            let params = Seq::new(len as nat, |k: int| m.slot((head + k) as u16));
            let (world, v) = (res.call)(m.world, callee, params);
            &&& flow is Next
            &&& after.world == world
            &&& after.ireg == if op is CallInternal {
                v
            } else {
                m.ireg
            }
            &&& forall|s: u16| #[trigger]
                after.slot(s) == if !(op is CallInternal) && s == head {
                    v
                } else {
                    m.slot(s)
                }
            &&& after.freg64 == m.freg64
            &&& after.freg32 == m.freg32
        }),
{
    lemma_control(op, writes_result, m, res);
    let head = match op {
        ControlOp::CallInternal { head, .. } => head,
        ControlOp::CallImported { head, .. } => head,
        ControlOp::CallIndirect_S { head, .. } => head,
        ControlOp::CallIndirect_R { head, .. } => head,
        _ => arbitrary(),
    };
    let len = match op {
        ControlOp::CallInternal { len, .. } => len,
        ControlOp::CallImported { len, .. } => len,
        ControlOp::CallIndirect_S { len, .. } => len,
        ControlOp::CallIndirect_R { len, .. } => len,
        _ => arbitrary(),
    };
    assert(m.params(head, len) =~= Seq::new(len as nat, |k: int| m.slot((head + k) as u16)));
}

/// **Ends.** A return gives slot 0, or 0 in a function without a result slot; a trap has the code
/// that it names; a tail call gives up the run; and a branch by a table is left to the stock
/// executor. The machine stays as it is.
pub proof fn law_end<W>(op: ControlOp, writes_result: bool, m: Machine<W>, res: Residuals<W>)
    requires
        !(op is CallInternal || op is CallImported || op is CallIndirect_S || op is CallIndirect_R),
    ensures
        ({
            let (after, flow) = run(op.lowering(writes_result), m, res);
            &&& flow == match op {
                ControlOp::Return => Flow::Return(
                    if writes_result {
                        m.slot(0)
                    } else {
                        0
                    },
                ),
                ControlOp::Trap { code } => Flow::Trap(code as i64),
                ControlOp::BranchTable_R => Flow::Yield,
                _ => Flow::Bail,
            }
            &&& after.ireg == m.ireg
            &&& after.freg64 == m.freg64
            &&& after.freg32 == m.freg32
            &&& after.world == m.world
            &&& forall|s: u16| #[trigger] after.slot(s) == m.slot(s)
        }),
{
    lemma_control(op, writes_result, m, res);
}

} // verus!
