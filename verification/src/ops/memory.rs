//! Operations on linear memory.

use crate::action::{Action, Loaded, Reg, Src, Stored};
use crate::mini::{
    MINI_COPY_RI, MINI_COPY_RS, MINI_COPY_SI, MINI_COPY_SR, MINI_F32_LOAD_MEM0_OFF,
    MINI_F32_STORE_SR, MINI_F64_LOAD_MEM0_OFF, MINI_F64_STORE_SR, MINI_I16_LOAD_MEM0_OFF,
    MINI_I32_LOAD_MEM0_OFF, MINI_I32_STORE16_RS, MINI_I32_STORE16_SR, MINI_I32_STORE8_RS,
    MINI_I32_STORE8_SR, MINI_I32_STORE_RS, MINI_I32_STORE_SR, MINI_I64_AND_RI_WR,
    MINI_I64_AND_SI_WR, MINI_I64_LOAD_MEM0_OFF, MINI_I64_STORE_RS, MINI_I64_STORE_SR,
    MINI_I8_LOAD_MEM0_OFF, MINI_MEMORY_SIZE, MINI_MEM_COPY_WITHIN, MINI_U16_LOAD_MEM0_OFF,
    MINI_U8_LOAD_MEM0_OFF, MINI_YIELD_STOCK,
};
use crate::word::Word;
use crate::word::Word::{Code, Here, Imm, Scratch, Slot, SlotCount};
use vstd::prelude::*;

verus! {

/// A load, a store, or another operation on linear memory. Pointers are unsigned 32-bit
/// numbers. The kernel knows memory 0 only.
#[allow(non_camel_case_types)]
#[derive(Clone, Copy, Debug, PartialEq, Eq, Structural)]
pub enum MemoryOp {
    /// `reg = memory[ireg + offset]`.
    LoadMem0Offset16_Rr { load: MemLoad, offset: u16 },
    /// `reg = memory[slots[ptr] + offset]`.
    LoadMem0Offset16_Rs { load: MemLoad, ptr: u16, offset: u16 },
    /// `ireg = memory[slots[ptr] + offset]`, 32 bits zero-extended.
    U64LoadExtend32Mem0Offset16_Rs { ptr: u16, offset: u16 },
    /// `ireg = memory[address]`, 32 bits.
    U32Load_Ri { memory: u32, address: u64 },
    /// `ireg = memory[address]`, 64 bits.
    U64Load_Ri { memory: u32, address: u64 },
    /// `ireg = memory[address]`, 8 bits zero-extended.
    U32LoadExtend8_Ri { memory: u32, address: u64 },
    /// `ireg = memory[address]`, 16 bits zero-extended.
    U32LoadExtend16_Ri { memory: u32, address: u64 },
    /// `ireg = memory[address]`, 32 bits zero-extended.
    U64LoadExtend32_Ri { memory: u32, address: u64 },
    /// `ireg = memory[slots[ptr] + offset]`, 8 bits zero-extended.
    U64LoadExtend8_Rs { memory: u32, ptr: u16, offset: u64 },
    /// `ireg = memory[ireg + offset]`, 8 bits zero-extended: left to the stock executor.
    U32LoadExtend8_Rr,
    /// `memory[slots[ptr] + offset] = ireg`.
    StoreMem0Offset16_Sr { store: MemStore, ptr: u16, offset: u16 },
    /// `memory[ireg + offset] = slots[value]`.
    StoreMem0Offset16_Rs { store: MemStore, offset: u16, value: u16 },
    /// `memory[slots[ptr] + offset] = slots[value]`.
    StoreMem0Offset16_Ss { store: MemStore, ptr: u16, offset: u16, value: u16 },
    /// `memory[slots[ptr] + offset] = value`.
    StoreMem0Offset16_Si { ptr: u16, offset: u16, value: StoreImm },
    /// `memory[ireg + offset] = value`.
    StoreMem0Offset16_Ri { offset: u16, value: StoreImm },
    /// `memory[ireg + offset] = slots[value]`, 32 bits.
    I64StoreWrap32Mem0Offset16_Rs { offset: u16, value: u16 },
    /// `memory[slots[ptr] + offset] = freg64`.
    F64StoreMem0Offset16_Sr { ptr: u16, offset: u16 },
    /// `memory[ireg + offset] = freg64`.
    F64StoreMem0Offset16_Rr { offset: u16 },
    /// `memory[slots[ptr] + offset] = freg32`.
    F32StoreMem0Offset16_Sr { ptr: u16, offset: u16 },
    /// `memory[ireg + offset] = freg32`.
    F32StoreMem0Offset16_Rr { offset: u16 },
    /// `memory[address] = slots[value]`, 64 bits.
    U64Store_Is { memory: u32, address: u64, value: u16 },
    /// `memory[address] = slots[value]`, 32 bits.
    U32Store_Is { memory: u32, address: u64, value: u16 },
    /// `memory[address] = ireg`, 32 bits.
    U32Store_Ir { memory: u32, address: u64 },
    /// `memory[address] = value`, 32 bits.
    U32Store_Ii { memory: u32, address: u64, value: u32 },
    /// `ireg = pages of the memory`.
    MemorySize { memory: u32 },
    /// `memory[slots[dst]..] = memory[slots[src]..]`, `slots[len]` bytes.
    MemoryCopy { dst_memory: u32, src_memory: u32, dst: u16, src: u16, len: u16 },
}

/// What a load reads, and into which accumulator.
#[derive(Clone, Copy, Debug, PartialEq, Eq, Structural)]
pub enum MemLoad {
    /// 64 bits.
    U64,
    /// 32 bits.
    U32,
    /// 64 bits into the f64 accumulator.
    F64,
    /// 32 bits into the f32 accumulator.
    F32,
    /// 8 bits, zero-extended.
    U32Extend8,
    /// 8 bits, sign-extended.
    I32Extend8,
    /// 16 bits, zero-extended.
    U32Extend16,
    /// 16 bits, sign-extended.
    I32Extend16,
}

/// What a store of an integer writes.
#[derive(Clone, Copy, Debug, PartialEq, Eq, Structural)]
pub enum MemStore {
    /// 64 bits.
    U64,
    /// 32 bits.
    U32,
    /// 8 bits.
    I32Wrap8,
    /// 16 bits.
    I32Wrap16,
}

/// An immediate that a store writes.
#[derive(Clone, Copy, Debug, PartialEq, Eq, Structural)]
pub enum StoreImm {
    U64(u64),
    U32(u32),
    I8(i8),
    I16(i16),
}

impl MemLoad {
    /// The opcode of the load.
    pub open spec fn spec_code(self) -> i64 {
        match self {
            MemLoad::U64 => MINI_I64_LOAD_MEM0_OFF,
            MemLoad::U32 => MINI_I32_LOAD_MEM0_OFF,
            MemLoad::F64 => MINI_F64_LOAD_MEM0_OFF,
            MemLoad::F32 => MINI_F32_LOAD_MEM0_OFF,
            MemLoad::U32Extend8 => MINI_U8_LOAD_MEM0_OFF,
            MemLoad::I32Extend8 => MINI_I8_LOAD_MEM0_OFF,
            MemLoad::U32Extend16 => MINI_U16_LOAD_MEM0_OFF,
            MemLoad::I32Extend16 => MINI_I16_LOAD_MEM0_OFF,
        }
    }

    /// The opcode of the load.
    #[verifier::when_used_as_spec(spec_code)]
    pub fn code(self) -> (code: i64)
        ensures
            code == self.code(),
    {
        match self {
            MemLoad::U64 => MINI_I64_LOAD_MEM0_OFF,
            MemLoad::U32 => MINI_I32_LOAD_MEM0_OFF,
            MemLoad::F64 => MINI_F64_LOAD_MEM0_OFF,
            MemLoad::F32 => MINI_F32_LOAD_MEM0_OFF,
            MemLoad::U32Extend8 => MINI_U8_LOAD_MEM0_OFF,
            MemLoad::I32Extend8 => MINI_I8_LOAD_MEM0_OFF,
            MemLoad::U32Extend16 => MINI_U16_LOAD_MEM0_OFF,
            MemLoad::I32Extend16 => MINI_I16_LOAD_MEM0_OFF,
        }
    }

    /// Where the load puts its result.
    pub open spec fn reg(self) -> Reg {
        match self {
            MemLoad::F64 => Reg::Freg64,
            MemLoad::F32 => Reg::Freg32,
            _ => Reg::Ireg,
        }
    }

    /// What the load reads.
    pub open spec fn part(self) -> Loaded {
        match self {
            MemLoad::U64 => Loaded::I64,
            MemLoad::U32 => Loaded::I32,
            MemLoad::F64 => Loaded::I64,
            MemLoad::F32 => Loaded::I32,
            MemLoad::U32Extend8 => Loaded::U8,
            MemLoad::I32Extend8 => Loaded::I8,
            MemLoad::U32Extend16 => Loaded::U16,
            MemLoad::I32Extend16 => Loaded::I16,
        }
    }
}

impl MemStore {
    /// The opcode of the store of the accumulator, at a pointer in a slot.
    pub open spec fn spec_code_sr(self) -> i64 {
        match self {
            MemStore::U64 => MINI_I64_STORE_SR,
            MemStore::U32 => MINI_I32_STORE_SR,
            MemStore::I32Wrap8 => MINI_I32_STORE8_SR,
            MemStore::I32Wrap16 => MINI_I32_STORE16_SR,
        }
    }

    /// The opcode of the store of the accumulator, at a pointer in a slot.
    #[verifier::when_used_as_spec(spec_code_sr)]
    pub fn code_sr(self) -> (code: i64)
        ensures
            code == self.code_sr(),
    {
        match self {
            MemStore::U64 => MINI_I64_STORE_SR,
            MemStore::U32 => MINI_I32_STORE_SR,
            MemStore::I32Wrap8 => MINI_I32_STORE8_SR,
            MemStore::I32Wrap16 => MINI_I32_STORE16_SR,
        }
    }

    /// The opcode of the store of a slot, at a pointer in the accumulator.
    pub open spec fn spec_code_rs(self) -> i64 {
        match self {
            MemStore::U64 => MINI_I64_STORE_RS,
            MemStore::U32 => MINI_I32_STORE_RS,
            MemStore::I32Wrap8 => MINI_I32_STORE8_RS,
            MemStore::I32Wrap16 => MINI_I32_STORE16_RS,
        }
    }

    /// The opcode of the store of a slot, at a pointer in the accumulator.
    #[verifier::when_used_as_spec(spec_code_rs)]
    pub fn code_rs(self) -> (code: i64)
        ensures
            code == self.code_rs(),
    {
        match self {
            MemStore::U64 => MINI_I64_STORE_RS,
            MemStore::U32 => MINI_I32_STORE_RS,
            MemStore::I32Wrap8 => MINI_I32_STORE8_RS,
            MemStore::I32Wrap16 => MINI_I32_STORE16_RS,
        }
    }

    /// What the store writes.
    pub open spec fn part(self) -> Stored {
        match self {
            MemStore::U64 => Stored::B64,
            MemStore::U32 => Stored::B32,
            MemStore::I32Wrap8 => Stored::B8,
            MemStore::I32Wrap16 => Stored::B16,
        }
    }
}

impl StoreImm {
    /// The immediate as a word: sign-extended, or zero-extended if it is unsigned.
    pub open spec fn spec_word(self) -> i64 {
        match self {
            StoreImm::U64(v) => v as i64,
            StoreImm::U32(v) => v as i64,
            StoreImm::I8(v) => v as i64,
            StoreImm::I16(v) => v as i64,
        }
    }

    /// The immediate as a word: sign-extended, or zero-extended if it is unsigned.
    #[verifier::when_used_as_spec(spec_word)]
    pub fn word(self) -> (word: i64)
        ensures
            word == self.word(),
    {
        match self {
            StoreImm::U64(v) => v as i64,
            StoreImm::U32(v) => v as i64,
            StoreImm::I8(v) => v as i64,
            StoreImm::I16(v) => v as i64,
        }
    }

    /// What the store of the immediate writes.
    pub open spec fn spec_store(self) -> MemStore {
        match self {
            StoreImm::U64(_) => MemStore::U64,
            StoreImm::U32(_) => MemStore::U32,
            StoreImm::I8(_) => MemStore::I32Wrap8,
            StoreImm::I16(_) => MemStore::I32Wrap16,
        }
    }

    /// What the store of the immediate writes.
    #[verifier::when_used_as_spec(spec_store)]
    pub fn store(self) -> (store: MemStore)
        ensures
            store == self.store(),
    {
        match self {
            StoreImm::U64(_) => MemStore::U64,
            StoreImm::U32(_) => MemStore::U32,
            StoreImm::I8(_) => MemStore::I32Wrap8,
            StoreImm::I16(_) => MemStore::I32Wrap16,
        }
    }
}

impl MemoryOp {
    /// Whether the kernel can carry out the operation: on memory 0.
    pub open spec fn spec_supported(self) -> bool {
        match self {
            MemoryOp::U32Load_Ri { memory, .. } => memory == 0,
            MemoryOp::U64Load_Ri { memory, .. } => memory == 0,
            MemoryOp::U32LoadExtend8_Ri { memory, .. } => memory == 0,
            MemoryOp::U32LoadExtend16_Ri { memory, .. } => memory == 0,
            MemoryOp::U64LoadExtend32_Ri { memory, .. } => memory == 0,
            MemoryOp::U64LoadExtend8_Rs { memory, .. } => memory == 0,
            MemoryOp::U64Store_Is { memory, .. } => memory == 0,
            MemoryOp::U32Store_Is { memory, .. } => memory == 0,
            MemoryOp::U32Store_Ir { memory, .. } => memory == 0,
            MemoryOp::U32Store_Ii { memory, .. } => memory == 0,
            MemoryOp::MemorySize { memory } => memory == 0,
            MemoryOp::MemoryCopy { dst_memory, src_memory, .. } => {
                dst_memory == 0 && src_memory == 0
            },
            _ => true,
        }
    }

    /// Whether the kernel can carry out the operation: on memory 0.
    #[verifier::when_used_as_spec(spec_supported)]
    pub fn supported(self) -> (yes: bool)
        ensures
            yes == self.supported(),
    {
        match self {
            MemoryOp::U32Load_Ri { memory, .. } => memory == 0,
            MemoryOp::U64Load_Ri { memory, .. } => memory == 0,
            MemoryOp::U32LoadExtend8_Ri { memory, .. } => memory == 0,
            MemoryOp::U32LoadExtend16_Ri { memory, .. } => memory == 0,
            MemoryOp::U64LoadExtend32_Ri { memory, .. } => memory == 0,
            MemoryOp::U64LoadExtend8_Rs { memory, .. } => memory == 0,
            MemoryOp::U64Store_Is { memory, .. } => memory == 0,
            MemoryOp::U32Store_Is { memory, .. } => memory == 0,
            MemoryOp::U32Store_Ir { memory, .. } => memory == 0,
            MemoryOp::U32Store_Ii { memory, .. } => memory == 0,
            MemoryOp::MemorySize { memory } => memory == 0,
            MemoryOp::MemoryCopy { dst_memory, src_memory, .. } => {
                dst_memory == 0 && src_memory == 0
            },
            _ => true,
        }
    }

    /// The words of the operation.
    pub open spec fn lowering(self) -> Seq<Word> {
        match self {
            MemoryOp::LoadMem0Offset16_Rr { load, offset } => seq![
                Code(load.code()), Imm(offset as i64),
            ],
            MemoryOp::LoadMem0Offset16_Rs { load, ptr, offset } => seq![
                Code(MINI_COPY_RS), Slot(ptr),
                Code(load.code()), Imm(offset as i64),
            ],
            MemoryOp::U64LoadExtend32Mem0Offset16_Rs { ptr, offset } => seq![
                Code(MINI_COPY_RS), Slot(ptr),
                Code(MINI_I32_LOAD_MEM0_OFF), Imm(offset as i64),
                Code(MINI_COPY_SR), Scratch(0),
                Code(MINI_I64_AND_SI_WR), Scratch(0), Imm(0xFFFF_FFFF),
            ],
            MemoryOp::U32Load_Ri { address, .. } => seq![
                Code(MINI_COPY_RI), Imm(address as i64),
                Code(MINI_I32_LOAD_MEM0_OFF), Imm(0),
            ],
            MemoryOp::U64Load_Ri { address, .. } => seq![
                Code(MINI_COPY_RI), Imm(address as i64),
                Code(MINI_I64_LOAD_MEM0_OFF), Imm(0),
            ],
            MemoryOp::U32LoadExtend8_Ri { address, .. } => seq![
                Code(MINI_COPY_RI), Imm(address as i64),
                Code(MINI_U8_LOAD_MEM0_OFF), Imm(0),
            ],
            MemoryOp::U32LoadExtend16_Ri { address, .. } => seq![
                Code(MINI_COPY_RI), Imm(address as i64),
                Code(MINI_U16_LOAD_MEM0_OFF), Imm(0),
            ],
            MemoryOp::U64LoadExtend32_Ri { address, .. } => seq![
                Code(MINI_COPY_RI), Imm(address as i64),
                Code(MINI_I32_LOAD_MEM0_OFF), Imm(0),
                Code(MINI_I64_AND_RI_WR), Imm(0xFFFF_FFFF),
            ],
            MemoryOp::U64LoadExtend8_Rs { ptr, offset, .. } => seq![
                Code(MINI_COPY_RS), Slot(ptr),
                Code(MINI_U8_LOAD_MEM0_OFF), Imm(offset as i64),
            ],
            MemoryOp::U32LoadExtend8_Rr => seq![Code(MINI_YIELD_STOCK), Here, SlotCount],
            MemoryOp::StoreMem0Offset16_Sr { store, ptr, offset } => seq![
                Code(store.code_sr()), Slot(ptr), Imm(offset as i64),
            ],
            MemoryOp::StoreMem0Offset16_Rs { store, offset, value } => seq![
                Code(store.code_rs()), Imm(offset as i64), Slot(value),
            ],
            MemoryOp::StoreMem0Offset16_Ss { store, ptr, offset, value } => seq![
                Code(MINI_COPY_RS), Slot(value),
                Code(store.code_sr()), Slot(ptr), Imm(offset as i64),
            ],
            MemoryOp::StoreMem0Offset16_Si { ptr, offset, value } => seq![
                Code(MINI_COPY_RI), Imm(value.word()),
                Code(value.store().code_sr()), Slot(ptr), Imm(offset as i64),
            ],
            MemoryOp::StoreMem0Offset16_Ri { offset, value } => seq![
                Code(MINI_COPY_SR), Scratch(0),
                Code(MINI_COPY_RI), Imm(value.word()),
                Code(value.store().code_sr()), Scratch(0), Imm(offset as i64),
            ],
            MemoryOp::I64StoreWrap32Mem0Offset16_Rs { offset, value } => seq![
                Code(MINI_I32_STORE_RS), Imm(offset as i64), Slot(value),
            ],
            MemoryOp::F64StoreMem0Offset16_Sr { ptr, offset } => seq![
                Code(MINI_F64_STORE_SR), Slot(ptr), Imm(offset as i64),
            ],
            MemoryOp::F64StoreMem0Offset16_Rr { offset } => seq![
                Code(MINI_COPY_SR), Scratch(0),
                Code(MINI_F64_STORE_SR), Scratch(0), Imm(offset as i64),
            ],
            MemoryOp::F32StoreMem0Offset16_Sr { ptr, offset } => seq![
                Code(MINI_F32_STORE_SR), Slot(ptr), Imm(offset as i64),
            ],
            MemoryOp::F32StoreMem0Offset16_Rr { offset } => seq![
                Code(MINI_COPY_SR), Scratch(0),
                Code(MINI_F32_STORE_SR), Scratch(0), Imm(offset as i64),
            ],
            MemoryOp::U64Store_Is { address, value, .. } => seq![
                Code(MINI_COPY_RI), Imm(address as i64),
                Code(MINI_I64_STORE_RS), Imm(0), Slot(value),
            ],
            MemoryOp::U32Store_Is { address, value, .. } => seq![
                Code(MINI_COPY_RS), Slot(value),
                Code(MINI_COPY_SR), Scratch(0),
                Code(MINI_COPY_RI), Imm(address as i64),
                Code(MINI_I32_STORE_RS), Imm(0), Scratch(0),
            ],
            MemoryOp::U32Store_Ir { address, .. } => seq![
                Code(MINI_COPY_SR), Scratch(0),
                Code(MINI_COPY_RI), Imm(address as i64),
                Code(MINI_I32_STORE_RS), Imm(0), Scratch(0),
            ],
            MemoryOp::U32Store_Ii { address, value, .. } => seq![
                Code(MINI_COPY_SI), Scratch(0), Imm(value as i64),
                Code(MINI_COPY_RI), Imm(address as i64),
                Code(MINI_I32_STORE_RS), Imm(0), Scratch(0),
            ],
            MemoryOp::MemorySize { .. } => seq![Code(MINI_MEMORY_SIZE)],
            MemoryOp::MemoryCopy { dst, src, len, .. } => seq![
                Code(MINI_MEM_COPY_WITHIN), Slot(dst), Slot(src), Slot(len),
            ],
        }
    }

    /// Lowers the operation.
    pub fn lower(self) -> (words: Vec<Word>)
        ensures
            words@ == self.lowering(),
    {
        let words = match self {
            MemoryOp::LoadMem0Offset16_Rr { load, offset } => vec![
                Code(load.code()), Imm(offset as i64),
            ],
            MemoryOp::LoadMem0Offset16_Rs { load, ptr, offset } => vec![
                Code(MINI_COPY_RS), Slot(ptr),
                Code(load.code()), Imm(offset as i64),
            ],
            MemoryOp::U64LoadExtend32Mem0Offset16_Rs { ptr, offset } => vec![
                Code(MINI_COPY_RS), Slot(ptr),
                Code(MINI_I32_LOAD_MEM0_OFF), Imm(offset as i64),
                Code(MINI_COPY_SR), Scratch(0),
                Code(MINI_I64_AND_SI_WR), Scratch(0), Imm(0xFFFF_FFFF),
            ],
            MemoryOp::U32Load_Ri { address, .. } => vec![
                Code(MINI_COPY_RI), Imm(address as i64),
                Code(MINI_I32_LOAD_MEM0_OFF), Imm(0),
            ],
            MemoryOp::U64Load_Ri { address, .. } => vec![
                Code(MINI_COPY_RI), Imm(address as i64),
                Code(MINI_I64_LOAD_MEM0_OFF), Imm(0),
            ],
            MemoryOp::U32LoadExtend8_Ri { address, .. } => vec![
                Code(MINI_COPY_RI), Imm(address as i64),
                Code(MINI_U8_LOAD_MEM0_OFF), Imm(0),
            ],
            MemoryOp::U32LoadExtend16_Ri { address, .. } => vec![
                Code(MINI_COPY_RI), Imm(address as i64),
                Code(MINI_U16_LOAD_MEM0_OFF), Imm(0),
            ],
            MemoryOp::U64LoadExtend32_Ri { address, .. } => vec![
                Code(MINI_COPY_RI), Imm(address as i64),
                Code(MINI_I32_LOAD_MEM0_OFF), Imm(0),
                Code(MINI_I64_AND_RI_WR), Imm(0xFFFF_FFFF),
            ],
            MemoryOp::U64LoadExtend8_Rs { ptr, offset, .. } => vec![
                Code(MINI_COPY_RS), Slot(ptr),
                Code(MINI_U8_LOAD_MEM0_OFF), Imm(offset as i64),
            ],
            MemoryOp::U32LoadExtend8_Rr => vec![Code(MINI_YIELD_STOCK), Here, SlotCount],
            MemoryOp::StoreMem0Offset16_Sr { store, ptr, offset } => vec![
                Code(store.code_sr()), Slot(ptr), Imm(offset as i64),
            ],
            MemoryOp::StoreMem0Offset16_Rs { store, offset, value } => vec![
                Code(store.code_rs()), Imm(offset as i64), Slot(value),
            ],
            MemoryOp::StoreMem0Offset16_Ss { store, ptr, offset, value } => vec![
                Code(MINI_COPY_RS), Slot(value),
                Code(store.code_sr()), Slot(ptr), Imm(offset as i64),
            ],
            MemoryOp::StoreMem0Offset16_Si { ptr, offset, value } => vec![
                Code(MINI_COPY_RI), Imm(value.word()),
                Code(value.store().code_sr()), Slot(ptr), Imm(offset as i64),
            ],
            MemoryOp::StoreMem0Offset16_Ri { offset, value } => vec![
                Code(MINI_COPY_SR), Scratch(0),
                Code(MINI_COPY_RI), Imm(value.word()),
                Code(value.store().code_sr()), Scratch(0), Imm(offset as i64),
            ],
            MemoryOp::I64StoreWrap32Mem0Offset16_Rs { offset, value } => vec![
                Code(MINI_I32_STORE_RS), Imm(offset as i64), Slot(value),
            ],
            MemoryOp::F64StoreMem0Offset16_Sr { ptr, offset } => vec![
                Code(MINI_F64_STORE_SR), Slot(ptr), Imm(offset as i64),
            ],
            MemoryOp::F64StoreMem0Offset16_Rr { offset } => vec![
                Code(MINI_COPY_SR), Scratch(0),
                Code(MINI_F64_STORE_SR), Scratch(0), Imm(offset as i64),
            ],
            MemoryOp::F32StoreMem0Offset16_Sr { ptr, offset } => vec![
                Code(MINI_F32_STORE_SR), Slot(ptr), Imm(offset as i64),
            ],
            MemoryOp::F32StoreMem0Offset16_Rr { offset } => vec![
                Code(MINI_COPY_SR), Scratch(0),
                Code(MINI_F32_STORE_SR), Scratch(0), Imm(offset as i64),
            ],
            MemoryOp::U64Store_Is { address, value, .. } => vec![
                Code(MINI_COPY_RI), Imm(address as i64),
                Code(MINI_I64_STORE_RS), Imm(0), Slot(value),
            ],
            MemoryOp::U32Store_Is { address, value, .. } => vec![
                Code(MINI_COPY_RS), Slot(value),
                Code(MINI_COPY_SR), Scratch(0),
                Code(MINI_COPY_RI), Imm(address as i64),
                Code(MINI_I32_STORE_RS), Imm(0), Scratch(0),
            ],
            MemoryOp::U32Store_Ir { address, .. } => vec![
                Code(MINI_COPY_SR), Scratch(0),
                Code(MINI_COPY_RI), Imm(address as i64),
                Code(MINI_I32_STORE_RS), Imm(0), Scratch(0),
            ],
            MemoryOp::U32Store_Ii { address, value, .. } => vec![
                Code(MINI_COPY_SI), Scratch(0), Imm(value as i64),
                Code(MINI_COPY_RI), Imm(address as i64),
                Code(MINI_I32_STORE_RS), Imm(0), Scratch(0),
            ],
            MemoryOp::MemorySize { .. } => vec![Code(MINI_MEMORY_SIZE)],
            MemoryOp::MemoryCopy { dst, src, len, .. } => vec![
                Code(MINI_MEM_COPY_WITHIN), Slot(dst), Slot(src), Slot(len),
            ],
        };
        assert(words@ =~= self.lowering());
        words
    }

    /// What the words of the operation do. A pointer is an unsigned 32-bit number, also where
    /// it is a fixed address, and an offset is a signed word.
    pub open spec fn effect(self) -> Action {
        match self {
            MemoryOp::LoadMem0Offset16_Rr { load, offset } => Action::Load {
                reg: load.reg(),
                part: load.part(),
                ptr: Src::Ireg,
                offset: offset as int,
            },
            MemoryOp::LoadMem0Offset16_Rs { load, ptr, offset } => Action::Load {
                reg: load.reg(),
                part: load.part(),
                ptr: Src::Slot(ptr),
                offset: offset as int,
            },
            MemoryOp::U64LoadExtend32Mem0Offset16_Rs { ptr, offset } => Action::Load {
                reg: Reg::Ireg,
                part: Loaded::U32,
                ptr: Src::Slot(ptr),
                offset: offset as int,
            },
            MemoryOp::U32Load_Ri { address, .. } => Action::Load {
                reg: Reg::Ireg,
                part: Loaded::I32,
                ptr: Src::Imm(address as i64),
                offset: 0,
            },
            MemoryOp::U64Load_Ri { address, .. } => Action::Load {
                reg: Reg::Ireg,
                part: Loaded::I64,
                ptr: Src::Imm(address as i64),
                offset: 0,
            },
            MemoryOp::U32LoadExtend8_Ri { address, .. } => Action::Load {
                reg: Reg::Ireg,
                part: Loaded::U8,
                ptr: Src::Imm(address as i64),
                offset: 0,
            },
            MemoryOp::U32LoadExtend16_Ri { address, .. } => Action::Load {
                reg: Reg::Ireg,
                part: Loaded::U16,
                ptr: Src::Imm(address as i64),
                offset: 0,
            },
            MemoryOp::U64LoadExtend32_Ri { address, .. } => Action::Load {
                reg: Reg::Ireg,
                part: Loaded::U32,
                ptr: Src::Imm(address as i64),
                offset: 0,
            },
            MemoryOp::U64LoadExtend8_Rs { ptr, offset, .. } => Action::Load {
                reg: Reg::Ireg,
                part: Loaded::U8,
                ptr: Src::Slot(ptr),
                offset: (offset as i64) as int,
            },
            MemoryOp::U32LoadExtend8_Rr => Action::Yield,
            MemoryOp::StoreMem0Offset16_Sr { store, ptr, offset } => Action::Store {
                part: store.part(),
                ptr: Src::Slot(ptr),
                offset: offset as int,
                value: Src::Ireg,
            },
            MemoryOp::StoreMem0Offset16_Rs { store, offset, value } => Action::Store {
                part: store.part(),
                ptr: Src::Ireg,
                offset: offset as int,
                value: Src::Slot(value),
            },
            MemoryOp::StoreMem0Offset16_Ss { store, ptr, offset, value } => Action::Store {
                part: store.part(),
                ptr: Src::Slot(ptr),
                offset: offset as int,
                value: Src::Slot(value),
            },
            MemoryOp::StoreMem0Offset16_Si { ptr, offset, value } => Action::Store {
                part: value.store().part(),
                ptr: Src::Slot(ptr),
                offset: offset as int,
                value: Src::Imm(value.word()),
            },
            MemoryOp::StoreMem0Offset16_Ri { offset, value } => Action::Store {
                part: value.store().part(),
                ptr: Src::Ireg,
                offset: offset as int,
                value: Src::Imm(value.word()),
            },
            MemoryOp::I64StoreWrap32Mem0Offset16_Rs { offset, value } => Action::Store {
                part: Stored::B32,
                ptr: Src::Ireg,
                offset: offset as int,
                value: Src::Slot(value),
            },
            MemoryOp::F64StoreMem0Offset16_Sr { ptr, offset } => Action::Store {
                part: Stored::B64,
                ptr: Src::Slot(ptr),
                offset: offset as int,
                value: Src::Freg64,
            },
            MemoryOp::F64StoreMem0Offset16_Rr { offset } => Action::Store {
                part: Stored::B64,
                ptr: Src::Ireg,
                offset: offset as int,
                value: Src::Freg64,
            },
            MemoryOp::F32StoreMem0Offset16_Sr { ptr, offset } => Action::Store {
                part: Stored::B32,
                ptr: Src::Slot(ptr),
                offset: offset as int,
                value: Src::Freg32,
            },
            MemoryOp::F32StoreMem0Offset16_Rr { offset } => Action::Store {
                part: Stored::B32,
                ptr: Src::Ireg,
                offset: offset as int,
                value: Src::Freg32,
            },
            MemoryOp::U64Store_Is { address, value, .. } => Action::Store {
                part: Stored::B64,
                ptr: Src::Imm(address as i64),
                offset: 0,
                value: Src::Slot(value),
            },
            MemoryOp::U32Store_Is { address, value, .. } => Action::Store {
                part: Stored::B32,
                ptr: Src::Imm(address as i64),
                offset: 0,
                value: Src::Slot(value),
            },
            MemoryOp::U32Store_Ir { address, .. } => Action::Store {
                part: Stored::B32,
                ptr: Src::Imm(address as i64),
                offset: 0,
                value: Src::Ireg,
            },
            MemoryOp::U32Store_Ii { address, value, .. } => Action::Store {
                part: Stored::B32,
                ptr: Src::Imm(address as i64),
                offset: 0,
                value: Src::Imm(value as i64),
            },
            MemoryOp::MemorySize { .. } => Action::MemorySize,
            MemoryOp::MemoryCopy { dst, src, len, .. } => Action::MemoryCopy { dst, src, len },
        }
    }

    /// What the operation does.
    pub open spec fn action(self) -> Action {
        match self {
            MemoryOp::U32Load_Ri { address, .. } => Action::LoadAt {
                part: Loaded::I32,
                address: address as int,
            },
            MemoryOp::U64Load_Ri { address, .. } => Action::LoadAt {
                part: Loaded::I64,
                address: address as int,
            },
            MemoryOp::U32LoadExtend8_Ri { address, .. } => Action::LoadAt {
                part: Loaded::U8,
                address: address as int,
            },
            MemoryOp::U32LoadExtend16_Ri { address, .. } => Action::LoadAt {
                part: Loaded::U16,
                address: address as int,
            },
            MemoryOp::U64LoadExtend32_Ri { address, .. } => Action::LoadAt {
                part: Loaded::U32,
                address: address as int,
            },
            MemoryOp::U64LoadExtend8_Rs { ptr, offset, .. } => Action::Load {
                reg: Reg::Ireg,
                part: Loaded::U8,
                ptr: Src::Slot(ptr),
                offset: offset as int,
            },
            MemoryOp::U64Store_Is { address, value, .. } => Action::StoreAt {
                part: Stored::B64,
                address: address as int,
                value: Src::Slot(value),
            },
            MemoryOp::U32Store_Is { address, value, .. } => Action::StoreAt {
                part: Stored::B32,
                address: address as int,
                value: Src::Slot(value),
            },
            MemoryOp::U32Store_Ir { address, .. } => Action::StoreAt {
                part: Stored::B32,
                address: address as int,
                value: Src::Ireg,
            },
            MemoryOp::U32Store_Ii { address, value, .. } => Action::StoreAt {
                part: Stored::B32,
                address: address as int,
                value: Src::Imm(value as i64),
            },
            _ => self.effect(),
        }
    }

    /// Whether the words reach the memory that the operation names: a fixed address is a 32-bit
    /// number, and an offset fits a signed word.
    pub open spec fn in_reach(self) -> bool {
        match self {
            MemoryOp::U32Load_Ri { address, .. } => address <= u32::MAX,
            MemoryOp::U64Load_Ri { address, .. } => address <= u32::MAX,
            MemoryOp::U32LoadExtend8_Ri { address, .. } => address <= u32::MAX,
            MemoryOp::U32LoadExtend16_Ri { address, .. } => address <= u32::MAX,
            MemoryOp::U64LoadExtend32_Ri { address, .. } => address <= u32::MAX,
            MemoryOp::U64LoadExtend8_Rs { offset, .. } => offset <= i64::MAX,
            MemoryOp::U64Store_Is { address, .. } => address <= u32::MAX,
            MemoryOp::U32Store_Is { address, .. } => address <= u32::MAX,
            MemoryOp::U32Store_Ir { address, .. } => address <= u32::MAX,
            MemoryOp::U32Store_Ii { address, .. } => address <= u32::MAX,
            _ => true,
        }
    }
}

impl MemoryOp {
    /// Whether the operation loads, in the kernel.
    pub open spec fn is_load(self) -> bool {
        self.effect() is Load
    }

    /// Whether the operation stores.
    pub open spec fn is_store(self) -> bool {
        self.effect() is Store
    }

    /// Whether the words of the operation leave the integer accumulator as it is, or as the
    /// operation sets it. Those that bring a pointer or a value there do not.
    pub open spec fn keeps_ireg(self) -> bool {
        match self {
            MemoryOp::LoadMem0Offset16_Rs { load, .. } => load.reg() is Ireg,
            MemoryOp::StoreMem0Offset16_Ss { .. } => false,
            MemoryOp::StoreMem0Offset16_Si { .. } => false,
            MemoryOp::StoreMem0Offset16_Ri { .. } => false,
            MemoryOp::U64Store_Is { .. } => false,
            MemoryOp::U32Store_Is { .. } => false,
            MemoryOp::U32Store_Ir { .. } => false,
            MemoryOp::U32Store_Ii { .. } => false,
            _ => true,
        }
    }
}

} // verus!
