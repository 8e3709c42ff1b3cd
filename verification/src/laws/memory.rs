//! Operations on memory, calls, returns and traps.

use crate::action::{
    low32, low64, perform, Action, BinOp, Cell, Loaded, Machine, Reg, Residuals, Src, Stored,
};
use crate::kernel::{does, does_but_ireg, form, lemma_codes, step_outside, Form};
use crate::laws::patterns::{lemma_glue, lemma_run_1, lemma_run_2, lemma_run_3, lemma_run_4};
use crate::mini::{
    MINI_COPY_RI, MINI_COPY_RS, MINI_COPY_SR, MINI_F32_STORE_SR, MINI_F64_STORE_SR,
    MINI_I32_STORE_RS,
};
use crate::ops::control::ControlOp;
use crate::ops::memory::{MemLoad, MemoryOp};
use crate::word::Word::{Code, Imm, Scratch, Slot};
use crate::word::{operands, Kind, Operands};
use vstd::prelude::*;

verus! {

/// A mask of 32 ones leaves the low 32 bits.
proof fn lemma_mask32(x: i64)
    ensures
        BinOp::I64And.eval(x, 0xFFFF_FFFF) == low32(x as int),
{
    reveal(BinOp::eval);
    let u = x as u64;
    assert(u == low64(x as int)) by {
        assert(x < 0 ==> (x as u64) == (x as i128 + 0x1_0000_0000_0000_0000i128) as u64)
            by (bit_vector);
    }
    assert((x & 0xFFFF_FFFFi64) >= 0 && (x & 0xFFFF_FFFFi64) as u64 == (x as u64)
        % 0x1_0000_0000u64) by (bit_vector);
}

/// Whether the instruction loads.
spec fn is_load(code: i64, reg: Reg, part: Loaded) -> bool {
    &&& form(code) == Some(Form::Load(reg, part))
    &&& operands(code) == Some(Operands::Of1(Kind::Imm))
    &&& part != Loaded::U32
}

/// A load at a pointer in the accumulator.
proof fn by_load<W>(
    code: i64,
    reg: Reg,
    part: Loaded,
    offset: i64,
    m: Machine<W>,
    res: Residuals<W>,
)
    requires
        is_load(code, reg, part),
    ensures
        does(
            seq![Code(code), Imm(offset)],
            Action::Load { reg, part, ptr: Src::Ireg, offset: offset as int },
            m,
            res,
        ),
{
    reveal(step_outside);
    lemma_run_1(seq![Code(code), Imm(offset)], m, res);
}

/// A load at a pointer in a slot.
proof fn by_load_slot<W>(
    code: i64,
    reg: Reg,
    part: Loaded,
    ptr: u16,
    offset: i64,
    m: Machine<W>,
    res: Residuals<W>,
)
    requires
        is_load(code, reg, part),
    ensures
        ({
            let words = seq![Code(MINI_COPY_RS), Slot(ptr), Code(code), Imm(offset)];
            let action = Action::Load { reg, part, ptr: Src::Slot(ptr), offset: offset as int };
            &&& does_but_ireg(words, action, m, res)
            &&& reg is Ireg ==> does(words, action, m, res)
        }),
{
    lemma_glue();
    reveal(step_outside);
    lemma_run_2(seq![Code(MINI_COPY_RS), Slot(ptr), Code(code), Imm(offset)], 2, m, res);
}

/// A load at a fixed address.
proof fn by_load_fixed<W>(code: i64, part: Loaded, at: i64, m: Machine<W>, res: Residuals<W>)
    requires
        is_load(code, Reg::Ireg, part),
    ensures
        does(
            seq![Code(MINI_COPY_RI), Imm(at), Code(code), Imm(0)],
            Action::Load { reg: Reg::Ireg, part, ptr: Src::Imm(at), offset: 0 },
            m,
            res,
        ),
{
    lemma_glue();
    reveal(step_outside);
    lemma_run_2(seq![Code(MINI_COPY_RI), Imm(at), Code(code), Imm(0)], 2, m, res);
}

/// Whether the instruction stores an accumulator at a pointer in a slot.
spec fn is_store_sr(code: i64, part: Stored, reg: Reg) -> bool {
    &&& form(code) == Some(Form::StoreSr(part, reg))
    &&& operands(code) == Some(Operands::Of2(Kind::Cell, Kind::Imm))
}

/// Whether the instruction stores a slot at a pointer in the accumulator.
spec fn is_store_rs(code: i64, part: Stored) -> bool {
    &&& form(code) == Some(Form::StoreRs(part))
    &&& operands(code) == Some(Operands::Of2(Kind::Imm, Kind::Cell))
}

/// The source that reads an accumulator.
spec fn src_of(reg: Reg) -> Src {
    match reg {
        Reg::Ireg => Src::Ireg,
        Reg::Freg64 => Src::Freg64,
        Reg::Freg32 => Src::Freg32,
    }
}

/// A store of an accumulator at a pointer in a slot.
proof fn by_store_sr<W>(
    code: i64,
    part: Stored,
    reg: Reg,
    ptr: u16,
    offset: i64,
    m: Machine<W>,
    res: Residuals<W>,
)
    requires
        is_store_sr(code, part, reg),
    ensures
        does(
            seq![Code(code), Slot(ptr), Imm(offset)],
            Action::Store { part, ptr: Src::Slot(ptr), offset: offset as int, value: src_of(reg) },
            m,
            res,
        ),
{
    reveal(step_outside);
    lemma_run_1(seq![Code(code), Slot(ptr), Imm(offset)], m, res);
}

/// A store of a slot at a pointer in the accumulator.
proof fn by_store_rs<W>(
    code: i64,
    part: Stored,
    offset: i64,
    value: u16,
    m: Machine<W>,
    res: Residuals<W>,
)
    requires
        is_store_rs(code, part),
    ensures
        does(
            seq![Code(code), Imm(offset), Slot(value)],
            Action::Store { part, ptr: Src::Ireg, offset: offset as int, value: Src::Slot(value) },
            m,
            res,
        ),
{
    reveal(step_outside);
    lemma_run_1(seq![Code(code), Imm(offset), Slot(value)], m, res);
}

/// A store of a slot at a pointer in a slot.
proof fn by_store_ss<W>(
    code: i64,
    part: Stored,
    ptr: u16,
    offset: i64,
    value: u16,
    m: Machine<W>,
    res: Residuals<W>,
)
    requires
        is_store_sr(code, part, Reg::Ireg),
    ensures
        does_but_ireg(
            seq![Code(MINI_COPY_RS), Slot(value), Code(code), Slot(ptr), Imm(offset)],
            Action::Store {
                part,
                ptr: Src::Slot(ptr),
                offset: offset as int,
                value: Src::Slot(value),
            },
            m,
            res,
        ),
{
    lemma_glue();
    reveal(step_outside);
    let words = seq![Code(MINI_COPY_RS), Slot(value), Code(code), Slot(ptr), Imm(offset)];
    lemma_run_2(words, 2, m, res);
}

/// A store of an immediate at a pointer in a slot.
proof fn by_store_si<W>(
    code: i64,
    part: Stored,
    ptr: u16,
    offset: i64,
    value: i64,
    m: Machine<W>,
    res: Residuals<W>,
)
    requires
        is_store_sr(code, part, Reg::Ireg),
    ensures
        does_but_ireg(
            seq![Code(MINI_COPY_RI), Imm(value), Code(code), Slot(ptr), Imm(offset)],
            Action::Store {
                part,
                ptr: Src::Slot(ptr),
                offset: offset as int,
                value: Src::Imm(value),
            },
            m,
            res,
        ),
{
    lemma_glue();
    reveal(step_outside);
    let words = seq![Code(MINI_COPY_RI), Imm(value), Code(code), Slot(ptr), Imm(offset)];
    lemma_run_2(words, 2, m, res);
}

/// A store of an immediate at a pointer in the accumulator.
proof fn by_store_ri<W>(
    code: i64,
    part: Stored,
    offset: i64,
    value: i64,
    m: Machine<W>,
    res: Residuals<W>,
)
    requires
        is_store_sr(code, part, Reg::Ireg),
    ensures
        does_but_ireg(
            seq![
                Code(MINI_COPY_SR), Scratch(0),
                Code(MINI_COPY_RI), Imm(value),
                Code(code), Scratch(0), Imm(offset),
            ],
            Action::Store { part, ptr: Src::Ireg, offset: offset as int, value: Src::Imm(value) },
            m,
            res,
        ),
{
    lemma_glue();
    reveal(step_outside);
    let words = seq![
        Code(MINI_COPY_SR), Scratch(0),
        Code(MINI_COPY_RI), Imm(value),
        Code(code), Scratch(0), Imm(offset),
    ];
    lemma_run_3(words, 2, 4, m, res);
}

/// A store of a float accumulator at a pointer in the integer accumulator.
proof fn by_store_rr<W>(
    code: i64,
    part: Stored,
    reg: Reg,
    offset: i64,
    m: Machine<W>,
    res: Residuals<W>,
)
    requires
        is_store_sr(code, part, reg),
    ensures
        does(
            seq![Code(MINI_COPY_SR), Scratch(0), Code(code), Scratch(0), Imm(offset)],
            Action::Store { part, ptr: Src::Ireg, offset: offset as int, value: src_of(reg) },
            m,
            res,
        ),
{
    lemma_glue();
    reveal(step_outside);
    let words = seq![Code(MINI_COPY_SR), Scratch(0), Code(code), Scratch(0), Imm(offset)];
    lemma_run_2(words, 2, m, res);
}

/// What the words of a load do.
proof fn lemma_load<W>(op: MemoryOp, m: Machine<W>, res: Residuals<W>)
    requires
        op.is_load(),
    ensures
        does_but_ireg(op.lowering(), op.effect(), m, res),
        op.keeps_ireg() ==> does(op.lowering(), op.effect(), m, res),
{
    lemma_codes();
    match op {
        MemoryOp::LoadMem0Offset16_Rr { load, offset } => {
            by_load(load.code(), load.reg(), load.part(), offset as i64, m, res);
        },
        MemoryOp::LoadMem0Offset16_Rs { load, ptr, offset } => {
            by_load_slot(load.code(), load.reg(), load.part(), ptr, offset as i64, m, res);
        },
        MemoryOp::U32Load_Ri { address, .. } => {
            by_load_fixed(MemLoad::U32.code(), Loaded::I32, address as i64, m, res);
        },
        MemoryOp::U64Load_Ri { address, .. } => {
            by_load_fixed(MemLoad::U64.code(), Loaded::I64, address as i64, m, res);
        },
        MemoryOp::U32LoadExtend8_Ri { address, .. } => {
            by_load_fixed(MemLoad::U32Extend8.code(), Loaded::U8, address as i64, m, res);
        },
        MemoryOp::U32LoadExtend16_Ri { address, .. } => {
            by_load_fixed(MemLoad::U32Extend16.code(), Loaded::U16, address as i64, m, res);
        },
        MemoryOp::U64LoadExtend8_Rs { ptr, offset, .. } => {
            let code = MemLoad::U32Extend8.code();
            by_load_slot(code, Reg::Ireg, Loaded::U8, ptr, offset as i64, m, res);
        },
        MemoryOp::U64LoadExtend32_Ri { .. } => lemma_load_masked(op, m, res),
        MemoryOp::U64LoadExtend32Mem0Offset16_Rs { .. } => lemma_load_masked(op, m, res),
        _ => {},
    }
}

/// The words of a zero-extending 32-bit load mask what the sign-extending load yields.
#[verifier::rlimit(40)]
proof fn lemma_load_masked<W>(op: MemoryOp, m: Machine<W>, res: Residuals<W>)
    requires
        op is U64LoadExtend32_Ri || op is U64LoadExtend32Mem0Offset16_Rs,
    ensures
        does(op.lowering(), op.effect(), m, res),
{
    lemma_codes();
    reveal(step_outside);
    assert forall|x: i64| #[trigger] BinOp::I64And.eval(x, 0xFFFF_FFFF) == low32(x as int) by {
        lemma_mask32(x);
    }
    match op {
        MemoryOp::U64LoadExtend32_Ri { .. } => lemma_run_3(op.lowering(), 2, 4, m, res),
        MemoryOp::U64LoadExtend32Mem0Offset16_Rs { .. } => {
            lemma_run_4(op.lowering(), 2, 4, 6, m, res);
        },
        _ => {},
    }
}

/// What the words of a store do.
#[verifier::rlimit(40)]
proof fn lemma_store<W>(op: MemoryOp, m: Machine<W>, res: Residuals<W>)
    requires
        op.is_store(),
    ensures
        does_but_ireg(op.lowering(), op.effect(), m, res),
        op.keeps_ireg() ==> does(op.lowering(), op.effect(), m, res),
{
    lemma_codes();
    match op {
        MemoryOp::StoreMem0Offset16_Sr { store, ptr, offset } => {
            by_store_sr(store.code_sr(), store.part(), Reg::Ireg, ptr, offset as i64, m, res);
        },
        MemoryOp::StoreMem0Offset16_Rs { store, offset, value } => {
            by_store_rs(store.code_rs(), store.part(), offset as i64, value, m, res);
        },
        MemoryOp::StoreMem0Offset16_Ss { store, ptr, offset, value } => {
            by_store_ss(store.code_sr(), store.part(), ptr, offset as i64, value, m, res);
        },
        MemoryOp::StoreMem0Offset16_Si { ptr, offset, value } => {
            let store = value.store();
            let part = store.part();
            by_store_si(store.code_sr(), part, ptr, offset as i64, value.word(), m, res);
        },
        MemoryOp::StoreMem0Offset16_Ri { offset, value } => {
            let store = value.store();
            by_store_ri(store.code_sr(), store.part(), offset as i64, value.word(), m, res);
        },
        MemoryOp::I64StoreWrap32Mem0Offset16_Rs { offset, value } => {
            by_store_rs(MINI_I32_STORE_RS, Stored::B32, offset as i64, value, m, res);
        },
        MemoryOp::F64StoreMem0Offset16_Sr { ptr, offset } => {
            by_store_sr(MINI_F64_STORE_SR, Stored::B64, Reg::Freg64, ptr, offset as i64, m, res);
        },
        MemoryOp::F64StoreMem0Offset16_Rr { offset } => {
            by_store_rr(MINI_F64_STORE_SR, Stored::B64, Reg::Freg64, offset as i64, m, res);
        },
        MemoryOp::F32StoreMem0Offset16_Sr { ptr, offset } => {
            by_store_sr(MINI_F32_STORE_SR, Stored::B32, Reg::Freg32, ptr, offset as i64, m, res);
        },
        MemoryOp::F32StoreMem0Offset16_Rr { offset } => {
            by_store_rr(MINI_F32_STORE_SR, Stored::B32, Reg::Freg32, offset as i64, m, res);
        },
        _ => lemma_store_fixed(op, m, res),
    }
}

/// What the words of a store at a fixed address do.
#[verifier::rlimit(40)]
proof fn lemma_store_fixed<W>(op: MemoryOp, m: Machine<W>, res: Residuals<W>)
    requires
        op is U64Store_Is || op is U32Store_Is || op is U32Store_Ir || op is U32Store_Ii,
    ensures
        does_but_ireg(op.lowering(), op.effect(), m, res),
{
    lemma_codes();
    reveal(step_outside);
    match op {
        MemoryOp::U64Store_Is { .. } => lemma_run_2(op.lowering(), 2, m, res),
        MemoryOp::U32Store_Is { .. } => lemma_run_4(op.lowering(), 2, 4, 6, m, res),
        MemoryOp::U32Store_Ir { .. } => lemma_run_3(op.lowering(), 2, 4, m, res),
        MemoryOp::U32Store_Ii { .. } => lemma_run_3(op.lowering(), 3, 5, m, res),
        _ => {},
    }
}

/// Where the words reach the memory that the operation names, they do what it does.
pub(crate) proof fn lemma_memory_faithful<W>(op: MemoryOp, m: Machine<W>, res: Residuals<W>)
    requires
        op.in_reach(),
    ensures
        perform(op.effect(), m, res) == perform(op.action(), m, res),
{
}

/// What the words of an operation on memory do.
#[verifier::rlimit(40)]
pub(crate) proof fn lemma_memory<W>(op: MemoryOp, m: Machine<W>, res: Residuals<W>)
    ensures
        does_but_ireg(op.lowering(), op.effect(), m, res),
        op.keeps_ireg() ==> does(op.lowering(), op.effect(), m, res),
{
    if op.is_load() {
        lemma_load(op, m, res);
    } else if op.is_store() {
        lemma_store(op, m, res);
    } else {
        lemma_codes();
        reveal(step_outside);
        lemma_run_1(op.lowering(), m, res);
    }
}

/// The words of a return, call, trap or branch by a table do what that does.
#[verifier::rlimit(40)]
pub(crate) proof fn lemma_control<W>(
    op: ControlOp,
    writes_result: bool,
    m: Machine<W>,
    res: Residuals<W>,
)
    ensures
        does(op.lowering(writes_result), op.action(writes_result), m, res),
{
    lemma_codes();
    reveal(step_outside);
    let words = op.lowering(writes_result);
    match op {
        ControlOp::CallIndirect_R { head, len, .. } => {
            let spilled = m.set_cell(Cell::Scratch(0), m.ireg);
            assert(spilled.params(head, len) =~= m.params(head, len));
            lemma_run_2(words, 2, m, res);
        },
        _ => lemma_run_1(words, m, res),
    }
}

} // verus!
