//! Functions of the kernel's subset, operation by operation: which instructions they are
//! lowered to.

use wasmi_majit::action::{BitCount, FloatUnary, FloatWidth, IntKind, IntWidth};
use wasmi_majit::mini::{
    MINI_BR_ALWAYS, MINI_BR_I32_LE_SS, MINI_BR_I32_LT_SI, MINI_BR_I32_NE_RI, MINI_BR_I64_EQ_SS,
    MINI_BR_I64_LE_SI, MINI_BR_I64_LE_SS, MINI_BR_I64_LT_IR, MINI_BR_U32_LE_SS, MINI_COPY_SI,
    MINI_COPY_SR, MINI_F32_ARITH_RS, MINI_F32_CMP_RS_R, MINI_F32_CVT_S, MINI_F32_DEMOTE_S,
    MINI_F32_LOAD_MEM0_OFF, MINI_F32_REINTERP_I32, MINI_F32_STORE_SR, MINI_F32_TRUNC_S,
    MINI_F32_TRUNC_SAT_S, MINI_F32_UNARY_S, MINI_F64_ARITH_RS, MINI_F64_CMP_RS_R, MINI_F64_CVT_S,
    MINI_F64_LOAD_MEM0_OFF, MINI_F64_MINMAX_RS, MINI_F64_PROMOTE_S, MINI_F64_STORE_SR,
    MINI_F64_TRUNC_S, MINI_F64_TRUNC_SAT_S, MINI_F64_UNARY_S, MINI_GLOBAL_GET_F32,
    MINI_GLOBAL_GET_F64, MINI_GLOBAL_GET_R, MINI_GLOBAL_SET_S, MINI_I16_LOAD_MEM0_OFF,
    MINI_I32_ADD_SI_WB, MINI_I32_ADD_SS_WB, MINI_I32_AND_RS_WR, MINI_I32_AND_SS_WR,
    MINI_I32_BITCOUNT_S, MINI_I32_DIV_S, MINI_I32_DIV_U, MINI_I32_EQ_RS_R, MINI_I32_LE_RS_R,
    MINI_I32_LOAD_MEM0_OFF, MINI_I32_LT_RS_R, MINI_I32_LT_SI_R, MINI_I32_LT_SR_R,
    MINI_I32_MUL_RS_WR, MINI_I32_MUL_SS_WR, MINI_I32_NE_RS_R, MINI_I32_OR_RS_WR, MINI_I32_OR_SS_WR,
    MINI_I32_REINTERP_F32, MINI_I32_REM_S, MINI_I32_REM_U, MINI_I32_SHL_SI, MINI_I32_STORE16_RS,
    MINI_I32_STORE16_SR, MINI_I32_STORE8_RS, MINI_I32_STORE8_SR, MINI_I32_STORE_RS,
    MINI_I32_STORE_SR, MINI_I32_SUB_RS_WR, MINI_I32_SUB_SS_WR, MINI_I32_XOR_RS_WR,
    MINI_I32_XOR_SS_WR, MINI_I64_ADD_SS_WB, MINI_I64_AND_RI_WR, MINI_I64_AND_SI_WR,
    MINI_I64_BITCOUNT_S, MINI_I64_DIV_S, MINI_I64_DIV_U, MINI_I64_EQ_RS_R, MINI_I64_LOAD_MEM0_OFF,
    MINI_I64_LT_IS_R, MINI_I64_LT_RS_R, MINI_I64_LT_SI_R, MINI_I64_MUL_RS_WR, MINI_I64_MUL_SS_WR,
    MINI_I64_NE_RS_R, MINI_I64_OR_RS_WR, MINI_I64_OR_SS_WR, MINI_I64_REM_S, MINI_I64_REM_U,
    MINI_I64_SEXT32, MINI_I64_SHL_SI, MINI_I64_STORE_RS, MINI_I64_STORE_SR, MINI_I64_SUB_SS_WR,
    MINI_I64_XOR_RS_WR, MINI_I64_XOR_SS_WR, MINI_I8_LOAD_MEM0_OFF, MINI_RETURN_S, MINI_SELECT,
    MINI_U16_LOAD_MEM0_OFF, MINI_U32_LE_RS_R, MINI_U32_LT_RS_R, MINI_U32_SHR_RI, MINI_U64_SHR_SI,
    MINI_U8_LOAD_MEM0_OFF,
};
use wasmi_majit::observe::disasm_observe;
use wasmi_majit::ops::bits::BitsOp;
use wasmi_majit::ops::bits::BitsOp::{
    Count_Rr, Count_Rs, I32Shl_Rsi, I64Sext32_Rr, I64Sext32_Rs, I64Shl_Rsi, U32Shr_Rri, U64Shr_Rsi,
};
use wasmi_majit::ops::branch::BranchOp;
use wasmi_majit::ops::branch::BranchOp::{
    Branch, BranchI32Le_Ss, BranchI32Lt_Si, BranchI32NotEq_Ri, BranchI64Eq_Si, BranchI64Eq_Ss,
    BranchI64Le_Si, BranchI64Le_Ss, BranchI64Lt_Ir, BranchI64NotEq_Ri, BranchU32Le_Ss,
};
use wasmi_majit::ops::compare::CompareOp;
use wasmi_majit::ops::compare::CompareOp::{
    I32Eq_Rrs, I32Eq_Rsi, I32Le_Ris, I32Le_Rrs, I32Le_Rsi, I32Lt_Ris, I32Lt_Rrs, I32Lt_Rsi,
    I32Lt_Rsr, I32NotEq_Rrs, I32NotEq_Rsi, I64Eq_Rrs, I64Eq_Rsi, I64Le_Ris, I64Le_Rsi, I64Lt_Ris,
    I64Lt_Rrs, I64Lt_Rsi, I64NotEq_Rrs, I64NotEq_Rsi, U32Le_Ris, U32Le_Rrs, U32Le_Rsi, U32Lt_Ris,
    U32Lt_Rrs, U32Lt_Rsi, U64Le_Ris, U64Le_Rsi, U64Lt_Ris, U64Lt_Rsi,
};
use wasmi_majit::ops::copy::CopyOp;
use wasmi_majit::ops::copy::CopyOp::{
    F32Copy_Sr, F64Copy_Sr, U64Copy_Rs, U64Copy_Si, U64Copy_Sr, U64Copy_Ss,
};
use wasmi_majit::ops::global::GlobalOp;
use wasmi_majit::ops::global::GlobalOp::{
    GlobalGetF32_R, GlobalGetF64_R, GlobalGetU64_R, GlobalSetF32_R, GlobalSetF64_R, GlobalSetU64_I,
    GlobalSetU64_R,
};
use wasmi_majit::ops::integer::IntOp;
use wasmi_majit::ops::integer::IntOp::{
    I32Add_Rri, I32Add_Rrs, I32Add_Rs_rs, I32Add_Rs_si, I32Add_Rs_ss, I32Add_Rsi, I32Add_Rss,
    I32BitAnd_Rri, I32BitAnd_Rrs, I32BitOr_Rri, I32BitOr_Rrs, I32BitXor_Rri, I32BitXor_Rrs,
    I32BitXor_Rss, I32Mul_Rri, I32Mul_Rrs, I32Mul_Rsi, I32Mul_Rss, I32Sub_Rir, I32Sub_Ris,
    I32Sub_Rrs, I32Sub_Rsr, I32Sub_Rss, I64Add_Rri, I64Add_Rrs, I64Add_Rs_rs, I64Add_Rs_si,
    I64Add_Rs_ss, I64Add_Rsi, I64Add_Rss, I64BitAnd_Rri, I64BitAnd_Rsi, I64BitOr_Rri, I64BitOr_Rrs,
    I64BitOr_Rss, I64BitXor_Rri, I64BitXor_Rrs, I64BitXor_Rss, I64Mul_Rri, I64Mul_Rrs, I64Mul_Rsi,
    I64Mul_Rss, I64Sub_Ris, I64Sub_Rrs, I64Sub_Rss,
};
use wasmi_majit::ops::select::SelectOp;
use wasmi_majit::ops::select::SelectOp::{
    U32Select_Rrii, U32Select_Rris, U32Select_Rrsi, U64Select_Rrsi, U64Select_Rrss,
};
use wasmi_majit::ops::control::ControlOp;
use wasmi_majit::ops::convert::ConvertOp;
use wasmi_majit::ops::divide::{DivideForm, DivideOp};
use wasmi_majit::ops::float::FloatOp;
use wasmi_majit::ops::memory::{MemLoad, MemStore, MemoryOp};
use wasmi_majit::ops::Op;
use wasmi_majit::prepass::{prepass, MiniProgram};
use wasmi_majit::stream::OpStream;

/// The bytes of an operation in these streams.
const SIZE: usize = 8;

/// The slots of the functions below.
const PTR: u16 = 0;
const N: u16 = 1;
const B: u16 = 2;
const C: u16 = 3;
const T: u16 = 4;
const I: u16 = 5;
const ACC: u16 = 6;

/// The number of an operation that no family has.
const MEMORY_GROW: u16 = 900;

fn alu(op: IntOp) -> Op {
    Op::Int(op)
}

fn cmp(op: CompareOp) -> Op {
    Op::Compare(op)
}

fn bits(op: BitsOp) -> Op {
    Op::Bits(op)
}

fn div(op: DivideOp) -> Op {
    Op::Divide(op)
}

fn mem(op: MemoryOp) -> Op {
    Op::Memory(op)
}

/// A load at the pointer in the accumulator.
fn load(load: MemLoad) -> Op {
    Op::Memory(MemoryOp::LoadMem0Offset16_Rr { load, offset: 0 })
}

fn copy(op: CopyOp) -> Op {
    Op::Copy(op)
}

fn sel(op: SelectOp) -> Op {
    Op::Select(op)
}

fn conv(op: ConvertOp) -> Op {
    Op::Convert(op)
}

fn glob(op: GlobalOp) -> Op {
    Op::Global(op)
}

fn br(op: BranchOp) -> Op {
    Op::Branch(op)
}

fn ctl(op: ControlOp) -> Op {
    Op::Control(op)
}

/// The operations one behind the other.
fn straight(ops: Vec<Op>) -> OpStream {
    let mut stream = OpStream::new();
    for op in ops {
        assert!(stream.push(op, SIZE));
    }
    stream
}

/// `for i < n { body }`, and the accumulated value as the result, with an i32 counter.
fn i32_loop(body: Vec<Op>) -> OpStream {
    let len = body.len() as i32;
    let mut ops = vec![br(BranchI32Le_Ss { offset: 8 * (len + 3), lhs: N, rhs: I })];
    ops.extend(body);
    ops.push(alu(I32Add_Rs_si { result: I, lhs: I, rhs: 1 }));
    ops.push(br(Branch { offset: -8 * (len + 2) }));
    ops.push(copy(U64Copy_Ss { result: 0, value: ACC }));
    ops.push(ctl(ControlOp::Return));
    straight(ops)
}

/// The same loop with an i64 counter.
fn i64_loop(body: Vec<Op>) -> OpStream {
    let len = body.len() as i32;
    let mut ops = vec![br(BranchI64Le_Ss { offset: 8 * (len + 3), lhs: N, rhs: I })];
    ops.extend(body);
    ops.push(alu(I64Add_Rs_si { result: I, lhs: I, rhs: 1 }));
    ops.push(br(Branch { offset: -8 * (len + 2) }));
    ops.push(copy(U64Copy_Ss { result: 0, value: ACC }));
    ops.push(ctl(ControlOp::Return));
    straight(ops)
}

fn lower(stream: &OpStream) -> MiniProgram {
    prepass(stream, 7, 8).expect("function is JIT-eligible")
}

/// Whether an instruction with this opcode has this selector.
fn pair(mp: &MiniProgram, code: i64, sel: i64) -> bool {
    mp.words.windows(2).any(|w| w[0] == code && w[1] == sel)
}

/// Multiplication and xor of a loaded i32 with slots.
#[test]
fn i32_slot_alu_is_eligible() {
    let mp = lower(&i32_loop(vec![
        alu(I32Mul_Rsi { lhs: I, rhs: 4 }),
        alu(I32Add_Rrs { rhs: PTR }),
        load(MemLoad::U32),
        alu(I32Mul_Rrs { rhs: B }),
        alu(I32BitXor_Rrs { rhs: C }),
        alu(I32Add_Rs_rs { result: ACC, rhs: ACC }),
    ]));
    assert!(mp.words.contains(&MINI_I32_MUL_RS_WR));
    assert!(mp.words.contains(&MINI_I32_XOR_RS_WR));
}

/// Multiplication, xor, or and and of a loaded i32 with constants.
#[test]
fn i32_const_alu_is_eligible() {
    let mp = lower(&i32_loop(vec![
        alu(I32Mul_Rsi { lhs: I, rhs: 4 }),
        alu(I32Add_Rrs { rhs: PTR }),
        load(MemLoad::U32),
        alu(I32Mul_Rri { rhs: 3 }),
        alu(I32BitXor_Rri { rhs: 5 }),
        alu(I32BitOr_Rri { rhs: 6 }),
        alu(I32BitAnd_Rri { rhs: 12 }),
        alu(I32Add_Rs_rs { result: ACC, rhs: ACC }),
    ]));
    assert!(mp.words.contains(&MINI_I32_MUL_RS_WR));
    assert!(mp.words.contains(&MINI_I32_XOR_RS_WR));
    assert!(mp.words.contains(&MINI_I32_OR_RS_WR));
    assert!(mp.words.contains(&MINI_I32_AND_RS_WR));
}

/// Multiplication, or and xor of a loaded i64 with slots.
#[test]
fn i64_slot_alu_is_eligible() {
    let mp = lower(&i32_loop(vec![
        alu(I32Mul_Rsi { lhs: I, rhs: 8 }),
        alu(I32Add_Rrs { rhs: PTR }),
        load(MemLoad::U64),
        alu(I64Mul_Rrs { rhs: B }),
        alu(I64BitOr_Rrs { rhs: C }),
        alu(I64BitXor_Rrs { rhs: T }),
        alu(I64Add_Rs_rs { result: ACC, rhs: ACC }),
    ]));
    assert!(mp.words.contains(&MINI_I64_MUL_RS_WR));
    assert!(mp.words.contains(&MINI_I64_OR_RS_WR));
    assert!(mp.words.contains(&MINI_I64_XOR_RS_WR));
}

/// Multiplication, or and xor of a loaded i64 with constants.
#[test]
fn i64_const_alu_is_eligible() {
    let mp = lower(&i32_loop(vec![
        alu(I32Mul_Rsi { lhs: I, rhs: 8 }),
        alu(I32Add_Rrs { rhs: PTR }),
        load(MemLoad::U64),
        alu(I64Mul_Rri { rhs: 3 }),
        alu(I64BitOr_Rri { rhs: 5 }),
        alu(I64BitXor_Rri { rhs: 7 }),
        alu(I64Add_Rs_rs { result: ACC, rhs: ACC }),
    ]));
    assert!(mp.words.contains(&MINI_I64_MUL_RS_WR));
    assert!(mp.words.contains(&MINI_I64_OR_RS_WR));
    assert!(mp.words.contains(&MINI_I64_XOR_RS_WR));
}

/// A sum of unsigned bytes.
#[test]
fn byte_sum_is_eligible() {
    let mp = lower(&i32_loop(vec![
        alu(I32Add_Rss { lhs: PTR, rhs: I }),
        load(MemLoad::U32Extend8),
        alu(I64Add_Rs_rs { result: ACC, rhs: ACC }),
    ]));
    assert!(mp.words.contains(&MINI_U8_LOAD_MEM0_OFF));
}

/// A sum of signed bytes.
#[test]
fn signed_byte_sum_is_eligible() {
    let mp = lower(&i32_loop(vec![
        alu(I32Add_Rss { lhs: PTR, rhs: I }),
        load(MemLoad::I32Extend8),
        bits(I64Sext32_Rr),
        alu(I64Add_Rs_rs { result: ACC, rhs: ACC }),
    ]));
    assert!(mp.words.contains(&MINI_I8_LOAD_MEM0_OFF));
}

/// Sums of 16-bit elements, unsigned and signed.
#[test]
fn u16_loads_are_eligible() {
    let mp_u = lower(&i32_loop(vec![
        alu(I32Mul_Rsi { lhs: I, rhs: 2 }),
        alu(I32Add_Rrs { rhs: PTR }),
        load(MemLoad::U32Extend16),
        alu(I64Add_Rs_rs { result: ACC, rhs: ACC }),
    ]));
    assert!(mp_u.words.contains(&MINI_U16_LOAD_MEM0_OFF));
    let mp_s = lower(&i32_loop(vec![
        alu(I32Mul_Rsi { lhs: I, rhs: 2 }),
        alu(I32Add_Rrs { rhs: PTR }),
        load(MemLoad::I32Extend16),
        bits(I64Sext32_Rr),
        alu(I64Add_Rs_rs { result: ACC, rhs: ACC }),
    ]));
    assert!(mp_s.words.contains(&MINI_I16_LOAD_MEM0_OFF));
}

/// A store of a computed i32.
#[test]
fn i32_store_is_eligible() {
    let mp = lower(&i32_loop(vec![
        alu(I32Mul_Rsi { lhs: I, rhs: 4 }),
        alu(I32Add_Rrs { rhs: PTR }),
        copy(U64Copy_Sr { result: T }),
        alu(I32Mul_Rss { lhs: I, rhs: I }),
        mem(MemoryOp::StoreMem0Offset16_Sr { store: MemStore::U32, ptr: T, offset: 0 }),
    ]));
    assert!(mp.words.contains(&MINI_I32_STORE_SR));
}

/// A store of an i32 slot.
#[test]
fn i32_store_local_is_eligible() {
    let mp = lower(&i32_loop(vec![
        alu(I32Mul_Rsi { lhs: I, rhs: 4 }),
        alu(I32Add_Rrs { rhs: PTR }),
        mem(MemoryOp::StoreMem0Offset16_Rs { store: MemStore::U32, offset: 0, value: I }),
    ]));
    assert!(mp.words.contains(&MINI_I32_STORE_RS));
}

/// A store of an i64 slot.
#[test]
fn i64_store_local_is_eligible() {
    let mp = lower(&i32_loop(vec![
        alu(I64Add_Rs_si { result: ACC, lhs: ACC, rhs: 1 }),
        alu(I32Mul_Rsi { lhs: I, rhs: 8 }),
        alu(I32Add_Rrs { rhs: PTR }),
        mem(MemoryOp::StoreMem0Offset16_Rs { store: MemStore::U64, offset: 0, value: ACC }),
    ]));
    assert!(mp.words.contains(&MINI_I64_STORE_RS));
}

/// Stores of 8 and 16 bits of a slot.
#[test]
fn narrow_stores_are_eligible() {
    let mp8 = lower(&i32_loop(vec![
        alu(I32Mul_Rsi { lhs: I, rhs: 1 }),
        alu(I32Add_Rrs { rhs: PTR }),
        mem(MemoryOp::StoreMem0Offset16_Rs { store: MemStore::I32Wrap8, offset: 0, value: I }),
    ]));
    assert!(mp8.words.contains(&MINI_I32_STORE8_RS));
    let mp16 = lower(&i32_loop(vec![
        alu(I32Mul_Rsi { lhs: I, rhs: 2 }),
        alu(I32Add_Rrs { rhs: PTR }),
        mem(MemoryOp::StoreMem0Offset16_Rs { store: MemStore::I32Wrap16, offset: 0, value: I }),
    ]));
    assert!(mp16.words.contains(&MINI_I32_STORE16_RS));
}

/// Stores of computed values of 64, 8 and 16 bits.
#[test]
fn computed_value_stores_are_eligible() {
    let mp = lower(&i32_loop(vec![
        alu(I32Mul_Rsi { lhs: I, rhs: 8 }),
        alu(I32Add_Rrs { rhs: PTR }),
        copy(U64Copy_Sr { result: T }),
        alu(I64Add_Rss { lhs: ACC, rhs: ACC }),
        mem(MemoryOp::StoreMem0Offset16_Sr { store: MemStore::U64, ptr: T, offset: 0 }),
    ]));
    assert!(mp.words.contains(&MINI_I64_STORE_SR));
    let mp8 = lower(&i32_loop(vec![
        alu(I32Mul_Rsi { lhs: I, rhs: 1 }),
        alu(I32Add_Rrs { rhs: PTR }),
        copy(U64Copy_Sr { result: T }),
        alu(I32Mul_Rss { lhs: I, rhs: I }),
        mem(MemoryOp::StoreMem0Offset16_Sr { store: MemStore::I32Wrap8, ptr: T, offset: 0 }),
    ]));
    assert!(mp8.words.contains(&MINI_I32_STORE8_SR));
    let mp16 = lower(&i32_loop(vec![
        alu(I32Mul_Rsi { lhs: I, rhs: 2 }),
        alu(I32Add_Rrs { rhs: PTR }),
        copy(U64Copy_Sr { result: T }),
        alu(I32Mul_Rss { lhs: I, rhs: I }),
        mem(MemoryOp::StoreMem0Offset16_Sr { store: MemStore::I32Wrap16, ptr: T, offset: 0 }),
    ]));
    assert!(mp16.words.contains(&MINI_I32_STORE16_SR));
}

/// A count of elements below a threshold.
#[test]
fn compare_value_is_eligible() {
    let mp = lower(&i32_loop(vec![
        alu(I32Mul_Rsi { lhs: I, rhs: 4 }),
        alu(I32Add_Rrs { rhs: PTR }),
        load(MemLoad::U32),
        cmp(I32Lt_Rrs { rhs: T }),
        alu(I32Add_Rs_rs { result: ACC, rhs: ACC }),
    ]));
    assert!(mp.words.contains(&MINI_I32_LT_RS_R));
}

/// A count of elements above a threshold.
#[test]
fn compare_value_swapped_is_eligible() {
    let mp = lower(&i32_loop(vec![
        alu(I32Mul_Rsi { lhs: I, rhs: 4 }),
        alu(I32Add_Rrs { rhs: PTR }),
        load(MemLoad::U32),
        cmp(I32Lt_Rsr { lhs: T }),
        alu(I32Add_Rs_rs { result: ACC, rhs: ACC }),
    ]));
    assert!(mp.words.contains(&MINI_I32_LT_SR_R));
}

/// A running maximum by selection.
#[test]
fn select_is_eligible() {
    let mp = lower(&i32_loop(vec![
        alu(I32Mul_Rsi { lhs: I, rhs: 4 }),
        alu(I32Add_Rrs { rhs: PTR }),
        load(MemLoad::U32),
        copy(U64Copy_Sr { result: B }),
        alu(I32Mul_Rsi { lhs: I, rhs: 4 }),
        alu(I32Add_Rrs { rhs: PTR }),
        load(MemLoad::U32),
        cmp(I32Lt_Rsr { lhs: ACC }),
        sel(U64Select_Rrss { if_true: B, if_false: ACC }),
        copy(U64Copy_Sr { result: ACC }),
    ]));
    assert!(mp.words.contains(&MINI_SELECT));
}

/// Selections with constant arms.
#[test]
fn select_const_arms_are_eligible() {
    let false_const = lower(&i32_loop(vec![
        cmp(I32Lt_Rsi { lhs: I, rhs: 5 }),
        sel(U32Select_Rrsi { if_true: I, if_false: 7 }),
        alu(I32Add_Rs_rs { result: ACC, rhs: ACC }),
    ]));
    assert!(false_const.words.contains(&MINI_SELECT));
    let true_const = lower(&i32_loop(vec![
        cmp(I32Lt_Rsi { lhs: I, rhs: 5 }),
        sel(U32Select_Rris { if_true: 7, if_false: I }),
        alu(I32Add_Rs_rs { result: ACC, rhs: ACC }),
    ]));
    assert!(true_const.words.contains(&MINI_SELECT));
    let both_const = lower(&i32_loop(vec![
        cmp(I32Lt_Rsi { lhs: I, rhs: 5 }),
        sel(U32Select_Rrii { if_true: 11, if_false: 7 }),
        alu(I32Add_Rs_rs { result: ACC, rhs: ACC }),
    ]));
    assert!(both_const.words.contains(&MINI_SELECT));
    let mp = lower(&i64_loop(vec![
        cmp(I64Lt_Rsi { lhs: I, rhs: 5 }),
        sel(U64Select_Rrsi { if_true: I, if_false: 7 }),
        alu(I64Add_Rs_rs { result: ACC, rhs: ACC }),
    ]));
    assert!(mp.words.contains(&MINI_SELECT));
    assert!(mp.words.contains(&MINI_I64_LT_SI_R));
}

/// Comparisons of a slot with a constant, as values.
#[test]
fn cmp_value_const_forms_are_eligible() {
    for op in [
        I32Eq_Rsi { lhs: I, rhs: 5 },
        I32NotEq_Rsi { lhs: I, rhs: 5 },
        I32Lt_Rsi { lhs: I, rhs: 5 },
        I32Le_Rsi { lhs: I, rhs: 5 },
        I32Lt_Ris { lhs: 5, rhs: I },
        I32Le_Ris { lhs: 5, rhs: I },
        U32Lt_Rsi { lhs: I, rhs: 5 },
        U32Le_Rsi { lhs: I, rhs: 5 },
        U32Lt_Ris { lhs: 5, rhs: I },
        U32Le_Ris { lhs: 5, rhs: I },
    ] {
        lower(&i32_loop(vec![cmp(op), alu(I32Add_Rs_rs { result: ACC, rhs: ACC })]));
    }
    for op in [
        I64Eq_Rsi { lhs: I, rhs: 5 },
        I64NotEq_Rsi { lhs: I, rhs: 5 },
        I64Lt_Rsi { lhs: I, rhs: 5 },
        I64Le_Rsi { lhs: I, rhs: 5 },
        I64Lt_Ris { lhs: 5, rhs: I },
        I64Le_Ris { lhs: 5, rhs: I },
        U64Lt_Rsi { lhs: I, rhs: 5 },
        U64Le_Rsi { lhs: I, rhs: 5 },
        U64Lt_Ris { lhs: 5, rhs: I },
        U64Le_Ris { lhs: 5, rhs: I },
    ] {
        lower(&i64_loop(vec![cmp(op), alu(I64Add_Rs_rs { result: ACC, rhs: ACC })]));
    }
}

/// A running f64 maximum: `gt` is a swapped `lt`.
#[test]
fn f64_swapped_cmp_is_eligible() {
    let mp = lower(&i32_loop(vec![
        copy(U64Copy_Rs { value: PTR }),
        load(MemLoad::F64),
        copy(F64Copy_Sr { result: B }),
        alu(I32Mul_Rsi { lhs: I, rhs: 8 }),
        alu(I32Add_Rrs { rhs: PTR }),
        load(MemLoad::F64),
        copy(F64Copy_Sr { result: C }),
        alu(I32Mul_Rsi { lhs: I, rhs: 8 }),
        alu(I32Add_Rrs { rhs: PTR }),
        load(MemLoad::U64),
        copy(U64Copy_Sr { result: T }),
        copy(U64Copy_Rs { value: PTR }),
        load(MemLoad::F64),
        Op::F64(FloatOp::Lt_Rsr { lhs: B }),
        sel(U64Select_Rrss { if_true: T, if_false: ACC }),
    ]));
    assert!(mp.words.contains(&MINI_F64_CMP_RS_R));
    assert!(pair(&mp, MINI_F64_CMP_RS_R, 4));
}

/// Running f32 maxima: `gt` and `ge` are a swapped `lt` and `le`.
#[test]
fn f32_swapped_cmp_is_eligible() {
    let gt = lower(&i32_loop(vec![
        copy(U64Copy_Rs { value: PTR }),
        load(MemLoad::F32),
        copy(F32Copy_Sr { result: B }),
        alu(I32Mul_Rsi { lhs: I, rhs: 4 }),
        alu(I32Add_Rrs { rhs: PTR }),
        load(MemLoad::F32),
        copy(F32Copy_Sr { result: C }),
        alu(I32Mul_Rsi { lhs: I, rhs: 4 }),
        alu(I32Add_Rrs { rhs: PTR }),
        load(MemLoad::U32),
        copy(U64Copy_Sr { result: T }),
        copy(U64Copy_Rs { value: PTR }),
        load(MemLoad::F32),
        Op::F32(FloatOp::Lt_Rsr { lhs: B }),
        sel(U64Select_Rrss { if_true: T, if_false: ACC }),
    ]));
    assert!(gt.words.contains(&MINI_F32_CMP_RS_R));
    assert!(pair(&gt, MINI_F32_CMP_RS_R, 4));
    let ge = lower(&i32_loop(vec![
        copy(U64Copy_Rs { value: PTR }),
        load(MemLoad::F32),
        copy(F32Copy_Sr { result: B }),
        alu(I32Mul_Rsi { lhs: I, rhs: 4 }),
        alu(I32Add_Rrs { rhs: PTR }),
        load(MemLoad::F32),
        copy(F32Copy_Sr { result: C }),
        alu(I32Mul_Rsi { lhs: I, rhs: 4 }),
        alu(I32Add_Rrs { rhs: PTR }),
        load(MemLoad::U32),
        copy(U64Copy_Sr { result: T }),
        copy(U64Copy_Rs { value: PTR }),
        load(MemLoad::F32),
        Op::F32(FloatOp::Le_Rsr { lhs: B }),
        sel(U64Select_Rrss { if_true: T, if_false: ACC }),
    ]));
    assert!(ge.words.contains(&MINI_F32_CMP_RS_R));
    assert!(pair(&ge, MINI_F32_CMP_RS_R, 5));
}

/// Counts of i32 matches and mismatches.
#[test]
fn equality_value_is_eligible() {
    let eq = lower(&i32_loop(vec![
        alu(I32Mul_Rsi { lhs: I, rhs: 4 }),
        alu(I32Add_Rrs { rhs: PTR }),
        load(MemLoad::U32),
        cmp(I32Eq_Rrs { rhs: T }),
        alu(I32Add_Rs_rs { result: ACC, rhs: ACC }),
    ]));
    assert!(eq.words.contains(&MINI_I32_EQ_RS_R));
    let ne = lower(&i32_loop(vec![
        alu(I32Mul_Rsi { lhs: I, rhs: 4 }),
        alu(I32Add_Rrs { rhs: PTR }),
        load(MemLoad::U32),
        cmp(I32NotEq_Rrs { rhs: T }),
        alu(I32Add_Rs_rs { result: ACC, rhs: ACC }),
    ]));
    assert!(ne.words.contains(&MINI_I32_NE_RS_R));
}

/// Counts of i64 comparisons.
#[test]
fn i64_compare_value_is_eligible() {
    let eq = lower(&i32_loop(vec![
        alu(I32Mul_Rsi { lhs: I, rhs: 8 }),
        alu(I32Add_Rrs { rhs: PTR }),
        load(MemLoad::U64),
        cmp(I64Eq_Rrs { rhs: T }),
        alu(I32Add_Rs_rs { result: ACC, rhs: ACC }),
    ]));
    assert!(eq.words.contains(&MINI_I64_EQ_RS_R));
    let ne = lower(&i32_loop(vec![
        alu(I32Mul_Rsi { lhs: I, rhs: 8 }),
        alu(I32Add_Rrs { rhs: PTR }),
        load(MemLoad::U64),
        cmp(I64NotEq_Rrs { rhs: T }),
        alu(I32Add_Rs_rs { result: ACC, rhs: ACC }),
    ]));
    assert!(ne.words.contains(&MINI_I64_NE_RS_R));
    let lt = lower(&i32_loop(vec![
        alu(I32Mul_Rsi { lhs: I, rhs: 8 }),
        alu(I32Add_Rrs { rhs: PTR }),
        load(MemLoad::U64),
        cmp(I64Lt_Rrs { rhs: T }),
        alu(I32Add_Rs_rs { result: ACC, rhs: ACC }),
    ]));
    assert!(lt.words.contains(&MINI_I64_LT_RS_R));
}

/// Sums of saturating truncations of loaded f64 values.
#[test]
fn f64_trunc_sat_is_eligible() {
    let i64s = lower(&i32_loop(vec![
        alu(I32Mul_Rsi { lhs: I, rhs: 8 }),
        alu(I32Add_Rrs { rhs: PTR }),
        load(MemLoad::F64),
        conv(ConvertOp::TruncSat_Rr { from: FloatWidth::F64, to: IntKind::I64 }),
        alu(I64Add_Rs_rs { result: ACC, rhs: ACC }),
    ]));
    assert!(pair(&i64s, MINI_F64_TRUNC_SAT_S, 2));
    let i64u = lower(&i32_loop(vec![
        alu(I32Mul_Rsi { lhs: I, rhs: 8 }),
        alu(I32Add_Rrs { rhs: PTR }),
        load(MemLoad::F64),
        conv(ConvertOp::TruncSat_Rr { from: FloatWidth::F64, to: IntKind::U64 }),
        alu(I64Add_Rs_rs { result: ACC, rhs: ACC }),
    ]));
    assert!(pair(&i64u, MINI_F64_TRUNC_SAT_S, 3));
    let i32s = lower(&i32_loop(vec![
        alu(I32Mul_Rsi { lhs: I, rhs: 8 }),
        alu(I32Add_Rrs { rhs: PTR }),
        load(MemLoad::F64),
        conv(ConvertOp::TruncSat_Rr { from: FloatWidth::F64, to: IntKind::I32 }),
        alu(I32Add_Rs_rs { result: ACC, rhs: ACC }),
    ]));
    assert!(pair(&i32s, MINI_F64_TRUNC_SAT_S, 0));
    let i32u = lower(&i32_loop(vec![
        alu(I32Mul_Rsi { lhs: I, rhs: 8 }),
        alu(I32Add_Rrs { rhs: PTR }),
        load(MemLoad::F64),
        conv(ConvertOp::TruncSat_Rr { from: FloatWidth::F64, to: IntKind::U32 }),
        alu(I32Add_Rs_rs { result: ACC, rhs: ACC }),
    ]));
    assert!(pair(&i32u, MINI_F64_TRUNC_SAT_S, 1));
}

/// Sums of trapping truncations of loaded f64 values.
#[test]
fn f64_trunc_is_eligible() {
    let i64s = lower(&i32_loop(vec![
        alu(I32Mul_Rsi { lhs: I, rhs: 8 }),
        alu(I32Add_Rrs { rhs: PTR }),
        load(MemLoad::F64),
        conv(ConvertOp::Trunc_Rr { from: FloatWidth::F64, to: IntKind::I64 }),
        alu(I64Add_Rs_rs { result: ACC, rhs: ACC }),
    ]));
    assert!(pair(&i64s, MINI_F64_TRUNC_S, 2));
    let i64u = lower(&i32_loop(vec![
        alu(I32Mul_Rsi { lhs: I, rhs: 8 }),
        alu(I32Add_Rrs { rhs: PTR }),
        load(MemLoad::F64),
        conv(ConvertOp::Trunc_Rr { from: FloatWidth::F64, to: IntKind::U64 }),
        alu(I64Add_Rs_rs { result: ACC, rhs: ACC }),
    ]));
    assert!(pair(&i64u, MINI_F64_TRUNC_S, 3));
    let i32s = lower(&i32_loop(vec![
        alu(I32Mul_Rsi { lhs: I, rhs: 8 }),
        alu(I32Add_Rrs { rhs: PTR }),
        load(MemLoad::F64),
        conv(ConvertOp::Trunc_Rr { from: FloatWidth::F64, to: IntKind::I32 }),
        alu(I32Add_Rs_rs { result: ACC, rhs: ACC }),
    ]));
    assert!(pair(&i32s, MINI_F64_TRUNC_S, 0));
    let i32u = lower(&i32_loop(vec![
        alu(I32Mul_Rsi { lhs: I, rhs: 8 }),
        alu(I32Add_Rrs { rhs: PTR }),
        load(MemLoad::F64),
        conv(ConvertOp::Trunc_Rr { from: FloatWidth::F64, to: IntKind::U32 }),
        alu(I32Add_Rs_rs { result: ACC, rhs: ACC }),
    ]));
    assert!(pair(&i32u, MINI_F64_TRUNC_S, 1));
}

/// A sum of conversions of integers to f64.
#[test]
fn f64_convert_is_eligible() {
    let mp = lower(&i32_loop(vec![
        alu(I32Add_Rs_si { result: B, lhs: I, rhs: -500 }),
        bits(I64Sext32_Rs { value: I }),
        alu(I64Add_Rs_rs { result: C, rhs: T }),
        conv(ConvertOp::Convert_Rs { to: FloatWidth::F64, from: IntKind::I64, value: C }),
        copy(F64Copy_Sr { result: 12 }),
        conv(ConvertOp::Convert_Rs { to: FloatWidth::F64, from: IntKind::U64, value: C }),
        Op::F64(FloatOp::Add_Rsr { lhs: 12 }),
        copy(F64Copy_Sr { result: 12 }),
        conv(ConvertOp::Convert_Rs { to: FloatWidth::F64, from: IntKind::U32, value: B }),
        Op::F64(FloatOp::Add_Rrs { rhs: 12 }),
        copy(F64Copy_Sr { result: 12 }),
        conv(ConvertOp::Convert_Rs { to: FloatWidth::F64, from: IntKind::I32, value: B }),
        Op::F64(FloatOp::Add_Rrs { rhs: 12 }),
        Op::F64(FloatOp::Add_Rsr { lhs: ACC }),
        copy(F64Copy_Sr { result: ACC }),
    ]));
    assert!(pair(&mp, MINI_F64_CVT_S, 0));
    assert!(pair(&mp, MINI_F64_CVT_S, 1));
    assert!(pair(&mp, MINI_F64_CVT_S, 2));
    assert!(pair(&mp, MINI_F64_CVT_S, 3));
}

/// A sum of f64 elements.
#[test]
fn f64_sum_is_eligible() {
    let mp = lower(&i32_loop(vec![
        alu(I32Mul_Rsi { lhs: I, rhs: 8 }),
        alu(I32Add_Rrs { rhs: PTR }),
        load(MemLoad::F64),
        Op::F64(FloatOp::Add_Rsr { lhs: ACC }),
        copy(F64Copy_Sr { result: ACC }),
    ]));
    assert!(pair(&mp, MINI_F64_ARITH_RS, 0));
}

/// Elements clamped between a slot and a constant.
#[test]
fn f64_minmax_is_eligible() {
    let mp = lower(&i32_loop(vec![
        alu(I32Mul_Rsi { lhs: I, rhs: 8 }),
        alu(I32Add_Rrs { rhs: PTR }),
        load(MemLoad::F64),
        Op::F64(FloatOp::Max_Rrs { rhs: T }),
        Op::F64(FloatOp::Min_Rri { bits: 100f64.to_bits() }),
        Op::F64(FloatOp::Add_Rsr { lhs: ACC }),
        copy(F64Copy_Sr { result: ACC }),
    ]));
    assert!(pair(&mp, MINI_F64_MINMAX_RS, 1));
    assert!(pair(&mp, MINI_F64_MINMAX_RS, 0));
}

/// Floors of ceilings of square roots of magnitudes (f64).
#[test]
fn f64_unary_is_eligible() {
    let mp = lower(&i32_loop(vec![
        alu(I32Mul_Rsi { lhs: I, rhs: 8 }),
        alu(I32Add_Rrs { rhs: PTR }),
        load(MemLoad::F64),
        Op::F64(FloatOp::Unary_Rr { op: FloatUnary::Abs }),
        Op::F64(FloatOp::Unary_Rr { op: FloatUnary::Sqrt }),
        Op::F64(FloatOp::Unary_Rr { op: FloatUnary::Ceil }),
        Op::F64(FloatOp::Unary_Rr { op: FloatUnary::Floor }),
        Op::F64(FloatOp::Add_Rsr { lhs: ACC }),
        copy(F64Copy_Sr { result: ACC }),
    ]));
    assert!(pair(&mp, MINI_F64_UNARY_S, 0));
    assert!(pair(&mp, MINI_F64_UNARY_S, 2));
    assert!(pair(&mp, MINI_F64_UNARY_S, 3));
    assert!(pair(&mp, MINI_F64_UNARY_S, 4));
}

/// Floors of ceilings of square roots of magnitudes (f32).
#[test]
fn f32_unary_is_eligible() {
    let mp = lower(&i32_loop(vec![
        alu(I32Mul_Rsi { lhs: I, rhs: 4 }),
        alu(I32Add_Rrs { rhs: PTR }),
        load(MemLoad::F32),
        Op::F32(FloatOp::Unary_Rr { op: FloatUnary::Abs }),
        Op::F32(FloatOp::Unary_Rr { op: FloatUnary::Sqrt }),
        Op::F32(FloatOp::Unary_Rr { op: FloatUnary::Ceil }),
        Op::F32(FloatOp::Unary_Rr { op: FloatUnary::Floor }),
        Op::F32(FloatOp::Add_Rsr { lhs: ACC }),
        copy(F32Copy_Sr { result: ACC }),
    ]));
    assert!(pair(&mp, MINI_F32_UNARY_S, 0));
    assert!(pair(&mp, MINI_F32_UNARY_S, 2));
    assert!(pair(&mp, MINI_F32_UNARY_S, 3));
    assert!(pair(&mp, MINI_F32_UNARY_S, 4));
}

/// Bit counts of an i32 slot.
#[test]
fn i32_bitcount_is_eligible() {
    let mp = lower(&i32_loop(vec![
        bits(Count_Rs { width: IntWidth::W32, count: BitCount::Clz, value: I }),
        alu(I32Add_Rs_rs { result: ACC, rhs: ACC }),
        bits(Count_Rs { width: IntWidth::W32, count: BitCount::Ctz, value: I }),
        alu(I32Add_Rs_rs { result: ACC, rhs: ACC }),
        bits(Count_Rs { width: IntWidth::W32, count: BitCount::Popcnt, value: I }),
        alu(I32Add_Rs_rs { result: ACC, rhs: ACC }),
    ]));
    assert!(pair(&mp, MINI_I32_BITCOUNT_S, 0));
    assert!(pair(&mp, MINI_I32_BITCOUNT_S, 1));
    assert!(pair(&mp, MINI_I32_BITCOUNT_S, 2));
}

/// Bit counts of computed i64 values.
#[test]
fn i64_bitcount_is_eligible() {
    let mp = lower(&i64_loop(vec![
        alu(I64Mul_Rss { lhs: I, rhs: I }),
        bits(Count_Rr { width: IntWidth::W64, count: BitCount::Clz }),
        alu(I64Add_Rs_rs { result: ACC, rhs: ACC }),
        alu(I64Mul_Rss { lhs: I, rhs: I }),
        bits(Count_Rr { width: IntWidth::W64, count: BitCount::Ctz }),
        alu(I64Add_Rs_rs { result: ACC, rhs: ACC }),
        alu(I64Mul_Rss { lhs: I, rhs: I }),
        bits(Count_Rr { width: IntWidth::W64, count: BitCount::Popcnt }),
        alu(I64Add_Rs_rs { result: ACC, rhs: ACC }),
    ]));
    assert!(pair(&mp, MINI_I64_BITCOUNT_S, 0));
    assert!(pair(&mp, MINI_I64_BITCOUNT_S, 1));
    assert!(pair(&mp, MINI_I64_BITCOUNT_S, 2));
}

/// Divisions and remainders of i32 slots.
#[test]
fn i32_divrem_is_eligible() {
    let mp = lower(&i32_loop(vec![
        div(DivideOp::I32Div(DivideForm::Rss { lhs: I, rhs: T })),
        alu(I32Add_Rs_rs { result: ACC, rhs: ACC }),
        div(DivideOp::U32Div(DivideForm::Rss { lhs: I, rhs: T })),
        alu(I32Add_Rs_rs { result: ACC, rhs: ACC }),
        div(DivideOp::I32Rem(DivideForm::Rss { lhs: I, rhs: T })),
        alu(I32Add_Rs_rs { result: ACC, rhs: ACC }),
        div(DivideOp::U32Rem(DivideForm::Rss { lhs: I, rhs: T })),
        alu(I32Add_Rs_rs { result: ACC, rhs: ACC }),
    ]));
    assert!(mp.words.contains(&MINI_I32_DIV_S));
    assert!(mp.words.contains(&MINI_I32_DIV_U));
    assert!(mp.words.contains(&MINI_I32_REM_S));
    assert!(mp.words.contains(&MINI_I32_REM_U));
}

/// Divisions and remainders of i64 slots.
#[test]
fn i64_divrem_is_eligible() {
    let mp = lower(&i64_loop(vec![
        div(DivideOp::I64Div(DivideForm::Rss { lhs: I, rhs: T })),
        alu(I64Add_Rs_rs { result: ACC, rhs: ACC }),
        div(DivideOp::U64Div(DivideForm::Rss { lhs: I, rhs: T })),
        alu(I64Add_Rs_rs { result: ACC, rhs: ACC }),
        div(DivideOp::I64Rem(DivideForm::Rss { lhs: I, rhs: T })),
        alu(I64Add_Rs_rs { result: ACC, rhs: ACC }),
        div(DivideOp::U64Rem(DivideForm::Rss { lhs: I, rhs: T })),
        alu(I64Add_Rs_rs { result: ACC, rhs: ACC }),
    ]));
    assert!(mp.words.contains(&MINI_I64_DIV_S));
    assert!(mp.words.contains(&MINI_I64_DIV_U));
    assert!(mp.words.contains(&MINI_I64_REM_S));
    assert!(mp.words.contains(&MINI_I64_REM_U));
}

/// Divisions by constants, and of a constant.
#[test]
fn divrem_immediate_is_eligible() {
    let mp = lower(&i32_loop(vec![
        div(DivideOp::I32Div(DivideForm::Rsi { lhs: I, rhs: 3 })),
        alu(I32Add_Rs_rs { result: ACC, rhs: ACC }),
        div(DivideOp::U32Rem(DivideForm::Rsi { lhs: I, rhs: 7 })),
        alu(I32Add_Rs_rs { result: ACC, rhs: ACC }),
        div(DivideOp::I32Div(DivideForm::Ris { lhs: 1000, rhs: N })),
        alu(I32Add_Rs_rs { result: ACC, rhs: ACC }),
    ]));
    assert!(mp.words.contains(&MINI_I32_DIV_S));
    assert!(mp.words.contains(&MINI_I32_REM_U));
    assert!(mp.words.contains(&MINI_COPY_SI));
}

/// Sums with constants that are no results of their own.
#[test]
fn add_immediate_value_is_eligible() {
    let mp = lower(&i32_loop(vec![
        alu(I32Add_Rsi { lhs: I, rhs: 3 }),
        alu(I32Mul_Rrs { rhs: I }),
        bits(I64Sext32_Rr),
        alu(I64Add_Rs_rs { result: ACC, rhs: ACC }),
        alu(I32Mul_Rss { lhs: I, rhs: I }),
        alu(I32Add_Rri { rhs: 5 }),
        bits(I64Sext32_Rr),
        alu(I64Add_Rs_rs { result: ACC, rhs: ACC }),
        alu(I64Add_Rsi { lhs: B, rhs: 7 }),
        alu(I64Mul_Rrs { rhs: B }),
        alu(I64Add_Rs_rs { result: ACC, rhs: ACC }),
        alu(I64Mul_Rss { lhs: B, rhs: B }),
        alu(I64Add_Rri { rhs: 11 }),
        alu(I64Add_Rs_rs { result: ACC, rhs: ACC }),
        alu(I64Add_Rs_si { result: B, lhs: B, rhs: 1 }),
    ]));
    assert!(mp.words.contains(&MINI_I32_ADD_SS_WB));
    assert!(mp.words.contains(&MINI_I64_ADD_SS_WB));
}

/// Differences in all operand forms.
#[test]
fn sub_value_forms_are_eligible() {
    let mp = lower(&i32_loop(vec![
        alu(I32Sub_Rss { lhs: N, rhs: I }),
        bits(I64Sext32_Rr),
        alu(I64Add_Rs_rs { result: ACC, rhs: ACC }),
        alu(I32Mul_Rss { lhs: I, rhs: I }),
        alu(I32Sub_Rsr { lhs: I }),
        bits(I64Sext32_Rr),
        alu(I64Add_Rs_rs { result: ACC, rhs: ACC }),
        alu(I32Sub_Ris { lhs: 1000, rhs: I }),
        bits(I64Sext32_Rr),
        alu(I64Add_Rs_rs { result: ACC, rhs: ACC }),
        alu(I32Mul_Rss { lhs: I, rhs: I }),
        alu(I32Sub_Rir { lhs: 500 }),
        bits(I64Sext32_Rr),
        alu(I64Add_Rs_rs { result: ACC, rhs: ACC }),
        alu(I64Mul_Rss { lhs: B, rhs: B }),
        alu(I64Sub_Rrs { rhs: B }),
        alu(I64Add_Rs_rs { result: ACC, rhs: ACC }),
        alu(I64Sub_Ris { lhs: 900, rhs: B }),
        alu(I64Add_Rs_rs { result: ACC, rhs: ACC }),
        alu(I64Add_Rs_si { result: B, lhs: B, rhs: 1 }),
    ]));
    assert!(mp.words.contains(&MINI_I32_SUB_SS_WR));
    assert!(mp.words.contains(&MINI_I64_SUB_SS_WR));
}

/// A product of an i64 slot and a constant.
#[test]
fn i64_mul_immediate_is_eligible() {
    let mp = lower(&i64_loop(vec![
        alu(I64Mul_Rsi { lhs: I, rhs: 1_000_003 }),
        alu(I64Add_Rs_rs { result: ACC, rhs: ACC }),
    ]));
    assert!(mp.words.contains(&MINI_I64_MUL_SS_WR));
}

/// The four f64 operations with constants.
#[test]
fn f64_const_arith_is_eligible() {
    let mp = lower(&i32_loop(vec![
        alu(I32Mul_Rsi { lhs: I, rhs: 8 }),
        alu(I32Add_Rrs { rhs: PTR }),
        load(MemLoad::F64),
        Op::F64(FloatOp::Mul_Rri { bits: 2f64.to_bits() }),
        Op::F64(FloatOp::Sub_Rri { bits: 1f64.to_bits() }),
        Op::F64(FloatOp::Div_Rri { bits: 4f64.to_bits() }),
        Op::F64(FloatOp::Add_Rri { bits: 0.5f64.to_bits() }),
        Op::F64(FloatOp::Add_Rsr { lhs: ACC }),
        copy(F64Copy_Sr { result: ACC }),
    ]));
    assert!(pair(&mp, MINI_F64_ARITH_RS, 2));
    assert!(pair(&mp, MINI_F64_ARITH_RS, 1));
    assert!(pair(&mp, MINI_F64_ARITH_RS, 3));
    assert!(pair(&mp, MINI_F64_ARITH_RS, 0));
}

/// Counts of f64 comparisons.
#[test]
fn f64_compare_value_is_eligible() {
    let lt = lower(&i32_loop(vec![
        alu(I32Mul_Rsi { lhs: I, rhs: 8 }),
        alu(I32Add_Rrs { rhs: PTR }),
        load(MemLoad::F64),
        Op::F64(FloatOp::Lt_Rrs { rhs: T }),
        alu(I32Add_Rs_rs { result: ACC, rhs: ACC }),
    ]));
    assert!(pair(&lt, MINI_F64_CMP_RS_R, 0));
    let le = lower(&i32_loop(vec![
        alu(I32Mul_Rsi { lhs: I, rhs: 8 }),
        alu(I32Add_Rrs { rhs: PTR }),
        load(MemLoad::F64),
        Op::F64(FloatOp::Le_Rrs { rhs: T }),
        alu(I32Add_Rs_rs { result: ACC, rhs: ACC }),
    ]));
    assert!(pair(&le, MINI_F64_CMP_RS_R, 1));
    let eq = lower(&i32_loop(vec![
        alu(I32Mul_Rsi { lhs: I, rhs: 8 }),
        alu(I32Add_Rrs { rhs: PTR }),
        load(MemLoad::F64),
        Op::F64(FloatOp::Eq_Rrs { rhs: T }),
        alu(I32Add_Rs_rs { result: ACC, rhs: ACC }),
    ]));
    assert!(pair(&eq, MINI_F64_CMP_RS_R, 2));
    let ne = lower(&i32_loop(vec![
        alu(I32Mul_Rsi { lhs: I, rhs: 8 }),
        alu(I32Add_Rrs { rhs: PTR }),
        load(MemLoad::F64),
        Op::F64(FloatOp::NotEq_Rrs { rhs: T }),
        alu(I32Add_Rs_rs { result: ACC, rhs: ACC }),
    ]));
    assert!(pair(&ne, MINI_F64_CMP_RS_R, 3));
}

/// f64 elements scaled into another array.
#[test]
fn f64_store_is_eligible() {
    let mp = lower(&i32_loop(vec![
        alu(I32Mul_Rsi { lhs: I, rhs: 8 }),
        alu(I32Add_Rrs { rhs: PTR }),
        copy(U64Copy_Sr { result: B }),
        alu(I32Mul_Rsi { lhs: I, rhs: 8 }),
        alu(I32Add_Rrs { rhs: PTR }),
        load(MemLoad::F64),
        Op::F64(FloatOp::Mul_Rrs { rhs: T }),
        mem(MemoryOp::F64StoreMem0Offset16_Sr { ptr: B, offset: 0 }),
    ]));
    assert!(mp.words.contains(&MINI_F64_LOAD_MEM0_OFF));
    assert!(mp.words.contains(&MINI_F64_STORE_SR));
}

/// Differences, products and quotients of f64 values.
#[test]
fn f64_arith_is_eligible() {
    let mp = lower(&i32_loop(vec![
        alu(I32Mul_Rsi { lhs: I, rhs: 8 }),
        alu(I32Add_Rrs { rhs: PTR }),
        load(MemLoad::F64),
        Op::F64(FloatOp::Sub_Rrs { rhs: T }),
        Op::F64(FloatOp::Mul_Rrs { rhs: T }),
        Op::F64(FloatOp::Div_Rrs { rhs: T }),
        Op::F64(FloatOp::Add_Rsr { lhs: ACC }),
        copy(F64Copy_Sr { result: ACC }),
    ]));
    assert!(pair(&mp, MINI_F64_ARITH_RS, 1));
    assert!(pair(&mp, MINI_F64_ARITH_RS, 2));
    assert!(pair(&mp, MINI_F64_ARITH_RS, 3));
}

/// Counts of f32 comparisons.
#[test]
fn f32_compare_value_is_eligible() {
    let lt = lower(&i32_loop(vec![
        alu(I32Mul_Rsi { lhs: I, rhs: 4 }),
        alu(I32Add_Rrs { rhs: PTR }),
        load(MemLoad::F32),
        Op::F32(FloatOp::Lt_Rrs { rhs: T }),
        alu(I32Add_Rs_rs { result: ACC, rhs: ACC }),
    ]));
    assert!(pair(&lt, MINI_F32_CMP_RS_R, 0));
    let le = lower(&i32_loop(vec![
        alu(I32Mul_Rsi { lhs: I, rhs: 4 }),
        alu(I32Add_Rrs { rhs: PTR }),
        load(MemLoad::F32),
        Op::F32(FloatOp::Le_Rrs { rhs: T }),
        alu(I32Add_Rs_rs { result: ACC, rhs: ACC }),
    ]));
    assert!(pair(&le, MINI_F32_CMP_RS_R, 1));
    let eq = lower(&i32_loop(vec![
        alu(I32Mul_Rsi { lhs: I, rhs: 4 }),
        alu(I32Add_Rrs { rhs: PTR }),
        load(MemLoad::F32),
        Op::F32(FloatOp::Eq_Rrs { rhs: T }),
        alu(I32Add_Rs_rs { result: ACC, rhs: ACC }),
    ]));
    assert!(pair(&eq, MINI_F32_CMP_RS_R, 2));
    let ne = lower(&i32_loop(vec![
        alu(I32Mul_Rsi { lhs: I, rhs: 4 }),
        alu(I32Add_Rrs { rhs: PTR }),
        load(MemLoad::F32),
        Op::F32(FloatOp::NotEq_Rrs { rhs: T }),
        alu(I32Add_Rs_rs { result: ACC, rhs: ACC }),
    ]));
    assert!(pair(&ne, MINI_F32_CMP_RS_R, 3));
}

/// f32 elements scaled into another array.
#[test]
fn f32_store_is_eligible() {
    let mp = lower(&i32_loop(vec![
        alu(I32Mul_Rsi { lhs: I, rhs: 4 }),
        alu(I32Add_Rrs { rhs: PTR }),
        copy(U64Copy_Sr { result: B }),
        alu(I32Mul_Rsi { lhs: I, rhs: 4 }),
        alu(I32Add_Rrs { rhs: PTR }),
        load(MemLoad::F32),
        Op::F32(FloatOp::Mul_Rrs { rhs: T }),
        mem(MemoryOp::F32StoreMem0Offset16_Sr { ptr: B, offset: 0 }),
    ]));
    assert!(mp.words.contains(&MINI_F32_LOAD_MEM0_OFF));
    assert!(mp.words.contains(&MINI_F32_STORE_SR));
}

/// The four operations on f32 values.
#[test]
fn f32_arith_is_eligible() {
    let mp = lower(&i32_loop(vec![
        alu(I32Mul_Rsi { lhs: I, rhs: 4 }),
        alu(I32Add_Rrs { rhs: PTR }),
        load(MemLoad::F32),
        Op::F32(FloatOp::Sub_Rrs { rhs: T }),
        Op::F32(FloatOp::Mul_Rrs { rhs: T }),
        Op::F32(FloatOp::Div_Rrs { rhs: T }),
        Op::F32(FloatOp::Add_Rsr { lhs: ACC }),
        copy(F32Copy_Sr { result: ACC }),
    ]));
    assert!(mp.words.contains(&MINI_F32_ARITH_RS));
    for sel in 0..=3i64 {
        assert!(pair(&mp, MINI_F32_ARITH_RS, sel));
    }
}

/// Conversions of integers to f32, with a promotion and a demotion.
#[test]
fn f32_convert_is_eligible() {
    let mp = lower(&i32_loop(vec![
        conv(ConvertOp::Convert_Rs { to: FloatWidth::F32, from: IntKind::U64, value: T }),
        conv(ConvertOp::F64PromoteF32_Rr),
        conv(ConvertOp::F32DemoteF64_Rr),
        copy(F32Copy_Sr { result: 12 }),
        conv(ConvertOp::Convert_Rs { to: FloatWidth::F32, from: IntKind::I64, value: T }),
        Op::F32(FloatOp::Add_Rrs { rhs: 12 }),
        copy(F32Copy_Sr { result: 12 }),
        conv(ConvertOp::Convert_Rs { to: FloatWidth::F32, from: IntKind::U32, value: I }),
        Op::F32(FloatOp::Add_Rrs { rhs: 12 }),
        copy(F32Copy_Sr { result: 12 }),
        conv(ConvertOp::Convert_Rs { to: FloatWidth::F32, from: IntKind::I32, value: I }),
        Op::F32(FloatOp::Add_Rrs { rhs: 12 }),
        Op::F32(FloatOp::Add_Rsr { lhs: ACC }),
        copy(F32Copy_Sr { result: ACC }),
    ]));
    assert!(pair(&mp, MINI_F32_CVT_S, 0));
    assert!(pair(&mp, MINI_F32_CVT_S, 1));
    assert!(pair(&mp, MINI_F32_CVT_S, 2));
    assert!(pair(&mp, MINI_F32_CVT_S, 3));
    assert!(mp.words.contains(&MINI_F64_PROMOTE_S));
    assert!(mp.words.contains(&MINI_F32_DEMOTE_S));
}

/// The bits of f32 values as integers and back.
#[test]
fn f32_reinterpret_is_eligible() {
    let mp = lower(&i32_loop(vec![
        alu(I32Mul_Rsi { lhs: I, rhs: 4 }),
        alu(I32Add_Rrs { rhs: PTR }),
        load(MemLoad::F32),
        copy(F32Copy_Sr { result: B }),
        conv(ConvertOp::I32ReinterpretF32_Rr),
        copy(U64Copy_Sr { result: C }),
        conv(ConvertOp::F32ReinterpretI32_Rr),
        Op::F32(FloatOp::Add_Rsr { lhs: ACC }),
        copy(F32Copy_Sr { result: ACC }),
    ]));
    assert!(mp.words.contains(&MINI_I32_REINTERP_F32));
    assert!(mp.words.contains(&MINI_F32_REINTERP_I32));
}

/// Sums of truncations of loaded f32 values, saturating and trapping.
#[test]
fn f32_trunc_is_eligible() {
    let sat_i64s = lower(&i32_loop(vec![
        alu(I32Mul_Rsi { lhs: I, rhs: 4 }),
        alu(I32Add_Rrs { rhs: PTR }),
        load(MemLoad::F32),
        conv(ConvertOp::TruncSat_Rr { from: FloatWidth::F32, to: IntKind::I64 }),
        alu(I64Add_Rs_rs { result: ACC, rhs: ACC }),
    ]));
    assert!(pair(&sat_i64s, MINI_F32_TRUNC_SAT_S, 2));
    let sat_i64u = lower(&i32_loop(vec![
        alu(I32Mul_Rsi { lhs: I, rhs: 4 }),
        alu(I32Add_Rrs { rhs: PTR }),
        load(MemLoad::F32),
        conv(ConvertOp::TruncSat_Rr { from: FloatWidth::F32, to: IntKind::U64 }),
        alu(I64Add_Rs_rs { result: ACC, rhs: ACC }),
    ]));
    assert!(pair(&sat_i64u, MINI_F32_TRUNC_SAT_S, 3));
    let sat_i32s = lower(&i32_loop(vec![
        alu(I32Mul_Rsi { lhs: I, rhs: 4 }),
        alu(I32Add_Rrs { rhs: PTR }),
        load(MemLoad::F32),
        conv(ConvertOp::TruncSat_Rr { from: FloatWidth::F32, to: IntKind::I32 }),
        alu(I32Add_Rs_rs { result: ACC, rhs: ACC }),
    ]));
    assert!(pair(&sat_i32s, MINI_F32_TRUNC_SAT_S, 0));
    let sat_i32u = lower(&i32_loop(vec![
        alu(I32Mul_Rsi { lhs: I, rhs: 4 }),
        alu(I32Add_Rrs { rhs: PTR }),
        load(MemLoad::F32),
        conv(ConvertOp::TruncSat_Rr { from: FloatWidth::F32, to: IntKind::U32 }),
        alu(I32Add_Rs_rs { result: ACC, rhs: ACC }),
    ]));
    assert!(pair(&sat_i32u, MINI_F32_TRUNC_SAT_S, 1));
    let i64s = lower(&i32_loop(vec![
        alu(I32Mul_Rsi { lhs: I, rhs: 4 }),
        alu(I32Add_Rrs { rhs: PTR }),
        load(MemLoad::F32),
        conv(ConvertOp::Trunc_Rr { from: FloatWidth::F32, to: IntKind::I64 }),
        alu(I64Add_Rs_rs { result: ACC, rhs: ACC }),
    ]));
    assert!(pair(&i64s, MINI_F32_TRUNC_S, 2));
    let i32u = lower(&i32_loop(vec![
        alu(I32Mul_Rsi { lhs: I, rhs: 4 }),
        alu(I32Add_Rrs { rhs: PTR }),
        load(MemLoad::F32),
        conv(ConvertOp::Trunc_Rr { from: FloatWidth::F32, to: IntKind::U32 }),
        alu(I32Add_Rs_rs { result: ACC, rhs: ACC }),
    ]));
    assert!(pair(&i32u, MINI_F32_TRUNC_S, 1));
}

/// Reads and writes of globals.
#[test]
fn globals_are_eligible() {
    let mp = lower(&i32_loop(vec![
        glob(GlobalGetU64_R { global: 0 }),
        copy(U64Copy_Sr { result: B }),
        bits(I64Sext32_Rs { value: I }),
        alu(I64Add_Rrs { rhs: B }),
        glob(GlobalSetU64_R { global: 0 }),
    ]));
    assert!(mp.uses_globals);
    assert!(mp.words.contains(&MINI_GLOBAL_GET_R));
    assert!(mp.words.contains(&MINI_GLOBAL_SET_S));

    let no_global = lower(&straight(vec![ctl(ControlOp::Return)]));
    assert!(!no_global.uses_globals);

    let imm = lower(&i64_loop(vec![glob(GlobalSetU64_I { global: 0, value: 7 })]));
    assert!(imm.uses_globals && imm.words.contains(&MINI_GLOBAL_SET_S));

    let f64m = lower(&i32_loop(vec![
        conv(ConvertOp::Convert_Rs { to: FloatWidth::F64, from: IntKind::I32, value: I }),
        copy(F64Copy_Sr { result: B }),
        glob(GlobalGetF64_R { global: 0 }),
        Op::F64(FloatOp::Add_Rrs { rhs: B }),
        glob(GlobalSetF64_R { global: 0 }),
    ]));
    assert!(
        f64m.words.contains(&MINI_GLOBAL_GET_F64) && f64m.words.contains(&MINI_GLOBAL_SET_S)
    );

    let f32m = lower(&i32_loop(vec![
        conv(ConvertOp::Convert_Rs { to: FloatWidth::F32, from: IntKind::I32, value: I }),
        copy(F32Copy_Sr { result: B }),
        glob(GlobalGetF32_R { global: 0 }),
        Op::F32(FloatOp::Add_Rrs { rhs: B }),
        glob(GlobalSetF32_R { global: 0 }),
    ]));
    assert!(
        f32m.words.contains(&MINI_GLOBAL_GET_F32) && f32m.words.contains(&MINI_GLOBAL_SET_S)
    );
}

/// Counts by signed `<=` and unsigned `<` and `<=`.
#[test]
fn le_and_unsigned_value_is_eligible() {
    let les = lower(&i32_loop(vec![
        alu(I32Mul_Rsi { lhs: I, rhs: 4 }),
        alu(I32Add_Rrs { rhs: PTR }),
        load(MemLoad::U32),
        cmp(I32Le_Rrs { rhs: T }),
        alu(I32Add_Rs_rs { result: ACC, rhs: ACC }),
    ]));
    assert!(les.words.contains(&MINI_I32_LE_RS_R));
    let ltu = lower(&i32_loop(vec![
        alu(I32Mul_Rsi { lhs: I, rhs: 4 }),
        alu(I32Add_Rrs { rhs: PTR }),
        load(MemLoad::U32),
        cmp(U32Lt_Rrs { rhs: T }),
        alu(I32Add_Rs_rs { result: ACC, rhs: ACC }),
    ]));
    assert!(ltu.words.contains(&MINI_U32_LT_RS_R));
    let leu = lower(&i32_loop(vec![
        alu(I32Mul_Rsi { lhs: I, rhs: 4 }),
        alu(I32Add_Rrs { rhs: PTR }),
        load(MemLoad::U32),
        cmp(U32Le_Rrs { rhs: T }),
        alu(I32Add_Rs_rs { result: ACC, rhs: ACC }),
    ]));
    assert!(leu.words.contains(&MINI_U32_LE_RS_R));
}

/// A chain of xor, and, or and difference behind a signed loop guard.
#[test]
fn i32_bitwise_is_eligible() {
    let mp = lower(&i32_loop(vec![
        alu(I32BitXor_Rss { lhs: ACC, rhs: I }),
        alu(I32BitAnd_Rrs { rhs: N }),
        alu(I32BitOr_Rrs { rhs: I }),
        alu(I32Sub_Rrs { rhs: I }),
        copy(U64Copy_Sr { result: ACC }),
    ]));
    for (ss, rs) in [
        (MINI_I32_XOR_SS_WR, MINI_I32_XOR_RS_WR),
        (MINI_I32_AND_SS_WR, MINI_I32_AND_RS_WR),
        (MINI_I32_OR_SS_WR, MINI_I32_OR_RS_WR),
        (MINI_I32_SUB_SS_WR, MINI_I32_SUB_RS_WR),
    ] {
        assert!(mp.words.contains(&ss) || mp.words.contains(&rs), "must lower op {ss} or {rs}");
    }
    assert!(mp.words.contains(&MINI_BR_I32_LE_SS));
}

/// A sum of i32 elements as i64.
#[test]
fn i32_array_sum_is_eligible() {
    let mp = lower(&i32_loop(vec![
        alu(I32Mul_Rsi { lhs: I, rhs: 4 }),
        alu(I32Add_Rrs { rhs: PTR }),
        load(MemLoad::U32),
        bits(I64Sext32_Rr),
        alu(I64Add_Rs_rs { result: ACC, rhs: ACC }),
    ]));
    assert!(mp.words.contains(&MINI_I32_LOAD_MEM0_OFF));
    assert!(mp.words.contains(&MINI_I64_SEXT32));
}

/// A sum of i64 elements.
#[test]
fn array_sum_is_eligible() {
    let mp = lower(&i32_loop(vec![
        alu(I32Mul_Rsi { lhs: I, rhs: 8 }),
        alu(I32Add_Rrs { rhs: PTR }),
        load(MemLoad::U64),
        alu(I64Add_Rs_rs { result: ACC, rhs: ACC }),
    ]));
    assert!(mp.words.contains(&MINI_I64_LOAD_MEM0_OFF));
}

/// A running maximum by a forward branch.
#[test]
fn runningmax_is_eligible() {
    let mp = lower(&i64_loop(vec![
        br(BranchI64Le_Ss { offset: 16, lhs: I, rhs: ACC }),
        copy(U64Copy_Ss { result: ACC, value: I }),
    ]));
    let le_ss = mp.words.iter().filter(|&&w| w == MINI_BR_I64_LE_SS).count();
    assert!(le_ss >= 2);
}

/// A sum of i64 differences.
#[test]
fn sub_accum_is_eligible() {
    let mp = lower(&i64_loop(vec![
        alu(I64Sub_Rss { lhs: B, rhs: I }),
        alu(I64Add_Rs_rs { result: ACC, rhs: ACC }),
    ]));
    assert!(mp.words.contains(&MINI_I64_SUB_SS_WR));
}

/// An accumulation by i64 or.
#[test]
fn or_accum_is_eligible() {
    let mp = lower(&i64_loop(vec![
        alu(I64BitOr_Rss { lhs: ACC, rhs: I }),
        copy(U64Copy_Sr { result: ACC }),
    ]));
    assert!(mp.words.contains(&MINI_I64_OR_SS_WR));
    assert!(mp.words.contains(&MINI_COPY_SI));
}

/// A loop guard by equality.
#[test]
fn eq_guard_is_eligible() {
    let mp = lower(&straight(vec![
        br(BranchI64Eq_Ss { offset: 32, lhs: I, rhs: N }),
        alu(I64Add_Rs_si { result: ACC, lhs: ACC, rhs: 1 }),
        alu(I64Add_Rs_si { result: I, lhs: I, rhs: 1 }),
        br(Branch { offset: -24 }),
        copy(U64Copy_Ss { result: 0, value: ACC }),
        ctl(ControlOp::Return),
    ]));
    assert!(mp.words.contains(&MINI_BR_I64_EQ_SS));
}

/// The greatest common divisor by subtraction.
#[test]
fn gcd_is_eligible() {
    let mp = lower(&straight(vec![
        br(BranchI64Eq_Ss { offset: 64, lhs: 0, rhs: B }),
        br(BranchI64Le_Ss { offset: 32, lhs: 0, rhs: B }),
        alu(I64Sub_Rss { lhs: 0, rhs: B }),
        copy(U64Copy_Sr { result: 0 }),
        br(Branch { offset: 24 }),
        alu(I64Sub_Rss { lhs: B, rhs: 0 }),
        copy(U64Copy_Sr { result: B }),
        br(Branch { offset: -56 }),
        ctl(ControlOp::Return),
    ]));
    let branches = mp.words.iter().filter(|&&w| w == MINI_BR_ALWAYS).count();
    assert!(branches >= 2);
}

/// A count of i64 values above a constant.
#[test]
fn i64_cmp_value_is_eligible() {
    let mp = lower(&i64_loop(vec![
        cmp(I64Lt_Ris { lhs: 10, rhs: I }),
        alu(I32Add_Rs_rs { result: ACC, rhs: ACC }),
    ]));
    assert!(mp.words.contains(&MINI_I64_LT_IS_R));
}

/// A count of i32 values below a constant.
#[test]
fn cmp_value_is_eligible() {
    let mp = lower(&i32_loop(vec![
        cmp(I32Lt_Rsi { lhs: I, rhs: 100 }),
        alu(I32Add_Rs_rs { result: ACC, rhs: ACC }),
    ]));
    assert!(mp.words.contains(&MINI_I32_LT_SI_R));
}

/// A sum of i64 left shifts.
#[test]
fn shl_is_eligible() {
    let mp = lower(&i64_loop(vec![
        bits(I64Shl_Rsi { lhs: I, rhs: 2 }),
        alu(I64Add_Rs_rs { result: ACC, rhs: ACC }),
    ]));
    assert!(mp.words.contains(&MINI_I64_SHL_SI));
}

/// A sum of i32 shifts to the left and to the right.
#[test]
fn i32_shift_is_eligible() {
    let mp = lower(&i32_loop(vec![
        bits(I32Shl_Rsi { lhs: I, rhs: 3 }),
        bits(U32Shr_Rri { rhs: 1 }),
        alu(I32Add_Rs_rs { result: ACC, rhs: ACC }),
    ]));
    assert!(mp.words.contains(&MINI_I32_SHL_SI));
    assert!(mp.words.contains(&MINI_U32_SHR_RI));
}

/// A factorial.
#[test]
fn factorial_is_eligible() {
    let mp = lower(&straight(vec![
        copy(U64Copy_Si { result: ACC, value: 1 }),
        br(BranchI64Eq_Si { offset: 40, lhs: N, rhs: 0 }),
        alu(I64Mul_Rss { lhs: ACC, rhs: N }),
        copy(U64Copy_Sr { result: ACC }),
        alu(I64Add_Rs_si { result: N, lhs: N, rhs: -1 }),
        br(BranchI64NotEq_Ri { offset: -24, rhs: 0 }),
        copy(U64Copy_Ss { result: 0, value: ACC }),
        ctl(ControlOp::Return),
    ]));
    assert!(mp.words.contains(&MINI_I64_MUL_SS_WR));
}

/// A sum of squares behind an unsigned loop guard.
#[test]
fn i32_sumsq_is_eligible() {
    let mp = lower(&straight(vec![
        br(BranchU32Le_Ss { offset: 40, lhs: N, rhs: I }),
        alu(I32Mul_Rss { lhs: I, rhs: I }),
        alu(I32Add_Rs_rs { result: ACC, rhs: ACC }),
        alu(I32Add_Rs_si { result: I, lhs: I, rhs: 1 }),
        br(Branch { offset: -32 }),
        copy(U64Copy_Ss { result: 0, value: ACC }),
        ctl(ControlOp::Return),
    ]));
    assert!(mp.words.contains(&MINI_I32_MUL_SS_WR));
    assert!(mp.words.contains(&MINI_BR_U32_LE_SS));
    assert!(mp.words.contains(&MINI_BR_ALWAYS));
    assert_eq!(mp.loop_header_word, Some(0));
}

/// A loop with its test at the bottom.
#[test]
fn bottom_tested_is_eligible() {
    let mp = lower(&straight(vec![
        copy(U64Copy_Ss { result: I, value: N }),
        br(BranchI64Le_Si { offset: 32, lhs: I, rhs: 0 }),
        alu(I64Add_Rs_ss { result: ACC, lhs: ACC, rhs: I }),
        alu(I64Add_Rs_si { result: I, lhs: I, rhs: -1 }),
        br(BranchI64Lt_Ir { offset: -16, lhs: 0 }),
        copy(U64Copy_Ss { result: 0, value: ACC }),
        ctl(ControlOp::Return),
    ]));
    assert!(mp.words.contains(&MINI_BR_I64_LT_IR));
}

/// A sum behind a signed i32 guard.
#[test]
fn i32_signed_is_eligible() {
    let mp = lower(&straight(vec![
        copy(U64Copy_Ss { result: I, value: N }),
        br(BranchI32Lt_Si { offset: 32, lhs: I, rhs: 1 }),
        alu(I32Add_Rs_ss { result: ACC, lhs: ACC, rhs: I }),
        alu(I32Add_Rs_si { result: I, lhs: I, rhs: -1 }),
        br(Branch { offset: -24 }),
        copy(U64Copy_Ss { result: 0, value: ACC }),
        ctl(ControlOp::Return),
    ]));
    assert!(mp.words.contains(&MINI_BR_I32_LT_SI));
    assert!(mp.words.contains(&MINI_I32_ADD_SS_WB));
}

/// A countdown behind a signed i64 guard.
#[test]
fn countdown_is_eligible() {
    let mp = lower(&straight(vec![
        copy(U64Copy_Ss { result: I, value: N }),
        br(BranchI64Le_Si { offset: 32, lhs: I, rhs: 0 }),
        alu(I64Add_Rs_ss { result: ACC, lhs: ACC, rhs: I }),
        alu(I64Add_Rs_si { result: I, lhs: I, rhs: -1 }),
        br(Branch { offset: -24 }),
        copy(U64Copy_Ss { result: 0, value: ACC }),
        ctl(ControlOp::Return),
    ]));
    assert!(mp.words.contains(&MINI_BR_I64_LE_SI));
    assert!(mp.words.contains(&MINI_I64_ADD_SS_WB));
}

/// A count of ones.
#[test]
fn popcount_is_eligible() {
    let mp = lower(&straight(vec![
        br(BranchI64Eq_Si { offset: 48, lhs: 0, rhs: 0 }),
        alu(I64BitAnd_Rsi { lhs: 0, rhs: 1 }),
        alu(I64Add_Rs_rs { result: ACC, rhs: ACC }),
        bits(U64Shr_Rsi { lhs: 0, rhs: 1 }),
        copy(U64Copy_Sr { result: 0 }),
        br(Branch { offset: -40 }),
        copy(U64Copy_Ss { result: 0, value: ACC }),
        ctl(ControlOp::Return),
    ]));
    assert!(mp.words.contains(&MINI_I64_AND_SI_WR));
    assert!(mp.words.contains(&MINI_U64_SHR_SI));
}

/// A mix of xor and and behind a signed loop guard.
#[test]
fn mix_is_eligible() {
    let mp = lower(&i64_loop(vec![
        alu(I64BitXor_Rss { lhs: ACC, rhs: I }),
        alu(I64BitAnd_Rri { rhs: 1023 }),
        copy(U64Copy_Sr { result: ACC }),
    ]));
    assert!(mp.words.contains(&MINI_I64_XOR_SS_WR));
    assert!(mp.words.contains(&MINI_I64_AND_RI_WR));
    assert!(mp.words.contains(&MINI_BR_I64_LE_SS));
}

/// The operations of an iterative Fibonacci function lie in the observed subset.
#[test]
fn observe_fibonacci_iter_ops() {
    let stream = straight(vec![
        copy(U64Copy_Si { result: 1, value: 0 }),
        copy(U64Copy_Si { result: 2, value: 1 }),
        copy(U64Copy_Ss { result: 3, value: 0 }),
        br(BranchI64Eq_Si { offset: 56, lhs: 3, rhs: 0 }),
        alu(I64Add_Rss { lhs: 1, rhs: 2 }),
        copy(U64Copy_Ss { result: 1, value: 2 }),
        copy(U64Copy_Sr { result: 2 }),
        alu(I64Add_Rs_si { result: 3, lhs: 3, rhs: -1 }),
        br(BranchI64NotEq_Ri { offset: -32, rhs: 0 }),
        copy(U64Copy_Ss { result: 0, value: 1 }),
        ctl(ControlOp::Return),
    ]);
    let seen = disasm_observe(&stream);
    assert!(seen.stop.is_none());
    assert_eq!(seen.known.len(), 11);
    for (index, op) in seen.known.iter().enumerate() {
        assert_eq!(op.pos, index * SIZE);
    }
}

/// The operations of a countdown lie in the observed subset.
#[test]
fn observe_count_via_locals_ops() {
    let stream = straight(vec![
        alu(I32Add_Rs_si { result: 0, lhs: 0, rhs: -1 }),
        br(BranchI32NotEq_Ri { offset: -8, rhs: 0 }),
        copy(U64Copy_Sr { result: 0 }),
        ctl(ControlOp::Return),
    ]);
    let seen = disasm_observe(&stream);
    assert!(seen.stop.is_none());
    assert_eq!(seen.known.len(), 4);
}

/// The words of a countdown in one slot.
#[test]
fn prepass_count_via_locals_is_wellformed() {
    let stream = straight(vec![
        alu(I32Add_Rs_si { result: 0, lhs: 0, rhs: -1 }),
        br(BranchI32NotEq_Ri { offset: -8, rhs: 0 }),
        copy(U64Copy_Sr { result: 0 }),
        ctl(ControlOp::Return),
    ]);
    // One local and four stack slots.
    let mp = prepass(&stream, 1, 4).expect("function is JIT-eligible");
    assert_eq!(
        mp.words,
        vec![
            MINI_I32_ADD_SI_WB,
            0,  // dst slot ($n)
            0,  // lhs slot ($n)
            -1, // imm (x - 1 == x + (-1))
            MINI_BR_I32_NE_RI,
            0, // target word -> loop header
            0, // imm (compare against 0)
            MINI_COPY_SR,
            0, // dst slot 0 <- accumulator
            MINI_RETURN_S,
            0, // return slots[0]
        ],
        "lowered MiniProgram word stream mismatch",
    );
    assert_eq!(mp.loop_header_word, Some(0));
    let header = mp.loop_header_word.unwrap();
    assert_eq!(mp.words[header], MINI_I32_ADD_SI_WB);
    assert_eq!(mp.words[5], header as i64);
    // Only slot 0 is referenced: the other slots of the frame have no cells.
    assert_eq!(mp.num_slots, 1);
    assert_eq!(*mp.words.last().unwrap(), 0);
    assert_eq!(mp.words[mp.words.len() - 2], MINI_RETURN_S);
}

/// A function with an operation outside of the subset is rejected.
#[test]
fn prepass_rejects_unsupported_ops() {
    // `memory.grow` has no instruction in the kernel.
    let stream = straight(vec![Op::Other(MEMORY_GROW), ctl(ControlOp::Return)]);
    assert!(prepass(&stream, 1, 4).is_none());
}
