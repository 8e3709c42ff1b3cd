//! The words of every operation, alone in a function.

use wasmi_majit::action::{BitCount, FloatUnary, FloatWidth, IntKind, IntWidth};
use wasmi_majit::ops::bits::BitsOp;
use wasmi_majit::ops::branch::BranchOp;
use wasmi_majit::ops::compare::CompareOp;
use wasmi_majit::ops::control::ControlOp;
use wasmi_majit::ops::convert::ConvertOp;
use wasmi_majit::ops::copy::CopyOp;
use wasmi_majit::ops::divide::{DivideForm, DivideOp};
use wasmi_majit::ops::float::{F64NotLe_Rss, FloatOp};
use wasmi_majit::ops::global::GlobalOp;
use wasmi_majit::ops::integer::IntOp;
use wasmi_majit::ops::memory::{MemLoad, MemStore, MemoryOp, StoreImm};
use wasmi_majit::ops::select::SelectOp;
use wasmi_majit::ops::Op;
use wasmi_majit::prepass::prepass;
use wasmi_majit::stream::OpStream;

/// Lowers a function of one operation and compares its words and its slots. A frame slot is
/// numbered by its place among the slots; scratch slots follow.
fn case(op: Op, words: &[i64], slots: &[u16]) {
    let mut stream = OpStream::new();
    assert!(stream.push(op, 4));
    let mp = prepass(&stream, 1, 1).expect("function is JIT-eligible");
    assert_eq!(mp.words, words, "{op:?}");
    assert_eq!(mp.slot_map, slots, "{op:?}");
    assert_eq!(mp.num_slots, slots.len());
}

/// Copies.
#[test]
fn words_of_copies() {
    case(
        Op::Copy(CopyOp::U64Copy_Si { result: 11, value: 0x8000_0000_0000_0005 }),
        &[4, 0, -9223372036854775803],
        &[11],
    );
    case(Op::Copy(CopyOp::U64Copy_Ss { result: 11, value: 9 }), &[5, 1, 0], &[9, 11]);
    case(Op::Copy(CopyOp::U64Copy_Sr { result: 0 }), &[6, 0], &[0]);
    case(Op::Copy(CopyOp::U64Copy_Sr { result: 1 }), &[6, 0], &[1]);
    case(Op::Copy(CopyOp::U64Copy_Sr { result: 2 }), &[6, 0], &[2]);
    case(Op::Copy(CopyOp::U64Copy_Sr { result: 3 }), &[6, 0], &[3]);
    case(Op::Copy(CopyOp::U64Copy_Sr { result: 4 }), &[6, 0], &[4]);
    case(Op::Copy(CopyOp::U64Copy_Sr { result: 5 }), &[6, 0], &[5]);
    case(Op::Copy(CopyOp::U64Copy_Sr { result: 6 }), &[6, 0], &[6]);
    case(Op::Copy(CopyOp::U64Copy_Sr { result: 7 }), &[6, 0], &[7]);
    case(Op::Copy(CopyOp::U64Copy_Sr { result: 8 }), &[6, 0], &[8]);
    case(Op::Copy(CopyOp::U64Copy_Sr { result: 9 }), &[6, 0], &[9]);
    case(Op::Copy(CopyOp::U64Copy_SNsM { result: 0, value: 1 }), &[5, 0, 1], &[0, 1]);
    case(Op::Copy(CopyOp::U64Copy_SNsM { result: 0, value: 2 }), &[5, 0, 1], &[0, 2]);
    case(Op::Copy(CopyOp::U64Copy_SNsM { result: 0, value: 3 }), &[5, 0, 1], &[0, 3]);
    case(Op::Copy(CopyOp::U64Copy_SNsM { result: 0, value: 4 }), &[5, 0, 1], &[0, 4]);
    case(Op::Copy(CopyOp::U64Copy_SNsM { result: 0, value: 5 }), &[5, 0, 1], &[0, 5]);
    case(Op::Copy(CopyOp::U64Copy_SNsM { result: 1, value: 0 }), &[5, 1, 0], &[0, 1]);
    case(Op::Copy(CopyOp::U64Copy_SNsM { result: 1, value: 2 }), &[5, 0, 1], &[1, 2]);
    case(Op::Copy(CopyOp::U64Copy_SNsM { result: 1, value: 3 }), &[5, 0, 1], &[1, 3]);
    case(Op::Copy(CopyOp::U64Copy_SNsM { result: 1, value: 4 }), &[5, 0, 1], &[1, 4]);
    case(Op::Copy(CopyOp::U64Copy_SNsM { result: 1, value: 5 }), &[5, 0, 1], &[1, 5]);
    case(Op::Copy(CopyOp::U64Copy_SNsM { result: 2, value: 0 }), &[5, 1, 0], &[0, 2]);
    case(Op::Copy(CopyOp::U64Copy_SNsM { result: 2, value: 1 }), &[5, 1, 0], &[1, 2]);
    case(Op::Copy(CopyOp::U64Copy_SNsM { result: 2, value: 3 }), &[5, 0, 1], &[2, 3]);
    case(Op::Copy(CopyOp::U64Copy_SNsM { result: 2, value: 4 }), &[5, 0, 1], &[2, 4]);
    case(Op::Copy(CopyOp::U64Copy_SNsM { result: 2, value: 5 }), &[5, 0, 1], &[2, 5]);
    case(Op::Copy(CopyOp::U64Copy_SNsM { result: 3, value: 0 }), &[5, 1, 0], &[0, 3]);
    case(Op::Copy(CopyOp::U64Copy_SNsM { result: 3, value: 1 }), &[5, 1, 0], &[1, 3]);
    case(Op::Copy(CopyOp::U64Copy_SNsM { result: 3, value: 2 }), &[5, 1, 0], &[2, 3]);
    case(Op::Copy(CopyOp::U64Copy_SNsM { result: 3, value: 4 }), &[5, 0, 1], &[3, 4]);
    case(Op::Copy(CopyOp::U64Copy_SNsM { result: 3, value: 5 }), &[5, 0, 1], &[3, 5]);
    case(Op::Copy(CopyOp::U64Copy_SNsM { result: 4, value: 0 }), &[5, 1, 0], &[0, 4]);
    case(Op::Copy(CopyOp::U64Copy_SNsM { result: 4, value: 1 }), &[5, 1, 0], &[1, 4]);
    case(Op::Copy(CopyOp::U64Copy_SNsM { result: 4, value: 2 }), &[5, 1, 0], &[2, 4]);
    case(Op::Copy(CopyOp::U64Copy_SNsM { result: 4, value: 3 }), &[5, 1, 0], &[3, 4]);
    case(Op::Copy(CopyOp::U64Copy_SNsM { result: 4, value: 5 }), &[5, 0, 1], &[4, 5]);
    case(Op::Copy(CopyOp::U64Copy_SNsM { result: 5, value: 0 }), &[5, 1, 0], &[0, 5]);
    case(Op::Copy(CopyOp::U64Copy_SNsM { result: 5, value: 1 }), &[5, 1, 0], &[1, 5]);
    case(Op::Copy(CopyOp::U64Copy_SNsM { result: 5, value: 2 }), &[5, 1, 0], &[2, 5]);
    case(Op::Copy(CopyOp::U64Copy_SNsM { result: 5, value: 3 }), &[5, 1, 0], &[3, 5]);
    case(Op::Copy(CopyOp::U64Copy_SNsM { result: 5, value: 4 }), &[5, 1, 0], &[4, 5]);
    case(Op::Copy(CopyOp::F64Copy_Sr { result: 0 }), &[100, 0], &[0]);
    case(Op::Copy(CopyOp::F64Copy_Sr { result: 1 }), &[100, 0], &[1]);
    case(Op::Copy(CopyOp::F64Copy_Sr { result: 2 }), &[100, 0], &[2]);
    case(Op::Copy(CopyOp::F64Copy_Sr { result: 3 }), &[100, 0], &[3]);
    case(Op::Copy(CopyOp::F64Copy_Sr { result: 4 }), &[100, 0], &[4]);
    case(Op::Copy(CopyOp::F64Copy_Sr { result: 5 }), &[100, 0], &[5]);
    case(Op::Copy(CopyOp::F64Copy_Sr { result: 6 }), &[100, 0], &[6]);
    case(Op::Copy(CopyOp::F64Copy_Sr { result: 7 }), &[100, 0], &[7]);
    case(Op::Copy(CopyOp::F64Copy_Sr { result: 8 }), &[100, 0], &[8]);
    case(Op::Copy(CopyOp::F64Copy_Sr { result: 9 }), &[100, 0], &[9]);
    case(Op::Copy(CopyOp::U64Copy_Sr { result: 11 }), &[6, 0], &[11]);
    case(Op::Copy(CopyOp::U64Copy_Rs { value: 9 }), &[150, 0], &[9]);
    case(
        Op::Copy(CopyOp::U64Copy_Ri { value: 0x8000_0000_0000_0005 }),
        &[151, -9223372036854775803],
        &[],
    );
    case(
        Op::Copy(CopyOp::U32Copy_Si { result: 11, value: 4_000_000_000 }),
        &[4, 0, -294967296],
        &[11],
    );
    case(Op::Copy(CopyOp::U32Copy_Ri { value: 4_000_000_000 }), &[151, -294967296], &[]);
    case(Op::Copy(CopyOp::F64Copy_Sr { result: 11 }), &[100, 0], &[11]);
    case(Op::Copy(CopyOp::F32Copy_Sr { result: 0 }), &[119, 0], &[0]);
    case(Op::Copy(CopyOp::F32Copy_Sr { result: 1 }), &[119, 0], &[1]);
    case(Op::Copy(CopyOp::F32Copy_Sr { result: 2 }), &[119, 0], &[2]);
    case(Op::Copy(CopyOp::F32Copy_Sr { result: 3 }), &[119, 0], &[3]);
    case(Op::Copy(CopyOp::F32Copy_Sr { result: 4 }), &[119, 0], &[4]);
    case(Op::Copy(CopyOp::F32Copy_Sr { result: 5 }), &[119, 0], &[5]);
    case(Op::Copy(CopyOp::F32Copy_Sr { result: 6 }), &[119, 0], &[6]);
    case(Op::Copy(CopyOp::F32Copy_Sr { result: 7 }), &[119, 0], &[7]);
    case(Op::Copy(CopyOp::F32Copy_Sr { result: 8 }), &[119, 0], &[8]);
    case(Op::Copy(CopyOp::F32Copy_Sr { result: 9 }), &[119, 0], &[9]);
    case(Op::Copy(CopyOp::F32Copy_Sr { result: 11 }), &[119, 0], &[11]);
}

/// Integer operations.
#[test]
fn words_of_integers() {
    case(Op::Int(IntOp::I32Add_Rs_si { result: 11, lhs: 5, rhs: -3 }), &[1, 1, 0, -3], &[5, 11]);
    case(Op::Int(IntOp::I64Add_Rss { lhs: 5, rhs: 7 }), &[7, 0, 1], &[5, 7]);
    case(Op::Int(IntOp::I64Mul_Rss { lhs: 5, rhs: 7 }), &[12, 0, 1], &[5, 7]);
    case(Op::Int(IntOp::I64BitOr_Rss { lhs: 5, rhs: 7 }), &[28, 0, 1], &[5, 7]);
    case(Op::Int(IntOp::I64Sub_Rss { lhs: 5, rhs: 7 }), &[29, 0, 1], &[5, 7]);
    case(Op::Int(IntOp::I32BitXor_Rss { lhs: 5, rhs: 7 }), &[30, 0, 1], &[5, 7]);
    case(Op::Int(IntOp::I32BitAnd_Rrs { rhs: 7 }), &[177, 0], &[7]);
    case(Op::Int(IntOp::I32BitOr_Rrs { rhs: 7 }), &[178, 0], &[7]);
    case(Op::Int(IntOp::I32Sub_Rrs { rhs: 7 }), &[179, 0], &[7]);
    case(Op::Int(IntOp::I32Sub_Rss { lhs: 5, rhs: 7 }), &[33, 0, 1], &[5, 7]);
    case(Op::Int(IntOp::I32Sub_Rsr { lhs: 5 }), &[186, 0], &[5]);
    case(Op::Int(IntOp::I32Sub_Ris { lhs: -3, rhs: 7 }), &[4, 1, -3, 33, 1, 0], &[7]);
    case(Op::Int(IntOp::I32Sub_Rir { lhs: -3 }), &[6, 0, 151, -3, 179, 0], &[]);
    case(Op::Int(IntOp::I64Sub_Rrs { rhs: 7 }), &[182, 0], &[7]);
    case(Op::Int(IntOp::I64Sub_Rsr { lhs: 5 }), &[187, 0], &[5]);
    case(
        Op::Int(IntOp::I64Sub_Ris { lhs: -5_000_000_000, rhs: 7 }),
        &[4, 1, -5000000000, 29, 1, 0],
        &[7],
    );
    case(
        Op::Int(IntOp::I64Sub_Rir { lhs: -5_000_000_000 }),
        &[6, 0, 151, -5000000000, 182, 0],
        &[],
    );
    case(Op::Int(IntOp::I32Mul_Rss { lhs: 5, rhs: 7 }), &[13, 0, 1], &[5, 7]);
    case(Op::Int(IntOp::I32Mul_Rri { rhs: -3 }), &[6, 0, 151, -3, 180, 0], &[]);
    case(Op::Int(IntOp::I32BitXor_Rri { rhs: -3 }), &[6, 0, 151, -3, 181, 0], &[]);
    case(Op::Int(IntOp::I32BitOr_Rri { rhs: -3 }), &[6, 0, 151, -3, 178, 0], &[]);
    case(Op::Int(IntOp::I32BitAnd_Rri { rhs: -3 }), &[6, 0, 151, -3, 177, 0], &[]);
    case(Op::Int(IntOp::I32Mul_Rrs { rhs: 7 }), &[180, 0], &[7]);
    case(Op::Int(IntOp::I32BitXor_Rrs { rhs: 7 }), &[181, 0], &[7]);
    case(Op::Int(IntOp::I32Add_Rs_rs { result: 11, rhs: 7 }), &[14, 1, 0], &[7, 11]);
    case(Op::Int(IntOp::I32Add_Rs_ri { result: 11, rhs: -3 }), &[4, 1, -3, 14, 0, 1], &[11]);
    case(Op::Int(IntOp::I64BitXor_Rss { lhs: 5, rhs: 7 }), &[18, 0, 1], &[5, 7]);
    case(Op::Int(IntOp::I64BitAnd_Rri { rhs: -5_000_000_000 }), &[19, -5000000000], &[]);
    case(
        Op::Int(IntOp::I64BitAnd_Rsi { lhs: 5, rhs: -5_000_000_000 }),
        &[20, 0, -5000000000],
        &[5],
    );
    case(
        Op::Int(IntOp::I64Mul_Rri { rhs: -5_000_000_000 }),
        &[6, 0, 151, -5000000000, 183, 0],
        &[],
    );
    case(
        Op::Int(IntOp::I64BitOr_Rri { rhs: -5_000_000_000 }),
        &[6, 0, 151, -5000000000, 184, 0],
        &[],
    );
    case(
        Op::Int(IntOp::I64BitXor_Rri { rhs: -5_000_000_000 }),
        &[6, 0, 151, -5000000000, 185, 0],
        &[],
    );
    case(Op::Int(IntOp::I64Mul_Rrs { rhs: 7 }), &[183, 0], &[7]);
    case(Op::Int(IntOp::I64BitOr_Rrs { rhs: 7 }), &[184, 0], &[7]);
    case(Op::Int(IntOp::I64BitXor_Rrs { rhs: 7 }), &[185, 0], &[7]);
    case(Op::Int(IntOp::I64Add_Rs_rs { result: 11, rhs: 7 }), &[21, 1, 0], &[7, 11]);
    case(Op::Int(IntOp::I32Mul_Rsi { lhs: 5, rhs: -3 }), &[4, 1, -3, 13, 0, 1], &[5]);
    case(
        Op::Int(IntOp::I64Mul_Rsi { lhs: 5, rhs: -5_000_000_000 }),
        &[4, 1, -5000000000, 12, 0, 1],
        &[5],
    );
    case(Op::Int(IntOp::I32Add_Rrs { rhs: 7 }), &[188, 0], &[7]);
    case(Op::Int(IntOp::I32Add_Rsi { lhs: 5, rhs: -3 }), &[4, 2, -3, 25, 1, 0, 2], &[5]);
    case(Op::Int(IntOp::I32Add_Rri { rhs: -3 }), &[4, 1, -3, 14, 0, 1], &[]);
    case(
        Op::Int(IntOp::I64Add_Rsi { lhs: 5, rhs: -5_000_000_000 }),
        &[4, 2, -5000000000, 23, 1, 0, 2],
        &[5],
    );
    case(Op::Int(IntOp::I64Add_Rri { rhs: -5_000_000_000 }), &[4, 1, -5000000000, 21, 0, 1], &[]);
    case(Op::Int(IntOp::I64Add_Rrs { rhs: 7 }), &[189, 0], &[7]);
    case(Op::Int(IntOp::I32Add_Rss { lhs: 5, rhs: 7 }), &[25, 2, 0, 1], &[5, 7]);
    case(
        Op::Int(IntOp::I64Add_Rs_si { result: 11, lhs: 5, rhs: -5_000_000_000 }),
        &[4, 2, -5000000000, 23, 1, 0, 2],
        &[5, 11],
    );
    case(Op::Int(IntOp::I64Add_Rs_ss { result: 11, lhs: 5, rhs: 7 }), &[23, 2, 0, 1], &[5, 7, 11]);
    case(Op::Int(IntOp::I32Add_Rs_ss { result: 11, lhs: 5, rhs: 7 }), &[25, 2, 0, 1], &[5, 7, 11]);
    case(
        Op::Int(IntOp::I64Add_Rs_ri { result: 11, rhs: -5_000_000_000 }),
        &[6, 1, 4, 2, -5000000000, 23, 0, 1, 2],
        &[11],
    );
    case(Op::Int(IntOp::I32BitAnd_Rsi { lhs: 5, rhs: -3 }), &[4, 1, -3, 31, 0, 1], &[5]);
    case(
        Op::Int(IntOp::I64BitOr_Rsi { lhs: 5, rhs: -5_000_000_000 }),
        &[150, 0, 163, -5000000000],
        &[5],
    );
}

/// Shifts, rotations, counts and extensions.
#[test]
fn words_of_shifts_and_counts() {
    case(Op::Bits(BitsOp::I64Shl_Rsi { lhs: 5, rhs: 37 }), &[36, 0, 37], &[5]);
    case(Op::Bits(BitsOp::I32Shl_Rsi { lhs: 5, rhs: 37 }), &[37, 0, 5], &[5]);
    case(Op::Bits(BitsOp::I32Rotl_Rsi { lhs: 5, rhs: 37 }), &[98, 0, 5], &[5]);
    case(Op::Bits(BitsOp::I32Rotr_Rsi { lhs: 5, rhs: 37 }), &[99, 0, 5], &[5]);
    case(Op::Bits(BitsOp::U32Shr_Rri { rhs: 37 }), &[38, 5], &[]);
    case(
        Op::Bits(BitsOp::Count_Rs { width: IntWidth::W32, count: BitCount::Clz, value: 9 }),
        &[103, 0, 0],
        &[9],
    );
    case(
        Op::Bits(BitsOp::Count_Rr { width: IntWidth::W32, count: BitCount::Clz }),
        &[6, 0, 103, 0, 0],
        &[],
    );
    case(
        Op::Bits(BitsOp::Count_Rs { width: IntWidth::W32, count: BitCount::Ctz, value: 9 }),
        &[103, 1, 0],
        &[9],
    );
    case(
        Op::Bits(BitsOp::Count_Rr { width: IntWidth::W32, count: BitCount::Ctz }),
        &[6, 0, 103, 1, 0],
        &[],
    );
    case(
        Op::Bits(BitsOp::Count_Rs { width: IntWidth::W32, count: BitCount::Popcnt, value: 9 }),
        &[103, 2, 0],
        &[9],
    );
    case(
        Op::Bits(BitsOp::Count_Rr { width: IntWidth::W32, count: BitCount::Popcnt }),
        &[6, 0, 103, 2, 0],
        &[],
    );
    case(
        Op::Bits(BitsOp::Count_Rs { width: IntWidth::W64, count: BitCount::Clz, value: 9 }),
        &[106, 0, 0],
        &[9],
    );
    case(
        Op::Bits(BitsOp::Count_Rr { width: IntWidth::W64, count: BitCount::Clz }),
        &[6, 0, 106, 0, 0],
        &[],
    );
    case(
        Op::Bits(BitsOp::Count_Rs { width: IntWidth::W64, count: BitCount::Ctz, value: 9 }),
        &[106, 1, 0],
        &[9],
    );
    case(
        Op::Bits(BitsOp::Count_Rr { width: IntWidth::W64, count: BitCount::Ctz }),
        &[6, 0, 106, 1, 0],
        &[],
    );
    case(
        Op::Bits(BitsOp::Count_Rs { width: IntWidth::W64, count: BitCount::Popcnt, value: 9 }),
        &[106, 2, 0],
        &[9],
    );
    case(
        Op::Bits(BitsOp::Count_Rr { width: IntWidth::W64, count: BitCount::Popcnt }),
        &[6, 0, 106, 2, 0],
        &[],
    );
    case(Op::Bits(BitsOp::I64Sext32_Rr), &[43], &[]);
    case(Op::Bits(BitsOp::I64Sext32_Rs { value: 9 }), &[89, 0], &[9]);
    case(Op::Bits(BitsOp::I32WrapI64_Rr), &[43], &[]);
    case(Op::Bits(BitsOp::I32WrapI64_Rs { value: 9 }), &[89, 0], &[9]);
    case(Op::Bits(BitsOp::U64Shr_Rsi { lhs: 5, rhs: 37 }), &[22, 0, 37, 134217727], &[5]);
    case(
        Op::Bits(BitsOp::U64Shr_Rir { lhs: 0x8000_0000_0000_0005 }),
        &[4, 0, -9223372036854775803, 6, 1, 161, 0, 1],
        &[],
    );
    case(Op::Bits(BitsOp::I32Shl_Rri { rhs: 37 }), &[6, 0, 37, 0, 37], &[]);
    case(Op::Bits(BitsOp::I64Shr_Rsi { lhs: 5, rhs: 37 }), &[157, 0, 0], &[]);
}

/// Divisions and remainders.
#[test]
fn words_of_divisions() {
    case(Op::Divide(DivideOp::I32Div(DivideForm::Rss { lhs: 5, rhs: 7 })), &[109, 0, 1], &[5, 7]);
    case(Op::Divide(DivideOp::I32Div(DivideForm::Rrs { rhs: 7 })), &[6, 1, 109, 1, 0], &[7]);
    case(Op::Divide(DivideOp::I32Div(DivideForm::Rsr { lhs: 5 })), &[6, 1, 109, 0, 1], &[5]);
    case(
        Op::Divide(DivideOp::I32Div(DivideForm::Rsi { lhs: 5, rhs: -3 })),
        &[4, 1, -3, 109, 0, 1],
        &[5],
    );
    case(
        Op::Divide(DivideOp::I32Div(DivideForm::Rri { rhs: -3 })),
        &[6, 0, 4, 1, -3, 109, 0, 1],
        &[],
    );
    case(
        Op::Divide(DivideOp::I32Div(DivideForm::Ris { lhs: -3, rhs: 7 })),
        &[4, 1, -3, 109, 1, 0],
        &[7],
    );
    case(
        Op::Divide(DivideOp::I32Div(DivideForm::Rir { lhs: -3 })),
        &[4, 0, -3, 6, 1, 109, 0, 1],
        &[],
    );
    case(Op::Divide(DivideOp::U32Div(DivideForm::Rss { lhs: 5, rhs: 7 })), &[110, 0, 1], &[5, 7]);
    case(Op::Divide(DivideOp::U32Div(DivideForm::Rrs { rhs: 7 })), &[6, 1, 110, 1, 0], &[7]);
    case(Op::Divide(DivideOp::U32Div(DivideForm::Rsr { lhs: 5 })), &[6, 1, 110, 0, 1], &[5]);
    case(
        Op::Divide(DivideOp::U32Div(DivideForm::Rsi { lhs: 5, rhs: 4_000_000_000 })),
        &[4, 1, 4000000000, 110, 0, 1],
        &[5],
    );
    case(
        Op::Divide(DivideOp::U32Div(DivideForm::Rri { rhs: 4_000_000_000 })),
        &[6, 0, 4, 1, 4000000000, 110, 0, 1],
        &[],
    );
    case(
        Op::Divide(DivideOp::U32Div(DivideForm::Ris { lhs: 4_000_000_000, rhs: 7 })),
        &[4, 1, 4000000000, 110, 1, 0],
        &[7],
    );
    case(
        Op::Divide(DivideOp::U32Div(DivideForm::Rir { lhs: 4_000_000_000 })),
        &[4, 0, 4000000000, 6, 1, 110, 0, 1],
        &[],
    );
    case(Op::Divide(DivideOp::I32Rem(DivideForm::Rss { lhs: 5, rhs: 7 })), &[111, 0, 1], &[5, 7]);
    case(Op::Divide(DivideOp::I32Rem(DivideForm::Rrs { rhs: 7 })), &[6, 1, 111, 1, 0], &[7]);
    case(Op::Divide(DivideOp::I32Rem(DivideForm::Rsr { lhs: 5 })), &[6, 1, 111, 0, 1], &[5]);
    case(
        Op::Divide(DivideOp::I32Rem(DivideForm::Rsi { lhs: 5, rhs: -3 })),
        &[4, 1, -3, 111, 0, 1],
        &[5],
    );
    case(
        Op::Divide(DivideOp::I32Rem(DivideForm::Rri { rhs: -3 })),
        &[6, 0, 4, 1, -3, 111, 0, 1],
        &[],
    );
    case(
        Op::Divide(DivideOp::I32Rem(DivideForm::Ris { lhs: -3, rhs: 7 })),
        &[4, 1, -3, 111, 1, 0],
        &[7],
    );
    case(
        Op::Divide(DivideOp::I32Rem(DivideForm::Rir { lhs: -3 })),
        &[4, 0, -3, 6, 1, 111, 0, 1],
        &[],
    );
    case(Op::Divide(DivideOp::U32Rem(DivideForm::Rss { lhs: 5, rhs: 7 })), &[112, 0, 1], &[5, 7]);
    case(Op::Divide(DivideOp::U32Rem(DivideForm::Rrs { rhs: 7 })), &[6, 1, 112, 1, 0], &[7]);
    case(Op::Divide(DivideOp::U32Rem(DivideForm::Rsr { lhs: 5 })), &[6, 1, 112, 0, 1], &[5]);
    case(
        Op::Divide(DivideOp::U32Rem(DivideForm::Rsi { lhs: 5, rhs: 4_000_000_000 })),
        &[4, 1, 4000000000, 112, 0, 1],
        &[5],
    );
    case(
        Op::Divide(DivideOp::U32Rem(DivideForm::Rri { rhs: 4_000_000_000 })),
        &[6, 0, 4, 1, 4000000000, 112, 0, 1],
        &[],
    );
    case(
        Op::Divide(DivideOp::U32Rem(DivideForm::Ris { lhs: 4_000_000_000, rhs: 7 })),
        &[4, 1, 4000000000, 112, 1, 0],
        &[7],
    );
    case(
        Op::Divide(DivideOp::U32Rem(DivideForm::Rir { lhs: 4_000_000_000 })),
        &[4, 0, 4000000000, 6, 1, 112, 0, 1],
        &[],
    );
    case(Op::Divide(DivideOp::I64Div(DivideForm::Rss { lhs: 5, rhs: 7 })), &[113, 0, 1], &[5, 7]);
    case(Op::Divide(DivideOp::I64Div(DivideForm::Rrs { rhs: 7 })), &[6, 1, 113, 1, 0], &[7]);
    case(Op::Divide(DivideOp::I64Div(DivideForm::Rsr { lhs: 5 })), &[6, 1, 113, 0, 1], &[5]);
    case(
        Op::Divide(DivideOp::I64Div(DivideForm::Rsi { lhs: 5, rhs: -5_000_000_000 })),
        &[4, 1, -5000000000, 113, 0, 1],
        &[5],
    );
    case(
        Op::Divide(DivideOp::I64Div(DivideForm::Rri { rhs: -5_000_000_000 })),
        &[6, 0, 4, 1, -5000000000, 113, 0, 1],
        &[],
    );
    case(
        Op::Divide(DivideOp::I64Div(DivideForm::Ris { lhs: -5_000_000_000, rhs: 7 })),
        &[4, 1, -5000000000, 113, 1, 0],
        &[7],
    );
    case(
        Op::Divide(DivideOp::I64Div(DivideForm::Rir { lhs: -5_000_000_000 })),
        &[4, 0, -5000000000, 6, 1, 113, 0, 1],
        &[],
    );
    case(Op::Divide(DivideOp::U64Div(DivideForm::Rss { lhs: 5, rhs: 7 })), &[114, 0, 1], &[5, 7]);
    case(Op::Divide(DivideOp::U64Div(DivideForm::Rrs { rhs: 7 })), &[6, 1, 114, 1, 0], &[7]);
    case(Op::Divide(DivideOp::U64Div(DivideForm::Rsr { lhs: 5 })), &[6, 1, 114, 0, 1], &[5]);
    case(
        Op::Divide(DivideOp::U64Div(DivideForm::Rsi { lhs: 5, rhs: 0x8000_0000_0000_0005 })),
        &[4, 1, -9223372036854775803, 114, 0, 1],
        &[5],
    );
    case(
        Op::Divide(DivideOp::U64Div(DivideForm::Rri { rhs: 0x8000_0000_0000_0005 })),
        &[6, 0, 4, 1, -9223372036854775803, 114, 0, 1],
        &[],
    );
    case(
        Op::Divide(DivideOp::U64Div(DivideForm::Ris { lhs: 0x8000_0000_0000_0005, rhs: 7 })),
        &[4, 1, -9223372036854775803, 114, 1, 0],
        &[7],
    );
    case(
        Op::Divide(DivideOp::U64Div(DivideForm::Rir { lhs: 0x8000_0000_0000_0005 })),
        &[4, 0, -9223372036854775803, 6, 1, 114, 0, 1],
        &[],
    );
    case(Op::Divide(DivideOp::I64Rem(DivideForm::Rss { lhs: 5, rhs: 7 })), &[115, 0, 1], &[5, 7]);
    case(Op::Divide(DivideOp::I64Rem(DivideForm::Rrs { rhs: 7 })), &[6, 1, 115, 1, 0], &[7]);
    case(Op::Divide(DivideOp::I64Rem(DivideForm::Rsr { lhs: 5 })), &[6, 1, 115, 0, 1], &[5]);
    case(
        Op::Divide(DivideOp::I64Rem(DivideForm::Rsi { lhs: 5, rhs: -5_000_000_000 })),
        &[4, 1, -5000000000, 115, 0, 1],
        &[5],
    );
    case(
        Op::Divide(DivideOp::I64Rem(DivideForm::Rri { rhs: -5_000_000_000 })),
        &[6, 0, 4, 1, -5000000000, 115, 0, 1],
        &[],
    );
    case(
        Op::Divide(DivideOp::I64Rem(DivideForm::Ris { lhs: -5_000_000_000, rhs: 7 })),
        &[4, 1, -5000000000, 115, 1, 0],
        &[7],
    );
    case(
        Op::Divide(DivideOp::I64Rem(DivideForm::Rir { lhs: -5_000_000_000 })),
        &[4, 0, -5000000000, 6, 1, 115, 0, 1],
        &[],
    );
    case(Op::Divide(DivideOp::U64Rem(DivideForm::Rss { lhs: 5, rhs: 7 })), &[116, 0, 1], &[5, 7]);
    case(Op::Divide(DivideOp::U64Rem(DivideForm::Rrs { rhs: 7 })), &[6, 1, 116, 1, 0], &[7]);
    case(Op::Divide(DivideOp::U64Rem(DivideForm::Rsr { lhs: 5 })), &[6, 1, 116, 0, 1], &[5]);
    case(
        Op::Divide(DivideOp::U64Rem(DivideForm::Rsi { lhs: 5, rhs: 0x8000_0000_0000_0005 })),
        &[4, 1, -9223372036854775803, 116, 0, 1],
        &[5],
    );
    case(
        Op::Divide(DivideOp::U64Rem(DivideForm::Rri { rhs: 0x8000_0000_0000_0005 })),
        &[6, 0, 4, 1, -9223372036854775803, 116, 0, 1],
        &[],
    );
    case(
        Op::Divide(DivideOp::U64Rem(DivideForm::Ris { lhs: 0x8000_0000_0000_0005, rhs: 7 })),
        &[4, 1, -9223372036854775803, 116, 1, 0],
        &[7],
    );
    case(
        Op::Divide(DivideOp::U64Rem(DivideForm::Rir { lhs: 0x8000_0000_0000_0005 })),
        &[4, 0, -9223372036854775803, 6, 1, 116, 0, 1],
        &[],
    );
}

/// Comparisons as values.
#[test]
fn words_of_comparisons() {
    case(Op::Compare(CompareOp::I32Lt_Rsi { lhs: 5, rhs: -3 }), &[39, 0, -3], &[5]);
    case(
        Op::Compare(CompareOp::I64Lt_Ris { lhs: -5_000_000_000, rhs: 7 }),
        &[40, -5000000000, 0],
        &[7],
    );
    case(
        Op::Compare(CompareOp::I64Lt_Rsi { lhs: 5, rhs: -5_000_000_000 }),
        &[137, 0, -5000000000],
        &[5],
    );
    case(
        Op::Compare(CompareOp::I64Lt_Rri { rhs: -5_000_000_000 }),
        &[6, 0, 137, 0, -5000000000],
        &[],
    );
    case(Op::Compare(CompareOp::I32Eq_Rsi { lhs: 5, rhs: -3 }), &[4, 1, -3, 138, 0, 1], &[5]);
    case(Op::Compare(CompareOp::I32NotEq_Rsi { lhs: 5, rhs: -3 }), &[4, 1, -3, 139, 0, 1], &[5]);
    case(Op::Compare(CompareOp::I32Le_Rsi { lhs: 5, rhs: -3 }), &[4, 1, -3, 141, 0, 1], &[5]);
    case(
        Op::Compare(CompareOp::U32Lt_Rsi { lhs: 5, rhs: 4_000_000_000 }),
        &[4, 1, 4000000000, 142, 0, 1],
        &[5],
    );
    case(
        Op::Compare(CompareOp::U32Le_Rsi { lhs: 5, rhs: 4_000_000_000 }),
        &[4, 1, 4000000000, 143, 0, 1],
        &[5],
    );
    case(Op::Compare(CompareOp::I32Lt_Ris { lhs: -3, rhs: 7 }), &[4, 1, -3, 140, 1, 0], &[7]);
    case(Op::Compare(CompareOp::I32Le_Ris { lhs: -3, rhs: 7 }), &[4, 1, -3, 141, 1, 0], &[7]);
    case(
        Op::Compare(CompareOp::U32Lt_Ris { lhs: 4_000_000_000, rhs: 7 }),
        &[4, 1, 4000000000, 142, 1, 0],
        &[7],
    );
    case(
        Op::Compare(CompareOp::U32Le_Ris { lhs: 4_000_000_000, rhs: 7 }),
        &[4, 1, 4000000000, 143, 1, 0],
        &[7],
    );
    case(
        Op::Compare(CompareOp::I64Eq_Rsi { lhs: 5, rhs: -5_000_000_000 }),
        &[4, 1, -5000000000, 144, 0, 1],
        &[5],
    );
    case(
        Op::Compare(CompareOp::I64NotEq_Rsi { lhs: 5, rhs: -5_000_000_000 }),
        &[4, 1, -5000000000, 145, 0, 1],
        &[5],
    );
    case(
        Op::Compare(CompareOp::I64Le_Rsi { lhs: 5, rhs: -5_000_000_000 }),
        &[4, 1, -5000000000, 147, 0, 1],
        &[5],
    );
    case(
        Op::Compare(CompareOp::U64Lt_Rsi { lhs: 5, rhs: 0x8000_0000_0000_0005 }),
        &[4, 1, -9223372036854775803, 148, 0, 1],
        &[5],
    );
    case(
        Op::Compare(CompareOp::U64Le_Rsi { lhs: 5, rhs: 0x8000_0000_0000_0005 }),
        &[4, 1, -9223372036854775803, 149, 0, 1],
        &[5],
    );
    case(
        Op::Compare(CompareOp::I64Le_Ris { lhs: -5_000_000_000, rhs: 7 }),
        &[4, 1, -5000000000, 147, 1, 0],
        &[7],
    );
    case(
        Op::Compare(CompareOp::U64Lt_Ris { lhs: 0x8000_0000_0000_0005, rhs: 7 }),
        &[4, 1, -9223372036854775803, 148, 1, 0],
        &[7],
    );
    case(
        Op::Compare(CompareOp::U64Le_Ris { lhs: 0x8000_0000_0000_0005, rhs: 7 }),
        &[4, 1, -9223372036854775803, 149, 1, 0],
        &[7],
    );
    case(Op::Compare(CompareOp::I32Lt_Rrs { rhs: 7 }), &[57, 0], &[7]);
    case(Op::Compare(CompareOp::I32Lt_Rsr { lhs: 5 }), &[58, 0], &[5]);
    case(Op::Compare(CompareOp::I32Eq_Rrs { rhs: 7 }), &[60, 0], &[7]);
    case(Op::Compare(CompareOp::I32NotEq_Rrs { rhs: 7 }), &[61, 0], &[7]);
    case(Op::Compare(CompareOp::I64Eq_Rrs { rhs: 7 }), &[62, 0], &[7]);
    case(Op::Compare(CompareOp::I64NotEq_Rrs { rhs: 7 }), &[63, 0], &[7]);
    case(Op::Compare(CompareOp::I64Lt_Rrs { rhs: 7 }), &[64, 0], &[7]);
    case(Op::Compare(CompareOp::I32Le_Rrs { rhs: 7 }), &[65, 0], &[7]);
    case(Op::Compare(CompareOp::U32Lt_Rrs { rhs: 7 }), &[66, 0], &[7]);
    case(Op::Compare(CompareOp::U32Le_Rrs { rhs: 7 }), &[67, 0], &[7]);
    case(Op::Compare(CompareOp::I64Lt_Rsr { lhs: 5 }), &[6, 1, 146, 0, 1], &[5]);
    case(Op::Compare(CompareOp::I32Eq_Rss { lhs: 5, rhs: 7 }), &[138, 0, 1], &[5, 7]);
    case(Op::Compare(CompareOp::I64Lt_Rss { lhs: 5, rhs: 7 }), &[146, 0, 1], &[5, 7]);
    case(
        Op::Compare(CompareOp::I64Eq_Rri { rhs: -5_000_000_000 }),
        &[4, 0, -5000000000, 62, 0],
        &[],
    );
    case(Op::Compare(CompareOp::I32Eq_Rri { rhs: -3 }), &[4, 0, -3, 60, 0], &[]);
}

/// Selections.
#[test]
fn words_of_selections() {
    case(Op::Select(SelectOp::U64Select_Rrss { if_true: 6, if_false: 8 }), &[59, 0, 1], &[6, 8]);
    case(
        Op::Select(SelectOp::U32Select_Rrsi { if_true: 6, if_false: 4_000_000_000 }),
        &[4, 1, 4000000000, 59, 0, 1],
        &[6],
    );
    case(
        Op::Select(SelectOp::U32Select_Rris { if_true: 4_000_000_000, if_false: 8 }),
        &[4, 1, 4000000000, 59, 1, 0],
        &[8],
    );
    case(
        Op::Select(SelectOp::U32Select_Rrii { if_true: 4_000_000_000, if_false: 4_000_000_000 }),
        &[4, 0, 4000000000, 4, 1, 4000000000, 59, 0, 1],
        &[],
    );
    case(
        Op::Select(SelectOp::U64Select_Rrsi { if_true: 6, if_false: 0x8000_0000_0000_0005 }),
        &[4, 1, -9223372036854775803, 59, 0, 1],
        &[6],
    );
    case(
        Op::Select(SelectOp::U64Select_Rris { if_true: 0x8000_0000_0000_0005, if_false: 8 }),
        &[4, 1, -9223372036854775803, 59, 1, 0],
        &[8],
    );
    case(
        Op::Select(SelectOp::U64Select_Rrii { if_true: 0x8000_0000_0000_0005, if_false: 0x8000_0000_0000_0005 }),
        &[4, 0, -9223372036854775803, 4, 1, -9223372036854775803, 59, 0, 1],
        &[],
    );
    case(
        Op::Select(SelectOp::U32Select_Rsii { condition: 3, if_true: 4_000_000_000, if_false: 4_000_000_000 }),
        &[4, 1, 4000000000, 4, 2, 4000000000, 150, 0, 59, 1, 2],
        &[3],
    );
    case(Op::Select(SelectOp::U64Select_Rrrs { if_false: 8 }), &[6, 1, 59, 1, 0], &[8]);
}

/// Operations on f32 values.
#[test]
fn words_of_f32_operations() {
    case(Op::F32(FloatOp::Add_Rsr { lhs: 5 }), &[120, 0, 0], &[5]);
    case(Op::F32(FloatOp::Add_Rrs { rhs: 7 }), &[120, 0, 0], &[7]);
    case(Op::F32(FloatOp::Sub_Rrs { rhs: 7 }), &[120, 1, 0], &[7]);
    case(Op::F32(FloatOp::Mul_Rrs { rhs: 7 }), &[120, 2, 0], &[7]);
    case(Op::F32(FloatOp::Div_Rrs { rhs: 7 }), &[120, 3, 0], &[7]);
    case(Op::F32(FloatOp::Min_Rrs { rhs: 7 }), &[136, 0, 0], &[7]);
    case(Op::F32(FloatOp::Min_Rsr { lhs: 5 }), &[136, 0, 0], &[5]);
    case(Op::F32(FloatOp::Max_Rrs { rhs: 7 }), &[136, 1, 0], &[7]);
    case(Op::F32(FloatOp::Max_Rsr { lhs: 5 }), &[136, 1, 0], &[5]);
    case(Op::F32(FloatOp::Copysign_Rrs { rhs: 7 }), &[136, 2, 0], &[7]);
    case(Op::F32(FloatOp::Copysign_Rsr { lhs: 5 }), &[136, 3, 0], &[5]);
    case(Op::F32(FloatOp::Add_Rri { bits: 0x40490fdb }), &[4, 0, 1078530011, 120, 0, 0], &[]);
    case(Op::F32(FloatOp::Sub_Rri { bits: 0x40490fdb }), &[4, 0, 1078530011, 120, 1, 0], &[]);
    case(Op::F32(FloatOp::Mul_Rri { bits: 0x40490fdb }), &[4, 0, 1078530011, 120, 2, 0], &[]);
    case(Op::F32(FloatOp::Div_Rri { bits: 0x40490fdb }), &[4, 0, 1078530011, 120, 3, 0], &[]);
    case(Op::F32(FloatOp::Min_Rri { bits: 0x40490fdb }), &[4, 0, 1078530011, 136, 0, 0], &[]);
    case(Op::F32(FloatOp::Max_Rri { bits: 0x40490fdb }), &[4, 0, 1078530011, 136, 1, 0], &[]);
    case(Op::F32(FloatOp::Lt_Rrs { rhs: 7 }), &[121, 0, 0], &[7]);
    case(Op::F32(FloatOp::Le_Rrs { rhs: 7 }), &[121, 1, 0], &[7]);
    case(Op::F32(FloatOp::Lt_Rsr { lhs: 5 }), &[121, 4, 0], &[5]);
    case(Op::F32(FloatOp::Le_Rsr { lhs: 5 }), &[121, 5, 0], &[5]);
    case(Op::F32(FloatOp::Eq_Rrs { rhs: 7 }), &[121, 2, 0], &[7]);
    case(Op::F32(FloatOp::NotEq_Rrs { rhs: 7 }), &[121, 3, 0], &[7]);
    case(Op::F32(FloatOp::Unary_Rs { op: FloatUnary::Abs, value: 9 }), &[122, 0, 0], &[9]);
    case(Op::F32(FloatOp::Unary_Rr { op: FloatUnary::Abs }), &[119, 0, 122, 0, 0], &[]);
    case(Op::F32(FloatOp::Unary_Rs { op: FloatUnary::Neg, value: 9 }), &[122, 1, 0], &[9]);
    case(Op::F32(FloatOp::Unary_Rr { op: FloatUnary::Neg }), &[119, 0, 122, 1, 0], &[]);
    case(Op::F32(FloatOp::Unary_Rs { op: FloatUnary::Sqrt, value: 9 }), &[122, 2, 0], &[9]);
    case(Op::F32(FloatOp::Unary_Rr { op: FloatUnary::Sqrt }), &[119, 0, 122, 2, 0], &[]);
    case(Op::F32(FloatOp::Unary_Rs { op: FloatUnary::Ceil, value: 9 }), &[122, 3, 0], &[9]);
    case(Op::F32(FloatOp::Unary_Rr { op: FloatUnary::Ceil }), &[119, 0, 122, 3, 0], &[]);
    case(Op::F32(FloatOp::Unary_Rs { op: FloatUnary::Floor, value: 9 }), &[122, 4, 0], &[9]);
    case(Op::F32(FloatOp::Unary_Rr { op: FloatUnary::Floor }), &[119, 0, 122, 4, 0], &[]);
    case(Op::F32(FloatOp::Unary_Rs { op: FloatUnary::Trunc, value: 9 }), &[122, 5, 0], &[9]);
    case(Op::F32(FloatOp::Unary_Rr { op: FloatUnary::Trunc }), &[119, 0, 122, 5, 0], &[]);
    case(Op::F32(FloatOp::Unary_Rs { op: FloatUnary::Nearest, value: 9 }), &[122, 6, 0], &[9]);
    case(Op::F32(FloatOp::Unary_Rr { op: FloatUnary::Nearest }), &[119, 0, 122, 6, 0], &[]);
}

/// Operations on f64 values.
#[test]
fn words_of_f64_operations() {
    case(Op::F64(FloatOp::Add_Rsr { lhs: 5 }), &[68, 0, 0], &[5]);
    case(Op::F64(FloatOp::Add_Rrs { rhs: 7 }), &[68, 0, 0], &[7]);
    case(Op::F64(FloatOp::Sub_Rrs { rhs: 7 }), &[68, 1, 0], &[7]);
    case(Op::F64(FloatOp::Mul_Rrs { rhs: 7 }), &[68, 2, 0], &[7]);
    case(Op::F64(FloatOp::Div_Rrs { rhs: 7 }), &[68, 3, 0], &[7]);
    case(Op::F64(FloatOp::Lt_Rrs { rhs: 7 }), &[69, 0, 0], &[7]);
    case(Op::F64(FloatOp::Le_Rrs { rhs: 7 }), &[69, 1, 0], &[7]);
    case(Op::F64(FloatOp::Lt_Rsr { lhs: 5 }), &[69, 4, 0], &[5]);
    case(Op::F64(FloatOp::Le_Rsr { lhs: 5 }), &[69, 5, 0], &[5]);
    case(Op::F64(FloatOp::Eq_Rrs { rhs: 7 }), &[69, 2, 0], &[7]);
    case(Op::F64(FloatOp::NotEq_Rrs { rhs: 7 }), &[69, 3, 0], &[7]);
    case(
        Op::F64(FloatOp::Add_Rri { bits: 0x400921fb54442d18 }),
        &[4, 0, 4614256656552045848, 68, 0, 0],
        &[],
    );
    case(
        Op::F64(FloatOp::Sub_Rri { bits: 0x400921fb54442d18 }),
        &[4, 0, 4614256656552045848, 68, 1, 0],
        &[],
    );
    case(
        Op::F64(FloatOp::Mul_Rri { bits: 0x400921fb54442d18 }),
        &[4, 0, 4614256656552045848, 68, 2, 0],
        &[],
    );
    case(
        Op::F64(FloatOp::Div_Rri { bits: 0x400921fb54442d18 }),
        &[4, 0, 4614256656552045848, 68, 3, 0],
        &[],
    );
    case(Op::F64(FloatOp::Unary_Rs { op: FloatUnary::Abs, value: 9 }), &[70, 0, 0], &[9]);
    case(Op::F64(FloatOp::Unary_Rr { op: FloatUnary::Abs }), &[100, 0, 70, 0, 0], &[]);
    case(Op::F64(FloatOp::Unary_Rs { op: FloatUnary::Neg, value: 9 }), &[70, 1, 0], &[9]);
    case(Op::F64(FloatOp::Unary_Rr { op: FloatUnary::Neg }), &[100, 0, 70, 1, 0], &[]);
    case(Op::F64(FloatOp::Unary_Rs { op: FloatUnary::Sqrt, value: 9 }), &[70, 2, 0], &[9]);
    case(Op::F64(FloatOp::Unary_Rr { op: FloatUnary::Sqrt }), &[100, 0, 70, 2, 0], &[]);
    case(Op::F64(FloatOp::Unary_Rs { op: FloatUnary::Ceil, value: 9 }), &[70, 3, 0], &[9]);
    case(Op::F64(FloatOp::Unary_Rr { op: FloatUnary::Ceil }), &[100, 0, 70, 3, 0], &[]);
    case(Op::F64(FloatOp::Unary_Rs { op: FloatUnary::Floor, value: 9 }), &[70, 4, 0], &[9]);
    case(Op::F64(FloatOp::Unary_Rr { op: FloatUnary::Floor }), &[100, 0, 70, 4, 0], &[]);
    case(Op::F64(FloatOp::Unary_Rs { op: FloatUnary::Trunc, value: 9 }), &[70, 5, 0], &[9]);
    case(Op::F64(FloatOp::Unary_Rr { op: FloatUnary::Trunc }), &[100, 0, 70, 5, 0], &[]);
    case(Op::F64(FloatOp::Unary_Rs { op: FloatUnary::Nearest, value: 9 }), &[70, 6, 0], &[9]);
    case(Op::F64(FloatOp::Unary_Rr { op: FloatUnary::Nearest }), &[100, 0, 70, 6, 0], &[]);
    case(Op::F64(FloatOp::Min_Rrs { rhs: 7 }), &[71, 0, 0], &[7]);
    case(Op::F64(FloatOp::Min_Rsr { lhs: 5 }), &[71, 0, 0], &[5]);
    case(
        Op::F64(FloatOp::Min_Rri { bits: 0x400921fb54442d18 }),
        &[4, 0, 4614256656552045848, 71, 0, 0],
        &[],
    );
    case(Op::F64(FloatOp::Max_Rrs { rhs: 7 }), &[71, 1, 0], &[7]);
    case(Op::F64(FloatOp::Max_Rsr { lhs: 5 }), &[71, 1, 0], &[5]);
    case(
        Op::F64(FloatOp::Max_Rri { bits: 0x400921fb54442d18 }),
        &[4, 0, 4614256656552045848, 71, 1, 0],
        &[],
    );
    case(Op::F64(FloatOp::Copysign_Rrs { rhs: 7 }), &[71, 2, 0], &[7]);
    case(Op::F64(FloatOp::Copysign_Rsr { lhs: 5 }), &[71, 3, 0], &[5]);
}

/// The negated f64 comparison.
#[test]
fn words_of_f64_not_le() {
    case(
        Op::F64NotLe(F64NotLe_Rss { lhs: 5, rhs: 7 }),
        &[150, 0, 153, 69, 1, 1, 4, 2, 0, 60, 2],
        &[5, 7],
    );
}

/// Conversions.
#[test]
fn words_of_conversions() {
    case(
        Op::Convert(ConvertOp::Convert_Rs { to: FloatWidth::F32, from: IntKind::I32, value: 9 }),
        &[123, 0, 0],
        &[9],
    );
    case(
        Op::Convert(ConvertOp::Convert_Rr { to: FloatWidth::F32, from: IntKind::I32 }),
        &[6, 0, 123, 0, 0],
        &[],
    );
    case(
        Op::Convert(ConvertOp::Convert_Rs { to: FloatWidth::F32, from: IntKind::U32, value: 9 }),
        &[123, 1, 0],
        &[9],
    );
    case(
        Op::Convert(ConvertOp::Convert_Rr { to: FloatWidth::F32, from: IntKind::U32 }),
        &[6, 0, 123, 1, 0],
        &[],
    );
    case(
        Op::Convert(ConvertOp::Convert_Rs { to: FloatWidth::F32, from: IntKind::I64, value: 9 }),
        &[123, 2, 0],
        &[9],
    );
    case(
        Op::Convert(ConvertOp::Convert_Rr { to: FloatWidth::F32, from: IntKind::I64 }),
        &[6, 0, 123, 2, 0],
        &[],
    );
    case(
        Op::Convert(ConvertOp::Convert_Rs { to: FloatWidth::F32, from: IntKind::U64, value: 9 }),
        &[123, 3, 0],
        &[9],
    );
    case(
        Op::Convert(ConvertOp::Convert_Rr { to: FloatWidth::F32, from: IntKind::U64 }),
        &[6, 0, 123, 3, 0],
        &[],
    );
    case(Op::Convert(ConvertOp::F64PromoteF32_Rs { value: 9 }), &[124, 0], &[9]);
    case(Op::Convert(ConvertOp::F64PromoteF32_Rr), &[119, 0, 124, 0], &[]);
    case(Op::Convert(ConvertOp::F32DemoteF64_Rs { value: 9 }), &[125, 0], &[9]);
    case(Op::Convert(ConvertOp::F32DemoteF64_Rr), &[100, 0, 125, 0], &[]);
    case(Op::Convert(ConvertOp::I32ReinterpretF32_Rr), &[126], &[]);
    case(Op::Convert(ConvertOp::F32ReinterpretI32_Rr), &[127], &[]);
    case(Op::Convert(ConvertOp::I64ReinterpretF64_Rr), &[152], &[]);
    case(Op::Convert(ConvertOp::F64ReinterpretI64_Rr), &[153], &[]);
    case(
        Op::Convert(ConvertOp::TruncSat_Rs { from: FloatWidth::F32, to: IntKind::I32, value: 9 }),
        &[128, 0, 0],
        &[9],
    );
    case(
        Op::Convert(ConvertOp::TruncSat_Rr { from: FloatWidth::F32, to: IntKind::I32 }),
        &[119, 0, 128, 0, 0],
        &[],
    );
    case(
        Op::Convert(ConvertOp::TruncSat_Rs { from: FloatWidth::F32, to: IntKind::U32, value: 9 }),
        &[128, 1, 0],
        &[9],
    );
    case(
        Op::Convert(ConvertOp::TruncSat_Rr { from: FloatWidth::F32, to: IntKind::U32 }),
        &[119, 0, 128, 1, 0],
        &[],
    );
    case(
        Op::Convert(ConvertOp::TruncSat_Rs { from: FloatWidth::F32, to: IntKind::I64, value: 9 }),
        &[128, 2, 0],
        &[9],
    );
    case(
        Op::Convert(ConvertOp::TruncSat_Rr { from: FloatWidth::F32, to: IntKind::I64 }),
        &[119, 0, 128, 2, 0],
        &[],
    );
    case(
        Op::Convert(ConvertOp::TruncSat_Rs { from: FloatWidth::F32, to: IntKind::U64, value: 9 }),
        &[128, 3, 0],
        &[9],
    );
    case(
        Op::Convert(ConvertOp::TruncSat_Rr { from: FloatWidth::F32, to: IntKind::U64 }),
        &[119, 0, 128, 3, 0],
        &[],
    );
    case(
        Op::Convert(ConvertOp::Trunc_Rs { from: FloatWidth::F32, to: IntKind::I32, value: 9 }),
        &[129, 0, 0],
        &[9],
    );
    case(
        Op::Convert(ConvertOp::Trunc_Rr { from: FloatWidth::F32, to: IntKind::I32 }),
        &[119, 0, 129, 0, 0],
        &[],
    );
    case(
        Op::Convert(ConvertOp::Trunc_Rs { from: FloatWidth::F32, to: IntKind::U32, value: 9 }),
        &[129, 1, 0],
        &[9],
    );
    case(
        Op::Convert(ConvertOp::Trunc_Rr { from: FloatWidth::F32, to: IntKind::U32 }),
        &[119, 0, 129, 1, 0],
        &[],
    );
    case(
        Op::Convert(ConvertOp::Trunc_Rs { from: FloatWidth::F32, to: IntKind::I64, value: 9 }),
        &[129, 2, 0],
        &[9],
    );
    case(
        Op::Convert(ConvertOp::Trunc_Rr { from: FloatWidth::F32, to: IntKind::I64 }),
        &[119, 0, 129, 2, 0],
        &[],
    );
    case(
        Op::Convert(ConvertOp::Trunc_Rs { from: FloatWidth::F32, to: IntKind::U64, value: 9 }),
        &[129, 3, 0],
        &[9],
    );
    case(
        Op::Convert(ConvertOp::Trunc_Rr { from: FloatWidth::F32, to: IntKind::U64 }),
        &[119, 0, 129, 3, 0],
        &[],
    );
    case(
        Op::Convert(ConvertOp::Convert_Rs { to: FloatWidth::F64, from: IntKind::I32, value: 9 }),
        &[85, 0, 0],
        &[9],
    );
    case(
        Op::Convert(ConvertOp::Convert_Rr { to: FloatWidth::F64, from: IntKind::I32 }),
        &[6, 0, 85, 0, 0],
        &[],
    );
    case(
        Op::Convert(ConvertOp::Convert_Rs { to: FloatWidth::F64, from: IntKind::U32, value: 9 }),
        &[85, 1, 0],
        &[9],
    );
    case(
        Op::Convert(ConvertOp::Convert_Rr { to: FloatWidth::F64, from: IntKind::U32 }),
        &[6, 0, 85, 1, 0],
        &[],
    );
    case(
        Op::Convert(ConvertOp::Convert_Rs { to: FloatWidth::F64, from: IntKind::I64, value: 9 }),
        &[85, 2, 0],
        &[9],
    );
    case(
        Op::Convert(ConvertOp::Convert_Rr { to: FloatWidth::F64, from: IntKind::I64 }),
        &[6, 0, 85, 2, 0],
        &[],
    );
    case(
        Op::Convert(ConvertOp::Convert_Rs { to: FloatWidth::F64, from: IntKind::U64, value: 9 }),
        &[85, 3, 0],
        &[9],
    );
    case(
        Op::Convert(ConvertOp::Convert_Rr { to: FloatWidth::F64, from: IntKind::U64 }),
        &[6, 0, 85, 3, 0],
        &[],
    );
    case(
        Op::Convert(ConvertOp::TruncSat_Rs { from: FloatWidth::F64, to: IntKind::I32, value: 9 }),
        &[90, 0, 0],
        &[9],
    );
    case(
        Op::Convert(ConvertOp::TruncSat_Rr { from: FloatWidth::F64, to: IntKind::I32 }),
        &[100, 0, 90, 0, 0],
        &[],
    );
    case(
        Op::Convert(ConvertOp::TruncSat_Rs { from: FloatWidth::F64, to: IntKind::U32, value: 9 }),
        &[90, 1, 0],
        &[9],
    );
    case(
        Op::Convert(ConvertOp::TruncSat_Rr { from: FloatWidth::F64, to: IntKind::U32 }),
        &[100, 0, 90, 1, 0],
        &[],
    );
    case(
        Op::Convert(ConvertOp::TruncSat_Rs { from: FloatWidth::F64, to: IntKind::I64, value: 9 }),
        &[90, 2, 0],
        &[9],
    );
    case(
        Op::Convert(ConvertOp::TruncSat_Rr { from: FloatWidth::F64, to: IntKind::I64 }),
        &[100, 0, 90, 2, 0],
        &[],
    );
    case(
        Op::Convert(ConvertOp::TruncSat_Rs { from: FloatWidth::F64, to: IntKind::U64, value: 9 }),
        &[90, 3, 0],
        &[9],
    );
    case(
        Op::Convert(ConvertOp::TruncSat_Rr { from: FloatWidth::F64, to: IntKind::U64 }),
        &[100, 0, 90, 3, 0],
        &[],
    );
    case(
        Op::Convert(ConvertOp::Trunc_Rs { from: FloatWidth::F64, to: IntKind::I32, value: 9 }),
        &[94, 0, 0],
        &[9],
    );
    case(
        Op::Convert(ConvertOp::Trunc_Rr { from: FloatWidth::F64, to: IntKind::I32 }),
        &[100, 0, 94, 0, 0],
        &[],
    );
    case(
        Op::Convert(ConvertOp::Trunc_Rs { from: FloatWidth::F64, to: IntKind::U32, value: 9 }),
        &[94, 1, 0],
        &[9],
    );
    case(
        Op::Convert(ConvertOp::Trunc_Rr { from: FloatWidth::F64, to: IntKind::U32 }),
        &[100, 0, 94, 1, 0],
        &[],
    );
    case(
        Op::Convert(ConvertOp::Trunc_Rs { from: FloatWidth::F64, to: IntKind::I64, value: 9 }),
        &[94, 2, 0],
        &[9],
    );
    case(
        Op::Convert(ConvertOp::Trunc_Rr { from: FloatWidth::F64, to: IntKind::I64 }),
        &[100, 0, 94, 2, 0],
        &[],
    );
    case(
        Op::Convert(ConvertOp::Trunc_Rs { from: FloatWidth::F64, to: IntKind::U64, value: 9 }),
        &[94, 3, 0],
        &[9],
    );
    case(
        Op::Convert(ConvertOp::Trunc_Rr { from: FloatWidth::F64, to: IntKind::U64 }),
        &[100, 0, 94, 3, 0],
        &[],
    );
}

/// Operations on memory.
#[test]
fn words_of_memory_operations() {
    case(
        Op::Memory(MemoryOp::LoadMem0Offset16_Rr { load: MemLoad::U64, offset: 48 }),
        &[41, 48],
        &[],
    );
    case(
        Op::Memory(MemoryOp::LoadMem0Offset16_Rr { load: MemLoad::F64, offset: 48 }),
        &[101, 48],
        &[],
    );
    case(
        Op::Memory(MemoryOp::LoadMem0Offset16_Rs { load: MemLoad::F64, ptr: 4, offset: 48 }),
        &[150, 0, 101, 48],
        &[4],
    );
    case(
        Op::Memory(MemoryOp::LoadMem0Offset16_Rr { load: MemLoad::F32, offset: 48 }),
        &[117, 48],
        &[],
    );
    case(
        Op::Memory(MemoryOp::LoadMem0Offset16_Rs { load: MemLoad::F32, ptr: 4, offset: 48 }),
        &[150, 0, 117, 48],
        &[4],
    );
    case(Op::Memory(MemoryOp::F32StoreMem0Offset16_Sr { ptr: 4, offset: 48 }), &[118, 0, 48], &[4]);
    case(Op::Memory(MemoryOp::F64StoreMem0Offset16_Rr { offset: 48 }), &[6, 0, 102, 0, 48], &[]);
    case(Op::Memory(MemoryOp::F32StoreMem0Offset16_Rr { offset: 48 }), &[6, 0, 118, 0, 48], &[]);
    case(
        Op::Memory(MemoryOp::LoadMem0Offset16_Rr { load: MemLoad::U32, offset: 48 }),
        &[42, 48],
        &[],
    );
    case(
        Op::Memory(MemoryOp::LoadMem0Offset16_Rr { load: MemLoad::U32Extend8, offset: 48 }),
        &[44, 48],
        &[],
    );
    case(
        Op::Memory(MemoryOp::LoadMem0Offset16_Rr { load: MemLoad::I32Extend8, offset: 48 }),
        &[45, 48],
        &[],
    );
    case(
        Op::Memory(MemoryOp::LoadMem0Offset16_Rr { load: MemLoad::U32Extend16, offset: 48 }),
        &[46, 48],
        &[],
    );
    case(
        Op::Memory(MemoryOp::LoadMem0Offset16_Rr { load: MemLoad::I32Extend16, offset: 48 }),
        &[47, 48],
        &[],
    );
    case(
        Op::Memory(MemoryOp::LoadMem0Offset16_Rs { load: MemLoad::U32Extend8, ptr: 4, offset: 48 }),
        &[150, 0, 44, 48],
        &[4],
    );
    case(
        Op::Memory(MemoryOp::LoadMem0Offset16_Rs { load: MemLoad::I32Extend8, ptr: 4, offset: 48 }),
        &[150, 0, 45, 48],
        &[4],
    );
    case(
        Op::Memory(MemoryOp::LoadMem0Offset16_Rs { load: MemLoad::U32Extend16, ptr: 4, offset: 48 }),
        &[150, 0, 46, 48],
        &[4],
    );
    case(
        Op::Memory(MemoryOp::LoadMem0Offset16_Rs { load: MemLoad::I32Extend16, ptr: 4, offset: 48 }),
        &[150, 0, 47, 48],
        &[4],
    );
    case(
        Op::Memory(MemoryOp::U32Load_Ri { memory: 0, address: 65_600 }),
        &[151, 65600, 42, 0],
        &[],
    );
    case(
        Op::Memory(MemoryOp::U64Load_Ri { memory: 0, address: 65_600 }),
        &[151, 65600, 41, 0],
        &[],
    );
    case(
        Op::Memory(MemoryOp::StoreMem0Offset16_Sr { store: MemStore::U32, ptr: 4, offset: 48 }),
        &[48, 0, 48],
        &[4],
    );
    case(
        Op::Memory(MemoryOp::StoreMem0Offset16_Sr { store: MemStore::U64, ptr: 4, offset: 48 }),
        &[54, 0, 48],
        &[4],
    );
    case(Op::Memory(MemoryOp::F64StoreMem0Offset16_Sr { ptr: 4, offset: 48 }), &[102, 0, 48], &[4]);
    case(
        Op::Memory(MemoryOp::StoreMem0Offset16_Sr { store: MemStore::I32Wrap8, ptr: 4, offset: 48 }),
        &[55, 0, 48],
        &[4],
    );
    case(
        Op::Memory(MemoryOp::StoreMem0Offset16_Sr { store: MemStore::I32Wrap16, ptr: 4, offset: 48 }),
        &[56, 0, 48],
        &[4],
    );
    case(
        Op::Memory(MemoryOp::StoreMem0Offset16_Rs { store: MemStore::U32, offset: 48, value: 9 }),
        &[50, 48, 0],
        &[9],
    );
    case(
        Op::Memory(MemoryOp::StoreMem0Offset16_Rs { store: MemStore::U64, offset: 48, value: 9 }),
        &[51, 48, 0],
        &[9],
    );
    case(
        Op::Memory(MemoryOp::StoreMem0Offset16_Rs { store: MemStore::I32Wrap8, offset: 48, value: 9 }),
        &[52, 48, 0],
        &[9],
    );
    case(
        Op::Memory(MemoryOp::StoreMem0Offset16_Rs { store: MemStore::I32Wrap16, offset: 48, value: 9 }),
        &[53, 48, 0],
        &[9],
    );
    case(
        Op::Memory(MemoryOp::I64StoreWrap32Mem0Offset16_Rs { offset: 48, value: 9 }),
        &[50, 48, 0],
        &[9],
    );
    case(
        Op::Memory(MemoryOp::StoreMem0Offset16_Si { ptr: 4, offset: 48, value: StoreImm::I8(-7) }),
        &[151, -7, 55, 0, 48],
        &[4],
    );
    case(
        Op::Memory(MemoryOp::StoreMem0Offset16_Si { ptr: 4, offset: 48, value: StoreImm::I16(-300) }),
        &[151, -300, 56, 0, 48],
        &[4],
    );
    case(
        Op::Memory(MemoryOp::StoreMem0Offset16_Ss { store: MemStore::I32Wrap8, ptr: 4, offset: 48, value: 9 }),
        &[150, 1, 55, 0, 48],
        &[4, 9],
    );
    case(
        Op::Memory(MemoryOp::StoreMem0Offset16_Ss { store: MemStore::I32Wrap16, ptr: 4, offset: 48, value: 9 }),
        &[150, 1, 56, 0, 48],
        &[4, 9],
    );
    case(
        Op::Memory(MemoryOp::StoreMem0Offset16_Ri { offset: 48, value: StoreImm::I8(-7) }),
        &[6, 0, 151, -7, 55, 0, 48],
        &[],
    );
    case(
        Op::Memory(MemoryOp::StoreMem0Offset16_Ri { offset: 48, value: StoreImm::I16(-300) }),
        &[6, 0, 151, -300, 56, 0, 48],
        &[],
    );
    case(
        Op::Memory(MemoryOp::StoreMem0Offset16_Si { ptr: 4, offset: 48, value: StoreImm::U64(0x8000_0000_0000_0005) }),
        &[151, -9223372036854775803, 54, 0, 48],
        &[4],
    );
    case(
        Op::Memory(MemoryOp::StoreMem0Offset16_Si { ptr: 4, offset: 48, value: StoreImm::U32(4_000_000_000) }),
        &[151, 4000000000, 48, 0, 48],
        &[4],
    );
    case(
        Op::Memory(MemoryOp::StoreMem0Offset16_Ss { store: MemStore::U64, ptr: 4, offset: 48, value: 9 }),
        &[150, 1, 54, 0, 48],
        &[4, 9],
    );
    case(
        Op::Memory(MemoryOp::StoreMem0Offset16_Ss { store: MemStore::U32, ptr: 4, offset: 48, value: 9 }),
        &[150, 1, 48, 0, 48],
        &[4, 9],
    );
    case(
        Op::Memory(MemoryOp::StoreMem0Offset16_Ri { offset: 48, value: StoreImm::U64(0x8000_0000_0000_0005) }),
        &[6, 0, 151, -9223372036854775803, 54, 0, 48],
        &[],
    );
    case(
        Op::Memory(MemoryOp::StoreMem0Offset16_Ri { offset: 48, value: StoreImm::U32(4_000_000_000) }),
        &[6, 0, 151, 4000000000, 48, 0, 48],
        &[],
    );
    case(
        Op::Memory(MemoryOp::LoadMem0Offset16_Rs { load: MemLoad::U64, ptr: 4, offset: 48 }),
        &[150, 0, 41, 48],
        &[4],
    );
    case(
        Op::Memory(MemoryOp::LoadMem0Offset16_Rs { load: MemLoad::U32, ptr: 4, offset: 48 }),
        &[150, 0, 42, 48],
        &[4],
    );
    case(Op::Memory(MemoryOp::MemorySize { memory: 0 }), &[160], &[]);
    case(Op::Memory(MemoryOp::U32LoadExtend8_Rr), &[157, 0, 0], &[]);
    case(
        Op::Memory(MemoryOp::U32LoadExtend16_Ri { memory: 0, address: 65_600 }),
        &[151, 65600, 46, 0],
        &[],
    );
    case(
        Op::Memory(MemoryOp::U64Store_Is { memory: 0, address: 65_600, value: 9 }),
        &[151, 65600, 51, 0, 0],
        &[9],
    );
    case(
        Op::Memory(MemoryOp::U64LoadExtend32Mem0Offset16_Rs { ptr: 4, offset: 48 }),
        &[150, 0, 42, 48, 6, 1, 20, 1, 4294967295],
        &[4],
    );
    case(
        Op::Memory(MemoryOp::U32Store_Ir { memory: 0, address: 65_600 }),
        &[6, 0, 151, 65600, 50, 0, 0],
        &[],
    );
    case(
        Op::Memory(MemoryOp::U32Store_Ii { memory: 0, address: 65_600, value: 4_000_000_000 }),
        &[4, 0, 4000000000, 151, 65600, 50, 0, 0],
        &[],
    );
    case(
        Op::Memory(MemoryOp::U32LoadExtend8_Ri { memory: 0, address: 65_600 }),
        &[151, 65600, 44, 0],
        &[],
    );
    case(
        Op::Memory(MemoryOp::U32Store_Is { memory: 0, address: 65_600, value: 9 }),
        &[150, 0, 6, 1, 151, 65600, 50, 0, 1],
        &[9],
    );
    case(
        Op::Memory(MemoryOp::MemoryCopy { dst_memory: 0, src_memory: 0, dst: 12, src: 13, len: 14 }),
        &[162, 0, 1, 2],
        &[12, 13, 14],
    );
    case(
        Op::Memory(MemoryOp::U64LoadExtend8_Rs { memory: 0, ptr: 4, offset: 70_000 }),
        &[150, 0, 44, 70000],
        &[4],
    );
    case(
        Op::Memory(MemoryOp::U64LoadExtend32_Ri { memory: 0, address: 65_600 }),
        &[151, 65600, 42, 0, 19, 4294967295],
        &[],
    );
}

/// Globals.
#[test]
fn words_of_globals() {
    case(Op::Global(GlobalOp::GlobalGetU64_R { global: 3 }), &[130, 3], &[]);
    case(Op::Global(GlobalOp::GlobalSetU64_R { global: 3 }), &[6, 0, 131, 3, 0], &[]);
    case(Op::Global(GlobalOp::GlobalSetU64_S { global: 3, value: 9 }), &[131, 3, 0], &[9]);
    case(
        Op::Global(GlobalOp::GlobalSetU64_I { global: 3, value: 0x8000_0000_0000_0005 }),
        &[4, 0, -9223372036854775803, 131, 3, 0],
        &[],
    );
    case(
        Op::Global(GlobalOp::GlobalSetU32_I { global: 3, value: 4_000_000_000 }),
        &[4, 0, 4000000000, 131, 3, 0],
        &[],
    );
    case(Op::Global(GlobalOp::GlobalGetF32_R { global: 3 }), &[132, 3], &[]);
    case(Op::Global(GlobalOp::GlobalGetF64_R { global: 3 }), &[133, 3], &[]);
    case(Op::Global(GlobalOp::GlobalSetF32_R { global: 3 }), &[119, 0, 131, 3, 0], &[]);
    case(Op::Global(GlobalOp::GlobalSetF64_R { global: 3 }), &[100, 0, 131, 3, 0], &[]);
}

/// Branches, each to itself.
#[test]
fn words_of_branches() {
    case(Op::Branch(BranchOp::BranchI32NotEq_Ri { offset: 0, rhs: -3 }), &[2, 0, -3], &[]);
    case(
        Op::Branch(BranchOp::BranchI32NotEq_Si { offset: 0, lhs: 5, rhs: -3 }),
        &[150, 0, 2, 0, -3],
        &[5],
    );
    case(
        Op::Branch(BranchOp::BranchI32NotEq_Rs { offset: 0, rhs: 7 }),
        &[6, 1, 154, 0, 1, 0],
        &[7],
    );
    case(Op::Branch(BranchOp::BranchI32Eq_Si { offset: 0, lhs: 5, rhs: -3 }), &[9, 0, 0, -3], &[5]);
    case(Op::Branch(BranchOp::BranchI32Eq_Ri { offset: 0, rhs: -3 }), &[6, 0, 9, 0, 0, -3], &[]);
    case(
        Op::Branch(BranchOp::BranchI32Le_Ss { offset: 0, lhs: 5, rhs: 7 }),
        &[34, 0, 0, 1],
        &[5, 7],
    );
    case(
        Op::Branch(BranchOp::BranchI64Eq_Ss { offset: 0, lhs: 5, rhs: 7 }),
        &[35, 0, 0, 1],
        &[5, 7],
    );
    case(
        Op::Branch(BranchOp::BranchU32Le_Ss { offset: 0, lhs: 5, rhs: 7 }),
        &[15, 0, 0, 1],
        &[5, 7],
    );
    case(Op::Branch(BranchOp::BranchU32Le_Rs { offset: 0, rhs: 7 }), &[6, 1, 15, 0, 1, 0], &[7]);
    case(
        Op::Branch(BranchOp::BranchU64Lt_Is { offset: 0, lhs: 0x8000_0000_0000_0005, rhs: 7 }),
        &[4, 1, -9223372036854775803, 155, 0, 1, 0],
        &[7],
    );
    case(Op::Branch(BranchOp::Branch { offset: 0 }), &[16, 0], &[]);
    case(
        Op::Branch(BranchOp::BranchI64Le_Ss { offset: 0, lhs: 5, rhs: 7 }),
        &[17, 0, 0, 1],
        &[5, 7],
    );
    case(
        Op::Branch(BranchOp::BranchI64Le_Si { offset: 0, lhs: 5, rhs: -5_000_000_000 }),
        &[24, 0, 0, -5000000000],
        &[5],
    );
    case(
        Op::Branch(BranchOp::BranchI32Lt_Si { offset: 0, lhs: 5, rhs: -3 }),
        &[26, 0, 0, -3],
        &[5],
    );
    case(
        Op::Branch(BranchOp::BranchI64Lt_Ir { offset: 0, lhs: -5_000_000_000 }),
        &[27, 0, -5000000000],
        &[],
    );
    case(
        Op::Branch(BranchOp::BranchI64Eq_Si { offset: 0, lhs: 5, rhs: -5_000_000_000 }),
        &[9, 0, 0, -5000000000],
        &[5],
    );
    case(
        Op::Branch(BranchOp::BranchI64NotEq_Ri { offset: 0, rhs: -5_000_000_000 }),
        &[10, 0, -5000000000],
        &[],
    );
    case(
        Op::Branch(BranchOp::BranchI64Eq_Ri { offset: 0, rhs: -5_000_000_000 }),
        &[6, 0, 9, 0, 0, -5000000000],
        &[],
    );
    case(
        Op::Branch(BranchOp::BranchU32Lt_Ir { offset: 0, lhs: 4_000_000_000 }),
        &[4, 0, 4000000000, 6, 1, 142, 0, 1, 2, 0, 0],
        &[],
    );
    case(
        Op::Branch(BranchOp::BranchU32Lt_Rs { offset: 0, rhs: 7 }),
        &[6, 1, 142, 1, 0, 2, 0, 0],
        &[7],
    );
    case(
        Op::Branch(BranchOp::BranchU64Lt_Ir { offset: 0, lhs: 0x8000_0000_0000_0005 }),
        &[4, 0, -9223372036854775803, 6, 1, 148, 0, 1, 2, 0, 0],
        &[],
    );
    case(
        Op::Branch(BranchOp::BranchU32Lt_Ss { offset: 0, lhs: 5, rhs: 7 }),
        &[142, 0, 1, 2, 0, 0],
        &[5, 7],
    );
    case(
        Op::Branch(BranchOp::BranchI32Lt_Ri { offset: 0, rhs: -3 }),
        &[4, 0, -3, 57, 0, 2, 0, 0],
        &[],
    );
    case(
        Op::Branch(BranchOp::BranchU64Lt_Si { offset: 0, lhs: 5, rhs: 0x8000_0000_0000_0005 }),
        &[4, 1, -9223372036854775803, 148, 0, 1, 2, 0, 0],
        &[5],
    );
    case(
        Op::Branch(BranchOp::BranchU32Lt_Si { offset: 0, lhs: 5, rhs: 4_000_000_000 }),
        &[4, 1, 4000000000, 142, 0, 1, 2, 0, 0],
        &[5],
    );
    case(Op::Branch(BranchOp::BranchI32Eq_Rs { offset: 0, rhs: 7 }), &[6, 1, 35, 0, 1, 0], &[7]);
    case(Op::Branch(BranchOp::BranchI64Lt_Rs { offset: 0, rhs: 7 }), &[64, 0, 2, 0, 0], &[7]);
    case(
        Op::Branch(BranchOp::BranchI64Le_Rs { offset: 0, rhs: 7 }),
        &[6, 1, 147, 1, 0, 2, 0, 0],
        &[7],
    );
    case(
        Op::Branch(BranchOp::BranchU32Lt_Sr { offset: 0, lhs: 5 }),
        &[6, 1, 142, 0, 1, 2, 0, 0],
        &[5],
    );
    case(
        Op::Branch(BranchOp::BranchU32Le_Sr { offset: 0, lhs: 5 }),
        &[6, 1, 143, 0, 1, 2, 0, 0],
        &[5],
    );
    case(
        Op::Branch(BranchOp::BranchU32Le_Ir { offset: 0, lhs: 4_000_000_000 }),
        &[4, 0, 4000000000, 6, 1, 143, 0, 1, 2, 0, 0],
        &[],
    );
}

/// Calls, returns and traps.
#[test]
fn words_of_calls_and_returns() {
    case(Op::Control(ControlOp::Return), &[11, 0], &[0]);
    case(Op::Control(ControlOp::ReturnCallIndirect_R), &[156], &[]);
    case(Op::Control(ControlOp::ReturnCallIndirect_S), &[156], &[]);
    case(Op::Control(ControlOp::ReturnCallInternal), &[156], &[]);
    case(
        Op::Control(ControlOp::CallInternal { func: 4096, head: 20, len: 3 }),
        &[158, 4096, 0, 3],
        &[20, 21, 22],
    );
    case(Op::Control(ControlOp::Trap { code: 5 }), &[159, 5], &[]);
    case(
        Op::Control(ControlOp::CallIndirect_S { table: 2, func_type: 9, index: 2, head: 20, len: 3 }),
        &[165, 2, 9, 0, 1, 3],
        &[2, 20, 21, 22],
    );
    case(Op::Control(ControlOp::BranchTable_R), &[157, 0, 0], &[]);
    case(
        Op::Control(ControlOp::CallIndirect_R { table: 2, func_type: 9, head: 20, len: 3 }),
        &[6, 3, 165, 2, 9, 3, 0, 3],
        &[20, 21, 22],
    );
    case(
        Op::Control(ControlOp::CallImported { func: 6, head: 20, len: 3 }),
        &[164, 6, 0, 3],
        &[20, 21, 22],
    );
}
