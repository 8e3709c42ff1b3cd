//! Whole functions: slots, targets, flags and refusals.

use wasmi_majit::action::FloatUnary;
use wasmi_majit::mini::{
    MINI_BR_ALWAYS, MINI_BR_I64_EQ_SI, MINI_CALL_IMPORTED, MINI_CALL_INDIRECT, MINI_CALL_RESIDUAL,
    MINI_COPY_SI, MINI_COPY_SR, MINI_COPY_SS, MINI_I64_ADD_SS_WB, MINI_RETURN_BAIL, MINI_RETURN_S,
    MINI_RETURN_VOID, MINI_TRAP, MINI_YIELD_STOCK, NUM_SCRATCH,
};
use wasmi_majit::observe::disasm_observe;
use wasmi_majit::ops::bits::BitsOp;
use wasmi_majit::ops::branch::BranchOp;
use wasmi_majit::ops::control::ControlOp;
use wasmi_majit::ops::copy::CopyOp;
use wasmi_majit::ops::divide::{DivideForm, DivideOp};
use wasmi_majit::ops::float::FloatOp;
use wasmi_majit::ops::global::GlobalOp;
use wasmi_majit::ops::integer::IntOp;
use wasmi_majit::ops::memory::{MemLoad, MemoryOp};
use wasmi_majit::ops::{Op, UnloweredOp};
use wasmi_majit::prepass::{prepass, MiniProgram};
use wasmi_majit::slots::SlotSet;
use wasmi_majit::stream::OpStream;

/// A stream of operations of the given sizes.
fn stream(ops: &[(Op, usize)]) -> OpStream {
    let mut stream = OpStream::new();
    for &(op, size) in ops {
        assert!(stream.push(op, size));
    }
    stream
}

fn lower(ops: &[(Op, usize)]) -> Option<MiniProgram> {
    prepass(&stream(ops), 1, 1)
}

fn ret() -> Op {
    Op::Control(ControlOp::Return)
}

fn jump(offset: i32) -> Op {
    Op::Branch(BranchOp::Branch { offset })
}

fn copy(result: u16, value: u16) -> Op {
    Op::Copy(CopyOp::U64Copy_Ss { result, value })
}

/// Slots are numbered densely, in their order; scratch slots come behind them.
#[test]
fn slots_are_dense() {
    let add = Op::Int(IntOp::I64Add_Rs_ri { result: 700, rhs: 9 });
    let mp = lower(&[(copy(300, 12), 6), (add, 12), (ret(), 2)]).unwrap();
    assert_eq!(mp.slot_map, vec![0, 12, 300, 700]);
    assert_eq!(mp.num_slots, 4);
    let scratch = mp.num_slots as i64;
    assert_eq!(
        mp.words,
        vec![
            MINI_COPY_SS,
            2,
            1,
            MINI_COPY_SR,
            scratch,
            MINI_COPY_SI,
            scratch + 1,
            9,
            MINI_I64_ADD_SS_WB,
            3,
            scratch,
            scratch + 1,
            MINI_RETURN_S,
            0,
        ]
    );
    assert!(scratch + 1 < (mp.num_slots + NUM_SCRATCH) as i64);
}

/// A function has one program.
#[test]
fn lowering_is_deterministic() {
    let ops = [(copy(300, 12), 6), (copy(12, 300), 6), (jump(-6), 6), (ret(), 2)];
    let (one, other) = (lower(&ops).unwrap(), lower(&ops).unwrap());
    assert_eq!(one.words, other.words);
    assert_eq!(one.slot_map, other.slot_map);
    assert_eq!(one.loop_header_word, other.loop_header_word);
    assert_eq!(one.loop_header_word, Some(3));
}

/// An immediate is no slot, whatever its value.
#[test]
fn immediates_are_kept() {
    for value in [0, 1, u64::MAX, 1 << 61, 1 << 62, 1 << 63, 3 << 61, 3 << 62] {
        let set = Op::Copy(CopyOp::U64Copy_Si { result: 8, value });
        let mp = lower(&[(set, 12), (ret(), 2)]).unwrap();
        assert_eq!(mp.words[..3], [MINI_COPY_SI, 1, value as i64]);
        assert_eq!(mp.slot_map, vec![0, 8]);
    }
}

/// The parameters of a call have consecutive cells, also where none of them is named
/// elsewhere.
#[test]
fn parameters_stay_together() {
    let call = Op::Control(ControlOp::CallInternal { func: 77, head: 40, len: 3 });
    let mp = lower(&[(copy(41, 5), 6), (call, 14), (ret(), 2)]).unwrap();
    assert_eq!(mp.slot_map, vec![0, 5, 40, 41, 42]);
    assert_eq!(mp.words[..7], [MINI_COPY_SS, 3, 1, MINI_CALL_RESIDUAL, 77, 2, 3]);
    assert!(!mp.has_yield_or_bail);
}

/// The first cell of a call without parameters takes its result.
#[test]
fn a_call_without_parameters_has_a_cell() {
    let call = Op::Control(ControlOp::CallImported { func: 3, head: 9, len: 0 });
    let mp = lower(&[(call, 10)]).unwrap();
    assert_eq!(mp.slot_map, vec![9]);
    assert_eq!(mp.words, vec![MINI_CALL_IMPORTED, 3, 0, 0]);
    assert!(!mp.has_yield_or_bail);
}

/// Parameters end with the last slot that there is.
#[test]
fn parameters_end_with_the_slots() {
    let call = Op::Control(ControlOp::CallIndirect_S {
        table: 1,
        func_type: 2,
        index: 0,
        head: u16::MAX,
        len: 4,
    });
    let mp = lower(&[(call, 18)]).unwrap();
    assert_eq!(mp.slot_map, vec![0, u16::MAX]);
    assert_eq!(mp.words, vec![MINI_CALL_INDIRECT, 1, 2, 0, 1, 4]);
}

/// Branches go to the first words of operations, forward and back.
#[test]
fn targets_are_first_words() {
    let test = Op::Branch(BranchOp::BranchI64Eq_Si { offset: 31, lhs: 0, rhs: 0 });
    let add = Op::Int(IntOp::I64Add_Rs_si { result: 0, lhs: 0, rhs: -1 });
    let mp = lower(&[(copy(0, 1), 6), (test, 17), (add, 8), (jump(-25), 6), (ret(), 2)]);
    let mp = mp.unwrap();
    assert_eq!(
        mp.words,
        vec![
            MINI_COPY_SS,
            0,
            1,
            MINI_BR_I64_EQ_SI,
            16,
            0,
            0,
            MINI_COPY_SI,
            2,
            -1,
            MINI_I64_ADD_SS_WB,
            0,
            0,
            2,
            MINI_BR_ALWAYS,
            3,
            MINI_RETURN_S,
            0,
        ]
    );
    assert_eq!(mp.loop_header_word, Some(3));
}

/// A branch into the middle of an operation, before the start or behind the last operation
/// makes the function ineligible.
#[test]
fn stray_targets_are_refused() {
    assert!(lower(&[(copy(0, 1), 6), (jump(-5), 6), (ret(), 2)]).is_none());
    assert!(lower(&[(copy(0, 1), 6), (jump(-7), 6), (ret(), 2)]).is_none());
    assert!(lower(&[(copy(0, 1), 6), (jump(8), 6), (ret(), 2)]).is_none());
    assert!(lower(&[(jump(i32::MIN), 6)]).is_none());
    assert!(lower(&[(jump(i32::MAX), 6)]).is_none());
    assert!(lower(&[(copy(0, 1), 6), (jump(-6), 6), (ret(), 2)]).is_some());
    assert!(lower(&[(copy(0, 1), 6), (jump(6), 6), (ret(), 2)]).is_some());
}

/// The loop header is the target of the last backward branch. A branch to itself goes not
/// back.
#[test]
fn the_last_back_edge_counts() {
    let ops = [(copy(0, 1), 6), (jump(-6), 6), (copy(1, 0), 6), (jump(-6), 6), (jump(6), 6)];
    let mut ops = ops.to_vec();
    ops.push((ret(), 2));
    let mp = lower(&ops).unwrap();
    assert_eq!(mp.loop_header_word, Some(5));
    assert_eq!(lower(&[(jump(0), 6)]).unwrap().loop_header_word, None);
    assert_eq!(lower(&[(jump(0), 6)]).unwrap().words, vec![MINI_BR_ALWAYS, 0]);
    assert_eq!(lower(&[(ret(), 2)]).unwrap().loop_header_word, None);
}

/// A function without slots in its frame has no result.
#[test]
fn a_frame_without_slots_returns_nothing() {
    let stream = stream(&[(ret(), 2)]);
    let void = prepass(&stream, 0, 0).unwrap();
    assert!(!void.writes_result);
    assert_eq!(void.words, vec![MINI_RETURN_VOID]);
    assert_eq!(void.num_slots, 0);
    for (locals, stack) in [(1, 0), (0, 1), (u16::MAX, u16::MAX)] {
        let mp = prepass(&stream, locals, stack).unwrap();
        assert!(mp.writes_result);
        assert_eq!(mp.words, vec![MINI_RETURN_S, 0]);
        assert_eq!(mp.slot_map, vec![0]);
    }
}

/// A function without operations is an empty program.
#[test]
fn an_empty_function_is_empty() {
    let mp = prepass(&OpStream::new(), 0, 0).unwrap();
    assert!(mp.words.is_empty() && mp.slot_map.is_empty());
    assert!(!mp.uses_globals && !mp.has_yield_or_bail);
}

/// Which operations leave to the stock executor or trap.
#[test]
fn leaving_is_noted() {
    for (op, words) in [
        (Op::Control(ControlOp::Trap { code: 3 }), vec![MINI_TRAP, 3]),
        (Op::Control(ControlOp::ReturnCallInternal), vec![MINI_RETURN_BAIL]),
        (Op::Control(ControlOp::ReturnCallIndirect_S), vec![MINI_RETURN_BAIL]),
        (Op::Control(ControlOp::ReturnCallIndirect_R), vec![MINI_RETURN_BAIL]),
        (Op::Control(ControlOp::BranchTable_R), vec![MINI_YIELD_STOCK, 6, 2]),
        (Op::Memory(MemoryOp::U32LoadExtend8_Rr), vec![MINI_YIELD_STOCK, 6, 2]),
        (Op::Bits(BitsOp::I64Shr_Rsi { lhs: 9, rhs: 1 }), vec![MINI_YIELD_STOCK, 6, 2]),
    ] {
        let mp = lower(&[(copy(0, 1), 6), (op, 4)]).unwrap();
        assert!(mp.has_yield_or_bail, "{op:?}");
        assert_eq!(mp.words[3..], words, "{op:?}");
    }
    // An immediate with the number of such an opcode is none.
    let set = Op::Copy(CopyOp::U64Copy_Si { result: 0, value: MINI_TRAP as u64 });
    assert!(!lower(&[(set, 12), (ret(), 2)]).unwrap().has_yield_or_bail);
}

/// Globals are noted.
#[test]
fn globals_are_noted() {
    let get = Op::Global(GlobalOp::GlobalGetU64_R { global: 4 });
    assert!(lower(&[(get, 6), (ret(), 2)]).unwrap().uses_globals);
    assert!(!lower(&[(copy(0, 1), 6), (ret(), 2)]).unwrap().uses_globals);
}

/// Memories other than the first, and copies between memories, are refused.
#[test]
fn other_memories_are_refused() {
    let copy = |dst_memory: u32, src_memory: u32| {
        Op::Memory(MemoryOp::MemoryCopy { dst_memory, src_memory, dst: 1, src: 2, len: 3 })
    };
    assert!(lower(&[(copy(0, 0), 16)]).is_some());
    assert!(lower(&[(copy(1, 1), 16)]).is_none());
    assert!(lower(&[(copy(2, 2), 16)]).is_none());
    assert!(lower(&[(copy(1, 0), 16)]).is_none());
    assert!(lower(&[(copy(0, 1), 16)]).is_none());
    for memory in [0, 1] {
        for op in [
            MemoryOp::MemorySize { memory },
            MemoryOp::U32Load_Ri { memory, address: 8 },
            MemoryOp::U64Load_Ri { memory, address: 8 },
            MemoryOp::U32LoadExtend8_Ri { memory, address: 8 },
            MemoryOp::U32LoadExtend16_Ri { memory, address: 8 },
            MemoryOp::U64LoadExtend32_Ri { memory, address: 8 },
            MemoryOp::U64LoadExtend8_Rs { memory, ptr: 1, offset: 2 },
            MemoryOp::U64Store_Is { memory, address: 8, value: 1 },
            MemoryOp::U32Store_Is { memory, address: 8, value: 1 },
            MemoryOp::U32Store_Ir { memory, address: 8 },
            MemoryOp::U32Store_Ii { memory, address: 8, value: 1 },
        ] {
            assert_eq!(lower(&[(Op::Memory(op), 14)]).is_some(), memory == 0, "{op:?}");
        }
    }
}

/// A fixed address is an immediate of the program, as it is.
#[test]
fn addresses_are_kept() {
    for address in [0, u32::MAX as u64, 1 << 33, u64::MAX] {
        let load = Op::Memory(MemoryOp::U64Load_Ri { memory: 0, address });
        assert_eq!(lower(&[(load, 14)]).unwrap().words, vec![151, address as i64, 41, 0]);
    }
}

/// Operations that the kernel has not are refused.
#[test]
fn unlowered_operations_are_refused() {
    for op in [
        UnloweredOp::BranchI32Eq_Ss,
        UnloweredOp::BranchI32NotEq_Ss,
        UnloweredOp::BranchI64Eq_Rs,
        UnloweredOp::BranchI64NotEq_Rs,
        UnloweredOp::BranchI64NotEq_Si,
        UnloweredOp::BranchI64NotEq_Ss,
        UnloweredOp::ConsumeFuel,
        UnloweredOp::I32BitAnd_Rss,
        UnloweredOp::I32BitOr_Rss,
    ] {
        assert!(lower(&[(copy(0, 1), 6), (Op::Unlowered(op), 8)]).is_none());
        assert!(Op::Unlowered(op).observed());
    }
    assert!(lower(&[(Op::Other(1), 2)]).is_none());
}

/// Rotations and shifts take their amounts modulo the width, and a rotation by nothing is a
/// shift by nothing.
#[test]
fn amounts_are_reduced() {
    let words = |op: BitsOp| lower(&[(Op::Bits(op), 5)]).unwrap().words;
    assert_eq!(words(BitsOp::I32Rotl_Rsi { lhs: 3, rhs: 33 }), vec![98, 0, 1]);
    assert_eq!(words(BitsOp::I32Rotl_Rsi { lhs: 3, rhs: 64 }), vec![37, 0, 0]);
    assert_eq!(words(BitsOp::I32Rotr_Rsi { lhs: 3, rhs: 0 }), vec![37, 0, 0]);
    assert_eq!(words(BitsOp::I32Rotr_Rsi { lhs: 3, rhs: 31 }), vec![99, 0, 31]);
    assert_eq!(words(BitsOp::U64Shr_Rsi { lhs: 3, rhs: 0 }), vec![22, 0, 0, -1]);
    assert_eq!(words(BitsOp::U64Shr_Rsi { lhs: 3, rhs: 64 }), vec![22, 0, 0, -1]);
    assert_eq!(words(BitsOp::U64Shr_Rsi { lhs: 3, rhs: 1 }), vec![22, 0, 1, i64::MAX]);
    assert_eq!(words(BitsOp::U64Shr_Rsi { lhs: 3, rhs: 63 }), vec![22, 0, 63, 1]);
    assert_eq!(words(BitsOp::I64Shl_Rsi { lhs: 3, rhs: 200 }), vec![36, 0, 8]);
    assert_eq!(words(BitsOp::I32Shl_Rri { rhs: 40 }), vec![6, 0, 37, 0, 40]);
}

/// The operands of a division keep their order.
#[test]
fn divisions_keep_their_order() {
    let words = |form: DivideForm<u64>| {
        lower(&[(Op::Divide(DivideOp::U64Rem(form)), 12)]).unwrap().words
    };
    assert_eq!(words(DivideForm::Rrs { rhs: 3 }), vec![6, 1, 116, 1, 0]);
    assert_eq!(words(DivideForm::Rsr { lhs: 3 }), vec![6, 1, 116, 0, 1]);
    assert_eq!(words(DivideForm::Rri { rhs: u64::MAX }), vec![6, 0, 4, 1, -1, 116, 0, 1]);
    assert_eq!(words(DivideForm::Rir { lhs: u64::MAX }), vec![4, 0, -1, 6, 1, 116, 0, 1]);
}

/// A program is read by the widths of its opcodes, up to its end.
#[test]
fn a_program_decodes() {
    let cond = Op::Branch(BranchOp::BranchU32Lt_Ir { offset: 20, lhs: 7 });
    let load = Op::Memory(MemoryOp::LoadMem0Offset16_Rs { load: MemLoad::F64, ptr: 2, offset: 8 });
    let mp = lower(&[(cond, 10), (load, 10), (ret(), 2)]).unwrap();
    let widths = [(4, 3), (6, 2), (142, 3), (2, 3), (150, 2), (101, 2), (11, 2)];
    let mut at = 0;
    for (code, width) in widths {
        assert_eq!(mp.words[at], code);
        at += width;
    }
    assert_eq!(at, mp.words.len());
    // The target of the branch is the return.
    assert_eq!(mp.words[9], 15);
}

/// An observation stops before the first operation outside of the subset.
#[test]
fn observation_stops() {
    let global = Op::Global(GlobalOp::GlobalGetU64_R { global: 0 });
    let seen = disasm_observe(&stream(&[(copy(0, 1), 6), (global, 6), (ret(), 2)]));
    assert_eq!(seen.known.len(), 1);
    let stop = seen.stop.unwrap();
    assert_eq!((stop.pos, stop.op), (6, global));
    for op in [
        Op::Copy(CopyOp::U64Copy_SNsM { result: 0, value: 1 }),
        Op::Copy(CopyOp::F32Copy_Sr { result: 0 }),
        Op::Int(IntOp::I64Mul_Rsi { lhs: 0, rhs: 1 }),
        Op::Bits(BitsOp::I32Rotl_Rsi { lhs: 0, rhs: 1 }),
        Op::Divide(DivideOp::I32Div(DivideForm::Rsr { lhs: 0 })),
        Op::F32(FloatOp::Add_Rsr { lhs: 0 }),
        Op::F64(FloatOp::Add_Rrs { rhs: 0 }),
        Op::Memory(MemoryOp::F32StoreMem0Offset16_Sr { ptr: 0, offset: 0 }),
        Op::Memory(MemoryOp::LoadMem0Offset16_Rr { load: MemLoad::F32, offset: 0 }),
        Op::Other(3),
    ] {
        assert!(!op.observed(), "{op:?}");
    }
    assert!(Op::F64(FloatOp::Add_Rsr { lhs: 0 }).observed());
    assert!(!Op::F32(FloatOp::Add_Rri { bits: 0 }).observed());
    assert!(!Op::F32(FloatOp::Unary_Rs { op: FloatUnary::Abs, value: 0 }).observed());
    assert!(Op::Memory(MemoryOp::F32StoreMem0Offset16_Rr { offset: 0 }).observed());
}

/// The f32 comparisons lie in the subset: a walk goes on behind them.
#[test]
fn observation_knows_f32_comparisons() {
    let comparisons = [
        FloatOp::Lt_Rrs { rhs: 1 },
        FloatOp::Le_Rrs { rhs: 1 },
        FloatOp::Lt_Rsr { lhs: 1 },
        FloatOp::Le_Rsr { lhs: 1 },
        FloatOp::Eq_Rrs { rhs: 1 },
        FloatOp::NotEq_Rrs { rhs: 1 },
    ];
    let mut ops = Vec::new();
    for op in comparisons {
        assert!(Op::F32(op).observed(), "{op:?}");
        ops.push((Op::F32(op), 4));
    }
    let seen = disasm_observe(&stream(&ops));
    assert_eq!(seen.known.len(), 6);
    assert!(seen.stop.is_none());
    let stop = Op::F32(FloatOp::Add_Rrs { rhs: 1 });
    ops.push((stop, 4));
    ops.push((ret(), 2));
    let seen = disasm_observe(&stream(&ops));
    assert_eq!(seen.known.len(), 6);
    let at = seen.stop.unwrap();
    assert_eq!((at.pos, at.op), (24, stop));
}

/// The walk over two streams is the two walks joined.
#[test]
fn observations_join() {
    let first = [(copy(0, 1), 6), (Op::F32(FloatOp::Lt_Rrs { rhs: 1 }), 4)];
    let second = [(jump(0), 6), (Op::Other(7), 2), (ret(), 2)];
    let mut both = first.to_vec();
    both.extend(second);
    let (a, b) = (disasm_observe(&stream(&first)), disasm_observe(&stream(&second)));
    let ab = disasm_observe(&stream(&both));
    assert!(a.stop.is_none());
    assert_eq!(ab.known.len(), a.known.len() + b.known.len());
    assert_eq!(ab.known[2].op, b.known[0].op);
    assert_eq!(ab.known[2].pos, b.known[0].pos + 10);
    assert_eq!(ab.stop.unwrap().pos, b.stop.unwrap().pos + 10);
}

/// A stream refuses empty encodings and lengths without an address.
#[test]
fn streams_refuse_what_does_not_fit() {
    let mut stream = OpStream::new();
    assert!(!stream.push(ret(), 0));
    assert!(stream.push(ret(), usize::MAX - 1));
    assert!(!stream.push(ret(), 2));
    assert!(stream.push(ret(), 1));
    assert!(!stream.push(ret(), 1));
    assert_eq!(stream.ops().len(), 2);
    assert_eq!(stream.find(0), Some(0));
    assert_eq!(stream.find(usize::MAX - 1), Some(1));
    assert_eq!(stream.find(1), None);
}

/// A set of slots is in order, without doubles.
#[test]
fn slot_sets_are_sorted() {
    let mut slots = SlotSet::new();
    for slot in [5, 3, 9, 3, 0, 9] {
        slots.insert(slot);
    }
    slots.insert_run(7, 3);
    slots.insert_run(2, 0);
    assert_eq!(slots.len(), 6);
    assert_eq!(slots.index_of(7), 3);
    assert_eq!(slots.into_vec(), vec![0, 3, 5, 7, 8, 9]);
}
