//! Programs run on a kernel: what they compute.

use wasmi_majit::mini::{
    MINI_BR_ALWAYS, MINI_BR_I32_NE_RI, MINI_BR_I64_EQ_SI, MINI_BR_I64_EQ_SS, MINI_BR_I64_LE_SS,
    MINI_BR_I64_NE_RI, MINI_BR_U32_LE_SS, MINI_COPY_RI, MINI_COPY_RS, MINI_COPY_SI, MINI_COPY_SR,
    MINI_COPY_SS, MINI_I32_ADD_RS_WB, MINI_I32_ADD_SI_WB, MINI_I32_MUL_SS_WR, MINI_I32_ROTL_SI,
    MINI_I32_SUB_RS_WR, MINI_I64_ADD_RS_WB, MINI_I64_ADD_SS_WB, MINI_I64_ADD_SS_WR,
    MINI_I64_AND_SI_WR, MINI_I64_MUL_SS_WR, MINI_I64_SUB_RS_WR, MINI_I64_SUB_SS_WR, MINI_RETURN_S,
    MINI_SELECT, MINI_U32_LT_SS_R, MINI_U64_SHR_SI, NUM_SCRATCH,
};
use wasmi_majit::ops::bits::BitsOp;
use wasmi_majit::ops::branch::BranchOp;
use wasmi_majit::ops::control::ControlOp;
use wasmi_majit::ops::copy::CopyOp;
use wasmi_majit::ops::integer::IntOp;
use wasmi_majit::ops::select::SelectOp;
use wasmi_majit::ops::Op;
use wasmi_majit::prepass::{prepass, MiniProgram};
use wasmi_majit::stream::OpStream;

fn wrap(x: i64) -> i64 {
    x as i32 as i64
}

/// Runs a program on a frame and yields its result. The cells are filled from the slots of
/// the frame, with the scratch cells behind them.
fn run(mp: &MiniProgram, frame: &[i64]) -> i64 {
    let mut slots: Vec<i64> = mp.slot_map.iter().map(|&slot| frame[slot as usize]).collect();
    slots.resize(mp.num_slots + NUM_SCRATCH, 0);
    let words = &mp.words;
    let cell = |k: usize| words[k] as usize;
    let mut ireg = 0i64;
    let mut pc = 0;
    loop {
        let (taken, width) = match words[pc] {
            MINI_COPY_SI => {
                slots[cell(pc + 1)] = words[pc + 2];
                (false, 3)
            }
            MINI_COPY_SS => {
                slots[cell(pc + 1)] = slots[cell(pc + 2)];
                (false, 3)
            }
            MINI_COPY_SR => {
                slots[cell(pc + 1)] = ireg;
                (false, 2)
            }
            MINI_COPY_RS => {
                ireg = slots[cell(pc + 1)];
                (false, 2)
            }
            MINI_COPY_RI => {
                ireg = words[pc + 1];
                (false, 2)
            }
            MINI_I32_ADD_SI_WB => {
                ireg = wrap(slots[cell(pc + 2)].wrapping_add(words[pc + 3]));
                slots[cell(pc + 1)] = ireg;
                (false, 4)
            }
            MINI_I32_ADD_RS_WB => {
                ireg = wrap(ireg.wrapping_add(slots[cell(pc + 2)]));
                slots[cell(pc + 1)] = ireg;
                (false, 3)
            }
            MINI_I64_ADD_RS_WB => {
                ireg = ireg.wrapping_add(slots[cell(pc + 2)]);
                slots[cell(pc + 1)] = ireg;
                (false, 3)
            }
            MINI_I64_ADD_SS_WB => {
                ireg = slots[cell(pc + 2)].wrapping_add(slots[cell(pc + 3)]);
                slots[cell(pc + 1)] = ireg;
                (false, 4)
            }
            MINI_I64_ADD_SS_WR => {
                ireg = slots[cell(pc + 1)].wrapping_add(slots[cell(pc + 2)]);
                (false, 3)
            }
            MINI_I64_SUB_SS_WR => {
                ireg = slots[cell(pc + 1)].wrapping_sub(slots[cell(pc + 2)]);
                (false, 3)
            }
            MINI_I64_MUL_SS_WR => {
                ireg = slots[cell(pc + 1)].wrapping_mul(slots[cell(pc + 2)]);
                (false, 3)
            }
            MINI_I32_MUL_SS_WR => {
                ireg = wrap(slots[cell(pc + 1)].wrapping_mul(slots[cell(pc + 2)]));
                (false, 3)
            }
            MINI_I32_SUB_RS_WR => {
                ireg = wrap(ireg.wrapping_sub(slots[cell(pc + 1)]));
                (false, 2)
            }
            MINI_I64_SUB_RS_WR => {
                ireg = ireg.wrapping_sub(slots[cell(pc + 1)]);
                (false, 2)
            }
            MINI_I64_AND_SI_WR => {
                ireg = slots[cell(pc + 1)] & words[pc + 2];
                (false, 3)
            }
            MINI_U64_SHR_SI => {
                ireg = (slots[cell(pc + 1)] >> words[pc + 2]) & words[pc + 3];
                (false, 4)
            }
            MINI_I32_ROTL_SI => {
                let low = slots[cell(pc + 1)] as u32;
                ireg = low.rotate_left(words[pc + 2] as u32) as i32 as i64;
                (false, 3)
            }
            MINI_SELECT => {
                let chosen = if wrap(ireg) != 0 { pc + 1 } else { pc + 2 };
                ireg = slots[cell(chosen)];
                (false, 3)
            }
            MINI_U32_LT_SS_R => {
                let (a, b) = (slots[cell(pc + 1)] as u32, slots[cell(pc + 2)] as u32);
                ireg = (a < b) as i64;
                (false, 3)
            }
            MINI_BR_ALWAYS => (true, 2),
            MINI_BR_I32_NE_RI => (wrap(ireg) != words[pc + 2], 3),
            MINI_BR_I64_NE_RI => (ireg != words[pc + 2], 3),
            MINI_BR_I64_EQ_SI => (slots[cell(pc + 2)] == words[pc + 3], 4),
            MINI_BR_I64_EQ_SS => (slots[cell(pc + 2)] == slots[cell(pc + 3)], 4),
            MINI_BR_I64_LE_SS => (slots[cell(pc + 2)] <= slots[cell(pc + 3)], 4),
            MINI_BR_U32_LE_SS => {
                let (a, b) = (slots[cell(pc + 2)] as u32, slots[cell(pc + 3)] as u32);
                (a <= b, 4)
            }
            MINI_RETURN_S => return slots[cell(pc + 1)],
            code => panic!("opcode {code}"),
        };
        pc = if taken { words[pc + 1] as usize } else { pc + width };
    }
}

/// Lowers a function of operations of eight bytes.
fn lower(ops: Vec<Op>) -> MiniProgram {
    let mut stream = OpStream::new();
    for op in ops {
        assert!(stream.push(op, 8));
    }
    prepass(&stream, 4, 8).expect("function is JIT-eligible")
}

fn ret() -> Op {
    Op::Control(ControlOp::Return)
}

fn spill(result: u16) -> Op {
    Op::Copy(CopyOp::U64Copy_Sr { result })
}

fn copy(result: u16, value: u16) -> Op {
    Op::Copy(CopyOp::U64Copy_Ss { result, value })
}

#[test]
fn countdown_runs() {
    let mp = lower(vec![
        Op::Int(IntOp::I32Add_Rs_si { result: 0, lhs: 0, rhs: -1 }),
        Op::Branch(BranchOp::BranchI32NotEq_Ri { offset: -8, rhs: 0 }),
        spill(0),
        ret(),
    ]);
    for n in [1, 2, 100] {
        assert_eq!(run(&mp, &[n]), 0);
    }
}

#[test]
fn factorial_runs() {
    let mp = lower(vec![
        Op::Copy(CopyOp::U64Copy_Si { result: 7, value: 1 }),
        Op::Branch(BranchOp::BranchI64Eq_Si { offset: 40, lhs: 3, rhs: 0 }),
        Op::Int(IntOp::I64Mul_Rss { lhs: 7, rhs: 3 }),
        spill(7),
        Op::Int(IntOp::I64Add_Rs_si { result: 3, lhs: 3, rhs: -1 }),
        Op::Branch(BranchOp::BranchI64NotEq_Ri { offset: -24, rhs: 0 }),
        copy(0, 7),
        ret(),
    ]);
    let frame = |n: i64| [0, 0, 0, n, 0, 0, 0, 0];
    assert_eq!(run(&mp, &frame(0)), 1);
    assert_eq!(run(&mp, &frame(1)), 1);
    assert_eq!(run(&mp, &frame(10)), 3_628_800);
}

#[test]
fn gcd_runs() {
    let mp = lower(vec![
        Op::Branch(BranchOp::BranchI64Eq_Ss { offset: 64, lhs: 0, rhs: 5 }),
        Op::Branch(BranchOp::BranchI64Le_Ss { offset: 32, lhs: 0, rhs: 5 }),
        Op::Int(IntOp::I64Sub_Rss { lhs: 0, rhs: 5 }),
        spill(0),
        Op::Branch(BranchOp::Branch { offset: 24 }),
        Op::Int(IntOp::I64Sub_Rss { lhs: 5, rhs: 0 }),
        spill(5),
        Op::Branch(BranchOp::Branch { offset: -56 }),
        ret(),
    ]);
    let frame = |a: i64, b: i64| [a, 0, 0, 0, 0, b];
    assert_eq!(run(&mp, &frame(48, 18)), 6);
    assert_eq!(run(&mp, &frame(7, 13)), 1);
    assert_eq!(run(&mp, &frame(21, 21)), 21);
}

#[test]
fn popcount_runs() {
    let mp = lower(vec![
        Op::Branch(BranchOp::BranchI64Eq_Si { offset: 48, lhs: 2, rhs: 0 }),
        Op::Int(IntOp::I64BitAnd_Rsi { lhs: 2, rhs: 1 }),
        Op::Int(IntOp::I64Add_Rs_rs { result: 4, rhs: 4 }),
        Op::Bits(BitsOp::U64Shr_Rsi { lhs: 2, rhs: 1 }),
        spill(2),
        Op::Branch(BranchOp::Branch { offset: -40 }),
        copy(0, 4),
        ret(),
    ]);
    let frame = |x: i64| [0, 0, x, 0, 0];
    assert_eq!(run(&mp, &frame(0xFF00FF)), 16);
    // The shift fills with zeros.
    assert_eq!(run(&mp, &frame(-1)), 64);
    assert_eq!(run(&mp, &frame(i64::MIN)), 1);
}

#[test]
fn sum_of_squares_runs() {
    let mp = lower(vec![
        Op::Branch(BranchOp::BranchU32Le_Ss { offset: 40, lhs: 1, rhs: 2 }),
        Op::Int(IntOp::I32Mul_Rss { lhs: 2, rhs: 2 }),
        Op::Int(IntOp::I32Add_Rs_rs { result: 3, rhs: 3 }),
        Op::Int(IntOp::I32Add_Rs_si { result: 2, lhs: 2, rhs: 1 }),
        Op::Branch(BranchOp::Branch { offset: -32 }),
        copy(0, 3),
        ret(),
    ]);
    assert_eq!(mp.loop_header_word, Some(0));
    assert_eq!(run(&mp, &[0, 10, 0, 0]), 285);
    assert_eq!(run(&mp, &[0, 0, 0, 5]), 5);
}

#[test]
fn fibonacci_runs() {
    let mp = lower(vec![
        Op::Copy(CopyOp::U64Copy_Si { result: 1, value: 0 }),
        Op::Copy(CopyOp::U64Copy_Si { result: 2, value: 1 }),
        copy(3, 0),
        Op::Branch(BranchOp::BranchI64Eq_Si { offset: 48, lhs: 3, rhs: 0 }),
        Op::Int(IntOp::I64Add_Rss { lhs: 1, rhs: 2 }),
        copy(1, 2),
        spill(2),
        Op::Int(IntOp::I64Add_Rs_si { result: 3, lhs: 3, rhs: -1 }),
        Op::Branch(BranchOp::BranchI64NotEq_Ri { offset: -32, rhs: 0 }),
        copy(0, 1),
        ret(),
    ]);
    assert_eq!(run(&mp, &[0, 0, 0, 0]), 0);
    assert_eq!(run(&mp, &[1, 0, 0, 0]), 1);
    assert_eq!(run(&mp, &[30, 0, 0, 0]), 832_040);
}

/// Differences keep the order of their operands.
#[test]
fn differences_run() {
    let result = |op: IntOp| {
        let load = Op::Copy(CopyOp::U64Copy_Rs { value: 1 });
        run(&lower(vec![load, Op::Int(op), spill(0), ret()]), &[0, 100, 7])
    };
    assert_eq!(result(IntOp::I64Sub_Rrs { rhs: 2 }), 93);
    assert_eq!(result(IntOp::I64Sub_Rir { lhs: 1000 }), 900);
    assert_eq!(result(IntOp::I64Sub_Ris { lhs: 1000, rhs: 2 }), 993);
    assert_eq!(result(IntOp::I32Sub_Rir { lhs: 1 }), -99);
}

/// An operation leaves the slots alone that are no results of it.
#[test]
fn operands_are_left_alone() {
    for op in [
        IntOp::I64Add_Rs_ri { result: 3, rhs: 9 },
        IntOp::I64Sub_Ris { lhs: 1000, rhs: 2 },
        IntOp::I64Sub_Rir { lhs: 1000 },
        IntOp::I64Mul_Rsi { lhs: 2, rhs: 5 },
        IntOp::I64Add_Rsi { lhs: 2, rhs: 5 },
    ] {
        for slot in [1, 2] {
            let load = Op::Copy(CopyOp::U64Copy_Rs { value: 1 });
            let mp = lower(vec![load, Op::Int(op), copy(0, slot), ret()]);
            let frame = [0, 100, 7, 55];
            assert_eq!(run(&mp, &frame), frame[slot as usize], "{op:?}");
        }
    }
}

/// A selection, on a condition in a slot.
#[test]
fn selections_run() {
    let mp = lower(vec![
        Op::Select(SelectOp::U32Select_Rsii { condition: 1, if_true: 11, if_false: 7 }),
        spill(0),
        ret(),
    ]);
    assert_eq!(run(&mp, &[0, 1]), 11);
    assert_eq!(run(&mp, &[0, 0]), 7);
    // The condition is a 32-bit value.
    assert_eq!(run(&mp, &[0, 1 << 32]), 7);
}

/// A 32-bit sum is sign-extended; a selected immediate is zero-extended.
#[test]
fn forms_of_32_bit_values() {
    let add = Op::Int(IntOp::I32Add_Rs_si { result: 0, lhs: 1, rhs: 1 });
    assert_eq!(run(&lower(vec![add, ret()]), &[0, i32::MAX as i64]), i32::MIN as i64);
    let choose = SelectOp::U32Select_Rsii { condition: 1, if_true: u32::MAX, if_false: 3 };
    let mp = lower(vec![Op::Select(choose), spill(0), ret()]);
    assert_eq!(run(&mp, &[0, 1]), u32::MAX as i64);
    assert_eq!(run(&mp, &[0, 0]), 3);
}

/// A rotation.
#[test]
fn rotations_run() {
    let result = |rhs: u8, x: i64| {
        let rotate = Op::Bits(BitsOp::I32Rotl_Rsi { lhs: 1, rhs });
        run(&lower(vec![rotate, spill(0), ret()]), &[0, x])
    };
    assert_eq!(result(4, 0x1000_0001), 0x11);
    assert_eq!(result(31, 1), i32::MIN as i64);
    assert_eq!(result(36, 1), 16);
}

/// An unsigned comparison of an immediate with the accumulator decides a branch.
#[test]
fn unsigned_tests_run() {
    let mp = lower(vec![
        Op::Copy(CopyOp::U64Copy_Rs { value: 1 }),
        Op::Branch(BranchOp::BranchU32Lt_Ir { offset: 24, lhs: 5 }),
        Op::Copy(CopyOp::U64Copy_Si { result: 0, value: 100 }),
        ret(),
        Op::Copy(CopyOp::U64Copy_Si { result: 0, value: 200 }),
        ret(),
    ]);
    assert_eq!(run(&mp, &[0, 5]), 100);
    assert_eq!(run(&mp, &[0, 6]), 200);
    assert_eq!(run(&mp, &[0, -1]), 200);
}
