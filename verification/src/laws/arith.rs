//! Integer operations, comparisons and branches.

use crate::action::{canonical, perform, BinOp, Machine, Residuals};
use crate::kernel::{does, does_but_ireg, lemma_codes};
use crate::laws::patterns::{
    by_br, by_br_ir, by_br_ri, by_br_si, by_br_ss, by_copy_spill_then_test, by_copy_then_br_ss,
    by_copy_then_rs, by_copy_then_rs_wb, by_copy_then_rs_wb_scratch, by_copy_then_ss_lhs,
    by_copy_then_ss_rhs, by_copy_then_ss_wb, by_copy_then_ss_wb_scratch, by_copy_then_test_rs,
    by_copy_then_test_ss, by_is, by_load_then_br_ri, by_load_then_ri, by_ri, by_rs, by_rs_wb, by_si,
    by_si_wb, by_spill_copy_then_ss_wb, by_spill_then_br_si, by_spill_then_br_ss, by_spill_then_si,
    by_spill_then_ss_rhs, by_spill_then_test_lhs, by_spill_then_test_rhs, by_sr, by_ss, by_ss_wb,
    by_ss_wb_scratch, by_swap_then_rs, by_test_rs, by_test_ss,
};
use crate::mini::{
    MINI_BR_I32_LE_SS, MINI_BR_I32_LT_SI, MINI_BR_I32_NE_RI, MINI_BR_I64_EQ_SI, MINI_BR_I64_EQ_SS,
    MINI_BR_I64_LE_SI, MINI_BR_I64_LE_SS, MINI_BR_I64_LT_IR, MINI_BR_I64_NE_RI, MINI_BR_I64_NE_SS,
    MINI_BR_U32_LE_SS, MINI_BR_U64_LT_SS, MINI_I32_ADD_RS_WB, MINI_I32_ADD_RS_WR,
    MINI_I32_ADD_SI_WB, MINI_I32_ADD_SS_WB, MINI_I32_AND_RS_WR, MINI_I32_AND_SS_WR,
    MINI_I32_EQ_RS_R, MINI_I32_EQ_SS_R, MINI_I32_LE_RS_R, MINI_I32_LE_SS_R, MINI_I32_LT_RS_R,
    MINI_I32_LT_SI_R, MINI_I32_LT_SR_R, MINI_I32_LT_SS_R, MINI_I32_MUL_RS_WR, MINI_I32_MUL_SS_WR,
    MINI_I32_NE_RS_R, MINI_I32_NE_SS_R, MINI_I32_OR_RS_WR, MINI_I32_SUB_RS_WR, MINI_I32_SUB_SR_WR,
    MINI_I32_SUB_SS_WR, MINI_I32_XOR_RS_WR, MINI_I32_XOR_SS_WR, MINI_I64_ADD_RS_WB,
    MINI_I64_ADD_RS_WR, MINI_I64_ADD_SS_WB, MINI_I64_ADD_SS_WR, MINI_I64_AND_RI_WR,
    MINI_I64_AND_SI_WR, MINI_I64_EQ_RS_R, MINI_I64_EQ_SS_R, MINI_I64_LE_SS_R, MINI_I64_LT_IS_R,
    MINI_I64_LT_RS_R, MINI_I64_LT_SI_R, MINI_I64_LT_SS_R, MINI_I64_MUL_RS_WR, MINI_I64_MUL_SS_WR,
    MINI_I64_NE_RS_R, MINI_I64_NE_SS_R, MINI_I64_OR_RI_WR, MINI_I64_OR_RS_WR, MINI_I64_OR_SS_WR,
    MINI_I64_SUB_RS_WR, MINI_I64_SUB_SR_WR, MINI_I64_SUB_SS_WR, MINI_I64_XOR_RS_WR,
    MINI_I64_XOR_SS_WR, MINI_U32_LE_RS_R, MINI_U32_LE_SS_R, MINI_U32_LT_RS_R, MINI_U32_LT_SS_R,
    MINI_U64_LE_SS_R, MINI_U64_LT_SS_R,
};
use crate::ops::branch::BranchOp;
use crate::ops::compare::CompareOp;
use crate::ops::integer::IntOp;
use vstd::prelude::*;

verus! {

/// The words of an integer operation do what the operation does.
#[verifier::rlimit(40)]
pub(crate) proof fn lemma_integer<W>(op: IntOp, m: Machine<W>, res: Residuals<W>)
    ensures
        does(op.lowering(), op.action(), m, res),
{
    lemma_codes();
    match op {
        IntOp::I32Add_Rs_si { result, lhs, rhs } => {
            by_si_wb(MINI_I32_ADD_SI_WB, BinOp::I32Add, result, lhs, rhs as i64, m, res);
        },
        IntOp::I32Add_Rs_rs { result, rhs } => {
            by_rs_wb(MINI_I32_ADD_RS_WB, BinOp::I32Add, result, rhs, m, res);
        },
        IntOp::I32Add_Rs_ri { result, rhs } => {
            by_copy_then_rs_wb(MINI_I32_ADD_RS_WB, BinOp::I32Add, result, rhs as i64, m, res);
        },
        IntOp::I32Add_Rs_ss { result, lhs, rhs } => {
            by_ss_wb(MINI_I32_ADD_SS_WB, BinOp::I32Add, result, lhs, rhs, m, res);
        },
        IntOp::I32Add_Rss { lhs, rhs } => {
            by_ss_wb_scratch(MINI_I32_ADD_SS_WB, BinOp::I32Add, lhs, rhs, m, res);
        },
        IntOp::I32Add_Rrs { rhs } => by_rs(MINI_I32_ADD_RS_WR, BinOp::I32Add, rhs, m, res),
        IntOp::I32Add_Rsi { lhs, rhs } => {
            by_copy_then_ss_wb_scratch(MINI_I32_ADD_SS_WB, BinOp::I32Add, lhs, rhs as i64, m, res);
        },
        IntOp::I32Add_Rri { rhs } => {
            by_copy_then_rs_wb_scratch(MINI_I32_ADD_RS_WB, BinOp::I32Add, rhs as i64, m, res);
        },
        IntOp::I32Sub_Rss { lhs, rhs } => {
            by_ss(MINI_I32_SUB_SS_WR, BinOp::I32Sub, lhs, rhs, m, res);
        },
        IntOp::I32Sub_Rrs { rhs } => by_rs(MINI_I32_SUB_RS_WR, BinOp::I32Sub, rhs, m, res),
        IntOp::I32Sub_Rsr { lhs } => by_sr(MINI_I32_SUB_SR_WR, BinOp::I32Sub, lhs, m, res),
        IntOp::I32Sub_Ris { lhs, rhs } => {
            by_copy_then_ss_lhs(MINI_I32_SUB_SS_WR, BinOp::I32Sub, lhs as i64, rhs, m, res);
        },
        IntOp::I32Sub_Rir { lhs } => {
            by_swap_then_rs(MINI_I32_SUB_RS_WR, BinOp::I32Sub, lhs as i64, m, res);
        },
        IntOp::I32Mul_Rss { lhs, rhs } => {
            by_ss(MINI_I32_MUL_SS_WR, BinOp::I32Mul, lhs, rhs, m, res);
        },
        IntOp::I32Mul_Rrs { rhs } => by_rs(MINI_I32_MUL_RS_WR, BinOp::I32Mul, rhs, m, res),
        IntOp::I32Mul_Rsi { lhs, rhs } => {
            by_copy_then_ss_rhs(MINI_I32_MUL_SS_WR, BinOp::I32Mul, lhs, rhs as i64, m, res);
        },
        IntOp::I32Mul_Rri { rhs } => {
            BinOp::I32Mul.lemma_commutes(rhs as i64, m.ireg);
            by_swap_then_rs(MINI_I32_MUL_RS_WR, BinOp::I32Mul, rhs as i64, m, res);
        },
        IntOp::I32BitAnd_Rrs { rhs } => by_rs(MINI_I32_AND_RS_WR, BinOp::I32And, rhs, m, res),
        IntOp::I32BitAnd_Rsi { lhs, rhs } => {
            by_copy_then_ss_rhs(MINI_I32_AND_SS_WR, BinOp::I32And, lhs, rhs as i64, m, res);
        },
        IntOp::I32BitAnd_Rri { rhs } => {
            BinOp::I32And.lemma_commutes(rhs as i64, m.ireg);
            by_swap_then_rs(MINI_I32_AND_RS_WR, BinOp::I32And, rhs as i64, m, res);
        },
        IntOp::I32BitOr_Rrs { rhs } => by_rs(MINI_I32_OR_RS_WR, BinOp::I32Or, rhs, m, res),
        IntOp::I32BitOr_Rri { rhs } => {
            BinOp::I32Or.lemma_commutes(rhs as i64, m.ireg);
            by_swap_then_rs(MINI_I32_OR_RS_WR, BinOp::I32Or, rhs as i64, m, res);
        },
        IntOp::I32BitXor_Rss { lhs, rhs } => {
            by_ss(MINI_I32_XOR_SS_WR, BinOp::I32Xor, lhs, rhs, m, res);
        },
        IntOp::I32BitXor_Rrs { rhs } => by_rs(MINI_I32_XOR_RS_WR, BinOp::I32Xor, rhs, m, res),
        IntOp::I32BitXor_Rri { rhs } => {
            BinOp::I32Xor.lemma_commutes(rhs as i64, m.ireg);
            by_swap_then_rs(MINI_I32_XOR_RS_WR, BinOp::I32Xor, rhs as i64, m, res);
        },
        IntOp::I64Add_Rs_si { result, lhs, rhs } => {
            by_copy_then_ss_wb(MINI_I64_ADD_SS_WB, BinOp::I64Add, result, lhs, rhs, m, res);
        },
        IntOp::I64Add_Rs_rs { result, rhs } => {
            by_rs_wb(MINI_I64_ADD_RS_WB, BinOp::I64Add, result, rhs, m, res);
        },
        IntOp::I64Add_Rs_ri { result, rhs } => {
            by_spill_copy_then_ss_wb(MINI_I64_ADD_SS_WB, BinOp::I64Add, result, rhs, m, res);
        },
        IntOp::I64Add_Rs_ss { result, lhs, rhs } => {
            by_ss_wb(MINI_I64_ADD_SS_WB, BinOp::I64Add, result, lhs, rhs, m, res);
        },
        IntOp::I64Add_Rss { lhs, rhs } => {
            by_ss(MINI_I64_ADD_SS_WR, BinOp::I64Add, lhs, rhs, m, res);
        },
        IntOp::I64Add_Rrs { rhs } => by_rs(MINI_I64_ADD_RS_WR, BinOp::I64Add, rhs, m, res),
        IntOp::I64Add_Rsi { lhs, rhs } => {
            by_copy_then_ss_wb_scratch(MINI_I64_ADD_SS_WB, BinOp::I64Add, lhs, rhs, m, res);
        },
        IntOp::I64Add_Rri { rhs } => {
            by_copy_then_rs_wb_scratch(MINI_I64_ADD_RS_WB, BinOp::I64Add, rhs, m, res);
        },
        IntOp::I64Sub_Rss { lhs, rhs } => {
            by_ss(MINI_I64_SUB_SS_WR, BinOp::I64Sub, lhs, rhs, m, res);
        },
        IntOp::I64Sub_Rrs { rhs } => by_rs(MINI_I64_SUB_RS_WR, BinOp::I64Sub, rhs, m, res),
        IntOp::I64Sub_Rsr { lhs } => by_sr(MINI_I64_SUB_SR_WR, BinOp::I64Sub, lhs, m, res),
        IntOp::I64Sub_Ris { lhs, rhs } => {
            by_copy_then_ss_lhs(MINI_I64_SUB_SS_WR, BinOp::I64Sub, lhs, rhs, m, res);
        },
        IntOp::I64Sub_Rir { lhs } => {
            by_swap_then_rs(MINI_I64_SUB_RS_WR, BinOp::I64Sub, lhs, m, res);
        },
        IntOp::I64Mul_Rss { lhs, rhs } => {
            by_ss(MINI_I64_MUL_SS_WR, BinOp::I64Mul, lhs, rhs, m, res);
        },
        IntOp::I64Mul_Rrs { rhs } => by_rs(MINI_I64_MUL_RS_WR, BinOp::I64Mul, rhs, m, res),
        IntOp::I64Mul_Rsi { lhs, rhs } => {
            by_copy_then_ss_rhs(MINI_I64_MUL_SS_WR, BinOp::I64Mul, lhs, rhs, m, res);
        },
        IntOp::I64Mul_Rri { rhs } => {
            BinOp::I64Mul.lemma_commutes(rhs, m.ireg);
            by_swap_then_rs(MINI_I64_MUL_RS_WR, BinOp::I64Mul, rhs, m, res);
        },
        IntOp::I64BitAnd_Rsi { lhs, rhs } => {
            by_si(MINI_I64_AND_SI_WR, BinOp::I64And, lhs, rhs, m, res);
        },
        IntOp::I64BitAnd_Rri { rhs } => by_ri(MINI_I64_AND_RI_WR, BinOp::I64And, rhs, m, res),
        IntOp::I64BitOr_Rss { lhs, rhs } => {
            by_ss(MINI_I64_OR_SS_WR, BinOp::I64Or, lhs, rhs, m, res);
        },
        IntOp::I64BitOr_Rrs { rhs } => by_rs(MINI_I64_OR_RS_WR, BinOp::I64Or, rhs, m, res),
        IntOp::I64BitOr_Rsi { lhs, rhs } => {
            by_load_then_ri(MINI_I64_OR_RI_WR, BinOp::I64Or, lhs, rhs, m, res);
        },
        IntOp::I64BitOr_Rri { rhs } => {
            BinOp::I64Or.lemma_commutes(rhs, m.ireg);
            by_swap_then_rs(MINI_I64_OR_RS_WR, BinOp::I64Or, rhs, m, res);
        },
        IntOp::I64BitXor_Rss { lhs, rhs } => {
            by_ss(MINI_I64_XOR_SS_WR, BinOp::I64Xor, lhs, rhs, m, res);
        },
        IntOp::I64BitXor_Rrs { rhs } => by_rs(MINI_I64_XOR_RS_WR, BinOp::I64Xor, rhs, m, res),
        IntOp::I64BitXor_Rri { rhs } => {
            BinOp::I64Xor.lemma_commutes(rhs, m.ireg);
            by_swap_then_rs(MINI_I64_XOR_RS_WR, BinOp::I64Xor, rhs, m, res);
        },
    }
}

/// The words of a comparison do what the comparison does.
#[verifier::rlimit(40)]
pub(crate) proof fn lemma_compare<W>(op: CompareOp, m: Machine<W>, res: Residuals<W>)
    ensures
        does(op.lowering(), op.action(), m, res),
{
    lemma_codes();
    match op {
        CompareOp::I32Eq_Rss { lhs, rhs } => {
            by_ss(MINI_I32_EQ_SS_R, BinOp::I32Eq, lhs, rhs, m, res);
        },
        CompareOp::I32Eq_Rrs { rhs } => by_rs(MINI_I32_EQ_RS_R, BinOp::I32Eq, rhs, m, res),
        CompareOp::I32Eq_Rsi { lhs, rhs } => {
            by_copy_then_ss_rhs(MINI_I32_EQ_SS_R, BinOp::I32Eq, lhs, rhs as i64, m, res);
        },
        CompareOp::I32Eq_Rri { rhs } => {
            by_copy_then_rs(MINI_I32_EQ_RS_R, BinOp::I32Eq, rhs as i64, m, res);
        },
        CompareOp::I32NotEq_Rrs { rhs } => by_rs(MINI_I32_NE_RS_R, BinOp::I32Ne, rhs, m, res),
        CompareOp::I32NotEq_Rsi { lhs, rhs } => {
            by_copy_then_ss_rhs(MINI_I32_NE_SS_R, BinOp::I32Ne, lhs, rhs as i64, m, res);
        },
        CompareOp::I32Lt_Rrs { rhs } => by_rs(MINI_I32_LT_RS_R, BinOp::I32Lt, rhs, m, res),
        CompareOp::I32Lt_Rsr { lhs } => by_sr(MINI_I32_LT_SR_R, BinOp::I32Lt, lhs, m, res),
        CompareOp::I32Lt_Rsi { lhs, rhs } => {
            by_si(MINI_I32_LT_SI_R, BinOp::I32Lt, lhs, rhs as i64, m, res);
        },
        CompareOp::I32Lt_Ris { lhs, rhs } => {
            by_copy_then_ss_lhs(MINI_I32_LT_SS_R, BinOp::I32Lt, lhs as i64, rhs, m, res);
        },
        CompareOp::I32Le_Rrs { rhs } => by_rs(MINI_I32_LE_RS_R, BinOp::I32Le, rhs, m, res),
        CompareOp::I32Le_Rsi { lhs, rhs } => {
            by_copy_then_ss_rhs(MINI_I32_LE_SS_R, BinOp::I32Le, lhs, rhs as i64, m, res);
        },
        CompareOp::I32Le_Ris { lhs, rhs } => {
            by_copy_then_ss_lhs(MINI_I32_LE_SS_R, BinOp::I32Le, lhs as i64, rhs, m, res);
        },
        CompareOp::U32Lt_Rrs { rhs } => by_rs(MINI_U32_LT_RS_R, BinOp::U32Lt, rhs, m, res),
        CompareOp::U32Lt_Rsi { lhs, rhs } => {
            by_copy_then_ss_rhs(MINI_U32_LT_SS_R, BinOp::U32Lt, lhs, rhs as i64, m, res);
        },
        CompareOp::U32Lt_Ris { lhs, rhs } => {
            by_copy_then_ss_lhs(MINI_U32_LT_SS_R, BinOp::U32Lt, lhs as i64, rhs, m, res);
        },
        CompareOp::U32Le_Rrs { rhs } => by_rs(MINI_U32_LE_RS_R, BinOp::U32Le, rhs, m, res),
        CompareOp::U32Le_Rsi { lhs, rhs } => {
            by_copy_then_ss_rhs(MINI_U32_LE_SS_R, BinOp::U32Le, lhs, rhs as i64, m, res);
        },
        CompareOp::U32Le_Ris { lhs, rhs } => {
            by_copy_then_ss_lhs(MINI_U32_LE_SS_R, BinOp::U32Le, lhs as i64, rhs, m, res);
        },
        CompareOp::I64Eq_Rrs { rhs } => by_rs(MINI_I64_EQ_RS_R, BinOp::I64Eq, rhs, m, res),
        CompareOp::I64Eq_Rsi { lhs, rhs } => {
            by_copy_then_ss_rhs(MINI_I64_EQ_SS_R, BinOp::I64Eq, lhs, rhs, m, res);
        },
        CompareOp::I64Eq_Rri { rhs } => {
            by_copy_then_rs(MINI_I64_EQ_RS_R, BinOp::I64Eq, rhs, m, res);
        },
        CompareOp::I64NotEq_Rrs { rhs } => by_rs(MINI_I64_NE_RS_R, BinOp::I64Ne, rhs, m, res),
        CompareOp::I64NotEq_Rsi { lhs, rhs } => {
            by_copy_then_ss_rhs(MINI_I64_NE_SS_R, BinOp::I64Ne, lhs, rhs, m, res);
        },
        CompareOp::I64Lt_Rss { lhs, rhs } => {
            by_ss(MINI_I64_LT_SS_R, BinOp::I64Lt, lhs, rhs, m, res);
        },
        CompareOp::I64Lt_Rrs { rhs } => by_rs(MINI_I64_LT_RS_R, BinOp::I64Lt, rhs, m, res),
        CompareOp::I64Lt_Rsr { lhs } => {
            by_spill_then_ss_rhs(MINI_I64_LT_SS_R, BinOp::I64Lt, lhs, m, res);
        },
        CompareOp::I64Lt_Rsi { lhs, rhs } => {
            by_si(MINI_I64_LT_SI_R, BinOp::I64Lt, lhs, rhs, m, res);
        },
        CompareOp::I64Lt_Rri { rhs } => {
            by_spill_then_si(MINI_I64_LT_SI_R, BinOp::I64Lt, rhs, m, res);
        },
        CompareOp::I64Lt_Ris { lhs, rhs } => {
            by_is(MINI_I64_LT_IS_R, BinOp::I64Lt, lhs, rhs, m, res);
        },
        CompareOp::I64Le_Rsi { lhs, rhs } => {
            by_copy_then_ss_rhs(MINI_I64_LE_SS_R, BinOp::I64Le, lhs, rhs, m, res);
        },
        CompareOp::I64Le_Ris { lhs, rhs } => {
            by_copy_then_ss_lhs(MINI_I64_LE_SS_R, BinOp::I64Le, lhs, rhs, m, res);
        },
        CompareOp::U64Lt_Rsi { lhs, rhs } => {
            by_copy_then_ss_rhs(MINI_U64_LT_SS_R, BinOp::U64Lt, lhs, rhs as i64, m, res);
        },
        CompareOp::U64Lt_Ris { lhs, rhs } => {
            by_copy_then_ss_lhs(MINI_U64_LT_SS_R, BinOp::U64Lt, lhs as i64, rhs, m, res);
        },
        CompareOp::U64Le_Rsi { lhs, rhs } => {
            by_copy_then_ss_rhs(MINI_U64_LE_SS_R, BinOp::U64Le, lhs, rhs as i64, m, res);
        },
        CompareOp::U64Le_Ris { lhs, rhs } => {
            by_copy_then_ss_lhs(MINI_U64_LE_SS_R, BinOp::U64Le, lhs as i64, rhs, m, res);
        },
    }
}

/// What the words of a branch do.
#[verifier::rlimit(40)]
pub(crate) proof fn lemma_branch<W>(op: BranchOp, m: Machine<W>, res: Residuals<W>)
    ensures
        does_but_ireg(op.lowering(), op.effect(), m, res),
        op.keeps_ireg() ==> does(op.lowering(), op.effect(), m, res),
{
    lemma_codes();
    match op {
        BranchOp::Branch { offset } => by_br(offset, m, res),
        BranchOp::BranchI32Eq_Rs { offset, rhs } => {
            by_spill_then_br_ss(MINI_BR_I64_EQ_SS, BinOp::I64Eq, rhs, offset, m, res);
        },
        BranchOp::BranchI32Eq_Si { offset, lhs, rhs } => {
            by_br_si(MINI_BR_I64_EQ_SI, BinOp::I64Eq, lhs, rhs as i64, offset, m, res);
        },
        BranchOp::BranchI32Eq_Ri { offset, rhs } => {
            by_spill_then_br_si(MINI_BR_I64_EQ_SI, BinOp::I64Eq, rhs as i64, offset, m, res);
        },
        BranchOp::BranchI32NotEq_Rs { offset, rhs } => {
            by_spill_then_br_ss(MINI_BR_I64_NE_SS, BinOp::I64Ne, rhs, offset, m, res);
        },
        BranchOp::BranchI32NotEq_Si { offset, lhs, rhs } => {
            by_load_then_br_ri(MINI_BR_I32_NE_RI, BinOp::I32Ne, lhs, rhs as i64, offset, m, res);
        },
        BranchOp::BranchI32NotEq_Ri { offset, rhs } => {
            by_br_ri(MINI_BR_I32_NE_RI, BinOp::I32Ne, rhs as i64, offset, m, res);
        },
        BranchOp::BranchI32Lt_Si { offset, lhs, rhs } => {
            by_br_si(MINI_BR_I32_LT_SI, BinOp::I32Lt, lhs, rhs as i64, offset, m, res);
        },
        BranchOp::BranchI32Lt_Ri { offset, rhs } => {
            by_copy_then_test_rs(MINI_I32_LT_RS_R, BinOp::I32Lt, rhs as i64, offset, m, res);
        },
        BranchOp::BranchI32Le_Ss { offset, lhs, rhs } => {
            by_br_ss(MINI_BR_I32_LE_SS, BinOp::I32Le, lhs, rhs, offset, m, res);
        },
        BranchOp::BranchU32Lt_Ss { offset, lhs, rhs } => {
            by_test_ss(MINI_U32_LT_SS_R, BinOp::U32Lt, lhs, rhs, offset, m, res);
        },
        BranchOp::BranchU32Lt_Rs { offset, rhs } => {
            by_spill_then_test_lhs(MINI_U32_LT_SS_R, BinOp::U32Lt, rhs, offset, m, res);
        },
        BranchOp::BranchU32Lt_Sr { offset, lhs } => {
            by_spill_then_test_rhs(MINI_U32_LT_SS_R, BinOp::U32Lt, lhs, offset, m, res);
        },
        BranchOp::BranchU32Lt_Si { offset, lhs, rhs } => {
            by_copy_then_test_ss(MINI_U32_LT_SS_R, BinOp::U32Lt, lhs, rhs as i64, offset, m, res);
        },
        BranchOp::BranchU32Lt_Ir { offset, lhs } => {
            by_copy_spill_then_test(MINI_U32_LT_SS_R, BinOp::U32Lt, lhs as i64, offset, m, res);
        },
        BranchOp::BranchU32Le_Ss { offset, lhs, rhs } => {
            by_br_ss(MINI_BR_U32_LE_SS, BinOp::U32Le, lhs, rhs, offset, m, res);
        },
        BranchOp::BranchU32Le_Rs { offset, rhs } => {
            by_spill_then_br_ss(MINI_BR_U32_LE_SS, BinOp::U32Le, rhs, offset, m, res);
        },
        BranchOp::BranchU32Le_Sr { offset, lhs } => {
            by_spill_then_test_rhs(MINI_U32_LE_SS_R, BinOp::U32Le, lhs, offset, m, res);
        },
        BranchOp::BranchU32Le_Ir { offset, lhs } => {
            by_copy_spill_then_test(MINI_U32_LE_SS_R, BinOp::U32Le, lhs as i64, offset, m, res);
        },
        BranchOp::BranchI64Eq_Ss { offset, lhs, rhs } => {
            by_br_ss(MINI_BR_I64_EQ_SS, BinOp::I64Eq, lhs, rhs, offset, m, res);
        },
        BranchOp::BranchI64Eq_Si { offset, lhs, rhs } => {
            by_br_si(MINI_BR_I64_EQ_SI, BinOp::I64Eq, lhs, rhs, offset, m, res);
        },
        BranchOp::BranchI64Eq_Ri { offset, rhs } => {
            by_spill_then_br_si(MINI_BR_I64_EQ_SI, BinOp::I64Eq, rhs, offset, m, res);
        },
        BranchOp::BranchI64NotEq_Ri { offset, rhs } => {
            by_br_ri(MINI_BR_I64_NE_RI, BinOp::I64Ne, rhs, offset, m, res);
        },
        BranchOp::BranchI64Lt_Rs { offset, rhs } => {
            by_test_rs(MINI_I64_LT_RS_R, BinOp::I64Lt, rhs, offset, m, res);
        },
        BranchOp::BranchI64Lt_Ir { offset, lhs } => {
            by_br_ir(MINI_BR_I64_LT_IR, BinOp::I64Lt, lhs, offset, m, res);
        },
        BranchOp::BranchI64Le_Ss { offset, lhs, rhs } => {
            by_br_ss(MINI_BR_I64_LE_SS, BinOp::I64Le, lhs, rhs, offset, m, res);
        },
        BranchOp::BranchI64Le_Rs { offset, rhs } => {
            by_spill_then_test_lhs(MINI_I64_LE_SS_R, BinOp::I64Le, rhs, offset, m, res);
        },
        BranchOp::BranchI64Le_Si { offset, lhs, rhs } => {
            by_br_si(MINI_BR_I64_LE_SI, BinOp::I64Le, lhs, rhs, offset, m, res);
        },
        BranchOp::BranchU64Lt_Si { offset, lhs, rhs } => {
            by_copy_then_test_ss(MINI_U64_LT_SS_R, BinOp::U64Lt, lhs, rhs as i64, offset, m, res);
        },
        BranchOp::BranchU64Lt_Is { offset, lhs, rhs } => {
            by_copy_then_br_ss(MINI_BR_U64_LT_SS, BinOp::U64Lt, lhs as i64, rhs, offset, m, res);
        },
        BranchOp::BranchU64Lt_Ir { offset, lhs } => {
            by_copy_spill_then_test(MINI_U64_LT_SS_R, BinOp::U64Lt, lhs as i64, offset, m, res);
        },
    }
}

/// Sign-extended 32-bit values are equal if their low 32 bits are.
proof fn lemma_canonical(a: i64, b: i64)
    requires
        canonical(a),
        canonical(b),
    ensures
        BinOp::I32Eq.eval(a, b) == BinOp::I64Eq.eval(a, b),
        BinOp::I32Ne.eval(a, b) == BinOp::I64Ne.eval(a, b),
{
    reveal(BinOp::eval);
}

/// With sign-extended operands the words test what the branch tests.
pub(crate) proof fn lemma_branch_faithful<W>(op: BranchOp, m: Machine<W>, res: Residuals<W>)
    requires
        op.operands_canonical(m),
    ensures
        perform(op.effect(), m, res) == perform(op.action(), m, res),
{
    match op {
        BranchOp::BranchI32Eq_Rs { rhs, .. } => lemma_canonical(m.ireg, m.slot(rhs)),
        BranchOp::BranchI32Eq_Si { lhs, rhs, .. } => lemma_canonical(m.slot(lhs), rhs as i64),
        BranchOp::BranchI32Eq_Ri { rhs, .. } => lemma_canonical(m.ireg, rhs as i64),
        BranchOp::BranchI32NotEq_Rs { rhs, .. } => lemma_canonical(m.ireg, m.slot(rhs)),
        _ => {},
    }
}

} // verus!
