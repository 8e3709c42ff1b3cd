//! Float arithmetic, comparisons and functions of one float.
//!
//! Floats appear as bit patterns. The accumulator is the left operand of the kernel's
//! instructions. Sums, minima and maxima are commutative, so their forms with the
//! accumulator on the right use the same instruction; copysign and the comparisons have
//! selectors for the swapped order.

use crate::action::{
    Action, FloatBin, FloatCompare, FloatUnary, FloatWidth, Machine, Residuals, Src,
};
use crate::mini::{
    MINI_COPY_RS, MINI_COPY_SI, MINI_COPY_S_F32R, MINI_COPY_S_FR, MINI_F32_ARITH_RS,
    MINI_F32_CMP_RS_R, MINI_F32_MINMAX_RS, MINI_F32_UNARY_S, MINI_F64_ARITH_RS, MINI_F64_CMP_RS_R,
    MINI_F64_MINMAX_RS, MINI_F64_REINTERP_I64, MINI_F64_UNARY_S, MINI_I32_EQ_RS_R,
};
use crate::word::Word;
use crate::word::Word::{Code, Imm, Scratch, Slot};
use vstd::prelude::*;

verus! {

/// A float operation, for either width: `freg` is the accumulator of that width.
#[allow(non_camel_case_types)]
#[derive(Clone, Copy, Debug, PartialEq, Eq, Structural)]
pub enum FloatOp {
    /// `freg = freg + slots[rhs]`.
    Add_Rrs { rhs: u16 },
    /// `freg = slots[lhs] + freg`.
    Add_Rsr { lhs: u16 },
    /// `freg = freg + bits`.
    Add_Rri { bits: u64 },
    /// `freg = freg - slots[rhs]`.
    Sub_Rrs { rhs: u16 },
    /// `freg = freg - bits`.
    Sub_Rri { bits: u64 },
    /// `freg = freg * slots[rhs]`.
    Mul_Rrs { rhs: u16 },
    /// `freg = freg * bits`.
    Mul_Rri { bits: u64 },
    /// `freg = freg / slots[rhs]`.
    Div_Rrs { rhs: u16 },
    /// `freg = freg / bits`.
    Div_Rri { bits: u64 },
    /// `freg = min(freg, slots[rhs])`.
    Min_Rrs { rhs: u16 },
    /// `freg = min(slots[lhs], freg)`.
    Min_Rsr { lhs: u16 },
    /// `freg = min(freg, bits)`.
    Min_Rri { bits: u64 },
    /// `freg = max(freg, slots[rhs])`.
    Max_Rrs { rhs: u16 },
    /// `freg = max(slots[lhs], freg)`.
    Max_Rsr { lhs: u16 },
    /// `freg = max(freg, bits)`.
    Max_Rri { bits: u64 },
    /// `freg = copysign(freg, slots[rhs])`.
    Copysign_Rrs { rhs: u16 },
    /// `freg = copysign(slots[lhs], freg)`.
    Copysign_Rsr { lhs: u16 },
    /// `ireg = freg < slots[rhs]`.
    Lt_Rrs { rhs: u16 },
    /// `ireg = slots[lhs] < freg`.
    Lt_Rsr { lhs: u16 },
    /// `ireg = freg <= slots[rhs]`.
    Le_Rrs { rhs: u16 },
    /// `ireg = slots[lhs] <= freg`.
    Le_Rsr { lhs: u16 },
    /// `ireg = freg == slots[rhs]`.
    Eq_Rrs { rhs: u16 },
    /// `ireg = freg != slots[rhs]`.
    NotEq_Rrs { rhs: u16 },
    /// `freg = op(slots[value])`.
    Unary_Rs { op: FloatUnary, value: u16 },
    /// `freg = op(freg)`.
    Unary_Rr { op: FloatUnary },
}

impl FloatWidth {
    /// The opcode of sums, differences, products and quotients.
    pub open spec fn spec_arith_code(self) -> i64 {
        match self {
            FloatWidth::F32 => MINI_F32_ARITH_RS,
            FloatWidth::F64 => MINI_F64_ARITH_RS,
        }
    }

    /// The opcode of sums, differences, products and quotients.
    #[verifier::when_used_as_spec(spec_arith_code)]
    pub fn arith_code(self) -> (code: i64)
        ensures
            code == self.arith_code(),
    {
        match self {
            FloatWidth::F32 => MINI_F32_ARITH_RS,
            FloatWidth::F64 => MINI_F64_ARITH_RS,
        }
    }

    /// The opcode of minima, maxima and changes of sign.
    pub open spec fn spec_minmax_code(self) -> i64 {
        match self {
            FloatWidth::F32 => MINI_F32_MINMAX_RS,
            FloatWidth::F64 => MINI_F64_MINMAX_RS,
        }
    }

    /// The opcode of minima, maxima and changes of sign.
    #[verifier::when_used_as_spec(spec_minmax_code)]
    pub fn minmax_code(self) -> (code: i64)
        ensures
            code == self.minmax_code(),
    {
        match self {
            FloatWidth::F32 => MINI_F32_MINMAX_RS,
            FloatWidth::F64 => MINI_F64_MINMAX_RS,
        }
    }

    /// The opcode of comparisons.
    pub open spec fn spec_compare_code(self) -> i64 {
        match self {
            FloatWidth::F32 => MINI_F32_CMP_RS_R,
            FloatWidth::F64 => MINI_F64_CMP_RS_R,
        }
    }

    /// The opcode of comparisons.
    #[verifier::when_used_as_spec(spec_compare_code)]
    pub fn compare_code(self) -> (code: i64)
        ensures
            code == self.compare_code(),
    {
        match self {
            FloatWidth::F32 => MINI_F32_CMP_RS_R,
            FloatWidth::F64 => MINI_F64_CMP_RS_R,
        }
    }

    /// The opcode of functions of one float.
    pub open spec fn spec_unary_code(self) -> i64 {
        match self {
            FloatWidth::F32 => MINI_F32_UNARY_S,
            FloatWidth::F64 => MINI_F64_UNARY_S,
        }
    }

    /// The opcode of functions of one float.
    #[verifier::when_used_as_spec(spec_unary_code)]
    pub fn unary_code(self) -> (code: i64)
        ensures
            code == self.unary_code(),
    {
        match self {
            FloatWidth::F32 => MINI_F32_UNARY_S,
            FloatWidth::F64 => MINI_F64_UNARY_S,
        }
    }

    /// The opcode that copies the accumulator into a slot.
    pub open spec fn spec_spill_code(self) -> i64 {
        match self {
            FloatWidth::F32 => MINI_COPY_S_F32R,
            FloatWidth::F64 => MINI_COPY_S_FR,
        }
    }

    /// The opcode that copies the accumulator into a slot.
    #[verifier::when_used_as_spec(spec_spill_code)]
    pub fn spill_code(self) -> (code: i64)
        ensures
            code == self.spill_code(),
    {
        match self {
            FloatWidth::F32 => MINI_COPY_S_F32R,
            FloatWidth::F64 => MINI_COPY_S_FR,
        }
    }

    /// The accumulator.
    pub open spec fn src(self) -> Src {
        match self {
            FloatWidth::F32 => Src::Freg32,
            FloatWidth::F64 => Src::Freg64,
        }
    }
}

impl FloatUnary {
    /// The selector of the function.
    pub open spec fn spec_selector(self) -> i64 {
        match self {
            FloatUnary::Abs => 0,
            FloatUnary::Neg => 1,
            FloatUnary::Sqrt => 2,
            FloatUnary::Ceil => 3,
            FloatUnary::Floor => 4,
            FloatUnary::Trunc => 5,
            FloatUnary::Nearest => 6,
        }
    }

    /// The selector of the function.
    #[verifier::when_used_as_spec(spec_selector)]
    pub fn selector(self) -> (sel: i64)
        ensures
            sel == self.selector(),
    {
        match self {
            FloatUnary::Abs => 0,
            FloatUnary::Neg => 1,
            FloatUnary::Sqrt => 2,
            FloatUnary::Ceil => 3,
            FloatUnary::Floor => 4,
            FloatUnary::Trunc => 5,
            FloatUnary::Nearest => 6,
        }
    }
}

/// `freg = op(lhs, rhs)`.
pub open spec fn float_bin(width: FloatWidth, op: FloatBin, lhs: Src, rhs: Src) -> Action {
    Action::FloatBin { width, op, lhs, rhs }
}

/// `ireg = op(lhs, rhs)`.
pub open spec fn float_compare(width: FloatWidth, op: FloatCompare, lhs: Src, rhs: Src) -> Action {
    Action::FloatCompare { width, op, lhs, rhs, negate: false }
}

impl FloatOp {
    /// The words of the operation.
    pub open spec fn lowering(self, width: FloatWidth) -> Seq<Word> {
        match self {
            FloatOp::Add_Rrs { rhs } => seq![Code(width.arith_code()), Imm(0), Slot(rhs)],
            FloatOp::Add_Rsr { lhs } => seq![Code(width.arith_code()), Imm(0), Slot(lhs)],
            FloatOp::Add_Rri { bits } => seq![
                Code(MINI_COPY_SI), Scratch(0), Imm(bits as i64),
                Code(width.arith_code()), Imm(0), Scratch(0),
            ],
            FloatOp::Sub_Rrs { rhs } => seq![Code(width.arith_code()), Imm(1), Slot(rhs)],
            FloatOp::Sub_Rri { bits } => seq![
                Code(MINI_COPY_SI), Scratch(0), Imm(bits as i64),
                Code(width.arith_code()), Imm(1), Scratch(0),
            ],
            FloatOp::Mul_Rrs { rhs } => seq![Code(width.arith_code()), Imm(2), Slot(rhs)],
            FloatOp::Mul_Rri { bits } => seq![
                Code(MINI_COPY_SI), Scratch(0), Imm(bits as i64),
                Code(width.arith_code()), Imm(2), Scratch(0),
            ],
            FloatOp::Div_Rrs { rhs } => seq![Code(width.arith_code()), Imm(3), Slot(rhs)],
            FloatOp::Div_Rri { bits } => seq![
                Code(MINI_COPY_SI), Scratch(0), Imm(bits as i64),
                Code(width.arith_code()), Imm(3), Scratch(0),
            ],
            FloatOp::Min_Rrs { rhs } => seq![Code(width.minmax_code()), Imm(0), Slot(rhs)],
            FloatOp::Min_Rsr { lhs } => seq![Code(width.minmax_code()), Imm(0), Slot(lhs)],
            FloatOp::Min_Rri { bits } => seq![
                Code(MINI_COPY_SI), Scratch(0), Imm(bits as i64),
                Code(width.minmax_code()), Imm(0), Scratch(0),
            ],
            FloatOp::Max_Rrs { rhs } => seq![Code(width.minmax_code()), Imm(1), Slot(rhs)],
            FloatOp::Max_Rsr { lhs } => seq![Code(width.minmax_code()), Imm(1), Slot(lhs)],
            FloatOp::Max_Rri { bits } => seq![
                Code(MINI_COPY_SI), Scratch(0), Imm(bits as i64),
                Code(width.minmax_code()), Imm(1), Scratch(0),
            ],
            FloatOp::Copysign_Rrs { rhs } => seq![Code(width.minmax_code()), Imm(2), Slot(rhs)],
            FloatOp::Copysign_Rsr { lhs } => seq![Code(width.minmax_code()), Imm(3), Slot(lhs)],
            FloatOp::Lt_Rrs { rhs } => seq![Code(width.compare_code()), Imm(0), Slot(rhs)],
            FloatOp::Lt_Rsr { lhs } => seq![Code(width.compare_code()), Imm(4), Slot(lhs)],
            FloatOp::Le_Rrs { rhs } => seq![Code(width.compare_code()), Imm(1), Slot(rhs)],
            FloatOp::Le_Rsr { lhs } => seq![Code(width.compare_code()), Imm(5), Slot(lhs)],
            FloatOp::Eq_Rrs { rhs } => seq![Code(width.compare_code()), Imm(2), Slot(rhs)],
            FloatOp::NotEq_Rrs { rhs } => seq![Code(width.compare_code()), Imm(3), Slot(rhs)],
            FloatOp::Unary_Rs { op, value } => seq![
                Code(width.unary_code()), Imm(op.selector()), Slot(value),
            ],
            FloatOp::Unary_Rr { op } => seq![
                Code(width.spill_code()), Scratch(0),
                Code(width.unary_code()), Imm(op.selector()), Scratch(0),
            ],
        }
    }

    /// Lowers the operation.
    pub fn lower(self, width: FloatWidth) -> (words: Vec<Word>)
        ensures
            words@ == self.lowering(width),
    {
        let words = match self {
            FloatOp::Add_Rrs { rhs } => vec![Code(width.arith_code()), Imm(0), Slot(rhs)],
            FloatOp::Add_Rsr { lhs } => vec![Code(width.arith_code()), Imm(0), Slot(lhs)],
            FloatOp::Add_Rri { bits } => vec![
                Code(MINI_COPY_SI), Scratch(0), Imm(bits as i64),
                Code(width.arith_code()), Imm(0), Scratch(0),
            ],
            FloatOp::Sub_Rrs { rhs } => vec![Code(width.arith_code()), Imm(1), Slot(rhs)],
            FloatOp::Sub_Rri { bits } => vec![
                Code(MINI_COPY_SI), Scratch(0), Imm(bits as i64),
                Code(width.arith_code()), Imm(1), Scratch(0),
            ],
            FloatOp::Mul_Rrs { rhs } => vec![Code(width.arith_code()), Imm(2), Slot(rhs)],
            FloatOp::Mul_Rri { bits } => vec![
                Code(MINI_COPY_SI), Scratch(0), Imm(bits as i64),
                Code(width.arith_code()), Imm(2), Scratch(0),
            ],
            FloatOp::Div_Rrs { rhs } => vec![Code(width.arith_code()), Imm(3), Slot(rhs)],
            FloatOp::Div_Rri { bits } => vec![
                Code(MINI_COPY_SI), Scratch(0), Imm(bits as i64),
                Code(width.arith_code()), Imm(3), Scratch(0),
            ],
            FloatOp::Min_Rrs { rhs } => vec![Code(width.minmax_code()), Imm(0), Slot(rhs)],
            FloatOp::Min_Rsr { lhs } => vec![Code(width.minmax_code()), Imm(0), Slot(lhs)],
            FloatOp::Min_Rri { bits } => vec![
                Code(MINI_COPY_SI), Scratch(0), Imm(bits as i64),
                Code(width.minmax_code()), Imm(0), Scratch(0),
            ],
            FloatOp::Max_Rrs { rhs } => vec![Code(width.minmax_code()), Imm(1), Slot(rhs)],
            FloatOp::Max_Rsr { lhs } => vec![Code(width.minmax_code()), Imm(1), Slot(lhs)],
            FloatOp::Max_Rri { bits } => vec![
                Code(MINI_COPY_SI), Scratch(0), Imm(bits as i64),
                Code(width.minmax_code()), Imm(1), Scratch(0),
            ],
            FloatOp::Copysign_Rrs { rhs } => vec![Code(width.minmax_code()), Imm(2), Slot(rhs)],
            FloatOp::Copysign_Rsr { lhs } => vec![Code(width.minmax_code()), Imm(3), Slot(lhs)],
            FloatOp::Lt_Rrs { rhs } => vec![Code(width.compare_code()), Imm(0), Slot(rhs)],
            FloatOp::Lt_Rsr { lhs } => vec![Code(width.compare_code()), Imm(4), Slot(lhs)],
            FloatOp::Le_Rrs { rhs } => vec![Code(width.compare_code()), Imm(1), Slot(rhs)],
            FloatOp::Le_Rsr { lhs } => vec![Code(width.compare_code()), Imm(5), Slot(lhs)],
            FloatOp::Eq_Rrs { rhs } => vec![Code(width.compare_code()), Imm(2), Slot(rhs)],
            FloatOp::NotEq_Rrs { rhs } => vec![Code(width.compare_code()), Imm(3), Slot(rhs)],
            FloatOp::Unary_Rs { op, value } => vec![
                Code(width.unary_code()), Imm(op.selector()), Slot(value),
            ],
            FloatOp::Unary_Rr { op } => vec![
                Code(width.spill_code()), Scratch(0),
                Code(width.unary_code()), Imm(op.selector()), Scratch(0),
            ],
        };
        assert(words@ =~= self.lowering(width));
        words
    }

    /// What the operation does.
    pub open spec fn action(self, width: FloatWidth) -> Action {
        match self {
            FloatOp::Add_Rrs { rhs } => {
                float_bin(width, FloatBin::Add, width.src(), Src::Slot(rhs))
            },
            FloatOp::Add_Rsr { lhs } => {
                float_bin(width, FloatBin::Add, Src::Slot(lhs), width.src())
            },
            FloatOp::Add_Rri { bits } => {
                float_bin(width, FloatBin::Add, width.src(), Src::Imm(bits as i64))
            },
            FloatOp::Sub_Rrs { rhs } => {
                float_bin(width, FloatBin::Sub, width.src(), Src::Slot(rhs))
            },
            FloatOp::Sub_Rri { bits } => {
                float_bin(width, FloatBin::Sub, width.src(), Src::Imm(bits as i64))
            },
            FloatOp::Mul_Rrs { rhs } => {
                float_bin(width, FloatBin::Mul, width.src(), Src::Slot(rhs))
            },
            FloatOp::Mul_Rri { bits } => {
                float_bin(width, FloatBin::Mul, width.src(), Src::Imm(bits as i64))
            },
            FloatOp::Div_Rrs { rhs } => {
                float_bin(width, FloatBin::Div, width.src(), Src::Slot(rhs))
            },
            FloatOp::Div_Rri { bits } => {
                float_bin(width, FloatBin::Div, width.src(), Src::Imm(bits as i64))
            },
            FloatOp::Min_Rrs { rhs } => {
                float_bin(width, FloatBin::Min, width.src(), Src::Slot(rhs))
            },
            FloatOp::Min_Rsr { lhs } => {
                float_bin(width, FloatBin::Min, Src::Slot(lhs), width.src())
            },
            FloatOp::Min_Rri { bits } => {
                float_bin(width, FloatBin::Min, width.src(), Src::Imm(bits as i64))
            },
            FloatOp::Max_Rrs { rhs } => {
                float_bin(width, FloatBin::Max, width.src(), Src::Slot(rhs))
            },
            FloatOp::Max_Rsr { lhs } => {
                float_bin(width, FloatBin::Max, Src::Slot(lhs), width.src())
            },
            FloatOp::Max_Rri { bits } => {
                float_bin(width, FloatBin::Max, width.src(), Src::Imm(bits as i64))
            },
            FloatOp::Copysign_Rrs { rhs } => {
                float_bin(width, FloatBin::Copysign, width.src(), Src::Slot(rhs))
            },
            FloatOp::Copysign_Rsr { lhs } => {
                float_bin(width, FloatBin::Copysign, Src::Slot(lhs), width.src())
            },
            FloatOp::Lt_Rrs { rhs } => {
                float_compare(width, FloatCompare::Lt, width.src(), Src::Slot(rhs))
            },
            FloatOp::Lt_Rsr { lhs } => {
                float_compare(width, FloatCompare::Lt, Src::Slot(lhs), width.src())
            },
            FloatOp::Le_Rrs { rhs } => {
                float_compare(width, FloatCompare::Le, width.src(), Src::Slot(rhs))
            },
            FloatOp::Le_Rsr { lhs } => {
                float_compare(width, FloatCompare::Le, Src::Slot(lhs), width.src())
            },
            FloatOp::Eq_Rrs { rhs } => {
                float_compare(width, FloatCompare::Eq, width.src(), Src::Slot(rhs))
            },
            FloatOp::NotEq_Rrs { rhs } => {
                float_compare(width, FloatCompare::NotEq, width.src(), Src::Slot(rhs))
            },
            FloatOp::Unary_Rs { op, value } => {
                Action::FloatUnary { width, op, value: Src::Slot(value) }
            },
            FloatOp::Unary_Rr { op } => Action::FloatUnary { width, op, value: width.src() },
        }
    }
}

impl FloatOp {
    /// What the words of the operation do: the accumulator is the left operand of sums, minima
    /// and maxima.
    pub open spec fn effect(self, width: FloatWidth) -> Action {
        match self {
            FloatOp::Add_Rsr { lhs } => {
                float_bin(width, FloatBin::Add, width.src(), Src::Slot(lhs))
            },
            FloatOp::Min_Rsr { lhs } => {
                float_bin(width, FloatBin::Min, width.src(), Src::Slot(lhs))
            },
            FloatOp::Max_Rsr { lhs } => {
                float_bin(width, FloatBin::Max, width.src(), Src::Slot(lhs))
            },
            _ => self.action(width),
        }
    }

    /// Whether the order of operands that the words swap does not matter: they swap those of
    /// sums, minima and maxima with the accumulator on the right.
    pub open spec fn order_free<W>(
        self,
        width: FloatWidth,
        m: Machine<W>,
        res: Residuals<W>,
    ) -> bool {
        match self {
            FloatOp::Add_Rsr { lhs } => res.order_free(
                width,
                FloatBin::Add,
                m.slot(lhs),
                m.value(width.src()),
            ),
            FloatOp::Min_Rsr { lhs } => res.order_free(
                width,
                FloatBin::Min,
                m.slot(lhs),
                m.value(width.src()),
            ),
            FloatOp::Max_Rsr { lhs } => res.order_free(
                width,
                FloatBin::Max,
                m.slot(lhs),
                m.value(width.src()),
            ),
            _ => true,
        }
    }
}

/// The f64 test `!(slots[lhs] <= slots[rhs])`, as a value.
#[allow(non_camel_case_types)]
#[derive(Clone, Copy, Debug, PartialEq, Eq, Structural)]
pub struct F64NotLe_Rss {
    pub lhs: u16,
    pub rhs: u16,
}

impl F64NotLe_Rss {
    /// The words of the operation: the left operand goes through the integer accumulator
    /// into the f64 accumulator, and the result of `<=` is compared with zero.
    pub open spec fn lowering(self) -> Seq<Word> {
        seq![
            Code(MINI_COPY_RS), Slot(self.lhs),
            Code(MINI_F64_REINTERP_I64),
            Code(MINI_F64_CMP_RS_R), Imm(1), Slot(self.rhs),
            Code(MINI_COPY_SI), Scratch(0), Imm(0),
            Code(MINI_I32_EQ_RS_R), Scratch(0),
        ]
    }

    /// Lowers the operation.
    pub fn lower(self) -> (words: Vec<Word>)
        ensures
            words@ == self.lowering(),
    {
        let words = vec![
            Code(MINI_COPY_RS), Slot(self.lhs),
            Code(MINI_F64_REINTERP_I64),
            Code(MINI_F64_CMP_RS_R), Imm(1), Slot(self.rhs),
            Code(MINI_COPY_SI), Scratch(0), Imm(0),
            Code(MINI_I32_EQ_RS_R), Scratch(0),
        ];
        assert(words@ =~= self.lowering());
        words
    }

    /// What the operation does.
    pub open spec fn action(self) -> Action {
        Action::FloatCompare {
            width: FloatWidth::F64,
            op: FloatCompare::Le,
            lhs: Src::Slot(self.lhs),
            rhs: Src::Slot(self.rhs),
            negate: true,
        }
    }
}

} // verus!
