//! What float operations and conversions leave behind.

use crate::action::{
    low32, wrap32, Conversion, FloatBin, FloatCompare, FloatWidth, Machine, Residuals,
};
use crate::kernel::run;
use crate::laws::lowering::law_effect;
use crate::laws::numeric::{lemma_convert, lemma_float};
use crate::ops::convert::ConvertOp;
use crate::ops::float::{F64NotLe_Rss, FloatOp};
use crate::ops::Op;
use vstd::prelude::*;

verus! {

/// 1 for a comparison that holds, 0 for one that does not.
pub open spec fn truth_of(b: bool) -> int {
    if b {
        1
    } else {
        0
    }
}

/// **Float operations.** The words of a float operation put the function of the operands into the
/// accumulator of their width, and a comparison puts 1 or 0 into the integer accumulator. The
/// operands are in the order of the operation, but for sums, minima and maxima with the
/// accumulator on the right, where the accumulator comes first. Nothing else changes.
#[verifier::rlimit(60)]
pub proof fn law_float<W>(op: FloatOp, width: FloatWidth, m: Machine<W>, res: Residuals<W>)
    ensures
        ({
            let (after, flow) = run(op.lowering(width), m, res);
            let acc = match width {
                FloatWidth::F32 => m.freg32,
                FloatWidth::F64 => m.freg64,
            };
            let freg = match op {
                FloatOp::Add_Rrs { rhs } => {
                    (res.float_bin)(width, FloatBin::Add, acc, m.slot(rhs))
                },
                FloatOp::Add_Rsr { lhs } => {
                    (res.float_bin)(width, FloatBin::Add, acc, m.slot(lhs))
                },
                FloatOp::Add_Rri { bits } => {
                    (res.float_bin)(width, FloatBin::Add, acc, bits as i64)
                },
                FloatOp::Sub_Rrs { rhs } => {
                    (res.float_bin)(width, FloatBin::Sub, acc, m.slot(rhs))
                },
                FloatOp::Sub_Rri { bits } => {
                    (res.float_bin)(width, FloatBin::Sub, acc, bits as i64)
                },
                FloatOp::Mul_Rrs { rhs } => {
                    (res.float_bin)(width, FloatBin::Mul, acc, m.slot(rhs))
                },
                FloatOp::Mul_Rri { bits } => {
                    (res.float_bin)(width, FloatBin::Mul, acc, bits as i64)
                },
                FloatOp::Div_Rrs { rhs } => {
                    (res.float_bin)(width, FloatBin::Div, acc, m.slot(rhs))
                },
                FloatOp::Div_Rri { bits } => {
                    (res.float_bin)(width, FloatBin::Div, acc, bits as i64)
                },
                FloatOp::Min_Rrs { rhs } => {
                    (res.float_bin)(width, FloatBin::Min, acc, m.slot(rhs))
                },
                FloatOp::Min_Rsr { lhs } => {
                    (res.float_bin)(width, FloatBin::Min, acc, m.slot(lhs))
                },
                FloatOp::Min_Rri { bits } => {
                    (res.float_bin)(width, FloatBin::Min, acc, bits as i64)
                },
                FloatOp::Max_Rrs { rhs } => {
                    (res.float_bin)(width, FloatBin::Max, acc, m.slot(rhs))
                },
                FloatOp::Max_Rsr { lhs } => {
                    (res.float_bin)(width, FloatBin::Max, acc, m.slot(lhs))
                },
                FloatOp::Max_Rri { bits } => {
                    (res.float_bin)(width, FloatBin::Max, acc, bits as i64)
                },
                FloatOp::Copysign_Rrs { rhs } => {
                    (res.float_bin)(width, FloatBin::Copysign, acc, m.slot(rhs))
                },
                FloatOp::Copysign_Rsr { lhs } => {
                    (res.float_bin)(width, FloatBin::Copysign, m.slot(lhs), acc)
                },
                FloatOp::Unary_Rs { op, value } => (res.float_unary)(width, op, m.slot(value)),
                FloatOp::Unary_Rr { op } => (res.float_unary)(width, op, acc),
                _ => acc,
            };
            &&& flow is Next
            &&& width is F32 ==> after.freg32 == freg && after.freg64 == m.freg64
            &&& width is F64 ==> after.freg64 == freg && after.freg32 == m.freg32
            &&& after.ireg == match op {
                FloatOp::Lt_Rrs { rhs } => {
                    truth_of((res.float_compare)(width, FloatCompare::Lt, acc, m.slot(rhs)))
                },
                FloatOp::Lt_Rsr { lhs } => {
                    truth_of((res.float_compare)(width, FloatCompare::Lt, m.slot(lhs), acc))
                },
                FloatOp::Le_Rrs { rhs } => {
                    truth_of((res.float_compare)(width, FloatCompare::Le, acc, m.slot(rhs)))
                },
                FloatOp::Le_Rsr { lhs } => {
                    truth_of((res.float_compare)(width, FloatCompare::Le, m.slot(lhs), acc))
                },
                FloatOp::Eq_Rrs { rhs } => {
                    truth_of((res.float_compare)(width, FloatCompare::Eq, acc, m.slot(rhs)))
                },
                FloatOp::NotEq_Rrs { rhs } => {
                    truth_of((res.float_compare)(width, FloatCompare::NotEq, acc, m.slot(rhs)))
                },
                _ => m.ireg as int,
            }
            &&& forall|s: u16| #[trigger] after.slot(s) == m.slot(s)
            &&& after.world == m.world
        }),
{
    lemma_float(op, width, m, res);
}

/// **The negated f64 comparison.** The words put 1 into the accumulator if the first slot is not
/// at most the second, and 0 if it is. They use up the f64 accumulator, and change nothing else.
pub proof fn law_not_le<W>(op: F64NotLe_Rss, m: Machine<W>, res: Residuals<W>)
    ensures
        ({
            let (after, flow) = run(op.lowering(), m, res);
            let le = (res.float_compare)(
                FloatWidth::F64,
                FloatCompare::Le,
                m.slot(op.lhs),
                m.slot(op.rhs),
            );
            &&& flow is Next
            &&& after.ireg == truth_of(!le)
            &&& forall|s: u16| #[trigger] after.slot(s) == m.slot(s)
            &&& after.freg32 == m.freg32
            &&& after.world == m.world
        }),
{
    law_effect(Op::F64NotLe(op), true, m, res);
}

/// **Conversions.** The words of a conversion put the converted operand into the accumulator of
/// the type that it converts to, and change nothing else but what the conversion does outside,
/// where it can trap. A reinterpretation moves bits.
#[verifier::rlimit(60)]
pub proof fn law_convert<W>(op: ConvertOp, m: Machine<W>, res: Residuals<W>)
    ensures
        ({
            let (after, flow) = run(op.lowering(), m, res);
            let freg = |w: FloatWidth|
                match w {
                    FloatWidth::F32 => m.freg32,
                    FloatWidth::F64 => m.freg64,
                };
            let converted = match op {
                ConvertOp::Convert_Rs { to, from, value } => {
                    Some((Conversion::Convert(to, from), m.slot(value)))
                },
                ConvertOp::Convert_Rr { to, from } => {
                    Some((Conversion::Convert(to, from), m.ireg))
                },
                ConvertOp::Trunc_Rs { from, to, value } => {
                    Some((Conversion::Trunc(from, to), m.slot(value)))
                },
                ConvertOp::Trunc_Rr { from, to } => {
                    Some((Conversion::Trunc(from, to), freg(from)))
                },
                ConvertOp::TruncSat_Rs { from, to, value } => {
                    Some((Conversion::TruncSat(from, to), m.slot(value)))
                },
                ConvertOp::TruncSat_Rr { from, to } => {
                    Some((Conversion::TruncSat(from, to), freg(from)))
                },
                ConvertOp::F64PromoteF32_Rs { value } => {
                    Some((Conversion::Promote, m.slot(value)))
                },
                ConvertOp::F64PromoteF32_Rr => Some((Conversion::Promote, m.freg32)),
                ConvertOp::F32DemoteF64_Rs { value } => {
                    Some((Conversion::Demote, m.slot(value)))
                },
                ConvertOp::F32DemoteF64_Rr => Some((Conversion::Demote, m.freg64)),
                _ => None,
            };
            let (world, v) = match converted {
                Some((conversion, x)) => (res.convert)(m.world, conversion, x),
                None => (m.world, 0i64),
            };
            &&& flow is Next
            &&& after.world == world
            &&& after.ireg == match op {
                ConvertOp::Trunc_Rs { .. } => v,
                ConvertOp::Trunc_Rr { .. } => v,
                ConvertOp::TruncSat_Rs { .. } => v,
                ConvertOp::TruncSat_Rr { .. } => v,
                ConvertOp::I32ReinterpretF32_Rr => wrap32(m.freg32 as int),
                ConvertOp::I64ReinterpretF64_Rr => m.freg64,
                _ => m.ireg,
            }
            &&& after.freg64 == match op {
                ConvertOp::Convert_Rs { to: FloatWidth::F64, .. } => v,
                ConvertOp::Convert_Rr { to: FloatWidth::F64, .. } => v,
                ConvertOp::F64PromoteF32_Rs { .. } => v,
                ConvertOp::F64PromoteF32_Rr => v,
                ConvertOp::F64ReinterpretI64_Rr => m.ireg,
                _ => m.freg64,
            }
            &&& after.freg32 == match op {
                ConvertOp::Convert_Rs { to: FloatWidth::F32, .. } => v,
                ConvertOp::Convert_Rr { to: FloatWidth::F32, .. } => v,
                ConvertOp::F32DemoteF64_Rs { .. } => v,
                ConvertOp::F32DemoteF64_Rr => v,
                ConvertOp::F32ReinterpretI32_Rr => low32(m.ireg as int) as i64,
                _ => m.freg32,
            }
            &&& forall|s: u16| #[trigger] after.slot(s) == m.slot(s)
        }),
{
    lemma_convert(op, m, res);
}

} // verus!
