//! Observation of a function: how far its operations lie in a known subset.
//!
//! The subset is smaller than what the prepass lowers in some families and larger in
//! others. A listing of a function shows its operations up to the first one outside.

use crate::action::FloatWidth;
use crate::ops::bits::BitsOp;
use crate::ops::convert::ConvertOp;
use crate::ops::copy::CopyOp;
use crate::ops::float::FloatOp;
use crate::ops::integer::IntOp;
use crate::ops::memory::{MemLoad, MemoryOp};
use crate::ops::Op;
use crate::stream::{OpAt, OpStream};
use vstd::prelude::*;

verus! {

impl Op {
    /// Whether the operation is in the observed subset.
    pub open spec fn spec_observed(self) -> bool {
        match self {
            Op::Copy(op) => match op {
                CopyOp::U64Copy_SNsM { .. } => false,
                CopyOp::F32Copy_Sr { .. } => false,
                _ => true,
            },
            Op::Int(op) => match op {
                IntOp::I64Mul_Rsi { .. } => false,
                _ => true,
            },
            Op::Bits(op) => match op {
                BitsOp::I32Rotl_Rsi { .. } => false,
                BitsOp::I32Rotr_Rsi { .. } => false,
                BitsOp::Count_Rs { .. } => false,
                BitsOp::Count_Rr { .. } => false,
                _ => true,
            },
            Op::Divide(_) => false,
            Op::Compare(_) => true,
            Op::Select(_) => true,
            Op::F32(op) => match op {
                FloatOp::Lt_Rrs { .. } => true,
                FloatOp::Lt_Rsr { .. } => true,
                FloatOp::Le_Rrs { .. } => true,
                FloatOp::Le_Rsr { .. } => true,
                FloatOp::Eq_Rrs { .. } => true,
                FloatOp::NotEq_Rrs { .. } => true,
                _ => false,
            },
            Op::F64(op) => match op {
                FloatOp::Add_Rrs { .. } => false,
                _ => true,
            },
            Op::F64NotLe(_) => true,
            Op::Convert(op) => match op {
                ConvertOp::Convert_Rs { to, .. } => to == FloatWidth::F64,
                ConvertOp::Convert_Rr { to, .. } => to == FloatWidth::F64,
                ConvertOp::Trunc_Rs { from, .. } => from == FloatWidth::F64,
                ConvertOp::Trunc_Rr { from, .. } => from == FloatWidth::F64,
                ConvertOp::TruncSat_Rs { from, .. } => from == FloatWidth::F64,
                ConvertOp::TruncSat_Rr { from, .. } => from == FloatWidth::F64,
                ConvertOp::I64ReinterpretF64_Rr => true,
                ConvertOp::F64ReinterpretI64_Rr => true,
                _ => false,
            },
            Op::Memory(op) => match op {
                MemoryOp::LoadMem0Offset16_Rr { load, .. } => load != MemLoad::F32,
                MemoryOp::F32StoreMem0Offset16_Sr { .. } => false,
                _ => true,
            },
            Op::Global(_) => false,
            Op::Branch(_) => true,
            Op::Control(_) => true,
            Op::Unlowered(_) => true,
            Op::Other(_) => false,
        }
    }

    /// Whether the operation is in the observed subset.
    #[verifier::when_used_as_spec(spec_observed)]
    pub fn observed(self) -> (yes: bool)
        ensures
            yes == self.observed(),
    {
        match self {
            Op::Copy(op) => match op {
                CopyOp::U64Copy_SNsM { .. } => false,
                CopyOp::F32Copy_Sr { .. } => false,
                _ => true,
            },
            Op::Int(op) => match op {
                IntOp::I64Mul_Rsi { .. } => false,
                _ => true,
            },
            Op::Bits(op) => match op {
                BitsOp::I32Rotl_Rsi { .. } => false,
                BitsOp::I32Rotr_Rsi { .. } => false,
                BitsOp::Count_Rs { .. } => false,
                BitsOp::Count_Rr { .. } => false,
                _ => true,
            },
            Op::Divide(_) => false,
            Op::Compare(_) => true,
            Op::Select(_) => true,
            Op::F32(op) => match op {
                FloatOp::Lt_Rrs { .. } => true,
                FloatOp::Lt_Rsr { .. } => true,
                FloatOp::Le_Rrs { .. } => true,
                FloatOp::Le_Rsr { .. } => true,
                FloatOp::Eq_Rrs { .. } => true,
                FloatOp::NotEq_Rrs { .. } => true,
                _ => false,
            },
            Op::F64(op) => match op {
                FloatOp::Add_Rrs { .. } => false,
                _ => true,
            },
            Op::F64NotLe(_) => true,
            Op::Convert(op) => match op {
                ConvertOp::Convert_Rs { to, .. } => to == FloatWidth::F64,
                ConvertOp::Convert_Rr { to, .. } => to == FloatWidth::F64,
                ConvertOp::Trunc_Rs { from, .. } => from == FloatWidth::F64,
                ConvertOp::Trunc_Rr { from, .. } => from == FloatWidth::F64,
                ConvertOp::TruncSat_Rs { from, .. } => from == FloatWidth::F64,
                ConvertOp::TruncSat_Rr { from, .. } => from == FloatWidth::F64,
                ConvertOp::I64ReinterpretF64_Rr => true,
                ConvertOp::F64ReinterpretI64_Rr => true,
                _ => false,
            },
            Op::Memory(op) => match op {
                MemoryOp::LoadMem0Offset16_Rr { load, .. } => load != MemLoad::F32,
                MemoryOp::F32StoreMem0Offset16_Sr { .. } => false,
                _ => true,
            },
            Op::Global(_) => false,
            Op::Branch(_) => true,
            Op::Control(_) => true,
            Op::Unlowered(_) => true,
            Op::Other(_) => false,
        }
    }
}

/// What an observation found.
#[derive(Debug)]
pub struct Observation {
    /// The leading operations of the subset, in order.
    pub known: Vec<OpAt>,
    /// The first operation outside of the subset, if there is one.
    pub stop: Option<OpAt>,
}

/// Whether `known` are the leading operations of the subset, and `stop` is the first one outside
/// of it, if there is one.
pub open spec fn is_walk(ops: Seq<OpAt>, known: Seq<OpAt>, stop: Option<OpAt>) -> bool {
    &&& known.len() <= ops.len()
    &&& known == ops.take(known.len() as int)
    &&& forall|i: int| 0 <= i < known.len() ==> (#[trigger] known[i]).op.observed()
    &&& match stop {
        Some(op) => {
            &&& known.len() < ops.len()
            &&& op == ops[known.len() as int]
            &&& !op.op.observed()
        },
        None => known.len() == ops.len(),
    }
}

/// Observes a function: its operations up to the first one outside of the subset, and
/// that one.
pub fn disasm_observe(stream: &OpStream) -> (seen: Observation)
    ensures
        is_walk(stream@.ops, seen.known@, seen.stop),
{
    let ops = stream.ops();
    let mut known: Vec<OpAt> = Vec::new();
    let mut i: usize = 0;
    while i < ops.len()
        invariant
            ops@ == stream@.ops,
            i <= ops@.len(),
            known@ == ops@.take(i as int),
            forall|k: int| 0 <= k < i ==> (#[trigger] known@[k]).op.observed(),
        decreases ops@.len() - i,
    {
        let op = ops[i];
        if !op.op.observed() {
            return Observation { known, stop: Some(op) };
        }
        known.push(op);
        i = i + 1;
        assert(known@ =~= ops@.take(i as int));
    }
    Observation { known, stop: None }
}

/// Every operation is in the subset but these: divisions, rotations, bit counts, operations on
/// globals and unknown ones; arithmetic on 32-bit floats and conversions from and to them; and
/// single forms of copies, products, sums, loads and stores.
pub proof fn law_observed(op: Op)
    ensures
        op.observed() <==> !{
            ||| op is Divide
            ||| op is Global
            ||| op is Other
            ||| op matches Op::Copy(CopyOp::U64Copy_SNsM { .. })
            ||| op matches Op::Copy(CopyOp::F32Copy_Sr { .. })
            ||| op matches Op::Int(IntOp::I64Mul_Rsi { .. })
            ||| op matches Op::Bits(BitsOp::I32Rotl_Rsi { .. })
            ||| op matches Op::Bits(BitsOp::I32Rotr_Rsi { .. })
            ||| op matches Op::Bits(BitsOp::Count_Rs { .. })
            ||| op matches Op::Bits(BitsOp::Count_Rr { .. })
            ||| op matches Op::F32(float) && !(float is Lt_Rrs || float is Lt_Rsr || float is Le_Rrs
                || float is Le_Rsr || float is Eq_Rrs || float is NotEq_Rrs)
            ||| op matches Op::F64(FloatOp::Add_Rrs { .. })
            ||| op matches Op::Convert(ConvertOp::Convert_Rs { to: FloatWidth::F32, .. })
            ||| op matches Op::Convert(ConvertOp::Convert_Rr { to: FloatWidth::F32, .. })
            ||| op matches Op::Convert(ConvertOp::Trunc_Rs { from: FloatWidth::F32, .. })
            ||| op matches Op::Convert(ConvertOp::Trunc_Rr { from: FloatWidth::F32, .. })
            ||| op matches Op::Convert(ConvertOp::TruncSat_Rs { from: FloatWidth::F32, .. })
            ||| op matches Op::Convert(ConvertOp::TruncSat_Rr { from: FloatWidth::F32, .. })
            ||| op matches Op::Convert(ConvertOp::F64PromoteF32_Rs { .. })
            ||| op matches Op::Convert(ConvertOp::F64PromoteF32_Rr)
            ||| op matches Op::Convert(ConvertOp::F32DemoteF64_Rs { .. })
            ||| op matches Op::Convert(ConvertOp::F32DemoteF64_Rr)
            ||| op matches Op::Convert(ConvertOp::I32ReinterpretF32_Rr)
            ||| op matches Op::Convert(ConvertOp::F32ReinterpretI32_Rr)
            ||| op matches Op::Memory(MemoryOp::LoadMem0Offset16_Rr { load: MemLoad::F32, .. })
            ||| op matches Op::Memory(MemoryOp::F32StoreMem0Offset16_Sr { .. })
        },
{
}

/// What a walk lists are the first operations, as many as lie in the subset without a gap, and
/// what it stops at is the next one.
pub proof fn law_walk(ops: Seq<OpAt>, known: Seq<OpAt>, stop: Option<OpAt>)
    requires
        is_walk(ops, known, stop),
    ensures
        known.len() <= ops.len(),
        forall|i: int|
            0 <= i < known.len() ==> #[trigger] known[i] == ops[i] && known[i].op.observed(),
        known.len() < ops.len() ==> stop == Some(ops[known.len() as int])
            && !ops[known.len() as int].op.observed(),
        known.len() == ops.len() ==> stop is None,
{
}

/// A walk is determined by the operations.
pub proof fn law_walk_unique(
    ops: Seq<OpAt>,
    one: (Seq<OpAt>, Option<OpAt>),
    other: (Seq<OpAt>, Option<OpAt>),
)
    requires
        is_walk(ops, one.0, one.1),
        is_walk(ops, other.0, other.1),
    ensures
        one == other,
{
    let (a, b) = (one.0.len() as int, other.0.len() as int);
    if a < b {
        assert(other.0[a] == ops[a]);
    } else if b < a {
        assert(one.0[b] == ops[b]);
    }
}

/// A stream that lies wholly in the subset is walked to its end.
pub proof fn law_walk_all(ops: Seq<OpAt>)
    requires
        forall|i: int| 0 <= i < ops.len() ==> (#[trigger] ops[i]).op.observed(),
    ensures
        is_walk(ops, ops, None),
{
    assert(ops =~= ops.take(ops.len() as int));
}

/// The walk over joined streams, the first of which lies wholly in the subset, is that stream
/// and the walk over the second.
pub proof fn law_walk_joined(
    a: Seq<OpAt>,
    b: Seq<OpAt>,
    known: Seq<OpAt>,
    stop: Option<OpAt>,
)
    requires
        is_walk(a, a, None),
        is_walk(b, known, stop),
    ensures
        is_walk(a + b, a + known, stop),
{
    let whole = a + known;
    assert(whole =~= (a + b).take(whole.len() as int));
    assert forall|i: int| 0 <= i < whole.len() implies (#[trigger] whole[i]).op.observed() by {
        if i < a.len() {
            assert(whole[i] == a[i]);
        } else {
            assert(whole[i] == known[i - a.len()]);
        }
    }
}

} // verus!
