//! The operations of a function body, in families.

use crate::action::{Action, FloatWidth};
use crate::ops::bits::BitsOp;
use crate::ops::branch::BranchOp;
use crate::ops::compare::CompareOp;
use crate::ops::control::ControlOp;
use crate::ops::convert::ConvertOp;
use crate::ops::copy::CopyOp;
use crate::ops::divide::DivideOp;
use crate::ops::float::{F64NotLe_Rss, FloatOp};
use crate::ops::global::GlobalOp;
use crate::ops::integer::IntOp;
use crate::ops::memory::MemoryOp;
use crate::ops::select::SelectOp;
use crate::word::Word;
use vstd::prelude::*;

pub mod bits;
pub mod branch;
pub mod compare;
pub mod control;
pub mod convert;
pub mod copy;
pub mod divide;
pub mod float;
pub mod global;
pub mod integer;
pub mod memory;
pub mod select;

verus! {

/// A decoded operation of the interpreter.
#[derive(Clone, Copy, Debug, PartialEq, Eq, Structural)]
pub enum Op {
    Copy(CopyOp),
    Int(IntOp),
    Bits(BitsOp),
    Divide(DivideOp),
    Compare(CompareOp),
    Select(SelectOp),
    F32(FloatOp),
    F64(FloatOp),
    F64NotLe(F64NotLe_Rss),
    Convert(ConvertOp),
    Memory(MemoryOp),
    Global(GlobalOp),
    Branch(BranchOp),
    Control(ControlOp),
    /// An operation that the interpreter has and the kernel has not.
    Unlowered(UnloweredOp),
    /// Any other operation, by its number.
    Other(u16),
}

/// An operation that can be observed but not lowered.
#[allow(non_camel_case_types)]
#[derive(Clone, Copy, Debug, PartialEq, Eq, Structural)]
pub enum UnloweredOp {
    BranchI32Eq_Ss,
    BranchI32NotEq_Ss,
    BranchI64Eq_Rs,
    BranchI64NotEq_Rs,
    BranchI64NotEq_Si,
    BranchI64NotEq_Ss,
    ConsumeFuel,
    I32BitAnd_Rss,
    I32BitOr_Rss,
}

impl Op {
    /// The words of the operation, in a function that has a result slot or has none;
    /// `None` if the kernel cannot carry it out.
    pub open spec fn lowering(self, writes_result: bool) -> Option<Seq<Word>> {
        match self {
            Op::Copy(op) => Some(op.lowering()),
            Op::Int(op) => Some(op.lowering()),
            Op::Bits(op) => Some(op.lowering()),
            Op::Divide(op) => Some(op.lowering()),
            Op::Compare(op) => Some(op.lowering()),
            Op::Select(op) => Some(op.lowering()),
            Op::F32(op) => Some(op.lowering(FloatWidth::F32)),
            Op::F64(op) => Some(op.lowering(FloatWidth::F64)),
            Op::F64NotLe(op) => Some(op.lowering()),
            Op::Convert(op) => Some(op.lowering()),
            Op::Memory(op) => if op.supported() {
                Some(op.lowering())
            } else {
                None
            },
            Op::Global(op) => Some(op.lowering()),
            Op::Branch(op) => Some(op.lowering()),
            Op::Control(op) => Some(op.lowering(writes_result)),
            Op::Unlowered(_) => None,
            Op::Other(_) => None,
        }
    }

    /// Lowers the operation, if the kernel can carry it out.
    pub fn lower(self, writes_result: bool) -> (words: Option<Vec<Word>>)
        ensures
            match words {
                Some(words) => self.lowering(writes_result) == Some(words@),
                None => self.lowering(writes_result) is None,
            },
    {
        match self {
            Op::Copy(op) => Some(op.lower()),
            Op::Int(op) => Some(op.lower()),
            Op::Bits(op) => Some(op.lower()),
            Op::Divide(op) => Some(op.lower()),
            Op::Compare(op) => Some(op.lower()),
            Op::Select(op) => Some(op.lower()),
            Op::F32(op) => Some(op.lower(FloatWidth::F32)),
            Op::F64(op) => Some(op.lower(FloatWidth::F64)),
            Op::F64NotLe(op) => Some(op.lower()),
            Op::Convert(op) => Some(op.lower()),
            Op::Memory(op) => if op.supported() {
                Some(op.lower())
            } else {
                None
            },
            Op::Global(op) => Some(op.lower()),
            Op::Branch(op) => Some(op.lower()),
            Op::Control(op) => Some(op.lower(writes_result)),
            Op::Unlowered(_) => None,
            Op::Other(_) => None,
        }
    }

    /// What the operation does, if the kernel can carry it out.
    pub open spec fn action(self, writes_result: bool) -> Option<Action> {
        match self {
            Op::Copy(op) => Some(op.action()),
            Op::Int(op) => Some(op.action()),
            Op::Bits(op) => Some(op.action()),
            Op::Divide(op) => Some(op.action()),
            Op::Compare(op) => Some(op.action()),
            Op::Select(op) => Some(op.action()),
            Op::F32(op) => Some(op.action(FloatWidth::F32)),
            Op::F64(op) => Some(op.action(FloatWidth::F64)),
            Op::F64NotLe(op) => Some(op.action()),
            Op::Convert(op) => Some(op.action()),
            Op::Memory(op) => if op.supported() {
                Some(op.action())
            } else {
                None
            },
            Op::Global(op) => Some(op.action()),
            Op::Branch(op) => Some(op.action()),
            Op::Control(op) => Some(op.action(writes_result)),
            Op::Unlowered(_) => None,
            Op::Other(_) => None,
        }
    }
}

} // verus!
