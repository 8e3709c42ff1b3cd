//! Returns, calls, traps and branches by a table.
//!
//! What the kernel cannot carry out leaves to the stock executor: tail calls give up the
//! run (`MINI_RETURN_BAIL`), branches by a table hand it over at the operation
//! (`MINI_YIELD_STOCK`).

use crate::action::{Action, Src};
use crate::mini::{
    MINI_CALL_IMPORTED, MINI_CALL_INDIRECT, MINI_CALL_RESIDUAL, MINI_COPY_SR, MINI_RETURN_BAIL,
    MINI_RETURN_S, MINI_RETURN_VOID, MINI_TRAP, MINI_YIELD_STOCK,
};
use crate::word::Word;
use crate::word::Word::{Code, Here, Imm, Scratch, Slot, SlotCount, Span};
use vstd::prelude::*;

verus! {

/// A return, a call, a trap, or a branch by a table.
#[allow(non_camel_case_types)]
#[derive(Clone, Copy, Debug, PartialEq, Eq, Structural)]
pub enum ControlOp {
    /// Return from the function. The result, if there is one, is in slot 0.
    Return,
    /// A tail call of a function of the module.
    ReturnCallInternal,
    /// A tail call of a function of a table, at an index in a slot.
    ReturnCallIndirect_S,
    /// A tail call of a function of a table, at an index in the accumulator.
    ReturnCallIndirect_R,
    /// A call of a function of the module, with parameters in the slots from `head` on.
    CallInternal { func: usize, head: u16, len: u16 },
    /// A call of an imported function.
    CallImported { func: u32, head: u16, len: u16 },
    /// A call of a function of a table, at an index in a slot.
    CallIndirect_S { table: u32, func_type: u32, index: u16, head: u16, len: u16 },
    /// A call of a function of a table, at an index in the accumulator.
    CallIndirect_R { table: u32, func_type: u32, head: u16, len: u16 },
    /// A trap.
    Trap { code: u8 },
    /// A branch by a table, at an index in the accumulator.
    BranchTable_R,
}

impl ControlOp {
    /// The words of the operation, in a function that has a result slot or has none.
    pub open spec fn lowering(self, writes_result: bool) -> Seq<Word> {
        match self {
            ControlOp::Return => if writes_result {
                seq![Code(MINI_RETURN_S), Slot(0)]
            } else {
                seq![Code(MINI_RETURN_VOID)]
            },
            ControlOp::ReturnCallInternal => seq![Code(MINI_RETURN_BAIL)],
            ControlOp::ReturnCallIndirect_S => seq![Code(MINI_RETURN_BAIL)],
            ControlOp::ReturnCallIndirect_R => seq![Code(MINI_RETURN_BAIL)],
            ControlOp::CallInternal { func, head, len } => seq![
                Code(MINI_CALL_RESIDUAL), Imm(func as i64), Span(head, len), Imm(len as i64),
            ],
            ControlOp::CallImported { func, head, len } => seq![
                Code(MINI_CALL_IMPORTED), Imm(func as i64), Span(head, len), Imm(len as i64),
            ],
            ControlOp::CallIndirect_S { table, func_type, index, head, len } => seq![
                Code(MINI_CALL_INDIRECT), Imm(table as i64), Imm(func_type as i64),
                Slot(index), Span(head, len), Imm(len as i64),
            ],
            ControlOp::CallIndirect_R { table, func_type, head, len } => seq![
                Code(MINI_COPY_SR), Scratch(0),
                Code(MINI_CALL_INDIRECT), Imm(table as i64), Imm(func_type as i64),
                Scratch(0), Span(head, len), Imm(len as i64),
            ],
            ControlOp::Trap { code } => seq![Code(MINI_TRAP), Imm(code as i64)],
            ControlOp::BranchTable_R => seq![Code(MINI_YIELD_STOCK), Here, SlotCount],
        }
    }

    /// Lowers the operation.
    pub fn lower(self, writes_result: bool) -> (words: Vec<Word>)
        ensures
            words@ == self.lowering(writes_result),
    {
        let words = match self {
            ControlOp::Return => if writes_result {
                vec![Code(MINI_RETURN_S), Slot(0)]
            } else {
                vec![Code(MINI_RETURN_VOID)]
            },
            ControlOp::ReturnCallInternal => vec![Code(MINI_RETURN_BAIL)],
            ControlOp::ReturnCallIndirect_S => vec![Code(MINI_RETURN_BAIL)],
            ControlOp::ReturnCallIndirect_R => vec![Code(MINI_RETURN_BAIL)],
            ControlOp::CallInternal { func, head, len } => vec![
                Code(MINI_CALL_RESIDUAL), Imm(func as i64), Span(head, len), Imm(len as i64),
            ],
            ControlOp::CallImported { func, head, len } => vec![
                Code(MINI_CALL_IMPORTED), Imm(func as i64), Span(head, len), Imm(len as i64),
            ],
            ControlOp::CallIndirect_S { table, func_type, index, head, len } => vec![
                Code(MINI_CALL_INDIRECT), Imm(table as i64), Imm(func_type as i64),
                Slot(index), Span(head, len), Imm(len as i64),
            ],
            ControlOp::CallIndirect_R { table, func_type, head, len } => vec![
                Code(MINI_COPY_SR), Scratch(0),
                Code(MINI_CALL_INDIRECT), Imm(table as i64), Imm(func_type as i64),
                Scratch(0), Span(head, len), Imm(len as i64),
            ],
            ControlOp::Trap { code } => vec![Code(MINI_TRAP), Imm(code as i64)],
            ControlOp::BranchTable_R => vec![Code(MINI_YIELD_STOCK), Here, SlotCount],
        };
        assert(words@ =~= self.lowering(writes_result));
        words
    }

    /// What the operation does. A function without a result slot returns 0.
    pub open spec fn action(self, writes_result: bool) -> Action {
        match self {
            ControlOp::Return => if writes_result {
                Action::Return { value: Src::Slot(0) }
            } else {
                Action::Return { value: Src::Imm(0) }
            },
            ControlOp::ReturnCallInternal => Action::Bail,
            ControlOp::ReturnCallIndirect_S => Action::Bail,
            ControlOp::ReturnCallIndirect_R => Action::Bail,
            ControlOp::CallInternal { func, head, len } => Action::CallInternal {
                func: func as i64,
                head,
                len,
            },
            ControlOp::CallImported { func, head, len } => Action::CallImported {
                func: func as i64,
                head,
                len,
            },
            ControlOp::CallIndirect_S { table, func_type, index, head, len } => {
                Action::CallIndirect {
                    table: table as i64,
                    func_type: func_type as i64,
                    index: Src::Slot(index),
                    head,
                    len,
                }
            },
            ControlOp::CallIndirect_R { table, func_type, head, len } => Action::CallIndirect {
                table: table as i64,
                func_type: func_type as i64,
                index: Src::Ireg,
                head,
                len,
            },
            ControlOp::Trap { code } => Action::Trap { code: code as i64 },
            ControlOp::BranchTable_R => Action::Yield,
        }
    }
}

} // verus!
