//! The operations of a function, each with its position in bytes.

use crate::ops::Op;
use vstd::prelude::*;

verus! {

/// An operation and the byte at which its encoding starts.
#[derive(Clone, Copy, Debug, PartialEq, Eq, Structural)]
pub struct OpAt {
    pub pos: usize,
    pub op: Op,
}

/// A packed stream of operations: each starts where the one before it ends.
#[derive(Debug)]
pub struct OpStream {
    ops: Vec<OpAt>,
    len: usize,
}

/// A stream as mathematical values.
#[verifier::ext_equal]
pub struct StreamModel {
    /// The operations.
    pub ops: Seq<OpAt>,
    /// The number of bytes.
    pub len: nat,
}

impl View for OpStream {
    type V = StreamModel;

    closed spec fn view(&self) -> StreamModel {
        StreamModel { ops: self.ops@, len: self.len as nat }
    }
}

/// Whether the operations start at ever larger positions.
pub open spec fn ascending(ops: Seq<OpAt>) -> bool {
    forall|i: int, j: int|
        0 <= i < j < ops.len() ==> (#[trigger] ops[i]).pos < (#[trigger] ops[j]).pos
}

/// Whether an operation starts at this byte.
pub open spec fn is_start(ops: Seq<OpAt>, byte: int) -> bool {
    exists|i: int| 0 <= i < ops.len() && (#[trigger] ops[i]).pos == byte
}

/// The operation that starts at this byte.
pub open spec fn index_at(ops: Seq<OpAt>, byte: int) -> int {
    choose|i: int| 0 <= i < ops.len() && (#[trigger] ops[i]).pos == byte
}

impl OpStream {
    /// Whether the positions ascend and lie within the stream.
    pub open spec fn wf(&self) -> bool {
        &&& ascending(self@.ops)
        &&& forall|i: int| 0 <= i < self@.ops.len() ==> (#[trigger] self@.ops[i]).pos < self@.len
    }

    /// A stream without operations.
    pub fn new() -> (stream: OpStream)
        ensures
            stream.wf(),
            stream@ == (StreamModel { ops: Seq::empty(), len: 0 }),
    {
        OpStream { ops: Vec::new(), len: 0 }
    }

    /// Appends an operation whose encoding has `size` bytes. An empty encoding, or one
    /// with which the stream would outgrow the address space, is refused.
    pub fn push(&mut self, op: Op, size: usize) -> (done: bool)
        requires
            old(self).wf(),
        ensures
            final(self).wf(),
            done == (0 < size && old(self)@.len + size <= usize::MAX),
            done ==> final(self)@ == (StreamModel {
                ops: old(self)@.ops.push(OpAt { pos: old(self)@.len as usize, op }),
                len: old(self)@.len + size as nat,
            }),
            !done ==> final(self)@ == old(self)@,
    {
        if size == 0 || size > usize::MAX - self.len {
            return false;
        }
        self.ops.push(OpAt { pos: self.len, op });
        self.len = self.len + size;
        true
    }

    /// The operations.
    pub fn ops(&self) -> (ops: &Vec<OpAt>)
        ensures
            ops@ == self@.ops,
    {
        &self.ops
    }

    /// Finds the operation that starts at this byte.
    pub fn find(&self, byte: usize) -> (index: Option<usize>)
        requires
            self.wf(),
        ensures
            match index {
                Some(i) => i < self@.ops.len() && self@.ops[i as int].pos == byte && is_start(
                    self@.ops,
                    byte as int,
                ) && i == index_at(self@.ops, byte as int),
                None => !is_start(self@.ops, byte as int),
            },
    {
        let mut low: usize = 0;
        let mut high: usize = self.ops.len();
        while low < high
            invariant
                self.wf(),
                low <= high <= self@.ops.len(),
                forall|i: int| 0 <= i < low ==> (#[trigger] self@.ops[i]).pos < byte,
                forall|i: int| high <= i < self@.ops.len() ==> (#[trigger] self@.ops[i]).pos > byte,
            decreases high - low,
        {
            let mid: usize = low + (high - low) / 2;
            let pos: usize = self.ops[mid].pos;
            assert(self@.ops[mid as int].pos == pos);
            if pos == byte {
                return Some(mid);
            }
            if pos < byte {
                low = mid + 1;
            } else {
                high = mid;
            }
        }
        None
    }
}

} // verus!
