//! What the words of each operation leave behind, told by their operands.
//!
//! Each law gives the whole machine behind the words of an operation, over the values that the
//! operands of the operation have before, and says where control goes.

use crate::action::low64;
use vstd::prelude::*;

pub mod bits;
pub mod branch;
pub mod divide;
pub mod float;
pub mod integer;
pub mod memory;
pub mod moves;

verus! {

/// A word keeps the bits of an unsigned number.
pub(crate) proof fn lemma_word_u64(v: u64)
    ensures
        low64((v as i64) as int) == v,
{
    assert(v < 0x8000_0000_0000_0000 ==> (v as i64) as i128 == v as i128) by (bit_vector);
    assert(v >= 0x8000_0000_0000_0000 ==> (v as i64) as i128 == v as i128
        - 0x1_0000_0000_0000_0000i128) by (bit_vector);
}

} // verus!
