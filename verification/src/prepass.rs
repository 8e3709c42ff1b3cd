//! The prepass: lowers a function's operations into a flat MiniProgram for the traced
//! kernel.
//!
//! The prepass is partial. It maps the operations that the kernel implements and gives up
//! at the first function that has another: that function stays with the stock executor.
//!
//! Lowering goes in three steps. Each operation becomes words that may still name frame
//! slots, scratch slots and branch targets ([`code`]). The frame slots that occur are
//! numbered densely, in ascending order, and the scratch slots come behind them. Then
//! every word gets its value ([`value`]).

use crate::mini::{MINI_RETURN_BAIL, MINI_TRAP, MINI_YIELD_STOCK};
use crate::ops::Op;
use crate::slots::{lemma_few_slots, sorted, SlotSet};
use crate::stream::{index_at, is_start, OpAt, OpStream};
use crate::word::Word;
use vstd::prelude::*;

verus! {

/// The words of a MiniProgram, indexed by the kernel's program counter.
pub type MiniCode = [i64];

/// A function lowered to flat `i64` words, with what the kernel needs to set up a run.
#[derive(Debug)]
pub struct MiniProgram {
    /// The instruction stream.
    pub words: Vec<i64>,
    /// The number of frame slots that the program refers to: the length of the kernel's
    /// cell array without the scratch cells.
    pub num_slots: usize,
    /// The frame slot of each dense index. The caller fills the cells from these slots
    /// before a run and writes them back on a yield.
    pub slot_map: Vec<u16>,
    /// The word index of the loop header, the target of a backward branch, if there is
    /// one: the merge point of traces.
    pub loop_header_word: Option<usize>,
    /// Whether the function has a result slot. The caller of a function without one must
    /// not write the result.
    pub writes_result: bool,
    /// Whether the function reads or writes a global. If not, the caller need not resolve
    /// the globals of the instance before a run.
    pub uses_globals: bool,
    /// Whether the program can leave to the stock executor or trap
    /// (`MINI_YIELD_STOCK`, `MINI_RETURN_BAIL`, `MINI_TRAP`). Such a function cannot run
    /// as a callee of compiled code.
    pub has_yield_or_bail: bool,
}

/// A word and the byte position of the operation it comes from.
#[derive(Clone, Copy, Debug, PartialEq, Eq, Structural)]
pub struct Placed {
    pub at: usize,
    pub word: Word,
}

/// Words that come from the operation at byte `at`.
pub open spec fn placed(at: usize, words: Seq<Word>) -> Seq<Placed> {
    Seq::new(words.len(), |k: int| Placed { at, word: words[k] })
}

/// Whether the kernel can carry out every operation.
pub open spec fn all_lower(ops: Seq<OpAt>, writes_result: bool) -> bool {
    forall|i: int| 0 <= i < ops.len() ==> (#[trigger] ops[i]).op.lowering(writes_result) is Some
}

/// The words of the operations, in order.
pub open spec fn code(ops: Seq<OpAt>, writes_result: bool) -> Seq<Placed>
    decreases ops.len(),
{
    if ops.len() == 0 {
        Seq::empty()
    } else {
        code(ops.drop_last(), writes_result) + placed(
            ops.last().pos,
            ops.last().op.lowering(writes_result)->0,
        )
    }
}

/// The index of the first word of operation `i`.
pub open spec fn word_index(ops: Seq<OpAt>, writes_result: bool, i: int) -> nat {
    code(ops.take(i), writes_result).len()
}

/// The byte that a branch target denotes.
pub open spec fn target_byte(p: Placed) -> int {
    p.at + p.word->Target_0
}

/// Whether every branch goes to the start of an operation.
pub open spec fn all_resolve(ops: Seq<OpAt>, writes_result: bool) -> bool {
    forall|j: int|
        0 <= j < code(ops, writes_result).len() && (#[trigger] code(ops, writes_result)[j]).word
            is Target ==> is_start(ops, target_byte(code(ops, writes_result)[j]))
}

/// Whether the function can be lowered.
pub open spec fn eligible(ops: Seq<OpAt>, writes_result: bool) -> bool {
    all_lower(ops, writes_result) && all_resolve(ops, writes_result)
}

/// The word index that a branch target denotes.
pub open spec fn target_word(ops: Seq<OpAt>, writes_result: bool, p: Placed) -> nat {
    word_index(ops, writes_result, index_at(ops, target_byte(p)))
}

/// Whether the word names the frame slot. A call names the slots of its parameters, and
/// the first of them in any case, as its result goes there.
pub open spec fn names_slot(w: Word, slot: u16) -> bool {
    match w {
        Word::Slot(s) => s == slot,
        Word::Span(head, len) => slot == head || head <= slot < head + len,
        _ => false,
    }
}

/// Whether one of the words names the frame slot.
pub open spec fn refers_to(code: Seq<Placed>, slot: u16) -> bool {
    exists|j: int| 0 <= j < code.len() && names_slot((#[trigger] code[j]).word, slot)
}

/// Whether the word is an opcode that leaves to the stock executor or traps.
pub open spec fn leaves(w: Word) -> bool {
    w == Word::Code(MINI_YIELD_STOCK) || w == Word::Code(MINI_RETURN_BAIL) || w == Word::Code(
        MINI_TRAP,
    )
}

/// Whether the word is the target of a backward branch.
pub open spec fn goes_back(w: Word) -> bool {
    w matches Word::Target(offset) && offset < 0
}

/// The value of a word, given the frame slots in the order of their dense indices.
pub open spec fn value(ops: Seq<OpAt>, writes_result: bool, slots: Seq<u16>, p: Placed) -> i64 {
    match p.word {
        Word::Code(code) => code,
        Word::Imm(v) => v,
        Word::Slot(s) => slots.index_of(s) as i64,
        Word::Span(head, _) => slots.index_of(head) as i64,
        Word::Scratch(k) => (slots.len() + k) as i64,
        Word::Target(_) => target_word(ops, writes_result, p) as i64,
        Word::Here => p.at as i64,
        Word::SlotCount => slots.len() as i64,
    }
}

/// The values of the words of a function.
pub open spec fn assembled(ops: Seq<OpAt>, writes_result: bool, slots: Seq<u16>) -> Seq<i64> {
    Seq::new(
        code(ops, writes_result).len(),
        |j: int| value(ops, writes_result, slots, code(ops, writes_result)[j]),
    )
}

/// Whether `header` is the target of the last backward branch, if there is one.
pub open spec fn is_loop_header(
    ops: Seq<OpAt>,
    writes_result: bool,
    header: Option<usize>,
) -> bool {
    let code = code(ops, writes_result);
    match header {
        None => forall|j: int| 0 <= j < code.len() ==> !goes_back((#[trigger] code[j]).word),
        Some(h) => exists|j: int|
            {
                &&& 0 <= j < code.len()
                &&& goes_back((#[trigger] code[j]).word)
                &&& h == target_word(ops, writes_result, code[j])
                &&& forall|k: int| j < k < code.len() ==> !goes_back((#[trigger] code[k]).word)
            },
    }
}

impl MiniProgram {
    /// Whether this is the program of the operations.
    pub open spec fn is_program_of(&self, ops: Seq<OpAt>, writes_result: bool) -> bool {
        &&& sorted(self.slot_map@)
        &&& forall|s: u16| #[trigger]
            self.slot_map@.contains(s) <==> refers_to(code(ops, writes_result), s)
        &&& self.num_slots == self.slot_map@.len()
        &&& self.words@ == assembled(ops, writes_result, self.slot_map@)
        &&& is_loop_header(ops, writes_result, self.loop_header_word)
        &&& self.writes_result == writes_result
        &&& self.uses_globals <==> exists|i: int|
            0 <= i < ops.len() && (#[trigger] ops[i]).op is Global
        &&& self.has_yield_or_bail <==> exists|j: int|
            0 <= j < code(ops, writes_result).len() && leaves(
                (#[trigger] code(ops, writes_result)[j]).word,
            )
    }
}

/// Lowers a function.
///
/// Yields `None` if the function has an operation outside the supported subset, or a
/// branch into the middle of an operation: the caller then falls back to the stock
/// executor. The frame has `len_local_slots + len_stack_slots` slots; a frame without
/// slots has no result slot.
pub fn prepass(stream: &OpStream, len_local_slots: u16, len_stack_slots: u16) -> (program: Option<
    MiniProgram,
>)
    requires
        stream.wf(),
    ensures
        match program {
            Some(program) => {
                &&& eligible(stream@.ops, len_local_slots + len_stack_slots >= 1)
                &&& program.is_program_of(stream@.ops, len_local_slots + len_stack_slots >= 1)
            },
            None => !eligible(stream@.ops, len_local_slots + len_stack_slots >= 1),
        },
{
    let writes_result: bool = len_local_slots > 0 || len_stack_slots > 0;
    let ghost ops = stream@.ops;
    let (code, starts) = match lower_all(stream, writes_result) {
        Some(lowered) => lowered,
        None => return None,
    };
    let slots = collect_slots(&code);
    let (words, loop_header_word) = match assemble(stream, writes_result, &code, &starts, &slots) {
        Some(assembled) => assembled,
        None => return None,
    };
    let uses_globals = any_global(stream);
    let has_yield_or_bail = any_leaves(&code);
    let num_slots = slots.len();
    let slot_map = slots.into_vec();
    Some(
        MiniProgram {
            words,
            num_slots,
            slot_map,
            loop_header_word,
            writes_result,
            uses_globals,
            has_yield_or_bail,
        },
    )
}

/// Lowers every operation, and notes the index of the first word of each.
fn lower_all(stream: &OpStream, writes_result: bool) -> (lowered: Option<(Vec<Placed>, Vec<usize>)>)
    ensures
        match lowered {
            Some((words, starts)) => {
                &&& all_lower(stream@.ops, writes_result)
                &&& words@ == code(stream@.ops, writes_result)
                &&& starts@.len() == stream@.ops.len()
                &&& forall|i: int|
                    0 <= i < starts@.len() ==> #[trigger] starts@[i] == word_index(
                        stream@.ops,
                        writes_result,
                        i,
                    )
            },
            None => !all_lower(stream@.ops, writes_result),
        },
{
    let ops = stream.ops();
    let mut out: Vec<Placed> = Vec::new();
    let mut starts: Vec<usize> = Vec::new();
    let mut i: usize = 0;
    while i < ops.len()
        invariant
            ops@ == stream@.ops,
            i <= ops@.len(),
            all_lower(ops@.take(i as int), writes_result),
            out@ == code(ops@.take(i as int), writes_result),
            starts@.len() == i,
            forall|k: int|
                0 <= k < i ==> #[trigger] starts@[k] == word_index(ops@, writes_result, k),
        decreases ops@.len() - i,
    {
        let op = ops[i];
        starts.push(out.len());
        let words = match op.op.lower(writes_result) {
            Some(words) => words,
            None => {
                assert(ops@[i as int].op.lowering(writes_result) is None);
                return None;
            },
        };
        append(&mut out, op.pos, &words);
        proof {
            let next = ops@.take(i + 1);
            assert(next.drop_last() =~= ops@.take(i as int));
            assert(next.last() == op);
            assert forall|k: int| 0 <= k < next.len() implies (#[trigger] next[k]).op.lowering(
                writes_result,
            ) is Some by {
                if k < i {
                    assert(ops@.take(i as int)[k] == next[k]);
                }
            }
        }
        i = i + 1;
    }
    assert(ops@.take(i as int) =~= ops@);
    Some((out, starts))
}

/// Appends the words of the operation at byte `at`.
fn append(out: &mut Vec<Placed>, at: usize, words: &Vec<Word>)
    ensures
        final(out)@ == old(out)@ + placed(at, words@),
{
    let ghost before = out@;
    let mut k: usize = 0;
    while k < words.len()
        invariant
            before == old(out)@,
            k <= words@.len(),
            out@ == before + placed(at, words@).take(k as int),
        decreases words@.len() - k,
    {
        out.push(Placed { at, word: words[k] });
        k = k + 1;
        assert(out@ =~= before + placed(at, words@).take(k as int));
    }
    assert(placed(at, words@).take(k as int) =~= placed(at, words@));
}

/// The frame slots that the words name.
fn collect_slots(code: &Vec<Placed>) -> (slots: SlotSet)
    ensures
        slots.wf(),
        forall|s: u16| #[trigger] slots@.contains(s) <==> refers_to(code@, s),
{
    let mut slots = SlotSet::new();
    let mut j: usize = 0;
    assert(forall|s: u16| !refers_to(code@.take(0), s));
    while j < code.len()
        invariant
            j <= code@.len(),
            slots.wf(),
            forall|s: u16| #[trigger]
                slots@.contains(s) <==> refers_to(code@.take(j as int), s),
        decreases code@.len() - j,
    {
        let word = code[j].word;
        let ghost before = slots@;
        match word {
            Word::Slot(s) => slots.insert(s),
            Word::Span(head, len) => {
                slots.insert(head);
                slots.insert_run(head, len);
            },
            _ => {},
        }
        proof {
            assert forall|s: u16| #[trigger] slots@.contains(s) <==> refers_to(
                code@.take(j + 1),
                s,
            ) by {
                lemma_refers_to_next(code@, j as int, s);
                assert(before.contains(s) <==> refers_to(code@.take(j as int), s));
            }
        }
        j = j + 1;
    }
    assert(code@.take(j as int) =~= code@);
    slots
}

proof fn lemma_refers_to_next(code: Seq<Placed>, j: int, s: u16)
    requires
        0 <= j < code.len(),
    ensures
        refers_to(code.take(j + 1), s) <==> names_slot(code[j].word, s) || refers_to(
            code.take(j),
            s,
        ),
{
    let more = code.take(j + 1);
    let less = code.take(j);
    if refers_to(less, s) {
        let k = choose|k: int| 0 <= k < less.len() && names_slot((#[trigger] less[k]).word, s);
        assert(more[k] == less[k]);
    }
    if names_slot(code[j].word, s) {
        assert(names_slot(more[j].word, s));
    }
    if refers_to(more, s) {
        let k = choose|k: int| 0 <= k < more.len() && names_slot((#[trigger] more[k]).word, s);
        if k < j {
            assert(less[k] == more[k]);
        }
    }
}

/// Gives every word its value, and finds the loop header.
fn assemble(
    stream: &OpStream,
    writes_result: bool,
    words: &Vec<Placed>,
    starts: &Vec<usize>,
    slots: &SlotSet,
) -> (assembled: Option<(Vec<i64>, Option<usize>)>)
    requires
        stream.wf(),
        slots.wf(),
        words@ == code(stream@.ops, writes_result),
        starts@.len() == stream@.ops.len(),
        forall|i: int|
            0 <= i < starts@.len() ==> #[trigger] starts@[i] == word_index(
                stream@.ops,
                writes_result,
                i,
            ),
        forall|s: u16| #[trigger] slots@.contains(s) <==> refers_to(words@, s),
    ensures
        match assembled {
            Some((out, header)) => {
                &&& all_resolve(stream@.ops, writes_result)
                &&& out@ == self::assembled(stream@.ops, writes_result, slots@)
                &&& is_loop_header(stream@.ops, writes_result, header)
            },
            None => !all_resolve(stream@.ops, writes_result),
        },
{
    let ghost ops = stream@.ops;
    let mut out: Vec<i64> = Vec::new();
    let mut header: Option<usize> = None;
    let ghost mut back: int = -1;
    let mut j: usize = 0;
    while j < words.len()
        invariant
            ops == stream@.ops,
            stream.wf(),
            slots.wf(),
            words@ == code(ops, writes_result),
            starts@.len() == ops.len(),
            forall|i: int|
                0 <= i < starts@.len() ==> #[trigger] starts@[i] == word_index(
                    ops,
                    writes_result,
                    i,
                ),
            forall|s: u16| #[trigger] slots@.contains(s) <==> refers_to(words@, s),
            j <= words@.len(),
            out@.len() == j,
            forall|k: int|
                0 <= k < j ==> #[trigger] out@[k] == value(ops, writes_result, slots@, words@[k]),
            forall|k: int|
                0 <= k < j && (#[trigger] words@[k]).word is Target ==> is_start(
                    ops,
                    target_byte(words@[k]),
                ),
            -1 <= back < j,
            forall|k: int| back < k < j ==> !goes_back((#[trigger] words@[k]).word),
            match header {
                None => back == -1,
                Some(h) => {
                    &&& back >= 0
                    &&& goes_back(words@[back].word)
                    &&& h == target_word(ops, writes_result, words@[back])
                },
            },
        decreases words@.len() - j,
    {
        let p = words[j];
        let v: i64 = match p.word {
            Word::Code(code) => code,
            Word::Imm(v) => v,
            Word::Slot(s) => {
                assert(names_slot(words@[j as int].word, s));
                dense_index(slots, s) as i64
            },
            Word::Span(head, _) => {
                assert(names_slot(words@[j as int].word, head));
                dense_index(slots, head) as i64
            },
            Word::Scratch(k) => {
                assert(slots@.len() + k <= usize::MAX) by {
                    lemma_few_slots(slots@);
                }
                (slots.len() + k as usize) as i64
            },
            Word::Target(offset) => {
                let found = match offset_from(p.at, offset) {
                    Some(byte) => stream.find(byte),
                    None => None,
                };
                match found {
                    Some(i) => {
                        let start: usize = starts[i];
                        if offset < 0 {
                            header = Some(start);
                            proof {
                                back = j as int;
                            }
                        }
                        start as i64
                    },
                    None => {
                        assert(!is_start(ops, target_byte(words@[j as int])));
                        return None;
                    },
                }
            },
            Word::Here => p.at as i64,
            Word::SlotCount => slots.len() as i64,
        };
        out.push(v);
        j = j + 1;
    }
    assert(out@ =~= self::assembled(ops, writes_result, slots@));
    Some((out, header))
}

/// The place of a slot in the set.
fn dense_index(slots: &SlotSet, slot: u16) -> (index: usize)
    requires
        slots.wf(),
        slots@.contains(slot),
    ensures
        index == slots@.index_of(slot),
{
    let index: usize = slots.index_of(slot);
    proof {
        let there = slots@.index_of(slot);
        assert(slots@[there] == slot && slots@[index as int] == slot);
        if there < index {
            assert(slots@[there] < slots@[index as int]);
        } else if index < there {
            assert(slots@[index as int] < slots@[there]);
        }
    }
    index
}

/// The byte at a signed distance, if there is such a position.
fn offset_from(pos: usize, offset: i32) -> (byte: Option<usize>)
    ensures
        match byte {
            Some(byte) => byte == pos + offset,
            None => pos + offset < 0 || pos + offset > usize::MAX,
        },
{
    if offset >= 0 {
        pos.checked_add(offset as usize)
    } else {
        let distance: i64 = -(offset as i64);
        pos.checked_sub(distance as usize)
    }
}

/// Whether one of the operations reads or writes a global.
fn any_global(stream: &OpStream) -> (any: bool)
    ensures
        any <==> exists|i: int|
            0 <= i < stream@.ops.len() && (#[trigger] stream@.ops[i]).op is Global,
{
    let ops = stream.ops();
    let mut i: usize = 0;
    while i < ops.len()
        invariant
            ops@ == stream@.ops,
            i <= ops@.len(),
            forall|k: int| 0 <= k < i ==> !((#[trigger] ops@[k]).op is Global),
        decreases ops@.len() - i,
    {
        match ops[i].op {
            Op::Global(_) => {
                assert(stream@.ops[i as int].op is Global);
                return true;
            },
            _ => {},
        }
        i = i + 1;
    }
    false
}

/// Whether one of the words leaves to the stock executor or traps.
fn any_leaves(code: &Vec<Placed>) -> (any: bool)
    ensures
        any <==> exists|j: int| 0 <= j < code@.len() && leaves((#[trigger] code@[j]).word),
{
    let mut j: usize = 0;
    while j < code.len()
        invariant
            j <= code@.len(),
            forall|k: int| 0 <= k < j ==> !leaves((#[trigger] code@[k]).word),
        decreases code@.len() - j,
    {
        match code[j].word {
            Word::Code(c) => if c == MINI_YIELD_STOCK || c == MINI_RETURN_BAIL || c == MINI_TRAP {
                assert(leaves(code@[j as int].word));
                return true;
            },
            _ => {},
        }
        j = j + 1;
    }
    false
}

} // verus!
