//! What holds of every program that the prepass yields.

use crate::action::{
    perform, Action, BitCount, Callee, Cell, Conversion, DivRem, FloatBin, FloatCompare, FloatUnary,
    FloatWidth, IntWidth, Loaded, Machine, Residuals, Stored,
};
use crate::kernel::{cell, run};
use crate::laws::lowering::law_effect;
use crate::mini::NUM_SCRATCH;
use crate::ops::Op;
use crate::prepass::{
    all_lower, assembled, code, eligible, goes_back, is_loop_header, leaves, names_slot, refers_to,
    target_byte, target_word, word_index, MiniProgram, Placed,
};
use crate::slots::{lemma_few_slots, sorted};
use crate::stream::{ascending, index_at, is_start, OpAt};
use crate::word::{instruction_at, operands, shaped, shaped_from, width, width_at, Word};
use vstd::prelude::*;

verus! {

/// The words without their places.
pub open spec fn words_of(code: Seq<Placed>) -> Seq<Word> {
    Seq::new(code.len(), |j: int| code[j].word)
}

/// Whether the words from `at` on are instructions, one behind the other, each as long as
/// its opcode says: what the kernel's program counter meets.
pub open spec fn walks_from(words: Seq<i64>, at: int) -> bool
    decreases words.len() - at,
{
    at == words.len() || {
        &&& 0 <= at < words.len()
        &&& operands(words[at]) is Some
        &&& at + width(words[at]) <= words.len()
        &&& walks_from(words, at + width(words[at]))
    }
}

/// A machine to run words on whose run does not matter.
spec fn some_machine() -> Machine<()> {
    Machine { cells: Map::total(|c: Cell| 0i64), ireg: 0, freg64: 0, freg32: 0, world: () }
}

/// Residual functions that do nothing.
spec fn some_residuals() -> Residuals<()> {
    Residuals {
        load: |w: (), p: Loaded, at: int| ((), 0i64),
        store: |w: (), p: Stored, at: int, v: i64| (),
        memory_size: |w: ()| 0i64,
        memory_copy: |w: (), d: i64, s: i64, n: i64| (),
        global_get: |w: (), i: i64| 0i64,
        global_set: |w: (), i: i64, v: i64| (),
        div_rem: |w: (), op: DivRem, a: i64, b: i64| ((), 0i64),
        bit_count: |w: IntWidth, op: BitCount, v: i64| 0i64,
        float_bin: |w: FloatWidth, op: FloatBin, a: i64, b: i64| 0i64,
        float_compare: |w: FloatWidth, op: FloatCompare, a: i64, b: i64| false,
        float_unary: |w: FloatWidth, op: FloatUnary, v: i64| 0i64,
        convert: |w: (), op: Conversion, v: i64| ((), 0i64),
        call: |w: (), c: Callee, p: Seq<i64>| ((), 0i64),
    }
}

/// The words of an operation are instructions, one behind the other.
pub proof fn law_shaped(op: Op, writes_result: bool)
    requires
        op.lowering(writes_result) is Some,
    ensures
        shaped(op.lowering(writes_result)->0),
{
    law_effect(op, writes_result, some_machine(), some_residuals());
}

/// Every operation has an instruction at least.
proof fn lemma_not_empty(op: Op, writes_result: bool)
    requires
        op.lowering(writes_result) is Some,
    ensures
        op.lowering(writes_result)->0.len() > 0,
{
}

proof fn lemma_shaped_behind(a: Seq<Word>, b: Seq<Word>, at: int)
    requires
        0 <= at <= b.len(),
        shaped_from(b, at),
    ensures
        shaped_from(a + b, a.len() + at),
    decreases b.len() - at,
{
    if at < b.len() {
        let whole = a + b;
        assert forall|k: int| 0 <= k < b.len() implies whole[a.len() + k] == b[k] by {}
        lemma_instruction_moved(b, at, whole, a.len() + at);
        lemma_shaped_behind(a, b, at + width_at(b, at));
    }
}

/// An instruction is one wherever its words stand.
pub(crate) proof fn lemma_instruction_moved(a: Seq<Word>, at: int, b: Seq<Word>, there: int)
    requires
        instruction_at(a, at),
        0 <= there,
        there + (a.len() - at) <= b.len() || there + width_at(a, at) <= b.len(),
        forall|k: int| at <= k < at + width_at(a, at) ==> b[there + (k - at)] == #[trigger] a[k],
    ensures
        instruction_at(b, there),
        width_at(b, there) == width_at(a, at),
{
    let w = width_at(a, at);
    assert(b[there] == a[at]) by {
        assert(b[there + (at - at)] == a[at]);
    }
    assert forall|d: int| 0 < d < w implies #[trigger] b[there + d] == a[at + d] by {
        assert(b[there + ((at + d) - at)] == a[at + d]);
    }
    assert(1 < w ==> b[there + 1] == a[at + 1]);
    assert(2 < w ==> b[there + 2] == a[at + 2]);
    assert(3 < w ==> b[there + 3] == a[at + 3]);
    assert(4 < w ==> b[there + 4] == a[at + 4]);
    assert(5 < w ==> b[there + 5] == a[at + 5]);
}

proof fn lemma_shaped_join(a: Seq<Word>, b: Seq<Word>, at: int)
    requires
        0 <= at <= a.len(),
        shaped_from(a, at),
        shaped_from(b, 0),
    ensures
        shaped_from(a + b, at),
    decreases a.len() - at,
{
    if at == a.len() {
        lemma_shaped_behind(a, b, 0);
    } else {
        lemma_instruction_moved(a, at, a + b, at);
        lemma_shaped_join(a, b, at + width_at(a, at));
    }
}

/// The words of a function are instructions from the first word of each operation on.
proof fn lemma_code_shaped(ops: Seq<OpAt>, writes_result: bool, i: int)
    requires
        all_lower(ops, writes_result),
        0 <= i <= ops.len(),
    ensures
        word_index(ops, writes_result, i) <= code(ops, writes_result).len(),
        i < ops.len() ==> word_index(ops, writes_result, i) < code(ops, writes_result).len(),
        shaped_from(
            words_of(code(ops, writes_result)),
            word_index(ops, writes_result, i) as int,
        ),
    decreases ops.len(),
{
    if i == ops.len() {
        assert(ops.take(i) =~= ops);
    } else {
        let less = ops.drop_last();
        let last = ops.last();
        assert(ops[ops.len() - 1] == last);
        assert forall|k: int| 0 <= k < less.len() implies (#[trigger] less[k]).op.lowering(
            writes_result,
        ) is Some by {
            assert(ops[k] == less[k]);
        }
        assert(less.take(i) =~= ops.take(i));
        lemma_code_shaped(less, writes_result, i);
        law_shaped(last.op, writes_result);
        lemma_not_empty(last.op, writes_result);
        let tail = last.op.lowering(writes_result)->0;
        reveal(shaped);
        let a = words_of(code(less, writes_result));
        lemma_shaped_join(a, tail, word_index(ops, writes_result, i) as int);
        assert(words_of(code(ops, writes_result)) =~= a + tail);
    }
}

/// Where the words are instructions, their values walk.
proof fn lemma_walks(
    ops: Seq<OpAt>,
    writes_result: bool,
    slots: Seq<u16>,
    at: int,
)
    requires
        0 <= at <= code(ops, writes_result).len(),
        shaped_from(words_of(code(ops, writes_result)), at),
    ensures
        walks_from(assembled(ops, writes_result, slots), at),
    decreases code(ops, writes_result).len() - at,
{
    let words = words_of(code(ops, writes_result));
    if at < words.len() {
        lemma_walks(ops, writes_result, slots, at + width_at(words, at));
    }
}

/// **The stream decodes.** Read from its start, a program is a sequence of instructions,
/// each an opcode with the operands that belong to it, up to its end; and so it is read from
/// the first word of any operation.
pub proof fn law_stream(program: MiniProgram, ops: Seq<OpAt>, writes_result: bool)
    requires
        eligible(ops, writes_result),
        program.is_program_of(ops, writes_result),
    ensures
        walks_from(program.words@, 0),
        forall|i: int|
            0 <= i <= ops.len() ==> walks_from(
                program.words@,
                #[trigger] word_index(ops, writes_result, i) as int,
            ),
{
    assert forall|i: int| 0 <= i <= ops.len() implies walks_from(
        program.words@,
        #[trigger] word_index(ops, writes_result, i) as int,
    ) by {
        lemma_code_shaped(ops, writes_result, i);
        lemma_walks(
            ops,
            writes_result,
            program.slot_map@,
            word_index(ops, writes_result, i) as int,
        );
    }
    assert(ops.take(0) =~= Seq::<OpAt>::empty());
    assert(word_index(ops, writes_result, 0) == 0);
}

/// **Branches go to operations.** The target of every branch is the first word of the
/// operation that starts at the byte that the branch names. That word is an opcode of the
/// program.
pub proof fn law_target(program: MiniProgram, ops: Seq<OpAt>, writes_result: bool, j: int)
    requires
        eligible(ops, writes_result),
        program.is_program_of(ops, writes_result),
        program.words@.len() <= i64::MAX,
        0 <= j < program.words@.len(),
        code(ops, writes_result)[j].word is Target,
    ensures
        exists|i: int|
            {
                &&& 0 <= i < ops.len()
                &&& (#[trigger] ops[i]).pos == target_byte(code(ops, writes_result)[j])
                &&& program.words@[j] == word_index(ops, writes_result, i)
            },
        program.words@[j] == target_word(ops, writes_result, code(ops, writes_result)[j]),
        0 <= program.words@[j] < program.words@.len(),
        operands(program.words@[program.words@[j] as int]) is Some,
{
    let p = code(ops, writes_result)[j];
    let i = index_at(ops, target_byte(p));
    assert(is_start(ops, target_byte(p)));
    lemma_code_shaped(ops, writes_result, i);
    law_stream(program, ops, writes_result);
    assert(walks_from(program.words@, word_index(ops, writes_result, i) as int));
    assert(ops[i].pos == target_byte(p));
}

/// **Cells are dense.** A word that names a frame slot is an index below `num_slots`, at
/// which `slot_map` holds that slot.
pub proof fn law_slot_cell(program: MiniProgram, ops: Seq<OpAt>, writes_result: bool, j: int)
    requires
        program.is_program_of(ops, writes_result),
        0 <= j < program.words@.len(),
        code(ops, writes_result)[j].word is Slot || code(ops, writes_result)[j].word is Span,
    ensures
        0 <= program.words@[j] < program.num_slots,
        names_slot(
            code(ops, writes_result)[j].word,
            program.slot_map@[program.words@[j] as int],
        ),
        code(ops, writes_result)[j].word matches Word::Span(head, _)
            ==> program.slot_map@[program.words@[j] as int] == head,
{
    let word = code(ops, writes_result)[j].word;
    let slot = match word {
        Word::Slot(s) => s,
        Word::Span(head, _) => head,
        _ => arbitrary(),
    };
    assert(names_slot(code(ops, writes_result)[j].word, slot));
    assert(program.slot_map@.contains(slot));
    lemma_few_slots(program.slot_map@);
}

/// **Scratch cells lie behind the frame.** A word that names a scratch slot is an index from
/// `num_slots` on, below `num_slots + NUM_SCRATCH`: no cell of a frame slot.
pub proof fn law_scratch_cell(program: MiniProgram, ops: Seq<OpAt>, writes_result: bool, j: int)
    requires
        eligible(ops, writes_result),
        program.is_program_of(ops, writes_result),
        0 <= j < program.words@.len(),
        code(ops, writes_result)[j].word is Scratch,
    ensures
        program.num_slots <= program.words@[j] < program.num_slots + NUM_SCRATCH,
        program.words@[j] == program.num_slots + code(ops, writes_result)[j].word->Scratch_0,
{
    let words = words_of(code(ops, writes_result));
    assert(ops.take(0) =~= Seq::<OpAt>::empty());
    assert(word_index(ops, writes_result, 0) == 0);
    lemma_code_shaped(ops, writes_result, 0);
    lemma_scratch_small(words, 0, j);
    lemma_few_slots(program.slot_map@);
    assert(words[j] == code(ops, writes_result)[j].word);
}

/// Whether the word names a cell.
pub open spec fn names_cell(w: Word) -> bool {
    w is Slot || w is Span || w is Scratch
}

/// **Cells do not collide.** Two words that name cells have the same value if and only if they
/// name the same cell.
pub proof fn law_cells_distinct(
    program: MiniProgram,
    ops: Seq<OpAt>,
    writes_result: bool,
    j: int,
    k: int,
)
    requires
        eligible(ops, writes_result),
        program.is_program_of(ops, writes_result),
        0 <= j < program.words@.len(),
        0 <= k < program.words@.len(),
        names_cell(code(ops, writes_result)[j].word),
        names_cell(code(ops, writes_result)[k].word),
    ensures
        program.words@[j] == program.words@[k] <==> cell(code(ops, writes_result)[j].word) == cell(
            code(ops, writes_result)[k].word,
        ),
{
    lemma_cell_value(program, ops, writes_result, j);
    lemma_cell_value(program, ops, writes_result, k);
}

/// A cell can be read back from its index.
pub(crate) proof fn lemma_cell_value(
    program: MiniProgram,
    ops: Seq<OpAt>,
    writes_result: bool,
    j: int,
)
    requires
        eligible(ops, writes_result),
        program.is_program_of(ops, writes_result),
        0 <= j < program.words@.len(),
        names_cell(code(ops, writes_result)[j].word),
    ensures
        match cell(code(ops, writes_result)[j].word) {
            Cell::Frame(s) => {
                &&& 0 <= program.words@[j] < program.num_slots
                &&& program.slot_map@[program.words@[j] as int] == s
                &&& program.words@[j] == program.slot_map@.index_of(s)
            },
            Cell::Scratch(k) => program.words@[j] == program.num_slots + k,
        },
{
    if code(ops, writes_result)[j].word is Scratch {
        law_scratch_cell(program, ops, writes_result, j);
    } else {
        law_slot_cell(program, ops, writes_result, j);
        lemma_few_slots(program.slot_map@);
    }
}

/// The scratch slots of instructions are among those that there are.
proof fn lemma_scratch_small(words: Seq<Word>, at: int, j: int)
    requires
        0 <= at <= j < words.len(),
        shaped_from(words, at),
        words[j] is Scratch,
    ensures
        words[j]->Scratch_0 < NUM_SCRATCH,
    decreases words.len() - at,
{
    let next = at + width_at(words, at);
    if j < next {
        let d = j - at;
        assert(d == 0 || d == 1 || d == 2 || d == 3 || d == 4 || d == 5);
    } else {
        lemma_scratch_small(words, next, j);
    }
}

/// **Parameters stay together.** The slots of the parameters of a call, as far as there are
/// slots of these numbers, have consecutive cells.
pub proof fn law_params(program: MiniProgram, ops: Seq<OpAt>, writes_result: bool, j: int, k: int)
    requires
        program.is_program_of(ops, writes_result),
        0 <= j < program.words@.len(),
        code(ops, writes_result)[j].word is Span,
        0 <= k < code(ops, writes_result)[j].word->Span_1,
        code(ops, writes_result)[j].word->Span_0 + k <= u16::MAX,
    ensures
        program.words@[j] + k < program.num_slots,
        program.slot_map@[program.words@[j] + k] == code(ops, writes_result)[j].word->Span_0 + k,
    decreases k,
{
    let word = code(ops, writes_result)[j].word;
    let slots = program.slot_map@;
    law_slot_cell(program, ops, writes_result, j);
    if k > 0 {
        law_params(program, ops, writes_result, j, k - 1);
        let head = word->Span_0;
        let before = program.words@[j] + k - 1;
        let slot = (head + k) as u16;
        assert(names_slot(code(ops, writes_result)[j].word, slot));
        assert(slots.contains(slot));
        let there = slots.index_of(slot);
        assert(slots[there] == slot && slots[before] == slot - 1);
        // The slots between these two would have numbers between theirs.
        if there < before {
            assert(slots[there] < slots[before]);
        } else if there > before + 1 {
            assert(slots[before] < slots[before + 1]);
            assert(slots[before + 1] < slots[there]);
        }
    }
}

/// **The loop header.** If there is one, it is the first word of an operation, it stands no
/// further than the backward branch that goes there, and an opcode stands there. There is
/// none only if no branch goes back.
pub proof fn law_loop_header(program: MiniProgram, ops: Seq<OpAt>, writes_result: bool)
    requires
        ascending(ops),
        eligible(ops, writes_result),
        program.is_program_of(ops, writes_result),
    ensures
        match program.loop_header_word {
            Some(h) => {
                &&& exists|i: int|
                    0 <= i < ops.len() && h == #[trigger] word_index(ops, writes_result, i)
                &&& h < program.words@.len()
                &&& operands(program.words@[h as int]) is Some
                &&& exists|j: int|
                    h <= j < program.words@.len() && goes_back(
                        (#[trigger] code(ops, writes_result)[j]).word,
                    )
            },
            None => forall|j: int|
                0 <= j < program.words@.len() ==> !goes_back(
                    (#[trigger] code(ops, writes_result)[j]).word,
                ),
        },
{
    if program.loop_header_word is Some {
        let h = program.loop_header_word->0;
        let c = code(ops, writes_result);
        let j = choose|j: int|
            {
                &&& 0 <= j < c.len()
                &&& goes_back((#[trigger] c[j]).word)
                &&& h == target_word(ops, writes_result, c[j])
                &&& forall|k: int| j < k < c.len() ==> !goes_back((#[trigger] c[k]).word)
            };
        let i = index_at(ops, target_byte(c[j]));
        assert(is_start(ops, target_byte(c[j])));
        assert(h == word_index(ops, writes_result, i));
        lemma_code_shaped(ops, writes_result, i);
        law_stream(program, ops, writes_result);
        assert(walks_from(program.words@, word_index(ops, writes_result, i) as int));
        lemma_origin(ops, writes_result, j, i);
        assert(goes_back(code(ops, writes_result)[j].word));
    }
}

/// The operation that a word comes from.
pub(crate) proof fn lemma_owner(ops: Seq<OpAt>, writes_result: bool, j: int) -> (i: int)
    requires
        0 <= j < code(ops, writes_result).len(),
    ensures
        0 <= i < ops.len(),
        code(ops, writes_result)[j].at == ops[i].pos,
        word_index(ops, writes_result, i) <= j < word_index(ops, writes_result, i + 1),
    decreases ops.len(),
{
    let less = ops.drop_last();
    let last = ops.len() - 1;
    assert(ops.take(last) =~= less);
    assert(ops.take(last + 1) =~= ops);
    if j < code(less, writes_result).len() {
        let i = lemma_owner(less, writes_result, j);
        assert(less.take(i) =~= ops.take(i));
        assert(less.take(i + 1) =~= ops.take(i + 1));
        assert(less[i] == ops[i]);
        i
    } else {
        last
    }
}

/// **Back-edges lead to lower words.** A branch with a negative distance goes to a lower word,
/// and one with a positive distance to a higher word.
pub proof fn law_direction(program: MiniProgram, ops: Seq<OpAt>, writes_result: bool, j: int)
    requires
        ascending(ops),
        eligible(ops, writes_result),
        program.is_program_of(ops, writes_result),
        program.words@.len() <= i64::MAX,
        0 <= j < program.words@.len(),
        code(ops, writes_result)[j].word is Target,
    ensures
        code(ops, writes_result)[j].word->Target_0 < 0 ==> program.words@[j] < j,
        code(ops, writes_result)[j].word->Target_0 > 0 ==> program.words@[j] > j,
{
    let p = code(ops, writes_result)[j];
    let offset = p.word->Target_0;
    let to = index_at(ops, target_byte(p));
    assert(is_start(ops, target_byte(p)));
    assert(ops[to].pos == p.at + offset);
    lemma_code_shaped(ops, writes_result, to);
    let from = lemma_owner(ops, writes_result, j);
    if offset < 0 {
        if from <= to {
            assert(from == to || ops[from].pos < ops[to].pos);
        }
        assert(to < from);
        lemma_word_index_grows(ops, writes_result, to + 1, from);
        assert(ops.take(to + 1).drop_last() =~= ops.take(to));
        lemma_not_empty(ops[to].op, writes_result);
    }
    if offset > 0 {
        if to <= from {
            assert(from == to || ops[to].pos < ops[from].pos);
        }
        assert(from < to);
        lemma_word_index_grows(ops, writes_result, from + 1, to);
    }
}

/// A word from an operation behind operation `i` stands behind the first word of that.
proof fn lemma_origin(ops: Seq<OpAt>, writes_result: bool, j: int, i: int)
    requires
        ascending(ops),
        0 <= i < ops.len(),
        0 <= j < code(ops, writes_result).len(),
        ops[i].pos < code(ops, writes_result)[j].at,
    ensures
        word_index(ops, writes_result, i) <= j,
    decreases ops.len(),
{
    let less = ops.drop_last();
    let head = code(less, writes_result);
    let last = ops.last();
    if i == ops.len() - 1 {
        assert(ops.take(i) =~= less);
        if j < head.len() {
            lemma_places(less, writes_result, j);
            let k = choose|k: int| 0 <= k < less.len() && (#[trigger] less[k]).pos == head[j].at;
            assert(less[k] == ops[k]);
            assert(ops[k].pos < ops[i].pos);
        }
    } else {
        assert(less.take(i) =~= ops.take(i));
        assert(less[i] == ops[i]);
        assert forall|a: int, b: int| 0 <= a < b < less.len() implies (#[trigger] less[a]).pos < (
        #[trigger] less[b]).pos by {
            assert(ops[a].pos < ops[b].pos);
        }
        if j < head.len() {
            lemma_origin(less, writes_result, j, i);
        } else {
            lemma_word_index_grows(ops, writes_result, i, ops.len() - 1);
            assert(ops.take(ops.len() - 1) =~= less);
        }
    }
}

/// A word is placed where one of the operations is.
proof fn lemma_places(ops: Seq<OpAt>, writes_result: bool, j: int)
    requires
        0 <= j < code(ops, writes_result).len(),
    ensures
        exists|k: int|
            0 <= k < ops.len() && (#[trigger] ops[k]).pos == code(ops, writes_result)[j].at,
    decreases ops.len(),
{
    let less = ops.drop_last();
    let head = code(less, writes_result);
    if j < head.len() {
        lemma_places(less, writes_result, j);
        let k = choose|k: int| 0 <= k < less.len() && (#[trigger] less[k]).pos == head[j].at;
        assert(ops[k] == less[k]);
    } else {
        assert(ops[ops.len() - 1].pos == code(ops, writes_result)[j].at);
    }
}

/// Later operations have later words.
pub(crate) proof fn lemma_word_index_grows(ops: Seq<OpAt>, writes_result: bool, a: int, b: int)
    requires
        0 <= a <= b <= ops.len(),
    ensures
        word_index(ops, writes_result, a) <= word_index(ops, writes_result, b),
    decreases b - a,
{
    if a < b {
        lemma_word_index_grows(ops, writes_result, a, b - 1);
        assert(ops.take(b).drop_last() =~= ops.take(b - 1));
    }
}

/// **The program is determined.** Two programs of the same operations are the same.
pub proof fn law_unique(
    one: MiniProgram,
    other: MiniProgram,
    ops: Seq<OpAt>,
    writes_result: bool,
)
    requires
        one.is_program_of(ops, writes_result),
        other.is_program_of(ops, writes_result),
    ensures
        one.words@ == other.words@,
        one.num_slots == other.num_slots,
        one.slot_map@ == other.slot_map@,
        one.loop_header_word == other.loop_header_word,
        one.writes_result == other.writes_result,
        one.uses_globals == other.uses_globals,
        one.has_yield_or_bail == other.has_yield_or_bail,
{
    let a = one.slot_map@;
    let b = other.slot_map@;
    assert forall|s: u16| a.contains(s) <==> b.contains(s) by {
        assert(a.contains(s) <==> refers_to(code(ops, writes_result), s));
        assert(b.contains(s) <==> refers_to(code(ops, writes_result), s));
    }
    lemma_same_slots(a, b);
    lemma_same_header(ops, writes_result, one.loop_header_word, other.loop_header_word);
}

/// Two orders of one set are the same.
proof fn lemma_same_slots(a: Seq<u16>, b: Seq<u16>)
    requires
        sorted(a),
        sorted(b),
        forall|s: u16| a.contains(s) <==> b.contains(s),
    ensures
        a == b,
{
    lemma_not_longer(a, b, a.len() as int);
    lemma_not_longer(b, a, b.len() as int);
    assert(a =~= b);
}

/// The first `n` of one order are the first `n` of the other.
proof fn lemma_not_longer(a: Seq<u16>, b: Seq<u16>, n: int)
    requires
        sorted(a),
        sorted(b),
        forall|s: u16| a.contains(s) <==> b.contains(s),
        0 <= n <= a.len(),
    ensures
        n <= b.len(),
        forall|i: int| 0 <= i < n ==> a[i] == b[i],
    decreases n,
{
    if n > 0 {
        lemma_not_longer(a, b, n - 1);
        let i = n - 1;
        assert(a.contains(a[i]));
        let j = b.index_of(a[i]);
        assert(b.contains(a[i]));
        assert(b[j] == a[i]);
        if j < i {
            assert(a[j] < a[i]);
        }
        assert(b.contains(b[i]));
        assert(a.contains(b[i]));
        let k = a.index_of(b[i]);
        assert(a[k] == b[i]);
        if k < i {
            assert(b[k] < b[i]);
        }
        if i < j {
            assert(b[i] < b[j]);
        }
        if i < k {
            assert(a[i] < a[k]);
        }
    }
}

/// There is one loop header at most.
proof fn lemma_same_header(
    ops: Seq<OpAt>,
    writes_result: bool,
    one: Option<usize>,
    other: Option<usize>,
)
    requires
        is_loop_header(ops, writes_result, one),
        is_loop_header(ops, writes_result, other),
    ensures
        one == other,
{
}

/// **A program that cannot leave does not.** If `has_yield_or_bail` is false, no operation of
/// the function hands over to the stock executor or traps by itself: it goes on, jumps or
/// returns.
pub proof fn law_stays<W>(
    program: MiniProgram,
    ops: Seq<OpAt>,
    writes_result: bool,
    i: int,
    m: Machine<W>,
    res: Residuals<W>,
)
    requires
        eligible(ops, writes_result),
        program.is_program_of(ops, writes_result),
        !program.has_yield_or_bail,
        0 <= i < ops.len(),
    ensures
        ({
            let flow = run(ops[i].op.lowering(writes_result)->0, m, res).1;
            flow is Next || flow is Jump || flow is Return
        }),
{
    let op = ops[i].op;
    assert(op.lowering(writes_result) is Some);
    let words = op.lowering(writes_result)->0;
    lemma_within(ops, writes_result, i);
    let start = word_index(ops, writes_result, i) as int;
    let c = code(ops, writes_result);
    lemma_not_empty(op, writes_result);
    assert(c[start].word == words[0]) by {
        assert(c[start + 0].word == words[0]);
    }
    assert(!leaves(c[start].word));
    law_effect(op, writes_result, m, res);
    let effect = op.effect(writes_result)->0;
    if effect is Bail || effect is Yield || effect is Trap {
        lemma_leaving(op, writes_result);
    }
    lemma_flow(effect, m, res);
}

/// Only an operation whose words leave to the stock executor or trap is about that.
proof fn lemma_leaving(op: Op, writes_result: bool)
    requires
        op.effect(writes_result) matches Some(a) && (a is Bail || a is Yield || a is Trap),
    ensures
        op.lowering(writes_result) is Some,
        leaves(op.lowering(writes_result)->0[0]),
{
}

/// Other actions go on, jump or return.
proof fn lemma_flow<W>(a: Action, m: Machine<W>, res: Residuals<W>)
    requires
        !(a is Bail || a is Yield || a is Trap),
    ensures
        ({
            let flow = perform(a, m, res).1;
            flow is Next || flow is Jump || flow is Return
        }),
{
}

/// The words of operation `i` stand from its first word on.
pub(crate) proof fn lemma_within(ops: Seq<OpAt>, writes_result: bool, i: int)
    requires
        0 <= i < ops.len(),
    ensures
        ({
            let words = ops[i].op.lowering(writes_result)->0;
            let start = word_index(ops, writes_result, i);
            &&& start + words.len() <= code(ops, writes_result).len()
            &&& forall|k: int|
                0 <= k < words.len() ==> #[trigger] code(ops, writes_result)[start + k] == (Placed {
                    at: ops[i].pos,
                    word: words[k],
                })
        }),
    decreases ops.len(),
{
    let less = ops.drop_last();
    if i == ops.len() - 1 {
        assert(ops.take(i) =~= less);
    } else {
        assert(less.take(i) =~= ops.take(i));
        assert(less[i] == ops[i]);
        lemma_within(less, writes_result, i);
    }
}

} // verus!
