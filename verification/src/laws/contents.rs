//! What the fields of a program hold.

use crate::action::FloatWidth;
use crate::laws::execution::lemma_next_index;
use crate::laws::program::{
    law_params, law_target, lemma_cell_value, lemma_owner, lemma_within, lemma_word_index_grows,
};
use crate::mini::MINI_YIELD_STOCK;
use crate::ops::bits::BitsOp;
use crate::ops::branch::BranchOp;
use crate::ops::compare::CompareOp;
use crate::ops::control::ControlOp;
use crate::ops::convert::ConvertOp;
use crate::ops::copy::CopyOp;
use crate::ops::divide::DivideOp;
use crate::ops::float::FloatOp;
use crate::ops::global::GlobalOp;
use crate::ops::integer::IntOp;
use crate::ops::memory::MemoryOp;
use crate::ops::select::SelectOp;
use crate::ops::Op;
use crate::prepass::{
    all_lower, all_resolve, code, eligible, goes_back, leaves, names_slot, refers_to, target_byte,
    target_word, word_index, MiniProgram,
};
use crate::slots::lemma_few_slots;
use crate::stream::{index_at, is_start, OpAt};
use crate::word::Word;
use vstd::prelude::*;

verus! {

/// How far a branch goes, in bytes from its own start. Other operations go nowhere.
pub open spec fn distance(op: Op) -> Option<i32> {
    match op {
        Op::Branch(op) => match op {
                BranchOp::Branch { offset } => Some(offset),
                BranchOp::BranchI32Eq_Rs { offset, .. } => Some(offset),
                BranchOp::BranchI32Eq_Si { offset, .. } => Some(offset),
                BranchOp::BranchI32Eq_Ri { offset, .. } => Some(offset),
                BranchOp::BranchI32NotEq_Rs { offset, .. } => Some(offset),
                BranchOp::BranchI32NotEq_Si { offset, .. } => Some(offset),
                BranchOp::BranchI32NotEq_Ri { offset, .. } => Some(offset),
                BranchOp::BranchI32Lt_Si { offset, .. } => Some(offset),
                BranchOp::BranchI32Lt_Ri { offset, .. } => Some(offset),
                BranchOp::BranchI32Le_Ss { offset, .. } => Some(offset),
                BranchOp::BranchU32Lt_Ss { offset, .. } => Some(offset),
                BranchOp::BranchU32Lt_Rs { offset, .. } => Some(offset),
                BranchOp::BranchU32Lt_Sr { offset, .. } => Some(offset),
                BranchOp::BranchU32Lt_Si { offset, .. } => Some(offset),
                BranchOp::BranchU32Lt_Ir { offset, .. } => Some(offset),
                BranchOp::BranchU32Le_Ss { offset, .. } => Some(offset),
                BranchOp::BranchU32Le_Rs { offset, .. } => Some(offset),
                BranchOp::BranchU32Le_Sr { offset, .. } => Some(offset),
                BranchOp::BranchU32Le_Ir { offset, .. } => Some(offset),
                BranchOp::BranchI64Eq_Ss { offset, .. } => Some(offset),
                BranchOp::BranchI64Eq_Si { offset, .. } => Some(offset),
                BranchOp::BranchI64Eq_Ri { offset, .. } => Some(offset),
                BranchOp::BranchI64NotEq_Ri { offset, .. } => Some(offset),
                BranchOp::BranchI64Lt_Rs { offset, .. } => Some(offset),
                BranchOp::BranchI64Lt_Ir { offset, .. } => Some(offset),
                BranchOp::BranchI64Le_Ss { offset, .. } => Some(offset),
                BranchOp::BranchI64Le_Rs { offset, .. } => Some(offset),
                BranchOp::BranchI64Le_Si { offset, .. } => Some(offset),
                BranchOp::BranchU64Lt_Si { offset, .. } => Some(offset),
                BranchOp::BranchU64Lt_Is { offset, .. } => Some(offset),
                BranchOp::BranchU64Lt_Ir { offset, .. } => Some(offset),
        },
        _ => None,
    }
}

/// Whether the operation gives up the run, hands it over or traps by itself.
pub open spec fn parts(op: Op) -> bool {
    match op {
        Op::Control(ControlOp::Trap { .. }) => true,
        Op::Control(ControlOp::ReturnCallInternal) => true,
        Op::Control(ControlOp::ReturnCallIndirect_S) => true,
        Op::Control(ControlOp::ReturnCallIndirect_R) => true,
        _ => hands_over(op),
    }
}

/// Whether the operation hands the run over to the stock executor.
pub open spec fn hands_over(op: Op) -> bool {
    match op {
        Op::Control(ControlOp::BranchTable_R) => true,
        Op::Memory(MemoryOp::U32LoadExtend8_Rr) => true,
        Op::Bits(BitsOp::I64Shr_Rsi { .. }) => true,
        _ => false,
    }
}

/// Whether the words neither branch nor leave.
spec fn calm(words: Seq<Word>) -> bool {
    forall|k: int| 0 <= k < words.len() ==> !((#[trigger] words[k]) is Target) && !leaves(words[k])
}

/// Whether the words branch by this distance, at one place, and do not leave.
spec fn branches(words: Seq<Word>, offset: i32) -> bool {
    &&& exists|k: int| 0 <= k < words.len() && #[trigger] words[k] == Word::Target(offset)
    &&& forall|k: int|
        0 <= k < words.len() ==> ((#[trigger] words[k]) is Target ==> words[k] == Word::Target(
            offset,
        )) && !leaves(words[k])
}

proof fn lemma_calm_copy(op: CopyOp)
    ensures
        calm(op.lowering()),
{
}

proof fn lemma_calm_int(op: IntOp)
    ensures
        calm(op.lowering()),
{
}

proof fn lemma_calm_bits(op: BitsOp)
    requires
        !(op is I64Shr_Rsi),
    ensures
        calm(op.lowering()),
{
}

proof fn lemma_calm_divide(op: DivideOp)
    ensures
        calm(op.lowering()),
{
}

proof fn lemma_calm_compare(op: CompareOp)
    ensures
        calm(op.lowering()),
{
}

proof fn lemma_calm_select(op: SelectOp)
    ensures
        calm(op.lowering()),
{
}

proof fn lemma_calm_float(op: FloatOp, width: FloatWidth)
    ensures
        calm(op.lowering(width)),
{
}

#[verifier::rlimit(30)]
proof fn lemma_calm_convert(op: ConvertOp)
    ensures
        calm(op.lowering()),
{
}

proof fn lemma_calm_memory(op: MemoryOp)
    requires
        !(op is U32LoadExtend8_Rr),
    ensures
        calm(op.lowering()),
{
}

proof fn lemma_calm_global(op: GlobalOp)
    ensures
        calm(op.lowering()),
{
}

proof fn lemma_calm_control(op: ControlOp, writes_result: bool)
    requires
        !parts(Op::Control(op)),
    ensures
        calm(op.lowering(writes_result)),
{
}

proof fn lemma_branches(op: BranchOp)
    ensures
        branches(op.lowering(), distance(Op::Branch(op))->0),
{
}

/// The words of an operation that branches go where it says; other operations have no branch.
/// Words leave only where the operation does, and then the first one does.
pub(crate) proof fn lemma_outline(op: Op, writes_result: bool)
    requires
        op.lowering(writes_result) is Some,
    ensures
        ({
            let words = op.lowering(writes_result)->0;
            &&& forall|k: int|
                0 <= k < words.len() && (#[trigger] words[k]) is Target ==> distance(op) == Some(
                    words[k]->Target_0,
                )
            &&& distance(op) matches Some(offset) ==> exists|k: int|
                0 <= k < words.len() && #[trigger] words[k] == Word::Target(offset)
            &&& forall|k: int| 0 <= k < words.len() && leaves(#[trigger] words[k]) ==> parts(op)
            &&& parts(op) ==> words.len() > 0 && leaves(words[0])
        }),
{
    match op {
        Op::Copy(op) => lemma_calm_copy(op),
        Op::Int(op) => lemma_calm_int(op),
        Op::Bits(op) => {
            if !(op is I64Shr_Rsi) {
                lemma_calm_bits(op);
            }
        },
        Op::Divide(op) => lemma_calm_divide(op),
        Op::Compare(op) => lemma_calm_compare(op),
        Op::Select(op) => lemma_calm_select(op),
        Op::F32(op) => lemma_calm_float(op, FloatWidth::F32),
        Op::F64(op) => lemma_calm_float(op, FloatWidth::F64),
        Op::F64NotLe(_) => {},
        Op::Convert(op) => lemma_calm_convert(op),
        Op::Memory(op) => {
            if !(op is U32LoadExtend8_Rr) {
                lemma_calm_memory(op);
            }
        },
        Op::Global(op) => lemma_calm_global(op),
        Op::Branch(op) => lemma_branches(op),
        Op::Control(op) => {
            if !parts(Op::Control(op)) {
                lemma_calm_control(op, writes_result);
            }
        },
        _ => {},
    }
}

/// **The layout.** The words of the operations follow one another, from word 0 to the end of
/// the program.
pub proof fn law_layout(program: MiniProgram, ops: Seq<OpAt>, writes_result: bool)
    requires
        eligible(ops, writes_result),
        program.is_program_of(ops, writes_result),
    ensures
        word_index(ops, writes_result, 0) == 0,
        forall|i: int|
            0 <= i < ops.len() ==> #[trigger] word_index(ops, writes_result, i + 1) == word_index(
                ops,
                writes_result,
                i,
            ) + ops[i].op.lowering(writes_result)->0.len(),
        program.words@.len() == word_index(ops, writes_result, ops.len() as int),
{
    assert(ops.take(0) =~= Seq::<OpAt>::empty());
    assert(ops.take(ops.len() as int) =~= ops);
    assert forall|i: int| 0 <= i < ops.len() implies #[trigger] word_index(
        ops,
        writes_result,
        i + 1,
    ) == word_index(ops, writes_result, i) + ops[i].op.lowering(writes_result)->0.len() by {
        lemma_next_index(ops, writes_result, i);
    }
}

/// **The words.** What stands for word `k` of operation `i`: an opcode and an immediate are what
/// they are; a frame slot is the index at which `slot_map` holds it; a scratch slot comes behind
/// all of these; a target is the first word of the operation that starts as many bytes from this
/// one as the branch says; and what a yield leaves with is the byte at which its own operation
/// starts, and the number of slots.
pub proof fn law_word(program: MiniProgram, ops: Seq<OpAt>, writes_result: bool, i: int, k: int)
    requires
        eligible(ops, writes_result),
        program.is_program_of(ops, writes_result),
        program.words@.len() <= i64::MAX,
        0 <= i < ops.len(),
        0 <= k < ops[i].op.lowering(writes_result)->0.len(),
    ensures
        word_index(ops, writes_result, i) + k < program.words@.len(),
        ({
            let v = program.words@[word_index(ops, writes_result, i) + k];
            match ops[i].op.lowering(writes_result)->0[k] {
                Word::Code(c) => v == c,
                Word::Imm(imm) => v == imm,
                Word::Slot(s) => 0 <= v < program.num_slots && program.slot_map@[v as int] == s,
                Word::Span(head, _) => {
                    0 <= v < program.num_slots && program.slot_map@[v as int] == head
                },
                Word::Scratch(n) => v == program.num_slots + n,
                Word::Target(offset) => exists|t: int|
                    {
                        &&& 0 <= t < ops.len()
                        &&& (#[trigger] ops[t]).pos == ops[i].pos + offset
                        &&& v == word_index(ops, writes_result, t)
                    },
                Word::Here => v == ops[i].pos as i64,
                Word::SlotCount => v == program.num_slots,
            }
        }),
{
    lemma_within(ops, writes_result, i);
    let c = code(ops, writes_result);
    let j = word_index(ops, writes_result, i) + k;
    let word = ops[i].op.lowering(writes_result)->0[k];
    assert(c[j].word == word && c[j].at == ops[i].pos);
    lemma_few_slots(program.slot_map@);
    match word {
        Word::Slot(_) => lemma_cell_value(program, ops, writes_result, j),
        Word::Span(_, _) => lemma_cell_value(program, ops, writes_result, j),
        Word::Scratch(_) => lemma_cell_value(program, ops, writes_result, j),
        Word::Target(_) => law_target(program, ops, writes_result, j),
        _ => {},
    }
}

/// **Yields say where.** An operation that is left to the stock executor is a yield, with the byte
/// at which that operation starts, from which the executor goes on, and the number of slots
/// to write back.
pub proof fn law_yield(program: MiniProgram, ops: Seq<OpAt>, writes_result: bool, i: int)
    requires
        eligible(ops, writes_result),
        program.is_program_of(ops, writes_result),
        program.words@.len() <= i64::MAX,
        0 <= i < ops.len(),
        hands_over(ops[i].op),
    ensures
        ({
            let start = word_index(ops, writes_result, i) as int;
            &&& word_index(ops, writes_result, i + 1) == start + 3
            &&& start + 3 <= program.words@.len()
            &&& program.words@[start] == MINI_YIELD_STOCK
            &&& program.words@[start + 1] == ops[i].pos as i64
            &&& program.words@[start + 2] == program.num_slots
        }),
{
    lemma_next_index(ops, writes_result, i);
    law_word(program, ops, writes_result, i, 0);
    law_word(program, ops, writes_result, i, 1);
    law_word(program, ops, writes_result, i, 2);
}

/// Whether word `k` of operation `i` names the slot: itself, or as one of the slots of a call. A
/// call names the slot of its result even if it has no parameters.
pub open spec fn mentions(
    ops: Seq<OpAt>,
    writes_result: bool,
    i: int,
    k: int,
    slot: u16,
) -> bool {
    &&& 0 <= i < ops.len()
    &&& 0 <= k < ops[i].op.lowering(writes_result)->0.len()
    &&& match ops[i].op.lowering(writes_result)->0[k] {
        Word::Slot(s) => s == slot,
        Word::Span(head, len) => slot == head || head <= slot < head + len,
        _ => false,
    }
}

/// **The slots.** `slot_map` holds the frame slots that the words mention, no other ones, and each
/// once, the lower ones first; `num_slots` is how many these are.
pub proof fn law_slot_map(program: MiniProgram, ops: Seq<OpAt>, writes_result: bool)
    requires
        program.is_program_of(ops, writes_result),
    ensures
        program.num_slots == program.slot_map@.len(),
        forall|a: int, b: int|
            0 <= a < b < program.num_slots ==> (#[trigger] program.slot_map@[a]) < (
            #[trigger] program.slot_map@[b]),
        forall|s: u16| #[trigger]
            program.slot_map@.contains(s) <==> exists|i: int, k: int|
                #[trigger] mentions(ops, writes_result, i, k, s),
{
    let c = code(ops, writes_result);
    assert forall|s: u16| #[trigger] program.slot_map@.contains(s) <==> exists|i: int, k: int|
        #[trigger] mentions(ops, writes_result, i, k, s) by {
        if refers_to(c, s) {
            let j = choose|j: int| 0 <= j < c.len() && names_slot((#[trigger] c[j]).word, s);
            let i = lemma_owner(ops, writes_result, j);
            let k = j - word_index(ops, writes_result, i);
            lemma_next_index(ops, writes_result, i);
            lemma_within(ops, writes_result, i);
            assert(c[word_index(ops, writes_result, i) + k].word == c[j].word);
            assert(mentions(ops, writes_result, i, k, s));
        }
        if exists|i: int, k: int| #[trigger] mentions(ops, writes_result, i, k, s) {
            let (i, k) = choose|i: int, k: int| #[trigger] mentions(ops, writes_result, i, k, s);
            lemma_within(ops, writes_result, i);
            assert(names_slot(c[word_index(ops, writes_result, i) + k].word, s));
        }
    }
}

/// **Parameters have cells side by side.** The words of a call name the cell of its first slot and
/// the number of its parameters, and the cells from there on are those of the slots that follow,
/// as far as there are slots of these numbers.
pub proof fn law_call_slots(
    program: MiniProgram,
    ops: Seq<OpAt>,
    writes_result: bool,
    i: int,
    n: int,
)
    requires
        eligible(ops, writes_result),
        program.is_program_of(ops, writes_result),
        program.words@.len() <= i64::MAX,
        0 <= i < ops.len(),
        ops[i].op matches Op::Control(op) && (op is CallInternal || op is CallImported
            || op is CallIndirect_S || op is CallIndirect_R),
    ensures
        ({
            let (at, head, len) = match ops[i].op {
                Op::Control(ControlOp::CallInternal { head, len, .. }) => (2int, head, len),
                Op::Control(ControlOp::CallImported { head, len, .. }) => (2int, head, len),
                Op::Control(ControlOp::CallIndirect_S { head, len, .. }) => (4int, head, len),
                Op::Control(ControlOp::CallIndirect_R { head, len, .. }) => (6int, head, len),
                _ => arbitrary(),
            };
            let place = word_index(ops, writes_result, i) + at;
            let cell = program.words@[place];
            &&& place + 1 < program.words@.len()
            &&& program.words@[place + 1] == len
            &&& 0 <= cell < program.num_slots
            &&& program.slot_map@[cell as int] == head
            &&& 0 <= n < len && head + n <= u16::MAX ==> {
                &&& cell + n < program.num_slots
                &&& program.slot_map@[cell + n] == head + n
            }
        }),
{
    let (at, head, len) = match ops[i].op {
        Op::Control(ControlOp::CallInternal { head, len, .. }) => (2int, head, len),
        Op::Control(ControlOp::CallImported { head, len, .. }) => (2int, head, len),
        Op::Control(ControlOp::CallIndirect_S { head, len, .. }) => (4int, head, len),
        Op::Control(ControlOp::CallIndirect_R { head, len, .. }) => (6int, head, len),
        _ => arbitrary(),
    };
    let start = word_index(ops, writes_result, i) as int;
    let place = start + at;
    let cell = program.words@[place];
    law_word(program, ops, writes_result, i, at);
    law_word(program, ops, writes_result, i, at + 1);
    assert(program.words@[start + (at + 1)] == program.words@[place + 1]);
    lemma_within(ops, writes_result, i);
    assert(code(ops, writes_result)[place].word == Word::Span(head, len));
    if 0 <= n < len && head + n <= u16::MAX {
        law_params(program, ops, writes_result, place, n);
    }
}

/// Whether the operation is a branch that goes back, however far.
pub open spec fn repeats(op: Op) -> bool {
    distance(op) matches Some(offset) && offset < 0
}

/// **The loop header.** If branches go back, it is the first word of the operation that the last
/// of them goes to, however far back. If none does, there is no loop header.
pub proof fn law_header(program: MiniProgram, ops: Seq<OpAt>, writes_result: bool)
    requires
        eligible(ops, writes_result),
        program.is_program_of(ops, writes_result),
    ensures
        match program.loop_header_word {
            None => forall|i: int| 0 <= i < ops.len() ==> !repeats((#[trigger] ops[i]).op),
            Some(h) => exists|i: int, t: int|
                {
                    &&& 0 <= i < ops.len()
                    &&& repeats((#[trigger] ops[i]).op)
                    &&& forall|later: int|
                        i < later < ops.len() ==> !repeats((#[trigger] ops[later]).op)
                    &&& 0 <= t < ops.len()
                    &&& (#[trigger] ops[t]).pos == ops[i].pos + distance(ops[i].op)->0
                    &&& h == word_index(ops, writes_result, t)
                },
        },
{
    let c = code(ops, writes_result);
    assert forall|i: int| 0 <= i < ops.len() && repeats((#[trigger] ops[i]).op) implies exists|
        j: int,
    |
        word_index(ops, writes_result, i) <= j < c.len() && goes_back((#[trigger] c[j]).word) by {
        let words = ops[i].op.lowering(writes_result)->0;
        let offset = distance(ops[i].op)->0;
        lemma_outline(ops[i].op, writes_result);
        lemma_within(ops, writes_result, i);
        let k = choose|k: int| 0 <= k < words.len() && #[trigger] words[k] == Word::Target(offset);
        assert(goes_back(c[word_index(ops, writes_result, i) + k].word));
    }
    if program.loop_header_word is Some {
        let h = program.loop_header_word->0;
        let j = choose|j: int|
            {
                &&& 0 <= j < c.len()
                &&& goes_back((#[trigger] c[j]).word)
                &&& h == target_word(ops, writes_result, c[j])
                &&& forall|k: int| j < k < c.len() ==> !goes_back((#[trigger] c[k]).word)
            };
        let i = lemma_owner(ops, writes_result, j);
        let start = word_index(ops, writes_result, i);
        lemma_next_index(ops, writes_result, i);
        lemma_within(ops, writes_result, i);
        lemma_outline(ops[i].op, writes_result);
        let k = j - start;
        assert(c[start + k].word == ops[i].op.lowering(writes_result)->0[k]);
        assert(is_start(ops, target_byte(c[j])));
        let t = index_at(ops, target_byte(c[j]));
        assert(ops[t].pos == ops[i].pos + distance(ops[i].op)->0);
        assert forall|later: int| i < later < ops.len() implies !repeats(
            (#[trigger] ops[later]).op,
        ) by {
            lemma_word_index_grows(ops, writes_result, i + 1, later);
            if repeats(ops[later].op) {
                let back = choose|back: int|
                    word_index(ops, writes_result, later) <= back < c.len() && goes_back(
                        (#[trigger] c[back]).word,
                    );
                assert(j < back);
            }
        }
        assert(repeats(ops[i].op));
    }
}

/// **The flags.** Whether the function has a result slot, whether one of its operations is one on
/// globals, and whether one of them gives up the run, hands it over or traps by itself.
pub proof fn law_flags(program: MiniProgram, ops: Seq<OpAt>, writes_result: bool)
    requires
        eligible(ops, writes_result),
        program.is_program_of(ops, writes_result),
    ensures
        program.writes_result == writes_result,
        program.uses_globals <==> exists|i: int|
            0 <= i < ops.len() && (#[trigger] ops[i]).op is Global,
        program.has_yield_or_bail <==> exists|i: int|
            0 <= i < ops.len() && parts((#[trigger] ops[i]).op),
{
    let c = code(ops, writes_result);
    if program.has_yield_or_bail {
        let j = choose|j: int| 0 <= j < c.len() && leaves((#[trigger] c[j]).word);
        let i = lemma_owner(ops, writes_result, j);
        let k = j - word_index(ops, writes_result, i);
        lemma_next_index(ops, writes_result, i);
        lemma_within(ops, writes_result, i);
        lemma_outline(ops[i].op, writes_result);
        assert(c[word_index(ops, writes_result, i) + k].word == ops[i].op.lowering(
            writes_result,
        )->0[k]);
        assert(parts(ops[i].op));
    }
    if exists|i: int| 0 <= i < ops.len() && parts((#[trigger] ops[i]).op) {
        let i = choose|i: int| 0 <= i < ops.len() && parts((#[trigger] ops[i]).op);
        lemma_within(ops, writes_result, i);
        lemma_outline(ops[i].op, writes_result);
        let start = word_index(ops, writes_result, i) as int;
        assert(leaves(c[start + 0].word));
    }
}

/// Whether the kernel can carry out the operation: it knows it, and the operation is not about
/// another memory than the first.
pub open spec fn known(op: Op) -> bool {
    match op {
        Op::Unlowered(_) => false,
        Op::Other(_) => false,
        Op::Memory(MemoryOp::U32Load_Ri { memory, .. }) => memory == 0,
        Op::Memory(MemoryOp::U64Load_Ri { memory, .. }) => memory == 0,
        Op::Memory(MemoryOp::U32LoadExtend8_Ri { memory, .. }) => memory == 0,
        Op::Memory(MemoryOp::U32LoadExtend16_Ri { memory, .. }) => memory == 0,
        Op::Memory(MemoryOp::U64LoadExtend32_Ri { memory, .. }) => memory == 0,
        Op::Memory(MemoryOp::U64LoadExtend8_Rs { memory, .. }) => memory == 0,
        Op::Memory(MemoryOp::U64Store_Is { memory, .. }) => memory == 0,
        Op::Memory(MemoryOp::U32Store_Is { memory, .. }) => memory == 0,
        Op::Memory(MemoryOp::U32Store_Ir { memory, .. }) => memory == 0,
        Op::Memory(MemoryOp::U32Store_Ii { memory, .. }) => memory == 0,
        Op::Memory(MemoryOp::MemorySize { memory }) => memory == 0,
        Op::Memory(MemoryOp::MemoryCopy { dst_memory, src_memory, .. }) => {
            dst_memory == 0 && src_memory == 0
        },
        _ => true,
    }
}

/// **What is lowered.** A function is lowered if and only if the kernel knows all its operations,
/// and every branch goes to a byte at which one of them starts.
pub proof fn law_eligible(ops: Seq<OpAt>, writes_result: bool)
    ensures
        eligible(ops, writes_result) <==> {
            &&& forall|i: int| 0 <= i < ops.len() ==> known((#[trigger] ops[i]).op)
            &&& forall|i: int|
                0 <= i < ops.len() && distance((#[trigger] ops[i]).op) is Some ==> exists|t: int|
                    0 <= t < ops.len() && (#[trigger] ops[t]).pos == ops[i].pos + distance(
                        ops[i].op,
                    )->0
        },
{
    let c = code(ops, writes_result);
    if forall|i: int| 0 <= i < ops.len() ==> known((#[trigger] ops[i]).op) {
        assert(all_lower(ops, writes_result));
    }
    if all_lower(ops, writes_result) {
        assert forall|i: int| 0 <= i < ops.len() implies known((#[trigger] ops[i]).op) by {
            assert(ops[i].op.lowering(writes_result) is Some);
        }
        if all_resolve(ops, writes_result) {
            assert forall|i: int|
                0 <= i < ops.len() && distance((#[trigger] ops[i]).op) is Some implies exists|
                t: int,
            |
                0 <= t < ops.len() && (#[trigger] ops[t]).pos == ops[i].pos + distance(
                    ops[i].op,
                )->0 by {
                let words = ops[i].op.lowering(writes_result)->0;
                let offset = distance(ops[i].op)->0;
                lemma_outline(ops[i].op, writes_result);
                lemma_within(ops, writes_result, i);
                let k = choose|k: int|
                    0 <= k < words.len() && #[trigger] words[k] == Word::Target(offset);
                let p = c[word_index(ops, writes_result, i) + k];
                assert(p.word is Target);
                assert(is_start(ops, target_byte(p)));
            }
        } else {
            let j = choose|j: int|
                0 <= j < c.len() && (#[trigger] c[j]).word is Target && !is_start(
                    ops,
                    target_byte(c[j]),
                );
            let i = lemma_owner(ops, writes_result, j);
            let k = j - word_index(ops, writes_result, i);
            lemma_next_index(ops, writes_result, i);
            lemma_within(ops, writes_result, i);
            lemma_outline(ops[i].op, writes_result);
            assert(c[word_index(ops, writes_result, i) + k].word == ops[i].op.lowering(
                writes_result,
            )->0[k]);
            assert(distance(ops[i].op) is Some);
        }
    }
}

} // verus!
