//! The kernel on the words of a program.

use crate::action::{perform, Flow, Machine, Residuals};
use crate::kernel::{agree_but, cell, form, lemma_codes, run, run_from, step, step_outside, Form};
use crate::laws::lowering::law_lowering;
use crate::laws::program::{law_target, lemma_cell_value, lemma_within, names_cell};
use crate::prepass::{code, eligible, word_index, MiniProgram};
use crate::stream::{index_at, OpAt};
use crate::word::{
    instruction_at, operands, shaped, shaped_from, width, width_at, Kind, Operands, Word,
};
use vstd::prelude::*;

verus! {

/// Where the kernel stands.
pub enum Control {
    /// Before the instruction at this word.
    At(int),
    /// Outside of the program: it has handed over to the stock executor, which goes on with the
    /// operation at this byte.
    Yielded(i64),
    /// Outside of the program: it has returned, given up or trapped.
    Gone(Flow),
}

impl MiniProgram {
    /// What the kernel takes an operand for: an index below `num_slots` for the cell of a frame
    /// slot, and one from there on for a scratch cell.
    pub open spec fn read(&self, kind: Kind, v: i64) -> Word {
        match kind {
            Kind::Cell => if v < self.num_slots {
                Word::Slot(self.slot_map@[v as int])
            } else {
                Word::Scratch((v - self.num_slots) as u8)
            },
            Kind::Target => Word::Target(0),
            _ => Word::Imm(v),
        }
    }

    /// The instruction at word `pc`, with its operands.
    pub open spec fn fetch(&self, pc: int) -> Seq<Word> {
        let words = self.words@;
        let c = Word::Code(words[pc]);
        match operands(words[pc])->0 {
            Operands::Of0 => seq![c],
            Operands::Of1(k1) => seq![c, self.read(k1, words[pc + 1])],
            Operands::Of2(k1, k2) => seq![
                c,
                self.read(k1, words[pc + 1]),
                self.read(k2, words[pc + 2]),
            ],
            Operands::Of3(k1, k2, k3) => seq![
                c,
                self.read(k1, words[pc + 1]),
                self.read(k2, words[pc + 2]),
                self.read(k3, words[pc + 3]),
            ],
            Operands::Of4(k1, k2, k3, k4) => seq![
                c,
                self.read(k1, words[pc + 1]),
                self.read(k2, words[pc + 2]),
                self.read(k3, words[pc + 3]),
                self.read(k4, words[pc + 4]),
            ],
            Operands::Of5(k1, k2, k3, k4, k5) => seq![
                c,
                self.read(k1, words[pc + 1]),
                self.read(k2, words[pc + 2]),
                self.read(k3, words[pc + 3]),
                self.read(k4, words[pc + 4]),
                self.read(k5, words[pc + 5]),
            ],
        }
    }

    /// Executes the instruction at word `pc`. The first operand of a branch is the index of the
    /// word that it goes to, and that of a yield the byte at which it leaves.
    pub open spec fn step<W>(&self, pc: int, m: Machine<W>, res: Residuals<W>) -> (
        Control,
        Machine<W>,
    ) {
        let (next, flow) = step(self.fetch(pc), 0, m, res);
        let control = match flow {
            Flow::Next => Control::At(pc + width(self.words@[pc])),
            Flow::Jump(_) => Control::At(self.words@[pc + 1] as int),
            Flow::Yield => Control::Yielded(self.words@[pc + 1]),
            _ => Control::Gone(flow),
        };
        (control, next)
    }

    /// Executes `n` instructions from word `pc` on, as far as the program goes.
    pub open spec fn run<W>(&self, pc: int, m: Machine<W>, res: Residuals<W>, n: nat) -> (
        Control,
        Machine<W>,
    )
        decreases n,
    {
        if n == 0 {
            (Control::At(pc), m)
        } else {
            let (control, next) = self.step(pc, m, res);
            match control {
                Control::At(to) => self.run(to, next, res, (n - 1) as nat),
                _ => (control, next),
            }
        }
    }
}

/// Where the kernel stands behind operation `i`, if that sends control to `flow`: before the
/// first word of the next operation, or of the one that a branch names. An operation that is left
/// to the stock executor is left at its own byte.
pub open spec fn control_after(ops: Seq<OpAt>, writes_result: bool, i: int, flow: Flow) -> Control {
    match flow {
        Flow::Next => Control::At(word_index(ops, writes_result, i + 1) as int),
        Flow::Jump(offset) => Control::At(
            word_index(ops, writes_result, index_at(ops, ops[i].pos + offset)) as int,
        ),
        Flow::Yield => Control::Yielded(ops[i].pos as i64),
        _ => Control::Gone(flow),
    }
}

/// The operands that an instruction of this form reads.
spec fn reads(f: Form) -> Operands {
    match f {
        Form::CopySi => Operands::Of2(Kind::Cell, Kind::Imm),
        Form::CopySs => Operands::Of2(Kind::Cell, Kind::Cell),
        Form::CopyFrom(_) => Operands::Of1(Kind::Cell),
        Form::CopyRs => Operands::Of1(Kind::Cell),
        Form::CopyRi => Operands::Of1(Kind::Imm),
        Form::IregFromFreg64 => Operands::Of0,
        Form::Freg64FromIreg => Operands::Of0,
        Form::IregFromFreg32 => Operands::Of0,
        Form::Freg32FromIreg => Operands::Of0,
        Form::Ss(_) => Operands::Of2(Kind::Cell, Kind::Cell),
        Form::Rs(_) => Operands::Of1(Kind::Cell),
        Form::Sr(_) => Operands::Of1(Kind::Cell),
        Form::Si(_) => Operands::Of2(Kind::Cell, Kind::Imm),
        Form::Ri(_) => Operands::Of1(Kind::Imm),
        Form::Is(_) => Operands::Of2(Kind::Imm, Kind::Cell),
        Form::SsWb(_) => Operands::Of3(Kind::Cell, Kind::Cell, Kind::Cell),
        Form::RsWb(_) => Operands::Of2(Kind::Cell, Kind::Cell),
        Form::SiWb(_) => Operands::Of3(Kind::Cell, Kind::Cell, Kind::Imm),
        Form::ShiftMask => Operands::Of3(Kind::Cell, Kind::Imm, Kind::Imm),
        Form::Sext32R => Operands::Of0,
        Form::Sext32S => Operands::Of1(Kind::Cell),
        Form::Select => Operands::Of2(Kind::Cell, Kind::Cell),
        Form::Arith(_) => Operands::Of2(Kind::Imm, Kind::Cell),
        Form::MinMax(_) => Operands::Of2(Kind::Imm, Kind::Cell),
        Form::FloatTest(_) => Operands::Of2(Kind::Imm, Kind::Cell),
        Form::FloatUnary(_) => Operands::Of2(Kind::Imm, Kind::Cell),
        Form::Convert(_) => Operands::Of2(Kind::Imm, Kind::Cell),
        Form::Trunc(_) => Operands::Of2(Kind::Imm, Kind::Cell),
        Form::TruncSat(_) => Operands::Of2(Kind::Imm, Kind::Cell),
        Form::Promote => Operands::Of1(Kind::Cell),
        Form::Demote => Operands::Of1(Kind::Cell),
        Form::BitCount(_) => Operands::Of2(Kind::Imm, Kind::Cell),
        Form::DivRem(_) => Operands::Of2(Kind::Cell, Kind::Cell),
        Form::Load(_, _) => Operands::Of1(Kind::Imm),
        Form::StoreSr(_, _) => Operands::Of2(Kind::Cell, Kind::Imm),
        Form::StoreRs(_) => Operands::Of2(Kind::Imm, Kind::Cell),
        Form::MemorySize => Operands::Of0,
        Form::MemoryCopy => Operands::Of3(Kind::Cell, Kind::Cell, Kind::Cell),
        Form::GlobalGet(_) => Operands::Of1(Kind::Imm),
        Form::GlobalSet => Operands::Of2(Kind::Imm, Kind::Cell),
        Form::CallInternal => Operands::Of3(Kind::Imm, Kind::Cell, Kind::Imm),
        Form::CallImported => Operands::Of3(Kind::Imm, Kind::Cell, Kind::Imm),
        Form::CallIndirect => Operands::Of5(
            Kind::Imm,
            Kind::Imm,
            Kind::Cell,
            Kind::Cell,
            Kind::Imm,
        ),
        Form::Br => Operands::Of1(Kind::Target),
        Form::BrSs(_) => Operands::Of3(Kind::Target, Kind::Cell, Kind::Cell),
        Form::BrSi(_) => Operands::Of3(Kind::Target, Kind::Cell, Kind::Imm),
        Form::BrRi(_) => Operands::Of2(Kind::Target, Kind::Imm),
        Form::BrIr(_) => Operands::Of2(Kind::Target, Kind::Imm),
        Form::ReturnS => Operands::Of1(Kind::Cell),
        Form::ReturnVoid => Operands::Of0,
        Form::Yield => Operands::Of2(Kind::Position, Kind::Count),
        Form::Trap => Operands::Of1(Kind::Imm),
        Form::Bail => Operands::Of0,
    }
}

/// The kernel reads the operands that an instruction has.
#[verifier::rlimit(50)]
proof fn lemma_reads(c: i64)
    requires
        form(c) is Some,
    ensures
        operands(c) == Some(reads(form(c)->0)),
{
    lemma_codes();
    reveal(form);
}

/// Whether the kernel can take one operand for the other.
spec fn alike(kind: Kind, r: Word, w: Word) -> bool {
    match kind {
        Kind::Cell => cell(r) == cell(w),
        Kind::Imm => r == w,
        Kind::Target => r is Target && w is Target,
        _ => true,
    }
}

/// Whether the operands of an instruction at the start of `a` are like those at `at` in `b`.
spec fn all_alike(a: Seq<Word>, b: Seq<Word>, at: int) -> bool {
    match operands(b[at]->Code_0)->0 {
        Operands::Of0 => true,
        Operands::Of1(k1) => alike(k1, a[1], b[at + 1]),
        Operands::Of2(k1, k2) => {
            &&& alike(k1, a[1], b[at + 1])
            &&& alike(k2, a[2], b[at + 2])
        },
        Operands::Of3(k1, k2, k3) => {
            &&& alike(k1, a[1], b[at + 1])
            &&& alike(k2, a[2], b[at + 2])
            &&& alike(k3, a[3], b[at + 3])
        },
        Operands::Of4(k1, k2, k3, k4) => {
            &&& alike(k1, a[1], b[at + 1])
            &&& alike(k2, a[2], b[at + 2])
            &&& alike(k3, a[3], b[at + 3])
            &&& alike(k4, a[4], b[at + 4])
        },
        Operands::Of5(k1, k2, k3, k4, k5) => {
            &&& alike(k1, a[1], b[at + 1])
            &&& alike(k2, a[2], b[at + 2])
            &&& alike(k3, a[3], b[at + 3])
            &&& alike(k4, a[4], b[at + 4])
            &&& alike(k5, a[5], b[at + 5])
        },
    }
}

/// Outside work with like operands does alike.
proof fn lemma_outside_alike<W>(
    f: Form,
    a: Seq<Word>,
    b: Seq<Word>,
    at: int,
    m: Machine<W>,
    res: Residuals<W>,
)
    requires
        operands(b[at]->Code_0) == Some(reads(f)),
        all_alike(a, b, at),
    ensures
        step_outside(f, a, 0, m, res) == step_outside(f, b, at, m, res),
{
    reveal(step_outside);
}

/// Instructions with like operands do alike.
#[verifier::rlimit(80)]
proof fn lemma_step_alike<W>(
    a: Seq<Word>,
    b: Seq<Word>,
    at: int,
    m: Machine<W>,
    res: Residuals<W>,
)
    requires
        a[0] == b[at],
        all_alike(a, b, at),
    ensures
        step(a, 0, m, res).0 == step(b, at, m, res).0,
        step(b, at, m, res).1 is Jump ==> {
            &&& step(a, 0, m, res).1 is Jump
            &&& step(b, at, m, res).1 == Flow::Jump(b[at + 1]->Target_0)
            &&& operands(b[at]->Code_0)->0 == reads(form(b[at]->Code_0)->0)
        },
        step(b, at, m, res).1 is Yield ==> operands(b[at]->Code_0) == Some(
            Operands::Of2(Kind::Position, Kind::Count),
        ),
        !(step(b, at, m, res).1 is Jump) ==> step(a, 0, m, res).1 == step(b, at, m, res).1,
{
    let c = b[at]->Code_0;
    if form(c) is Some {
        lemma_reads(c);
        lemma_outside_alike(form(c)->0, a, b, at, m, res);
    }
}

/// An operand of the program is read as what it was lowered from.
proof fn lemma_operand(
    program: MiniProgram,
    ops: Seq<OpAt>,
    writes_result: bool,
    j: int,
    kind: Kind,
)
    requires
        eligible(ops, writes_result),
        program.is_program_of(ops, writes_result),
        0 <= j < code(ops, writes_result).len(),
        code(ops, writes_result)[j].word.fits(kind),
    ensures
        alike(kind, program.read(kind, program.words@[j]), code(ops, writes_result)[j].word),
{
    if kind is Cell {
        assert(names_cell(code(ops, writes_result)[j].word));
        lemma_cell_value(program, ops, writes_result, j);
    }
}

/// An instruction of the program is fetched as what it was lowered from.
proof fn lemma_fetch(program: MiniProgram, ops: Seq<OpAt>, writes_result: bool, i: int, at: int)
    requires
        eligible(ops, writes_result),
        program.is_program_of(ops, writes_result),
        0 <= i < ops.len(),
        instruction_at(ops[i].op.lowering(writes_result)->0, at),
    ensures
        ({
            let words = ops[i].op.lowering(writes_result)->0;
            let pc = word_index(ops, writes_result, i) + at;
            &&& width(program.words@[pc]) == width_at(words, at)
            &&& program.fetch(pc)[0] == words[at]
            &&& all_alike(program.fetch(pc), words, at)
        }),
{
    let words = ops[i].op.lowering(writes_result)->0;
    let start = word_index(ops, writes_result, i) as int;
    let pc = start + at;
    let c = code(ops, writes_result);
    lemma_within(ops, writes_result, i);
    let w = width_at(words, at);
    assert forall|d: int| 0 <= d < w implies (#[trigger] c[pc + d]).word == words[at + d] by {
        assert(c[start + (at + d)].word == words[at + d]);
    }
    assert(c[pc + 0].word == words[at]);
    match operands(words[at]->Code_0)->0 {
        Operands::Of0 => {},
        Operands::Of1(k1) => {
            lemma_operand(program, ops, writes_result, pc + 1, k1);
        },
        Operands::Of2(k1, k2) => {
            lemma_operand(program, ops, writes_result, pc + 1, k1);
            lemma_operand(program, ops, writes_result, pc + 2, k2);
        },
        Operands::Of3(k1, k2, k3) => {
            lemma_operand(program, ops, writes_result, pc + 1, k1);
            lemma_operand(program, ops, writes_result, pc + 2, k2);
            lemma_operand(program, ops, writes_result, pc + 3, k3);
        },
        Operands::Of4(k1, k2, k3, k4) => {
            lemma_operand(program, ops, writes_result, pc + 1, k1);
            lemma_operand(program, ops, writes_result, pc + 2, k2);
            lemma_operand(program, ops, writes_result, pc + 3, k3);
            lemma_operand(program, ops, writes_result, pc + 4, k4);
        },
        Operands::Of5(k1, k2, k3, k4, k5) => {
            lemma_operand(program, ops, writes_result, pc + 1, k1);
            lemma_operand(program, ops, writes_result, pc + 2, k2);
            lemma_operand(program, ops, writes_result, pc + 3, k3);
            lemma_operand(program, ops, writes_result, pc + 4, k4);
            lemma_operand(program, ops, writes_result, pc + 5, k5);
        },
    }
}

/// The words of the next operation follow.
pub(crate) proof fn lemma_next_index(ops: Seq<OpAt>, writes_result: bool, i: int)
    requires
        0 <= i < ops.len(),
    ensures
        word_index(ops, writes_result, i + 1) == word_index(ops, writes_result, i)
            + ops[i].op.lowering(writes_result)->0.len(),
{
    assert(ops.take(i + 1).drop_last() =~= ops.take(i));
    assert(ops.take(i + 1).last() == ops[i]);
}

/// One instruction of operation `i`, within the program.
#[verifier::rlimit(30)]
proof fn lemma_step_within<W>(
    program: MiniProgram,
    ops: Seq<OpAt>,
    writes_result: bool,
    i: int,
    at: int,
    m: Machine<W>,
    res: Residuals<W>,
)
    requires
        eligible(ops, writes_result),
        program.is_program_of(ops, writes_result),
        program.words@.len() <= i64::MAX,
        0 <= i < ops.len(),
        instruction_at(ops[i].op.lowering(writes_result)->0, at),
    ensures
        ({
            let words = ops[i].op.lowering(writes_result)->0;
            let pc = word_index(ops, writes_result, i) + at;
            let (next, flow) = step(words, at, m, res);
            let (control, got) = program.step(pc, m, res);
            &&& got == next
            &&& control == if flow is Next {
                Control::At(pc + width_at(words, at))
            } else {
                control_after(ops, writes_result, i, flow)
            }
        }),
{
    let words = ops[i].op.lowering(writes_result)->0;
    let start = word_index(ops, writes_result, i) as int;
    let pc = start + at;
    lemma_fetch(program, ops, writes_result, i, at);
    lemma_step_alike(program.fetch(pc), words, at, m, res);
    let flow = step(words, at, m, res).1;
    if flow is Jump {
        lemma_within(ops, writes_result, i);
        let c = code(ops, writes_result);
        let p = c[pc + 1];
        assert(c[start + (at + 1)].word == words[at + 1]);
        assert(p.at == ops[i].pos && p.word == words[at + 1]);
        law_target(program, ops, writes_result, pc + 1);
    }
    if flow is Yield {
        lemma_within(ops, writes_result, i);
        let p = code(ops, writes_result)[start + (at + 1)];
        assert(p.at == ops[i].pos && p.word is Here);
    }
}

/// The words of an operation run within the program as they run alone, in `n` steps.
proof fn lemma_run_within<W>(
    program: MiniProgram,
    ops: Seq<OpAt>,
    writes_result: bool,
    i: int,
    at: int,
    m: Machine<W>,
    res: Residuals<W>,
) -> (n: nat)
    requires
        eligible(ops, writes_result),
        program.is_program_of(ops, writes_result),
        program.words@.len() <= i64::MAX,
        0 <= i < ops.len(),
        0 <= at <= ops[i].op.lowering(writes_result)->0.len(),
        shaped_from(ops[i].op.lowering(writes_result)->0, at),
    ensures
        ({
            let words = ops[i].op.lowering(writes_result)->0;
            let pc = word_index(ops, writes_result, i) + at;
            let (next, flow) = run_from(words, at, m, res);
            program.run(pc, m, res, n) == (control_after(ops, writes_result, i, flow), next)
        }),
    decreases ops[i].op.lowering(writes_result)->0.len() - at,
{
    let words = ops[i].op.lowering(writes_result)->0;
    let pc = word_index(ops, writes_result, i) + at;
    lemma_next_index(ops, writes_result, i);
    if at == words.len() {
        0
    } else {
        lemma_step_within(program, ops, writes_result, i, at, m, res);
        let (next, flow) = step(words, at, m, res);
        if flow is Next {
            let after = at + width_at(words, at);
            let n = lemma_run_within(program, ops, writes_result, i, after, next, res);
            n + 1
        } else {
            reveal_with_fuel(MiniProgram::run, 2);
            1
        }
    }
}

/// **The program carries out its operations.** Put before the first word of an operation, the
/// kernel, instruction by instruction of the program, does what the operation does, up to an
/// accumulator that the words may use up, and then stands before the first word of the
/// operation where control goes: the next one, or the one that a branch names. Or it has left
/// the program as the operation says: to the stock executor, at the byte of that operation.
pub proof fn law_operation<W>(
    program: MiniProgram,
    ops: Seq<OpAt>,
    writes_result: bool,
    i: int,
    m: Machine<W>,
    res: Residuals<W>,
)
    requires
        eligible(ops, writes_result),
        program.is_program_of(ops, writes_result),
        program.words@.len() <= i64::MAX,
        0 <= i < ops.len(),
        ops[i].op.representable(m, res),
    ensures
        ({
            let (want, flow) = perform(ops[i].op.action(writes_result)->0, m, res);
            let start = word_index(ops, writes_result, i) as int;
            exists|n: nat|
                {
                    let (control, got) = #[trigger] program.run(start, m, res, n);
                    &&& agree_but(got, want, ops[i].op.spends())
                    &&& control == control_after(ops, writes_result, i, flow)
                }
        }),
{
    let op = ops[i].op;
    law_lowering(op, writes_result, m, res);
    reveal(shaped);
    reveal(run);
    let n = lemma_run_within(program, ops, writes_result, i, 0, m, res);
    let start = word_index(ops, writes_result, i) as int;
    let (control, got) = program.run(start, m, res, n);
    assert(got == run(op.lowering(writes_result)->0, m, res).0);
}

} // verus!
