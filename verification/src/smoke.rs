//! A small register machine over a byte-coded program: the loop a tracing JIT
//! is exercised with.
//!
//! The machine is a step function. A step either moves the machine, or offers a
//! loop header to the JIT, or ends the run. Whoever drives it may run any part
//! of a loop as compiled code and hand the machine back: a run continued from
//! any state on its way ends with the same result (see [`law_resume`]).

use vstd::prelude::*;

verus! {

/// A byte-addressed program.
pub type Bytecode = [u8];

/// `[OP_LOAD, imm, dst_reg]`: `regs[dst] = imm`.
pub const OP_LOAD: u8 = 4;

/// `[OP_ADD, a_reg, b_reg, dst_reg]`: `regs[dst] = regs[a] + regs[b]`.
pub const OP_ADD: u8 = 0;

/// `[OP_JUMP_IF_ABOVE, a_reg, b_reg, target_pc]`: jump if `regs[a] > regs[b]`.
pub const OP_JUMP_IF_ABOVE: u8 = 8;

/// `[OP_RETURN, reg]`: the run ends with `regs[reg]`.
pub const OP_RETURN: u8 = 6;

/// Why a run cannot go on.
#[derive(Clone, Copy, Debug, PartialEq, Eq, Structural)]
pub enum SmokeFault {
    /// The opcode or one of its operands lies past the end of the program.
    EndOfProgram,
    /// An operand names a register that the machine does not have.
    NoSuchRegister,
    /// A sum does not fit 64 bits.
    Overflow,
    /// The byte at the program counter is no opcode.
    FellOff,
}

/// What one step did.
#[derive(Clone, Copy, Debug, PartialEq, Eq, Structural)]
pub enum SmokeStep {
    /// The machine moved.
    Advance,
    /// The machine took a jump to a lower address, which is the given loop
    /// header: the JIT may take over here.
    EnterJit(usize),
    /// The run ended with this result.
    Return(i64),
    /// The run cannot go on; the machine did not move.
    Fault(SmokeFault),
}

/// The state of the machine.
#[derive(Debug)]
pub struct SmokeState {
    /// The address of the next instruction.
    pub pc: usize,
    /// The register file.
    pub regs: Vec<i64>,
}

/// The state of the machine as mathematical values.
#[verifier::ext_equal]
pub struct SmokeModel {
    /// The address of the next instruction.
    pub pc: int,
    /// The register file.
    pub regs: Seq<i64>,
}

impl View for SmokeState {
    type V = SmokeModel;

    open spec fn view(&self) -> SmokeModel {
        SmokeModel { pc: self.pc as int, regs: self.regs@ }
    }
}

/// Whether `r` is the number of a register of `m`.
pub open spec fn has_reg(m: SmokeModel, r: u8) -> bool {
    (r as int) < m.regs.len()
}

/// The length of the instruction with opcode `code`, if there is one.
pub open spec fn instruction_len(code: u8) -> Option<int> {
    if code == OP_LOAD {
        Some(3)
    } else if code == OP_ADD || code == OP_JUMP_IF_ABOVE {
        Some(4)
    } else if code == OP_RETURN {
        Some(2)
    } else {
        None
    }
}

/// What a step from `m` does, and the state after it.
pub open spec fn smoke_step(program: Seq<u8>, m: SmokeModel) -> (SmokeStep, SmokeModel) {
    if m.pc >= program.len() {
        (SmokeStep::Fault(SmokeFault::EndOfProgram), m)
    } else {
        let code = program[m.pc];
        match instruction_len(code) {
            None => (SmokeStep::Fault(SmokeFault::FellOff), m),
            Some(n) => if m.pc + n > program.len() {
                (SmokeStep::Fault(SmokeFault::EndOfProgram), m)
            } else {
                let x = program[m.pc + 1];
                let y = program[m.pc + 2];
                let z = program[m.pc + 3];
                if code == OP_LOAD {
                    if has_reg(m, y) {
                        (
                            SmokeStep::Advance,
                            SmokeModel { pc: m.pc + n, regs: m.regs.update(y as int, x as i64) },
                        )
                    } else {
                        (SmokeStep::Fault(SmokeFault::NoSuchRegister), m)
                    }
                } else if code == OP_ADD {
                    if !(has_reg(m, x) && has_reg(m, y) && has_reg(m, z)) {
                        (SmokeStep::Fault(SmokeFault::NoSuchRegister), m)
                    } else {
                        let sum = m.regs[x as int] + m.regs[y as int];
                        if i64::MIN <= sum <= i64::MAX {
                            (
                                SmokeStep::Advance,
                                SmokeModel {
                                    pc: m.pc + n,
                                    regs: m.regs.update(z as int, sum as i64),
                                },
                            )
                        } else {
                            (SmokeStep::Fault(SmokeFault::Overflow), m)
                        }
                    }
                } else if code == OP_JUMP_IF_ABOVE {
                    if !(has_reg(m, x) && has_reg(m, y)) {
                        (SmokeStep::Fault(SmokeFault::NoSuchRegister), m)
                    } else if m.regs[x as int] > m.regs[y as int] {
                        (
                            if z < m.pc {
                                SmokeStep::EnterJit(z as usize)
                            } else {
                                SmokeStep::Advance
                            },
                            SmokeModel { pc: z as int, regs: m.regs },
                        )
                    } else {
                        (SmokeStep::Advance, SmokeModel { pc: m.pc + n, regs: m.regs })
                    }
                } else {
                    if has_reg(m, x) {
                        (SmokeStep::Return(m.regs[x as int]), m)
                    } else {
                        (SmokeStep::Fault(SmokeFault::NoSuchRegister), m)
                    }
                }
            },
        }
    }
}

/// The result of a run from `m`, if it returns within `fuel` steps.
pub open spec fn smoke_result(program: Seq<u8>, m: SmokeModel, fuel: nat) -> Option<i64>
    decreases fuel,
{
    if fuel == 0 {
        None
    } else {
        let (step, next) = smoke_step(program, m);
        match step {
            SmokeStep::Return(v) => Some(v),
            SmokeStep::Fault(_) => None,
            _ => smoke_result(program, next, (fuel - 1) as nat),
        }
    }
}

/// The state in which a run with `num_regs` registers starts: all of them zero.
pub open spec fn smoke_start(num_regs: nat) -> SmokeModel {
    SmokeModel { pc: 0, regs: Seq::new(num_regs, |i: int| 0i64) }
}

/// Whether a run of `program` with `num_regs` registers returns a value.
pub open spec fn smoke_returns(program: Seq<u8>, num_regs: nat) -> bool {
    exists|fuel: nat| smoke_result(program, smoke_start(num_regs), fuel) is Some
}

impl SmokeState {
    /// The machine at the start of a program, with `num_regs` zero registers.
    pub fn new(num_regs: usize) -> (state: SmokeState)
        ensures
            state@ == smoke_start(num_regs as nat),
    {
        let regs: Vec<i64> = vec![0i64; num_regs];
        assert(regs@ =~= smoke_start(num_regs as nat).regs);
        SmokeState { pc: 0, regs }
    }

    /// Executes the instruction at the program counter.
    pub fn step(&mut self, program: &Bytecode) -> (step: SmokeStep)
        ensures
            (step, final(self)@) == smoke_step(program@, old(self)@),
    {
        let len = program.len();
        let pc = self.pc;
        if pc >= len {
            return SmokeStep::Fault(SmokeFault::EndOfProgram);
        }
        let left = len - pc;
        let num_regs = self.regs.len();
        let opcode = program[pc];
        if opcode == OP_LOAD {
            if left < 3 {
                return SmokeStep::Fault(SmokeFault::EndOfProgram);
            }
            let val = program[pc + 1] as i64;
            let reg = program[pc + 2] as usize;
            if reg >= num_regs {
                return SmokeStep::Fault(SmokeFault::NoSuchRegister);
            }
            self.regs.set(reg, val);
            self.pc = pc + 3;
            SmokeStep::Advance
        } else if opcode == OP_ADD {
            if left < 4 {
                return SmokeStep::Fault(SmokeFault::EndOfProgram);
            }
            let a = program[pc + 1] as usize;
            let b = program[pc + 2] as usize;
            let d = program[pc + 3] as usize;
            if a >= num_regs || b >= num_regs || d >= num_regs {
                return SmokeStep::Fault(SmokeFault::NoSuchRegister);
            }
            match self.regs[a].checked_add(self.regs[b]) {
                Some(sum) => {
                    self.regs.set(d, sum);
                    self.pc = pc + 4;
                    SmokeStep::Advance
                },
                None => SmokeStep::Fault(SmokeFault::Overflow),
            }
        } else if opcode == OP_JUMP_IF_ABOVE {
            if left < 4 {
                return SmokeStep::Fault(SmokeFault::EndOfProgram);
            }
            let a = program[pc + 1] as usize;
            let b = program[pc + 2] as usize;
            let target = program[pc + 3] as usize;
            if a >= num_regs || b >= num_regs {
                return SmokeStep::Fault(SmokeFault::NoSuchRegister);
            }
            if self.regs[a] > self.regs[b] {
                self.pc = target;
                if target < pc {
                    SmokeStep::EnterJit(target)
                } else {
                    SmokeStep::Advance
                }
            } else {
                self.pc = pc + 4;
                SmokeStep::Advance
            }
        } else if opcode == OP_RETURN {
            if left < 2 {
                return SmokeStep::Fault(SmokeFault::EndOfProgram);
            }
            let reg = program[pc + 1] as usize;
            if reg >= num_regs {
                return SmokeStep::Fault(SmokeFault::NoSuchRegister);
            }
            SmokeStep::Return(self.regs[reg])
        } else {
            SmokeStep::Fault(SmokeFault::FellOff)
        }
    }
}

/// Runs `program` with `num_regs` registers to its return and yields the value.
///
/// The result does not depend on `threshold`, the number of times a loop header
/// is entered before the JIT compiles it.
pub fn run_smoke(program: &Bytecode, num_regs: usize, threshold: u32) -> (result: i64)
    requires
        smoke_returns(program@, num_regs as nat),
    ensures
        exists|fuel: nat|
            smoke_result(program@, smoke_start(num_regs as nat), fuel) == Some(result),
        forall|fuel: nat|
            smoke_result(program@, smoke_start(num_regs as nat), fuel) is Some
                ==> #[trigger] smoke_result(program@, smoke_start(num_regs as nat), fuel) == Some(
                result,
            ),
{
    let ghost start = smoke_start(num_regs as nat);
    let ghost mut fuel: nat = choose|fuel: nat| smoke_result(program@, start, fuel) is Some;
    let ghost total = fuel;
    let mut state = SmokeState::new(num_regs);
    loop
        invariant
            smoke_result(program@, start, total) is Some,
            smoke_result(program@, state@, fuel) == smoke_result(program@, start, total),
            start == smoke_start(num_regs as nat),
        decreases fuel,
    {
        match state.step(program) {
            SmokeStep::Return(value) => {
                proof {
                    assert forall|other: nat|
                        smoke_result(program@, start, other) is Some implies (
                    #[trigger] smoke_result(program@, start, other)) == Some(value) by {
                        lemma_same_result(program@, start, total, other);
                    }
                }
                return value;
            },
            SmokeStep::Fault(_) => {
                assert(false);
                return 0;
            },
            _ => {
                proof {
                    fuel = (fuel - 1) as nat;
                }
            },
        }
    }
}

proof fn lemma_same_result(program: Seq<u8>, m: SmokeModel, a: nat, b: nat)
    requires
        smoke_result(program, m, a) is Some,
        smoke_result(program, m, b) is Some,
    ensures
        smoke_result(program, m, a) == smoke_result(program, m, b),
{
    if a <= b {
        law_more_fuel(program, m, a, b);
    } else {
        law_more_fuel(program, m, b, a);
    }
}

/// What a driver of the machine counts.
#[derive(Clone, Copy, Debug, PartialEq, Eq, Structural)]
pub struct SmokeCounters {
    /// The hot loops that the JIT compiled: evidence that the loop was traced, and not just
    /// interpreted.
    pub compiles: usize,
    /// The guard failures of compiled code. A trace that runs a loop by itself fails about
    /// once, at the exit of the loop; one that bails out fails in every iteration.
    pub guard_fails: usize,
}

impl SmokeCounters {
    /// Counters at zero.
    pub fn new() -> (counters: SmokeCounters)
        ensures
            counters == (SmokeCounters { compiles: 0, guard_fails: 0 }),
    {
        SmokeCounters { compiles: 0, guard_fails: 0 }
    }

    /// Counts a compiled loop. The counter wraps around.
    pub fn on_compile_loop(&mut self)
        ensures
            final(self).compiles == if old(self).compiles == usize::MAX {
                0
            } else {
                old(self).compiles + 1
            },
            final(self).guard_fails == old(self).guard_fails,
    {
        self.compiles = self.compiles.wrapping_add(1);
    }

    /// Counts a guard failure. The counter wraps around.
    pub fn on_guard_failure(&mut self)
        ensures
            final(self).guard_fails == if old(self).guard_fails == usize::MAX {
                0
            } else {
                old(self).guard_fails + 1
            },
            final(self).compiles == old(self).compiles,
    {
        self.guard_fails = self.guard_fails.wrapping_add(1);
    }
}

/// More fuel does not change the result of a run.
pub proof fn law_more_fuel(program: Seq<u8>, m: SmokeModel, fuel: nat, more: nat)
    requires
        smoke_result(program, m, fuel) is Some,
        fuel <= more,
    ensures
        smoke_result(program, m, more) == smoke_result(program, m, fuel),
    decreases fuel,
{
    let (step, next) = smoke_step(program, m);
    if !(step is Return) {
        law_more_fuel(program, next, (fuel - 1) as nat, (more - 1) as nat);
    }
}

/// The state after `n` steps from `m`, if the run goes that far.
pub open spec fn smoke_after(program: Seq<u8>, m: SmokeModel, n: nat) -> Option<SmokeModel>
    decreases n,
{
    if n == 0 {
        Some(m)
    } else {
        let (step, next) = smoke_step(program, m);
        match step {
            SmokeStep::Return(_) => None,
            SmokeStep::Fault(_) => None,
            _ => smoke_after(program, next, (n - 1) as nat),
        }
    }
}

/// A run may be handed over. Continued from any state on its way, it ends with the result
/// with which it would have ended: compiled code may run a part of it and fall back to the
/// machine in the state that it has reached.
pub proof fn law_resume(program: Seq<u8>, m: SmokeModel, n: nat, fuel: nat)
    requires
        smoke_after(program, m, n) is Some,
    ensures
        smoke_result(program, m, n + fuel) == smoke_result(
            program,
            smoke_after(program, m, n)->0,
            fuel,
        ),
    decreases n,
{
    if n > 0 {
        law_resume(program, smoke_step(program, m).1, (n - 1) as nat, fuel);
    }
}

/// The machine keeps its number of registers.
pub proof fn law_registers(program: Seq<u8>, m: SmokeModel)
    ensures
        smoke_step(program, m).1.regs.len() == m.regs.len(),
{
}

/// The JIT may take over at loop headers only: where the machine says so, it has jumped to a
/// lower address and stands there, with its registers as they were.
pub proof fn law_enter_jit(program: Seq<u8>, m: SmokeModel)
    requires
        smoke_step(program, m).0 is EnterJit,
    ensures
        smoke_step(program, m).1.pc == smoke_step(program, m).0->EnterJit_0,
        smoke_step(program, m).1.pc < m.pc,
        smoke_step(program, m).1.regs == m.regs,
{
}

/// A run starts at the first byte, with the asked number of registers, all of them zero.
pub proof fn law_start(num_regs: nat)
    ensures
        smoke_start(num_regs).pc == 0,
        smoke_start(num_regs).regs.len() == num_regs,
        forall|r: int| 0 <= r < num_regs ==> #[trigger] smoke_start(num_regs).regs[r] == 0,
{
}

/// `[4, imm, d]` puts the byte `imm` into register `d`, leaves the others alone, and goes on
/// behind it.
pub proof fn law_load(program: Seq<u8>, m: SmokeModel)
    requires
        0 <= m.pc,
        m.pc + 3 <= program.len(),
        program[m.pc] == 4,
        program[m.pc + 2] < m.regs.len(),
    ensures
        smoke_step(program, m).0 == SmokeStep::Advance,
        smoke_step(program, m).1.pc == m.pc + 3,
        smoke_step(program, m).1.regs.len() == m.regs.len(),
        smoke_step(program, m).1.regs[program[m.pc + 2] as int] == program[m.pc + 1],
        forall|r: int|
            0 <= r < m.regs.len() && r != program[m.pc + 2]
                ==> #[trigger] smoke_step(program, m).1.regs[r] == m.regs[r],
{
}

/// `[0, a, b, d]` puts the sum of registers `a` and `b` into register `d`, where it fits 64 bits,
/// leaves the others alone, and goes on behind it. A sum that does not fit is a fault.
pub proof fn law_add(program: Seq<u8>, m: SmokeModel)
    requires
        0 <= m.pc,
        m.pc + 4 <= program.len(),
        program[m.pc] == 0,
        program[m.pc + 1] < m.regs.len(),
        program[m.pc + 2] < m.regs.len(),
        program[m.pc + 3] < m.regs.len(),
    ensures
        ({
            let sum = m.regs[program[m.pc + 1] as int] + m.regs[program[m.pc + 2] as int];
            let (step, next) = smoke_step(program, m);
            if -0x8000_0000_0000_0000 <= sum <= 0x7fff_ffff_ffff_ffff {
                &&& step == SmokeStep::Advance
                &&& next.pc == m.pc + 4
                &&& next.regs.len() == m.regs.len()
                &&& next.regs[program[m.pc + 3] as int] == sum
                &&& forall|r: int|
                    0 <= r < m.regs.len() && r != program[m.pc + 3] ==> #[trigger] next.regs[r]
                        == m.regs[r]
            } else {
                step == SmokeStep::Fault(SmokeFault::Overflow) && next == m
            }
        }),
{
}

/// `[8, a, b, target]` goes to `target` if register `a` is above register `b`, and behind itself
/// if not. It leaves the registers alone, and offers the target to the JIT if it lies before the
/// jump.
pub proof fn law_jump(program: Seq<u8>, m: SmokeModel)
    requires
        0 <= m.pc,
        m.pc + 4 <= program.len(),
        program[m.pc] == 8,
        program[m.pc + 1] < m.regs.len(),
        program[m.pc + 2] < m.regs.len(),
    ensures
        ({
            let above = m.regs[program[m.pc + 1] as int] > m.regs[program[m.pc + 2] as int];
            let target = program[m.pc + 3];
            let (step, next) = smoke_step(program, m);
            &&& next.regs == m.regs
            &&& next.pc == if above {
                target as int
            } else {
                m.pc + 4
            }
            &&& step == if above && target < m.pc {
                SmokeStep::EnterJit(target as usize)
            } else {
                SmokeStep::Advance
            }
        }),
{
}

/// `[6, r]` ends the run with register `r`.
pub proof fn law_return(program: Seq<u8>, m: SmokeModel)
    requires
        0 <= m.pc,
        m.pc + 2 <= program.len(),
        program[m.pc] == 6,
        program[m.pc + 1] < m.regs.len(),
    ensures
        smoke_step(program, m) == (SmokeStep::Return(m.regs[program[m.pc + 1] as int]), m),
{
}

/// A step fails, and leaves the machine alone, where the program ends before the instruction
/// does, where the byte is no opcode, or where an operand is no register.
pub proof fn law_fault(program: Seq<u8>, m: SmokeModel)
    requires
        0 <= m.pc,
    ensures
        ({
            let (step, next) = smoke_step(program, m);
            let code = program[m.pc];
            let left = program.len() - m.pc;
            let a = program[m.pc + 1];
            let b = program[m.pc + 2];
            let d = program[m.pc + 3];
            let known = code == 0 || code == 4 || code == 6 || code == 8;
            let short = left < 1 || (code == 4 && left < 3) || (code == 0 && left < 4) || (code == 8
                && left < 4) || (code == 6 && left < 2);
            let missing = (code == 4 && b >= m.regs.len()) || (code == 6 && a >= m.regs.len()) || (
            code == 8 && (a >= m.regs.len() || b >= m.regs.len())) || (code == 0 && (a
                >= m.regs.len() || b >= m.regs.len() || d >= m.regs.len()));
            &&& step == SmokeStep::Fault(SmokeFault::EndOfProgram) <==> short
            &&& step == SmokeStep::Fault(SmokeFault::FellOff) <==> !short && !known
            &&& step == SmokeStep::Fault(SmokeFault::NoSuchRegister) <==> !short && missing
            &&& step is Fault ==> next == m
            &&& step is Fault <==> short || !known || missing || step == SmokeStep::Fault(
                SmokeFault::Overflow,
            )
        }),
{
}

/// The result of a run is what the step that returns gives, and that of any other state is that
/// of the state behind it. A run that fails, or has no fuel, has no result.
pub proof fn law_result(program: Seq<u8>, m: SmokeModel, fuel: nat)
    ensures
        smoke_result(program, m, 0) is None,
        ({
            let (step, next) = smoke_step(program, m);
            smoke_result(program, m, fuel + 1) == match step {
                SmokeStep::Return(v) => Some(v),
                SmokeStep::Fault(_) => None,
                SmokeStep::Advance => smoke_result(program, next, fuel),
                SmokeStep::EnterJit(_) => smoke_result(program, next, fuel),
            }
        }),
{
}

/// The program that counts `r0` up by 1 while `r2`, which is `n`, is above it.
pub open spec fn count_to(n: u8) -> Seq<u8> {
    seq![
        OP_LOAD, 1, 1,
        OP_LOAD, n, 2,
        OP_LOAD, 0, 0,
        OP_ADD, 0, 1, 0,
        OP_JUMP_IF_ABOVE, 2, 0, 9,
        OP_RETURN, 0,
    ]
}

/// Counting to `n` returns `n`, for every `n` from 1 on, in a bounded number of steps.
pub proof fn law_count_to(n: u8, num_regs: nat)
    requires
        1 <= n,
        3 <= num_regs,
    ensures
        smoke_returns(count_to(n), num_regs),
        smoke_result(count_to(n), smoke_start(num_regs), (4 + 2 * n) as nat) == Some(n as i64),
{
    let program = count_to(n);
    let start = smoke_start(num_regs);
    let a = smoke_step(program, start).1;
    let b = smoke_step(program, a).1;
    let c = smoke_step(program, b).1;
    lemma_count_from(n, c, 0);
    assert(smoke_result(program, c, (1 + 2 * n) as nat) == Some(n as i64));
    assert(smoke_result(program, b, (2 + 2 * n) as nat) == Some(n as i64));
    assert(smoke_result(program, a, (3 + 2 * n) as nat) == Some(n as i64));
    assert(smoke_result(program, start, (4 + 2 * n) as nat) == Some(n as i64));
}

/// The loop of the counting program, from the count `k` on.
proof fn lemma_count_from(n: u8, m: SmokeModel, k: u8)
    requires
        k < n,
        m.pc == 9,
        m.regs.len() >= 3,
        m.regs[0] == k,
        m.regs[1] == 1,
        m.regs[2] == n,
    ensures
        smoke_result(count_to(n), m, (1 + 2 * (n - k)) as nat) == Some(n as i64),
    decreases n - k,
{
    let program = count_to(n);
    let added = smoke_step(program, m).1;
    let (step, jumped) = smoke_step(program, added);
    assert(smoke_step(program, m).0 == SmokeStep::Advance);
    assert(added.pc == 13 && added.regs[0] == k + 1);
    reveal_with_fuel(smoke_result, 4);
    if k + 1 < n {
        assert(jumped.pc == 9);
        lemma_count_from(n, jumped, (k + 1) as u8);
    } else {
        assert(jumped.pc == 17);
        assert(smoke_step(program, jumped).0 == SmokeStep::Return(n as i64));
    }
}

} // verus!
