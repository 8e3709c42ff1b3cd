//! The smoke loop, interpreted, and driven by a stand-in for a JIT.
//!
//! The stand-in is written in this file: it records a round of a hot loop and replays it. The
//! counts of compiled loops and guard failures are of the stand-in. They show that the machine
//! offers its loop headers and can be handed back, and nothing about a particular JIT.

use wasmi_majit::smoke::{
    run_smoke, SmokeCounters, SmokeFault, SmokeState, SmokeStep, OP_ADD, OP_JUMP_IF_ABOVE, OP_LOAD,
    OP_RETURN,
};

/// `r0` counts up by 1 while `r2`(=n) > `r0`, so it exits at `r0 == n`.
/// Loop body at pc 9; back-edge target `9 < pc`. `n` must fit a byte.
fn count_to_program(n: u8) -> Vec<u8> {
    vec![
        OP_LOAD,
        1,
        1, // r1 = 1
        OP_LOAD,
        n,
        2, // r2 = n
        OP_LOAD,
        0,
        0, // r0 = 0
        // @l1 = pc 9
        OP_ADD,
        0,
        1,
        0, // r0 = r0 + r1
        OP_JUMP_IF_ABOVE,
        2,
        0,
        9, // if r2 > r0 goto @l1
        OP_RETURN,
        0, // return r0
    ]
}

/// A loop that the stand-in has compiled: the addresses of one round from its header.
struct Trace {
    header: usize,
    path: Vec<usize>,
}

impl Trace {
    /// Records one round from the header on.
    fn record(program: &[u8], header: usize, state: &mut SmokeState) -> Option<Trace> {
        let mut path = Vec::new();
        loop {
            path.push(state.pc);
            match state.step(program) {
                SmokeStep::Advance => {}
                SmokeStep::EnterJit(target) if target == header => {
                    return Some(Trace { header, path });
                }
                _ => return None,
            }
        }
    }

    /// Runs rounds of the loop until control leaves the recorded path, which is a guard
    /// failure: the machine is handed back in the state reached.
    fn run(&self, program: &[u8], state: &mut SmokeState) {
        loop {
            for (index, &pc) in self.path.iter().enumerate() {
                assert_eq!(state.pc, pc);
                state.step(program);
                let next = self.path.get(index + 1).copied().unwrap_or(self.header);
                if state.pc != next {
                    return;
                }
            }
        }
    }
}

/// Runs a program with the stand-in, which compiles a loop at its `threshold`th entry.
fn run_tiered(program: &[u8], num_regs: usize, threshold: u32) -> (i64, SmokeCounters) {
    let mut counters = SmokeCounters::new();
    let mut state = SmokeState::new(num_regs);
    let mut entries = 0;
    let mut trace: Option<Trace> = None;
    loop {
        match state.step(program) {
            SmokeStep::Advance => {}
            SmokeStep::EnterJit(header) => {
                entries += 1;
                if trace.is_none() && entries >= threshold {
                    trace = Trace::record(program, header, &mut state);
                    if trace.is_some() {
                        counters.on_compile_loop();
                    }
                }
                if let Some(trace) = &trace {
                    if trace.header == state.pc {
                        trace.run(program, &mut state);
                        counters.on_guard_failure();
                    }
                }
            }
            SmokeStep::Return(value) => return (value, counters),
            SmokeStep::Fault(fault) => panic!("{fault:?}"),
        }
    }
}

/// The loop counts to 40, and the stand-in compiles it on the way.
#[test]
fn smoke_loop_count_to_40_and_compiles() {
    let program = count_to_program(40);
    let result = run_smoke(&program, 3, 3);
    assert_eq!(result, 40, "the loop must compute 40");
    let (tiered, counters) = run_tiered(&program, 3, 3);
    assert_eq!(tiered, 40);
    assert!(counters.compiles >= 1, "the hot loop should have been compiled at least once");
}

/// Correctness across inputs, with the loop left by a guard failure of the stand-in on each.
#[test]
fn smoke_loop_varies_n() {
    for n in [1_u8, 2, 5, 10, 40, 100, 200] {
        let program = count_to_program(n);
        let result = run_smoke(&program, 3, 3);
        assert_eq!(result, n as i64, "count_to({n}) mismatch");
        assert_eq!(run_tiered(&program, 3, 3).0, n as i64);
    }
}

/// The loop runs within the stand-in: it is handed back a few times, and not in every round.
#[test]
fn smoke_compiled_trace_executes_hot_path() {
    let program = count_to_program(200);
    let result = run_smoke(&program, 3, 3);
    assert_eq!(result, 200);
    let (tiered, counters) = run_tiered(&program, 3, 3);
    assert_eq!(tiered, 200);
    assert!(counters.compiles >= 1, "must compile");
    assert!(counters.guard_fails <= 5, "got {} guard failures", counters.guard_fails);
}

/// The result does not depend on the threshold.
#[test]
fn threshold_does_not_matter() {
    let program = count_to_program(17);
    for threshold in [0, 1, 3, 1000] {
        assert_eq!(run_smoke(&program, 3, threshold), 17);
        assert_eq!(run_tiered(&program, 3, threshold).0, 17);
    }
}

/// A test at the bottom lets the body run once.
#[test]
fn counting_to_zero_counts_one() {
    assert_eq!(run_smoke(&count_to_program(0), 3, 3), 1);
}

/// A program may be continued from any state on its way.
#[test]
fn handed_over_runs_end_alike() {
    let program = count_to_program(9);
    for steps in 0..20 {
        let mut state = SmokeState::new(3);
        for _ in 0..steps {
            state.step(&program);
        }
        let mut resumed = SmokeState { pc: state.pc, regs: state.regs.clone() };
        let result = loop {
            if let SmokeStep::Return(value) = resumed.step(&program) {
                break value;
            }
        };
        assert_eq!(result, 9);
        assert_eq!(resumed.regs.len(), 3);
    }
}

/// A backward jump offers its target to the JIT, a forward jump does not.
#[test]
fn only_backward_jumps_enter_the_jit() {
    let program = [OP_LOAD, 1, 0, OP_JUMP_IF_ABOVE, 0, 1, 7, OP_JUMP_IF_ABOVE, 0, 1, 3];
    let mut state = SmokeState::new(2);
    assert_eq!(state.step(&program), SmokeStep::Advance);
    assert_eq!(state.regs, vec![1, 0]);
    assert_eq!(state.step(&program), SmokeStep::Advance);
    assert_eq!(state.pc, 7);
    assert_eq!(state.step(&program), SmokeStep::EnterJit(3));
    assert_eq!(state.pc, 3);
}

/// Each fault, with a program that gives it.
#[test]
fn faults() {
    let fault = |program: &[u8], num_regs: usize| {
        let mut state = SmokeState::new(num_regs);
        loop {
            match state.step(program) {
                SmokeStep::Fault(fault) => return fault,
                SmokeStep::Return(value) => panic!("returned {value}"),
                _ => {}
            }
        }
    };
    assert_eq!(fault(&[], 1), SmokeFault::EndOfProgram);
    assert_eq!(fault(&[OP_LOAD, 1], 1), SmokeFault::EndOfProgram);
    assert_eq!(fault(&[OP_ADD, 0, 0], 1), SmokeFault::EndOfProgram);
    assert_eq!(fault(&[OP_JUMP_IF_ABOVE, 0, 0], 1), SmokeFault::EndOfProgram);
    assert_eq!(fault(&[OP_RETURN], 1), SmokeFault::EndOfProgram);
    assert_eq!(fault(&[OP_LOAD, 1, 1], 1), SmokeFault::NoSuchRegister);
    assert_eq!(fault(&[OP_ADD, 0, 0, 9], 1), SmokeFault::NoSuchRegister);
    assert_eq!(fault(&[OP_RETURN, 3], 1), SmokeFault::NoSuchRegister);
    assert_eq!(fault(&[7], 1), SmokeFault::FellOff);
    // r0 doubles until it does not fit.
    let doubling = [OP_LOAD, 1, 0, OP_ADD, 0, 0, 0, OP_JUMP_IF_ABOVE, 0, 1, 3];
    assert_eq!(fault(&doubling, 2), SmokeFault::Overflow);
}

/// The counters count and wrap around.
#[test]
fn counters_count() {
    let mut counters = SmokeCounters::new();
    counters.on_compile_loop();
    counters.on_guard_failure();
    counters.on_guard_failure();
    assert_eq!((counters.compiles, counters.guard_fails), (1, 2));
    counters.guard_fails = usize::MAX;
    counters.on_guard_failure();
    assert_eq!(counters.guard_fails, 0);
}
