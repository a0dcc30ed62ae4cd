//! The execution loop — repeated stepping with cycle accounting and the
//! two optional breakpoint thresholds — and the input-line protocol,
//! including the four reserved debugger commands delivered through IN.

use vstd::prelude::*;

use crate::isa::{LineAction, RunOutcome, StepOutcome};
use crate::machine::CPU;
use crate::sem::{
    bp_hit, dump_cmd, fix_cmd, is_command, lemma_runs_to_snoc, log_end_cmd, log_start_cmd,
    runs_to, step_spec, State, StepRes,
};

verus! {

/// Whether a line spells `DUMP` with its trailing newline.
fn is_dump_line(line: &Vec<u8>) -> (r: bool)
    ensures
        r == (line@ == dump_cmd()),
{
    let r = line.len() == 5 && line[0] == 68 && line[1] == 85 && line[2] == 77 && line[3] == 80
        && line[4] == 10;
    proof {
        if r {
            assert(line@ =~= dump_cmd());
        } else {
            if line@ == dump_cmd() {
                assert(line@.len() == 5);
                assert(line@[0] == 68 && line@[1] == 85 && line@[2] == 77 && line@[3] == 80
                    && line@[4] == 10);
            }
        }
    }
    r
}

/// Whether a line spells `LOG_START` with its trailing newline.
fn is_log_start_line(line: &Vec<u8>) -> (r: bool)
    ensures
        r == (line@ == log_start_cmd()),
{
    let r = line.len() == 10 && line[0] == 76 && line[1] == 79 && line[2] == 71 && line[3] == 95
        && line[4] == 83 && line[5] == 84 && line[6] == 65 && line[7] == 82 && line[8] == 84
        && line[9] == 10;
    proof {
        if r {
            assert(line@ =~= log_start_cmd());
        } else {
            if line@ == log_start_cmd() {
                assert(line@.len() == 10);
                assert(line@[0] == 76 && line@[1] == 79 && line@[2] == 71 && line@[3] == 95
                    && line@[4] == 83 && line@[5] == 84 && line@[6] == 65 && line@[7] == 82
                    && line@[8] == 84 && line@[9] == 10);
            }
        }
    }
    r
}

/// Whether a line spells `LOG_END` with its trailing newline.
fn is_log_end_line(line: &Vec<u8>) -> (r: bool)
    ensures
        r == (line@ == log_end_cmd()),
{
    let r = line.len() == 8 && line[0] == 76 && line[1] == 79 && line[2] == 71 && line[3] == 95
        && line[4] == 69 && line[5] == 78 && line[6] == 68 && line[7] == 10;
    proof {
        if r {
            assert(line@ =~= log_end_cmd());
        } else {
            if line@ == log_end_cmd() {
                assert(line@.len() == 8);
                assert(line@[0] == 76 && line@[1] == 79 && line@[2] == 71 && line@[3] == 95
                    && line@[4] == 69 && line@[5] == 78 && line@[6] == 68 && line@[7] == 10);
            }
        }
    }
    r
}

/// Whether a line spells `FIX` with its trailing newline.
fn is_fix_line(line: &Vec<u8>) -> (r: bool)
    ensures
        r == (line@ == fix_cmd()),
{
    let r = line.len() == 4 && line[0] == 70 && line[1] == 73 && line[2] == 88 && line[3] == 10;
    proof {
        if r {
            assert(line@ =~= fix_cmd());
        } else {
            if line@ == fix_cmd() {
                assert(line@.len() == 4);
                assert(line@[0] == 70 && line@[1] == 73 && line@[2] == 88 && line@[3] == 10);
            }
        }
    }
    r
}

impl CPU {
    /// Hand the machine a freshly read input line while its buffer is
    /// drained.  A reserved debugger command is executed on the spot —
    /// the buffer stays empty and another line must be read — while any
    /// other line fills the buffer for delivery through IN, character by
    /// character.
    pub fn provide_line(&mut self, line: &Vec<u8>) -> (r: LineAction)
        requires
            old(self).wf(),
            old(self)@.input.len() == 0,
        ensures
            final(self).wf(),
            match r {
                LineAction::Dump => line@ == dump_cmd() && final(self)@ == old(self)@,
                LineAction::LogStart => line@ == log_start_cmd() && final(self)@ == (State {
                    logging: true,
                    ..old(self)@
                }),
                LineAction::LogEnd => line@ == log_end_cmd() && final(self)@ == (State {
                    logging: false,
                    ..old(self)@
                }),
                LineAction::Fix => line@ == fix_cmd() && final(self)@ == (State {
                    reg: old(self)@.reg.update(7, 5u16),
                    ..old(self)@
                }),
                LineAction::Text => !is_command(line@) && final(self)@ == (State {
                    input: line@,
                    ..old(self)@
                }),
            },
    {
        if is_dump_line(line) {
            LineAction::Dump
        } else if is_log_start_line(line) {
            self.set_logging(true);
            LineAction::LogStart
        } else if is_log_end_line(line) {
            self.set_logging(false);
            LineAction::LogEnd
        } else if is_fix_line(line) {
            self.write_cell(32775, 5);
            LineAction::Fix
        } else {
            self.fill_input(line);
            LineAction::Text
        }
    }

    /// Run the machine for at most `fuel` instructions, watching the two
    /// optional breakpoint thresholds (zero disables a threshold).
    ///
    /// The contract ties the result to the small-step semantics: the
    /// final state is reached from the old one by a chain of executed
    /// instructions — `runs_to` — whose intermediate states neither halt
    /// nor meet a breakpoint, followed by whatever event ended the run.
    pub fn run(&mut self, breakpoint_cc: u32, breakpoint_pc: u16, fuel: u64) -> (r: RunOutcome)
        requires
            old(self).wf(),
            old(self)@.cc + fuel <= u64::MAX,
        ensures
            final(self).wf(),
            match r {
                RunOutcome::Halted => final(self)@.halt && ((old(self)@.halt && final(self)@
                    == old(self)@) || (exists|n: nat, m: State|
                    n < fuel && #[trigger] runs_to(old(self)@, m, n, breakpoint_cc, breakpoint_pc)
                        && step_spec(m) == StepRes::Next(final(self)@))),
                RunOutcome::Breakpoint => final(self)@.halt && bp_hit(
                    State { halt: false, ..final(self)@ },
                    breakpoint_cc,
                    breakpoint_pc,
                ) && (exists|n: nat, m: State|
                    n < fuel && #[trigger] runs_to(old(self)@, m, n, breakpoint_cc, breakpoint_pc)
                        && step_spec(m) == StepRes::Next(
                        State { halt: false, ..final(self)@ },
                    )),
                RunOutcome::NeedInput => step_spec(final(self)@) == StepRes::Input && (exists|
                    n: nat,
                |
                    n < fuel && #[trigger] runs_to(
                        old(self)@,
                        final(self)@,
                        n,
                        breakpoint_cc,
                        breakpoint_pc,
                    )),
                RunOutcome::Fault(f) => final(self)@.halt && (exists|n: nat, m: State|
                    n < fuel && #[trigger] runs_to(old(self)@, m, n, breakpoint_cc, breakpoint_pc)
                        && step_spec(m) == StepRes::Fail(f, final(self)@)),
                RunOutcome::OutOfFuel => !final(self)@.halt && runs_to(
                    old(self)@,
                    final(self)@,
                    fuel as nat,
                    breakpoint_cc,
                    breakpoint_pc,
                ),
            },
    {
        let ghost s0 = self@;
        if self.halted() {
            return RunOutcome::Halted;
        }
        let mut i: u64 = 0;
        #[verifier::loop_isolation(false)]
        while i < fuel
            invariant
                self.wf(),
                !self@.halt,
                i <= fuel,
                self@.cc <= s0.cc + i,
                runs_to(s0, self@, i as nat, breakpoint_cc, breakpoint_pc),
            decreases fuel - i,
        {
            let ghost pre = self@;
            match self.step() {
                StepOutcome::Ran(_instr) => {
                    if self.halted() {
                        return RunOutcome::Halted;
                    }
                    let hit_cc = breakpoint_cc != 0 && self.cycle_count() == breakpoint_cc as u64;
                    let hit_pc = breakpoint_pc != 0 && self.pc() == breakpoint_pc;
                    if hit_cc || hit_pc {
                        let ghost p = self@;
                        self.set_halt();
                        proof {
                            assert(p == (State { halt: false, ..self@ }));
                        }
                        return RunOutcome::Breakpoint;
                    }
                    proof {
                        lemma_runs_to_snoc(
                            s0,
                            pre,
                            i as nat,
                            self@,
                            breakpoint_cc,
                            breakpoint_pc,
                        );
                    }
                    i = i + 1;
                },
                StepOutcome::NeedInput => {
                    return RunOutcome::NeedInput;
                },
                StepOutcome::Fault(f) => {
                    return RunOutcome::Fault(f);
                },
            }
        }
        RunOutcome::OutOfFuel
    }
}

} // verus!
