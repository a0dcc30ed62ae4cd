//! The mathematical model of the machine: an abstract state, the unified
//! address space, the operand resolver, and a small-step semantics that
//! gives every opcode its meaning.  Every executable entry point of the
//! emulator is specified against these functions.

use vstd::prelude::*;

use crate::isa::{arity_of, instr_of, Fault, Instr};

verus! {

/// Abstract machine state.
///
/// Words are 16-bit.  Memory addresses run from 0 to 32767; addresses
/// 32768 through 32775 name registers r0 through r7.  The stack is an
/// unbounded LIFO.  `input` holds the characters of the current input
/// line not yet consumed by IN; `output` is the trace of every byte the
/// machine has emitted through OUT, in cycle order.
#[verifier::ext_equal]
pub ghost struct State {
    pub mem: Seq<u16>,
    pub reg: Seq<u16>,
    pub stack: Seq<u16>,
    pub pc: int,
    pub cc: int,
    pub halt: bool,
    pub input: Seq<u8>,
    pub output: Seq<u8>,
    pub logging: bool,
}

impl State {
    /// Structural well-formedness: 32768 memory cells, 8 registers, a
    /// 16-bit program counter and a non-negative cycle counter.
    pub open spec fn wf(self) -> bool {
        &&& self.mem.len() == 32768
        &&& self.reg.len() == 8
        &&& 0 <= self.pc < 65536
        &&& 0 <= self.cc
    }
}

/// The machine at boot: everything zero, nothing buffered, not halted.
pub open spec fn init_state() -> State {
    State {
        mem: Seq::new(32768, |i: int| 0u16),
        reg: Seq::new(8, |i: int| 0u16),
        stack: Seq::empty(),
        pc: 0,
        cc: 0,
        halt: false,
        input: Seq::empty(),
        output: Seq::empty(),
        logging: false,
    }
}

/// Memory after loading an image: the first cells are replaced by the
/// image's words, the rest keep their previous contents.
pub open spec fn loaded_mem(mem: Seq<u16>, image: Seq<u16>) -> Seq<u16> {
    Seq::new(mem.len(), |i: int| if i < image.len() { image[i] } else { mem[i] })
}

/// Value of a source operand word: a word up to 32767 is the literal
/// value itself; 32768 through 32775 name the register whose contents
/// are the value.
pub open spec fn resolve_spec(s: State, w: u16) -> u16
    recommends
        s.wf(),
        w <= 32775,
{
    if w <= 32767 {
        w
    } else {
        s.reg[w - 32768]
    }
}

/// Whether a unified-address read succeeds: the address must be at most
/// 32775, and a memory cell may only yield a stored word that is itself
/// at most 32775.
pub open spec fn read_ok(s: State, addr: u16) -> bool
    recommends
        s.wf(),
{
    &&& addr <= 32775
    &&& (addr <= 32767 ==> s.mem[addr as int] <= 32775)
}

/// Value of a successful unified-address read.
pub open spec fn read_spec(s: State, addr: u16) -> u16
    recommends
        s.wf(),
        read_ok(s, addr),
{
    if addr <= 32767 {
        s.mem[addr as int]
    } else {
        s.reg[addr - 32768]
    }
}

/// Which fault a failed unified-address read raises.
pub open spec fn read_fault(s: State, addr: u16) -> Fault
    recommends
        s.wf(),
        !read_ok(s, addr),
{
    if addr > 32775 {
        Fault::Address
    } else {
        Fault::Decode
    }
}

/// State after a unified-address write: a memory cell or a register is
/// replaced, everything else is untouched.
pub open spec fn write_spec(s: State, addr: u16, v: u16) -> State
    recommends
        s.wf(),
        addr <= 32775,
{
    if addr <= 32767 {
        State { mem: s.mem.update(addr as int, v), ..s }
    } else {
        State { reg: s.reg.update(addr - 32768, v), ..s }
    }
}

/// The 15-bit complement: every bit of the low 15 flipped, bit 15 clear.
pub open spec fn not15(v: u16) -> u16 {
    (v ^ 0x7fff) & 0x7fff
}

/// Reduction modulo 32768, the arithmetic wrap of ADD and MULT.
pub open spec fn mod32768(x: int) -> u16 {
    (x % 32768) as u16
}

/// Fetch and decode at the program counter.  Faults: a fetch outside
/// memory (the program counter or an operand slot beyond 32767), an
/// opcode above 21, or an operand word above 32775.
pub open spec fn decode_spec(s: State) -> Result<Instr, Fault>
    recommends
        s.wf(),
{
    if s.pc > 32767 {
        Err(Fault::Address)
    } else {
        let op = s.mem[s.pc];
        if op > 21 {
            Err(Fault::Decode)
        } else if s.pc + arity_of(op) > 32767 {
            Err(Fault::Address)
        } else {
            let w1 = if arity_of(op) >= 1 { s.mem[s.pc + 1] } else { 0u16 };
            let w2 = if arity_of(op) >= 2 { s.mem[s.pc + 2] } else { 0u16 };
            let w3 = if arity_of(op) >= 3 { s.mem[s.pc + 3] } else { 0u16 };
            if arity_of(op) >= 1 && w1 > 32775 {
                Err(Fault::Decode)
            } else if arity_of(op) >= 2 && w2 > 32775 {
                Err(Fault::Decode)
            } else if arity_of(op) >= 3 && w3 > 32775 {
                Err(Fault::Decode)
            } else {
                Ok(instr_of(op, w1, w2, w3))
            }
        }
    }
}

/// What successful decoding guarantees about an instruction's operand
/// words and the program counter.
pub open spec fn operands_ok(s: State, i: Instr) -> bool {
    match i {
        Instr::Halt | Instr::Ret | Instr::Noop => s.pc <= 32767,
        Instr::Push(a) | Instr::Pop(a) | Instr::Jmp(a) | Instr::Call(a) | Instr::Out(a)
            | Instr::In(a) => a <= 32775 && 0 <= s.pc && s.pc + 1 <= 32767,
        Instr::Assign(a, b) | Instr::Jt(a, b) | Instr::Jf(a, b) | Instr::Not(a, b)
            | Instr::Rmem(a, b) | Instr::Wmem(a, b) => a <= 32775 && b <= 32775 && 0 <= s.pc
            && s.pc + 2 <= 32767,
        Instr::Eq(a, b, c) | Instr::Gt(a, b, c) | Instr::Add(a, b, c) | Instr::Mult(a, b, c)
            | Instr::Mod(a, b, c) | Instr::And(a, b, c) | Instr::Or(a, b, c) => a <= 32775
            && b <= 32775 && c <= 32775 && 0 <= s.pc && s.pc + 3 <= 32767,
    }
}

/// A successful decode only hands out instructions whose operand words
/// were validated and whose operand slots lie inside memory.
pub proof fn lemma_decode_operands(s: State, i: Instr)
    requires
        s.wf(),
        decode_spec(s) == Ok::<Instr, Fault>(i),
    ensures
        operands_ok(s, i),
        0 <= s.pc <= 32767,
{
}

/// Result of one semantic step.
pub ghost enum StepRes {
    /// The machine executed one instruction and is in the given state
    /// (possibly halted, if the instruction was HALT or an empty-stack
    /// RET).
    Next(State),
    /// The instruction is IN and the input buffer is empty: no step can
    /// be taken until a line is provided.
    Input,
    /// The given fault occurred; the state is the old one with the halt
    /// flag set and nothing else changed.
    Fail(Fault, State),
}

/// The old state with the halt flag raised; how every fault leaves the
/// machine.
pub open spec fn halted(s: State) -> State {
    State { halt: true, ..s }
}

/// The state after an instruction that advanced sequentially: program
/// counter moved one past the last operand, one cycle counted.
pub open spec fn stepped(s: State, width: int) -> State {
    State { pc: s.pc + width, cc: s.cc + 1, ..s }
}

/// The state after a taken branch: program counter at the target, one
/// cycle counted.
pub open spec fn jumped(s: State, target: u16) -> State {
    State { pc: target as int, cc: s.cc + 1, ..s }
}

/// Effect of one decoded instruction on the machine state.
pub open spec fn exec_spec(s: State, i: Instr) -> StepRes
    recommends
        s.wf(),
        operands_ok(s, i),
{
    match i {
        Instr::Halt => StepRes::Next(State { halt: true, cc: s.cc + 1, ..s }),
        Instr::Assign(a, b) => StepRes::Next(write_spec(stepped(s, 3), a, resolve_spec(s, b))),
        Instr::Push(a) => StepRes::Next(
            State { stack: s.stack.push(resolve_spec(s, a)), ..stepped(s, 2) },
        ),
        Instr::Pop(a) => if s.stack.len() == 0 {
            StepRes::Fail(Fault::StackEmpty, halted(s))
        } else {
            StepRes::Next(
                write_spec(State { stack: s.stack.drop_last(), ..stepped(s, 2) }, a, s.stack.last()),
            )
        },
        Instr::Eq(a, b, c) => StepRes::Next(
            write_spec(
                stepped(s, 4),
                a,
                if resolve_spec(s, b) == resolve_spec(s, c) { 1u16 } else { 0u16 },
            ),
        ),
        Instr::Gt(a, b, c) => StepRes::Next(
            write_spec(
                stepped(s, 4),
                a,
                if resolve_spec(s, b) > resolve_spec(s, c) { 1u16 } else { 0u16 },
            ),
        ),
        Instr::Jmp(a) => StepRes::Next(jumped(s, resolve_spec(s, a))),
        Instr::Jt(a, b) => if resolve_spec(s, a) != 0 {
            StepRes::Next(jumped(s, resolve_spec(s, b)))
        } else {
            StepRes::Next(stepped(s, 3))
        },
        Instr::Jf(a, b) => if resolve_spec(s, a) == 0 {
            StepRes::Next(jumped(s, resolve_spec(s, b)))
        } else {
            StepRes::Next(stepped(s, 3))
        },
        Instr::Add(a, b, c) => StepRes::Next(
            write_spec(stepped(s, 4), a, mod32768(resolve_spec(s, b) + resolve_spec(s, c))),
        ),
        Instr::Mult(a, b, c) => StepRes::Next(
            write_spec(stepped(s, 4), a, mod32768(resolve_spec(s, b) * resolve_spec(s, c))),
        ),
        Instr::Mod(a, b, c) => if resolve_spec(s, c) == 0 {
            StepRes::Fail(Fault::DivZero, halted(s))
        } else {
            StepRes::Next(
                write_spec(
                    stepped(s, 4),
                    a,
                    (resolve_spec(s, b) as int % resolve_spec(s, c) as int) as u16,
                ),
            )
        },
        Instr::And(a, b, c) => StepRes::Next(
            write_spec(stepped(s, 4), a, resolve_spec(s, b) & resolve_spec(s, c)),
        ),
        Instr::Or(a, b, c) => StepRes::Next(
            write_spec(stepped(s, 4), a, resolve_spec(s, b) | resolve_spec(s, c)),
        ),
        Instr::Not(a, b) => StepRes::Next(write_spec(stepped(s, 3), a, not15(resolve_spec(s, b)))),
        Instr::Rmem(a, b) => {
            let src = resolve_spec(s, b);
            if !read_ok(s, src) {
                StepRes::Fail(read_fault(s, src), halted(s))
            } else if read_spec(s, src) > 32767 {
                StepRes::Fail(Fault::Decode, halted(s))
            } else {
                StepRes::Next(write_spec(stepped(s, 3), a, read_spec(s, src)))
            }
        },
        Instr::Wmem(a, b) => {
            let dest = resolve_spec(s, a);
            if dest > 32775 {
                StepRes::Fail(Fault::Address, halted(s))
            } else {
                StepRes::Next(write_spec(stepped(s, 3), dest, resolve_spec(s, b)))
            }
        },
        Instr::Call(a) => StepRes::Next(
            State { stack: s.stack.push((s.pc + 2) as u16), ..jumped(s, resolve_spec(s, a)) },
        ),
        Instr::Ret => if s.stack.len() == 0 {
            StepRes::Next(State { halt: true, cc: s.cc + 1, ..s })
        } else {
            StepRes::Next(
                State { stack: s.stack.drop_last(), pc: s.stack.last() as int, cc: s.cc + 1, ..s },
            )
        },
        Instr::Out(a) => {
            let v = resolve_spec(s, a);
            if v > 255 {
                StepRes::Fail(Fault::Ascii, halted(s))
            } else {
                StepRes::Next(State { output: s.output.push(v as u8), ..stepped(s, 2) })
            }
        },
        Instr::In(a) => if s.input.len() == 0 {
            StepRes::Input
        } else if s.input[0] > 127 {
            StepRes::Fail(Fault::Ascii, halted(s))
        } else {
            StepRes::Next(
                write_spec(State { input: s.input.remove(0), ..stepped(s, 2) }, a, s.input[0] as u16),
            )
        },
        Instr::Noop => StepRes::Next(stepped(s, 1)),
    }
}

/// One step of the machine: fetch and decode at the program counter,
/// then execute.  A decode failure is a fault.
pub open spec fn step_spec(s: State) -> StepRes
    recommends
        s.wf(),
        !s.halt,
{
    match decode_spec(s) {
        Ok(i) => exec_spec(s, i),
        Err(f) => StepRes::Fail(f, halted(s)),
    }
}

/// The state carried by a `StepRes::Next`.
pub open spec fn next_of(r: StepRes) -> State
    recommends
        r is Next,
{
    match r {
        StepRes::Next(s) => s,
        _ => arbitrary(),
    }
}

/// Whether a state meets one of the two optional breakpoint thresholds
/// (a threshold of zero is disabled).
pub open spec fn bp_hit(s: State, breakpoint_cc: u32, breakpoint_pc: u16) -> bool {
    ||| (breakpoint_cc != 0 && s.cc == breakpoint_cc)
    ||| (breakpoint_pc != 0 && s.pc == breakpoint_pc)
}

/// `s2` is reached from `s1` by exactly `n` executed instructions, none
/// of which halted the machine or landed on a breakpoint threshold.
pub open spec fn runs_to(s1: State, s2: State, n: nat, breakpoint_cc: u32, breakpoint_pc: u16) -> bool
    decreases n,
{
    if n == 0 {
        s2 == s1
    } else {
        &&& !s1.halt
        &&& step_spec(s1) is Next
        &&& !next_of(step_spec(s1)).halt
        &&& !bp_hit(next_of(step_spec(s1)), breakpoint_cc, breakpoint_pc)
        &&& runs_to(next_of(step_spec(s1)), s2, (n - 1) as nat, breakpoint_cc, breakpoint_pc)
    }
}

/// Extending a quiet run by one more quiet step.
pub proof fn lemma_runs_to_snoc(
    s1: State,
    m: State,
    n: nat,
    p: State,
    breakpoint_cc: u32,
    breakpoint_pc: u16,
)
    requires
        runs_to(s1, m, n, breakpoint_cc, breakpoint_pc),
        !m.halt,
        step_spec(m) == StepRes::Next(p),
        !p.halt,
        !bp_hit(p, breakpoint_cc, breakpoint_pc),
    ensures
        runs_to(s1, p, n + 1, breakpoint_cc, breakpoint_pc),
    decreases n,
{
    if n == 0 {
        assert(runs_to(p, p, 0, breakpoint_cc, breakpoint_pc));
    } else {
        lemma_runs_to_snoc(
            next_of(step_spec(s1)),
            m,
            (n - 1) as nat,
            p,
            breakpoint_cc,
            breakpoint_pc,
        );
    }
}

/// Byte sequence of the `DUMP` debugger command line.
pub open spec fn dump_cmd() -> Seq<u8> {
    seq![68u8, 85u8, 77u8, 80u8, 10u8]
}

/// Byte sequence of the `LOG_START` debugger command line.
pub open spec fn log_start_cmd() -> Seq<u8> {
    seq![76u8, 79u8, 71u8, 95u8, 83u8, 84u8, 65u8, 82u8, 84u8, 10u8]
}

/// Byte sequence of the `LOG_END` debugger command line.
pub open spec fn log_end_cmd() -> Seq<u8> {
    seq![76u8, 79u8, 71u8, 95u8, 69u8, 78u8, 68u8, 10u8]
}

/// Byte sequence of the `FIX` debugger command line.
pub open spec fn fix_cmd() -> Seq<u8> {
    seq![70u8, 73u8, 88u8, 10u8]
}

/// Whether a line is one of the four reserved debugger commands.
pub open spec fn is_command(line: Seq<u8>) -> bool {
    ||| line == dump_cmd()
    ||| line == log_start_cmd()
    ||| line == log_end_cmd()
    ||| line == fix_cmd()
}

} // verus!
