//! The instruction-set surface: the decoded instruction type, the fault
//! kinds, and the outcome types reported by the execution entry points.

use vstd::prelude::*;

verus! {

/// Terminal error conditions.  Any fault sets the halt flag and ends the
/// run; there is no recovery.
#[derive(Clone, Copy, Debug, PartialEq, Eq, Structural)]
pub enum Fault {
    /// Unknown opcode, a word above 32775 fetched from a memory cell, or
    /// an indirect read through a cell holding a register sentinel.
    Decode,
    /// Read or write at an address above 32775, a register id above 7, or
    /// a fetch outside the 32768-cell memory.
    Address,
    /// MOD with divisor zero.
    DivZero,
    /// OUT with a value above 255, or IN delivering a character above 127.
    Ascii,
    /// POP from an empty stack.  (RET from an empty stack is a normal
    /// halt, not a fault.)
    StackEmpty,
    /// An empty program image was offered to the loader.
    LoadEmpty,
    /// A program image longer than the 32768-word memory was offered.
    LoadTooLarge,
}

/// One decoded instruction.  Operand fields hold the raw in-stream words
/// (each at most 32775); sources are resolved to values at execution time.
#[derive(Clone, Copy, Debug, PartialEq, Eq, Structural)]
pub enum Instr {
    Halt,
    Assign(u16, u16),
    Push(u16),
    Pop(u16),
    Eq(u16, u16, u16),
    Gt(u16, u16, u16),
    Jmp(u16),
    Jt(u16, u16),
    Jf(u16, u16),
    Add(u16, u16, u16),
    Mult(u16, u16, u16),
    Mod(u16, u16, u16),
    And(u16, u16, u16),
    Or(u16, u16, u16),
    Not(u16, u16),
    Rmem(u16, u16),
    Wmem(u16, u16),
    Call(u16),
    Ret,
    Out(u16),
    In(u16),
    Noop,
}

/// What one call of `CPU::step` did.
#[derive(Clone, Copy, Debug, PartialEq, Eq, Structural)]
pub enum StepOutcome {
    /// One instruction was fetched, decoded and executed (this includes
    /// HALT and an empty-stack RET, which halt the machine normally).
    Ran(Instr),
    /// The instruction at the program counter is IN and the input buffer
    /// is empty: nothing changed; a line must be provided before the next
    /// step.
    NeedInput,
    /// A fault: the halt flag is now set and nothing else changed.
    Fault(Fault),
}

/// Why `CPU::run` returned.
#[derive(Clone, Copy, Debug, PartialEq, Eq, Structural)]
pub enum RunOutcome {
    /// The machine halted normally (HALT, or RET on an empty stack).
    Halted,
    /// A breakpoint threshold was reached; the halt flag is set.
    Breakpoint,
    /// IN needs a line of input; the machine state is at the IN opcode.
    NeedInput,
    /// A fault halted the machine.
    Fault(Fault),
    /// The fuel bound was exhausted with the machine still runnable.
    OutOfFuel,
}

/// How `CPU::provide_line` interpreted a freshly read input line.
#[derive(Clone, Copy, Debug, PartialEq, Eq, Structural)]
pub enum LineAction {
    /// The `DUMP` debugger command: the driver should emit a diagnostic
    /// dump; machine state is unchanged and another line must be read.
    Dump,
    /// The `LOG_START` debugger command: instruction tracing is now
    /// enabled; another line must be read.
    LogStart,
    /// The `LOG_END` debugger command: instruction tracing is now
    /// disabled; another line must be read.
    LogEnd,
    /// The `FIX` debugger command: register 7 was set to 5; another line
    /// must be read.
    Fix,
    /// An ordinary line: it now fills the input buffer and will be
    /// delivered character by character through IN.
    Text,
}

/// Operand count of each opcode (meaningful for opcodes 0 through 21).
pub open spec fn arity_of(op: u16) -> int {
    if op == 0 || op == 18 || op == 21 {
        0
    } else if op == 2 || op == 3 || op == 6 || op == 17 || op == 19 || op == 20 {
        1
    } else if op == 1 || op == 7 || op == 8 || op == 14 || op == 15 || op == 16 {
        2
    } else {
        3
    }
}

/// The instruction denoted by an opcode and its (up to three) operand
/// words; operands beyond the opcode's arity are ignored.
pub open spec fn instr_of(op: u16, w1: u16, w2: u16, w3: u16) -> Instr {
    if op == 0 {
        Instr::Halt
    } else if op == 1 {
        Instr::Assign(w1, w2)
    } else if op == 2 {
        Instr::Push(w1)
    } else if op == 3 {
        Instr::Pop(w1)
    } else if op == 4 {
        Instr::Eq(w1, w2, w3)
    } else if op == 5 {
        Instr::Gt(w1, w2, w3)
    } else if op == 6 {
        Instr::Jmp(w1)
    } else if op == 7 {
        Instr::Jt(w1, w2)
    } else if op == 8 {
        Instr::Jf(w1, w2)
    } else if op == 9 {
        Instr::Add(w1, w2, w3)
    } else if op == 10 {
        Instr::Mult(w1, w2, w3)
    } else if op == 11 {
        Instr::Mod(w1, w2, w3)
    } else if op == 12 {
        Instr::And(w1, w2, w3)
    } else if op == 13 {
        Instr::Or(w1, w2, w3)
    } else if op == 14 {
        Instr::Not(w1, w2)
    } else if op == 15 {
        Instr::Rmem(w1, w2)
    } else if op == 16 {
        Instr::Wmem(w1, w2)
    } else if op == 17 {
        Instr::Call(w1)
    } else if op == 18 {
        Instr::Ret
    } else if op == 19 {
        Instr::Out(w1)
    } else if op == 20 {
        Instr::In(w1)
    } else {
        Instr::Noop
    }
}

/// Executable twin of [`arity_of`].
pub fn arity(op: u16) -> (n: u16)
    requires
        op <= 21,
    ensures
        n as int == arity_of(op),
{
    if op == 0 || op == 18 || op == 21 {
        0
    } else if op == 2 || op == 3 || op == 6 || op == 17 || op == 19 || op == 20 {
        1
    } else if op == 1 || op == 7 || op == 8 || op == 14 || op == 15 || op == 16 {
        2
    } else {
        3
    }
}

/// Executable twin of [`instr_of`].
pub fn build_instr(op: u16, w1: u16, w2: u16, w3: u16) -> (i: Instr)
    requires
        op <= 21,
    ensures
        i == instr_of(op, w1, w2, w3),
{
    match op {
        0 => Instr::Halt,
        1 => Instr::Assign(w1, w2),
        2 => Instr::Push(w1),
        3 => Instr::Pop(w1),
        4 => Instr::Eq(w1, w2, w3),
        5 => Instr::Gt(w1, w2, w3),
        6 => Instr::Jmp(w1),
        7 => Instr::Jt(w1, w2),
        8 => Instr::Jf(w1, w2),
        9 => Instr::Add(w1, w2, w3),
        10 => Instr::Mult(w1, w2, w3),
        11 => Instr::Mod(w1, w2, w3),
        12 => Instr::And(w1, w2, w3),
        13 => Instr::Or(w1, w2, w3),
        14 => Instr::Not(w1, w2),
        15 => Instr::Rmem(w1, w2),
        16 => Instr::Wmem(w1, w2),
        17 => Instr::Call(w1),
        18 => Instr::Ret,
        19 => Instr::Out(w1),
        20 => Instr::In(w1),
        _ => Instr::Noop,
    }
}

} // verus!
