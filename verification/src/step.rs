//! Fetch, decode and execute: one opcode handler per instruction, each
//! proved to realise exactly the transition that [`crate::sem::exec_spec`]
//! assigns to it, and [`CPU::step`], which performs one full
//! fetch–decode–execute round.

use vstd::prelude::*;

use crate::isa::{arity, build_instr, Fault, Instr, StepOutcome};
use crate::machine::CPU;
use crate::sem::{
    decode_spec, exec_spec, lemma_decode_operands, step_spec, StepRes,
};

verus! {

impl CPU {
    /// Fetch and decode the instruction at the program counter without
    /// executing it.
    pub fn peek_instr(&self) -> (r: Result<Instr, Fault>)
        requires
            self.wf(),
        ensures
            r == decode_spec(self@),
    {
        let pc: u16 = self.pc();
        if pc > 32767 {
            return Err(Fault::Address);
        }
        let op: u16 = self.mem_at(pc);
        if op > 21 {
            return Err(Fault::Decode);
        }
        let ar: u16 = arity(op);
        if pc + ar > 32767 {
            return Err(Fault::Address);
        }
        let w1: u16 = if ar >= 1 { self.mem_at(pc + 1) } else { 0 };
        let w2: u16 = if ar >= 2 { self.mem_at(pc + 2) } else { 0 };
        let w3: u16 = if ar >= 3 { self.mem_at(pc + 3) } else { 0 };
        if ar >= 1 && w1 > 32775 {
            return Err(Fault::Decode);
        }
        if ar >= 2 && w2 > 32775 {
            return Err(Fault::Decode);
        }
        if ar >= 3 && w3 > 32775 {
            return Err(Fault::Decode);
        }
        Ok(build_instr(op, w1, w2, w3))
    }

    /// SET a b: write the resolved source into the destination.
    fn op_assign(&mut self, a: u16, b: u16)
        requires
            old(self).wf(),
            old(self)@.cc < u64::MAX,
            a <= 32775,
            b <= 32775,
            old(self)@.pc + 2 <= 32767,
        ensures
            final(self).wf(),
            StepRes::Next(final(self)@) == exec_spec(old(self)@, Instr::Assign(a, b)),
    {
        let v: u16 = self.resolve(b);
        self.advance_pc(3);
        self.count_cycle();
        self.write_cell(a, v);
    }

    /// PUSH a: push the resolved source onto the stack.
    fn op_push(&mut self, a: u16)
        requires
            old(self).wf(),
            old(self)@.cc < u64::MAX,
            a <= 32775,
            old(self)@.pc + 1 <= 32767,
        ensures
            final(self).wf(),
            StepRes::Next(final(self)@) == exec_spec(old(self)@, Instr::Push(a)),
    {
        let v: u16 = self.resolve(a);
        self.stack_push(v);
        self.advance_pc(2);
        self.count_cycle();
    }

    /// POP a: pop into the destination; a fault on an empty stack.
    fn op_pop(&mut self, a: u16) -> (r: Result<(), Fault>)
        requires
            old(self).wf(),
            old(self)@.cc < u64::MAX,
            a <= 32775,
            old(self)@.pc + 1 <= 32767,
        ensures
            final(self).wf(),
            match r {
                Ok(()) => StepRes::Next(final(self)@) == exec_spec(old(self)@, Instr::Pop(a)),
                Err(f) => exec_spec(old(self)@, Instr::Pop(a)) == StepRes::Fail(f, final(self)@),
            },
    {
        match self.stack_pop() {
            None => {
                self.set_halt();
                Err(Fault::StackEmpty)
            },
            Some(v) => {
                self.advance_pc(2);
                self.count_cycle();
                self.write_cell(a, v);
                Ok(())
            },
        }
    }

    /// EQ a b c: 1 into the destination if the sources are equal, else 0.
    fn op_eq(&mut self, a: u16, b: u16, c: u16)
        requires
            old(self).wf(),
            old(self)@.cc < u64::MAX,
            a <= 32775,
            b <= 32775,
            c <= 32775,
            old(self)@.pc + 3 <= 32767,
        ensures
            final(self).wf(),
            StepRes::Next(final(self)@) == exec_spec(old(self)@, Instr::Eq(a, b, c)),
    {
        let vb: u16 = self.resolve(b);
        let vc: u16 = self.resolve(c);
        let v: u16 = if vb == vc { 1 } else { 0 };
        self.advance_pc(4);
        self.count_cycle();
        self.write_cell(a, v);
    }

    /// GT a b c: 1 into the destination if the first source is greater.
    fn op_gt(&mut self, a: u16, b: u16, c: u16)
        requires
            old(self).wf(),
            old(self)@.cc < u64::MAX,
            a <= 32775,
            b <= 32775,
            c <= 32775,
            old(self)@.pc + 3 <= 32767,
        ensures
            final(self).wf(),
            StepRes::Next(final(self)@) == exec_spec(old(self)@, Instr::Gt(a, b, c)),
    {
        let vb: u16 = self.resolve(b);
        let vc: u16 = self.resolve(c);
        let v: u16 = if vb > vc { 1 } else { 0 };
        self.advance_pc(4);
        self.count_cycle();
        self.write_cell(a, v);
    }

    /// JMP a: jump to the resolved target.
    fn op_jmp(&mut self, a: u16)
        requires
            old(self).wf(),
            old(self)@.cc < u64::MAX,
            a <= 32775,
            old(self)@.pc + 1 <= 32767,
        ensures
            final(self).wf(),
            StepRes::Next(final(self)@) == exec_spec(old(self)@, Instr::Jmp(a)),
    {
        let target: u16 = self.resolve(a);
        self.set_pc(target);
        self.count_cycle();
    }

    /// JT a b: jump to the second source if the first is nonzero.
    fn op_jt(&mut self, a: u16, b: u16)
        requires
            old(self).wf(),
            old(self)@.cc < u64::MAX,
            a <= 32775,
            b <= 32775,
            old(self)@.pc + 2 <= 32767,
        ensures
            final(self).wf(),
            StepRes::Next(final(self)@) == exec_spec(old(self)@, Instr::Jt(a, b)),
    {
        let cond: u16 = self.resolve(a);
        let target: u16 = self.resolve(b);
        if cond != 0 {
            self.set_pc(target);
        } else {
            self.advance_pc(3);
        }
        self.count_cycle();
    }

    /// JF a b: jump to the second source if the first is zero.
    fn op_jf(&mut self, a: u16, b: u16)
        requires
            old(self).wf(),
            old(self)@.cc < u64::MAX,
            a <= 32775,
            b <= 32775,
            old(self)@.pc + 2 <= 32767,
        ensures
            final(self).wf(),
            StepRes::Next(final(self)@) == exec_spec(old(self)@, Instr::Jf(a, b)),
    {
        let cond: u16 = self.resolve(a);
        let target: u16 = self.resolve(b);
        if cond == 0 {
            self.set_pc(target);
        } else {
            self.advance_pc(3);
        }
        self.count_cycle();
    }

    /// ADD a b c: the sum of the sources, reduced modulo 32768.
    fn op_add(&mut self, a: u16, b: u16, c: u16)
        requires
            old(self).wf(),
            old(self)@.cc < u64::MAX,
            a <= 32775,
            b <= 32775,
            c <= 32775,
            old(self)@.pc + 3 <= 32767,
        ensures
            final(self).wf(),
            StepRes::Next(final(self)@) == exec_spec(old(self)@, Instr::Add(a, b, c)),
    {
        let vb: u16 = self.resolve(b);
        let vc: u16 = self.resolve(c);
        let v: u16 = (((vb as u32) + (vc as u32)) % 32768) as u16;
        self.advance_pc(4);
        self.count_cycle();
        self.write_cell(a, v);
    }

    /// MULT a b c: the product of the sources, computed in 32-bit width
    /// and reduced modulo 32768.
    fn op_mult(&mut self, a: u16, b: u16, c: u16)
        requires
            old(self).wf(),
            old(self)@.cc < u64::MAX,
            a <= 32775,
            b <= 32775,
            c <= 32775,
            old(self)@.pc + 3 <= 32767,
        ensures
            final(self).wf(),
            StepRes::Next(final(self)@) == exec_spec(old(self)@, Instr::Mult(a, b, c)),
    {
        let vb: u16 = self.resolve(b);
        let vc: u16 = self.resolve(c);
        proof {
            assert((vb as int) * (vc as int) <= 65535 * 65535) by (nonlinear_arith)
                requires
                    vb <= 65535,
                    vc <= 65535,
            ;
            assert(0 <= (vb as int) * (vc as int)) by (nonlinear_arith)
                requires
                    0 <= vb,
                    0 <= vc,
            ;
        }
        let v: u16 = (((vb as u32) * (vc as u32)) % 32768) as u16;
        self.advance_pc(4);
        self.count_cycle();
        self.write_cell(a, v);
    }

    /// MOD a b c: the remainder of the sources; divisor zero is a fault.
    fn op_mod(&mut self, a: u16, b: u16, c: u16) -> (r: Result<(), Fault>)
        requires
            old(self).wf(),
            old(self)@.cc < u64::MAX,
            a <= 32775,
            b <= 32775,
            c <= 32775,
            old(self)@.pc + 3 <= 32767,
        ensures
            final(self).wf(),
            match r {
                Ok(()) => StepRes::Next(final(self)@) == exec_spec(
                    old(self)@,
                    Instr::Mod(a, b, c),
                ),
                Err(f) => exec_spec(old(self)@, Instr::Mod(a, b, c)) == StepRes::Fail(
                    f,
                    final(self)@,
                ),
            },
    {
        let vb: u16 = self.resolve(b);
        let vc: u16 = self.resolve(c);
        if vc == 0 {
            self.set_halt();
            return Err(Fault::DivZero);
        }
        let v: u16 = vb % vc;
        self.advance_pc(4);
        self.count_cycle();
        self.write_cell(a, v);
        Ok(())
    }

    /// AND a b c: bitwise and of the sources.
    fn op_and(&mut self, a: u16, b: u16, c: u16)
        requires
            old(self).wf(),
            old(self)@.cc < u64::MAX,
            a <= 32775,
            b <= 32775,
            c <= 32775,
            old(self)@.pc + 3 <= 32767,
        ensures
            final(self).wf(),
            StepRes::Next(final(self)@) == exec_spec(old(self)@, Instr::And(a, b, c)),
    {
        let vb: u16 = self.resolve(b);
        let vc: u16 = self.resolve(c);
        let v: u16 = vb & vc;
        self.advance_pc(4);
        self.count_cycle();
        self.write_cell(a, v);
    }

    /// OR a b c: bitwise or of the sources.
    fn op_or(&mut self, a: u16, b: u16, c: u16)
        requires
            old(self).wf(),
            old(self)@.cc < u64::MAX,
            a <= 32775,
            b <= 32775,
            c <= 32775,
            old(self)@.pc + 3 <= 32767,
        ensures
            final(self).wf(),
            StepRes::Next(final(self)@) == exec_spec(old(self)@, Instr::Or(a, b, c)),
    {
        let vb: u16 = self.resolve(b);
        let vc: u16 = self.resolve(c);
        let v: u16 = vb | vc;
        self.advance_pc(4);
        self.count_cycle();
        self.write_cell(a, v);
    }

    /// NOT a b: the 15-bit complement of the source.
    fn op_not(&mut self, a: u16, b: u16)
        requires
            old(self).wf(),
            old(self)@.cc < u64::MAX,
            a <= 32775,
            b <= 32775,
            old(self)@.pc + 2 <= 32767,
        ensures
            final(self).wf(),
            StepRes::Next(final(self)@) == exec_spec(old(self)@, Instr::Not(a, b)),
    {
        let vb: u16 = self.resolve(b);
        let v: u16 = (vb ^ 0x7fff) & 0x7fff;
        self.advance_pc(3);
        self.count_cycle();
        self.write_cell(a, v);
    }

    /// RMEM a b: read through the unified address space at the resolved
    /// source address; a cell holding a register sentinel may not be
    /// indirected through.
    fn op_rmem(&mut self, a: u16, b: u16) -> (r: Result<(), Fault>)
        requires
            old(self).wf(),
            old(self)@.cc < u64::MAX,
            a <= 32775,
            b <= 32775,
            old(self)@.pc + 2 <= 32767,
        ensures
            final(self).wf(),
            match r {
                Ok(()) => StepRes::Next(final(self)@) == exec_spec(old(self)@, Instr::Rmem(a, b)),
                Err(f) => exec_spec(old(self)@, Instr::Rmem(a, b)) == StepRes::Fail(
                    f,
                    final(self)@,
                ),
            },
    {
        let src: u16 = self.resolve(b);
        let val: u16 = match self.mem_read(src) {
            Ok(v) => v,
            Err(f) => {
                self.set_halt();
                return Err(f);
            },
        };
        if val > 32767 {
            self.set_halt();
            return Err(Fault::Decode);
        }
        self.advance_pc(3);
        self.count_cycle();
        self.write_cell(a, val);
        Ok(())
    }

    /// WMEM a b: write the resolved source through the unified address
    /// space at the resolved destination address.
    fn op_wmem(&mut self, a: u16, b: u16) -> (r: Result<(), Fault>)
        requires
            old(self).wf(),
            old(self)@.cc < u64::MAX,
            a <= 32775,
            b <= 32775,
            old(self)@.pc + 2 <= 32767,
        ensures
            final(self).wf(),
            match r {
                Ok(()) => StepRes::Next(final(self)@) == exec_spec(old(self)@, Instr::Wmem(a, b)),
                Err(f) => exec_spec(old(self)@, Instr::Wmem(a, b)) == StepRes::Fail(
                    f,
                    final(self)@,
                ),
            },
    {
        let dest: u16 = self.resolve(a);
        let val: u16 = self.resolve(b);
        if dest > 32775 {
            self.set_halt();
            return Err(Fault::Address);
        }
        self.advance_pc(3);
        self.count_cycle();
        self.write_cell(dest, val);
        Ok(())
    }

    /// CALL a: push the address of the next instruction, jump to the
    /// resolved target.
    fn op_call(&mut self, a: u16)
        requires
            old(self).wf(),
            old(self)@.cc < u64::MAX,
            a <= 32775,
            old(self)@.pc + 1 <= 32767,
        ensures
            final(self).wf(),
            StepRes::Next(final(self)@) == exec_spec(old(self)@, Instr::Call(a)),
    {
        let target: u16 = self.resolve(a);
        let ret_addr: u16 = self.pc() + 2;
        self.stack_push(ret_addr);
        self.set_pc(target);
        self.count_cycle();
    }

    /// RET: pop the return address and jump to it; an empty stack is a
    /// normal halt.
    fn op_ret(&mut self)
        requires
            old(self).wf(),
            old(self)@.cc < u64::MAX,
            old(self)@.pc <= 32767,
        ensures
            final(self).wf(),
            StepRes::Next(final(self)@) == exec_spec(old(self)@, Instr::Ret),
    {
        match self.stack_pop() {
            None => {
                self.set_halt();
                self.count_cycle();
            },
            Some(addr) => {
                self.set_pc(addr);
                self.count_cycle();
            },
        }
    }

    /// OUT a: emit the character whose code is the resolved source; a
    /// value above 255 is a fault.
    fn op_out(&mut self, a: u16) -> (r: Result<(), Fault>)
        requires
            old(self).wf(),
            old(self)@.cc < u64::MAX,
            a <= 32775,
            old(self)@.pc + 1 <= 32767,
        ensures
            final(self).wf(),
            match r {
                Ok(()) => StepRes::Next(final(self)@) == exec_spec(old(self)@, Instr::Out(a)),
                Err(f) => exec_spec(old(self)@, Instr::Out(a)) == StepRes::Fail(f, final(self)@),
            },
    {
        let v: u16 = self.resolve(a);
        if v > 255 {
            self.set_halt();
            return Err(Fault::Ascii);
        }
        self.push_output(v as u8);
        self.advance_pc(2);
        self.count_cycle();
        Ok(())
    }

    /// IN a: deliver one buffered input character into the destination;
    /// with a drained buffer nothing happens and the caller must provide
    /// a line; a character above 127 is a fault.
    fn op_in(&mut self, a: u16) -> (r: Result<bool, Fault>)
        requires
            old(self).wf(),
            old(self)@.cc < u64::MAX,
            a <= 32775,
            old(self)@.pc + 1 <= 32767,
        ensures
            final(self).wf(),
            match r {
                Ok(true) => StepRes::Next(final(self)@) == exec_spec(old(self)@, Instr::In(a)),
                Ok(false) => final(self)@ == old(self)@ && exec_spec(old(self)@, Instr::In(a))
                    == StepRes::Input,
                Err(f) => exec_spec(old(self)@, Instr::In(a)) == StepRes::Fail(f, final(self)@),
            },
    {
        let ch: u8 = match self.input_first() {
            None => {
                return Ok(false);
            },
            Some(ch) => ch,
        };
        if ch > 127 {
            self.set_halt();
            return Err(Fault::Ascii);
        }
        self.consume_input();
        self.advance_pc(2);
        self.count_cycle();
        self.write_cell(a, ch as u16);
        Ok(true)
    }

    /// One fetch–decode–execute round.  The machine must be runnable
    /// (not halted); the outcome reports exactly what the small-step
    /// semantics [`step_spec`] prescribes for the old state.
    pub fn step(&mut self) -> (r: StepOutcome)
        requires
            old(self).wf(),
            !old(self)@.halt,
            old(self)@.cc < u64::MAX,
        ensures
            final(self).wf(),
            final(self)@.cc <= old(self)@.cc + 1,
            match r {
                StepOutcome::Ran(i) => decode_spec(old(self)@) == Ok::<Instr, Fault>(i)
                    && step_spec(old(self)@) == StepRes::Next(final(self)@),
                StepOutcome::NeedInput => final(self)@ == old(self)@ && step_spec(old(self)@)
                    == StepRes::Input,
                StepOutcome::Fault(f) => step_spec(old(self)@) == StepRes::Fail(f, final(self)@)
                    && final(self)@.halt,
            },
    {
        let ghost s0 = self@;
        match self.peek_instr() {
            Err(f) => {
                self.set_halt();
                StepOutcome::Fault(f)
            },
            Ok(i) => {
                proof {
                    lemma_decode_operands(s0, i);
                }
                match i {
                    Instr::Halt => {
                        self.set_halt();
                        self.count_cycle();
                        StepOutcome::Ran(i)
                    },
                    Instr::Assign(a, b) => {
                        self.op_assign(a, b);
                        StepOutcome::Ran(i)
                    },
                    Instr::Push(a) => {
                        self.op_push(a);
                        StepOutcome::Ran(i)
                    },
                    Instr::Pop(a) => match self.op_pop(a) {
                        Ok(()) => StepOutcome::Ran(i),
                        Err(f) => StepOutcome::Fault(f),
                    },
                    Instr::Eq(a, b, c) => {
                        self.op_eq(a, b, c);
                        StepOutcome::Ran(i)
                    },
                    Instr::Gt(a, b, c) => {
                        self.op_gt(a, b, c);
                        StepOutcome::Ran(i)
                    },
                    Instr::Jmp(a) => {
                        self.op_jmp(a);
                        StepOutcome::Ran(i)
                    },
                    Instr::Jt(a, b) => {
                        self.op_jt(a, b);
                        StepOutcome::Ran(i)
                    },
                    Instr::Jf(a, b) => {
                        self.op_jf(a, b);
                        StepOutcome::Ran(i)
                    },
                    Instr::Add(a, b, c) => {
                        self.op_add(a, b, c);
                        StepOutcome::Ran(i)
                    },
                    Instr::Mult(a, b, c) => {
                        self.op_mult(a, b, c);
                        StepOutcome::Ran(i)
                    },
                    Instr::Mod(a, b, c) => match self.op_mod(a, b, c) {
                        Ok(()) => StepOutcome::Ran(i),
                        Err(f) => StepOutcome::Fault(f),
                    },
                    Instr::And(a, b, c) => {
                        self.op_and(a, b, c);
                        StepOutcome::Ran(i)
                    },
                    Instr::Or(a, b, c) => {
                        self.op_or(a, b, c);
                        StepOutcome::Ran(i)
                    },
                    Instr::Not(a, b) => {
                        self.op_not(a, b);
                        StepOutcome::Ran(i)
                    },
                    Instr::Rmem(a, b) => match self.op_rmem(a, b) {
                        Ok(()) => StepOutcome::Ran(i),
                        Err(f) => StepOutcome::Fault(f),
                    },
                    Instr::Wmem(a, b) => match self.op_wmem(a, b) {
                        Ok(()) => StepOutcome::Ran(i),
                        Err(f) => StepOutcome::Fault(f),
                    },
                    Instr::Call(a) => {
                        self.op_call(a);
                        StepOutcome::Ran(i)
                    },
                    Instr::Ret => {
                        self.op_ret();
                        StepOutcome::Ran(i)
                    },
                    Instr::Out(a) => match self.op_out(a) {
                        Ok(()) => StepOutcome::Ran(i),
                        Err(f) => StepOutcome::Fault(f),
                    },
                    Instr::In(a) => match self.op_in(a) {
                        Ok(true) => StepOutcome::Ran(i),
                        Ok(false) => StepOutcome::NeedInput,
                        Err(f) => StepOutcome::Fault(f),
                    },
                    Instr::Noop => {
                        self.advance_pc(1);
                        self.count_cycle();
                        StepOutcome::Ran(i)
                    },
                }
            },
        }
    }
}

} // verus!
