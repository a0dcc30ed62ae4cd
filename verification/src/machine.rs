//! The machine itself: register file, memory, stack, counters and
//! buffers, together with the unified address space (read and write over
//! a single 16-bit address) and the operand resolver.
//!
//! The fields are private — in particular nothing outside the machine
//! can inspect or rewrite the stack — so every state change goes through
//! the contracted operations below, each specified against the abstract
//! [`State`].

use vstd::prelude::*;

use crate::isa::Fault;
use crate::sem::{
    halted, init_state, loaded_mem, read_fault, read_ok, read_spec, resolve_spec, write_spec,
    State,
};

verus! {

/// The virtual machine: 32768 memory cells, registers r0 through r7, an
/// unbounded stack, program and cycle counters, the halt flag, the input
/// line buffer consumed by IN, the trace of bytes emitted by OUT, and
/// the instruction-tracing flag toggled by the debugger commands.
pub struct CPU {
    mem: Vec<u16>,
    reg: Vec<u16>,
    stack: Vec<u16>,
    pc: u16,
    cc: u64,
    halt: bool,
    input: Vec<u8>,
    output: Vec<u8>,
    logging: bool,
}

impl View for CPU {
    type V = State;

    closed spec fn view(&self) -> State {
        State {
            mem: self.mem@,
            reg: self.reg@,
            stack: self.stack@,
            pc: self.pc as int,
            cc: self.cc as int,
            halt: self.halt,
            input: self.input@,
            output: self.output@,
            logging: self.logging,
        }
    }
}

impl CPU {
    /// The machine's invariant, carried by every public operation.
    pub open spec fn wf(&self) -> bool {
        self@.wf()
    }

    /// A machine at boot: memory and registers all zero, empty stack and
    /// buffers, counters at zero, not halted, tracing off.
    pub fn new() -> (cpu: CPU)
        ensures
            cpu.wf(),
            cpu@ == init_state(),
    {
        let mut mem: Vec<u16> = Vec::new();
        let mut i: usize = 0;
        while i < 32768
            invariant
                i <= 32768,
                mem@.len() == i,
                forall|j: int| 0 <= j < i ==> mem@[j] == 0u16,
            decreases 32768 - i,
        {
            mem.push(0);
            i = i + 1;
        }
        let mut reg: Vec<u16> = Vec::new();
        let mut k: usize = 0;
        while k < 8
            invariant
                k <= 8,
                reg@.len() == k,
                forall|j: int| 0 <= j < k ==> reg@[j] == 0u16,
            decreases 8 - k,
        {
            reg.push(0);
            k = k + 1;
        }
        let cpu = CPU {
            mem,
            reg,
            stack: Vec::new(),
            pc: 0,
            cc: 0,
            halt: false,
            input: Vec::new(),
            output: Vec::new(),
            logging: false,
        };
        proof {
            assert(cpu@.mem =~= init_state().mem);
            assert(cpu@.reg =~= init_state().reg);
            assert(cpu@ =~= init_state());
        }
        cpu
    }

    /// Load a program image: its words replace the first cells of
    /// memory; the remaining cells keep their contents.  An empty image
    /// and an image longer than memory are rejected unchanged.
    pub fn load_mem(&mut self, mem_input: Vec<u16>) -> (r: Result<(), Fault>)
        requires
            old(self).wf(),
        ensures
            final(self).wf(),
            match r {
                Ok(()) => 1 <= mem_input@.len() <= 32768 && final(self)@ == (State {
                    mem: loaded_mem(old(self)@.mem, mem_input@),
                    ..old(self)@
                }),
                Err(f) => final(self)@ == old(self)@ && ((f == Fault::LoadEmpty && mem_input@.len()
                    == 0) || (f == Fault::LoadTooLarge && mem_input@.len() > 32768)),
            },
    {
        if mem_input.len() == 0 {
            return Err(Fault::LoadEmpty);
        }
        if mem_input.len() > 32768 {
            return Err(Fault::LoadTooLarge);
        }
        let ghost s0 = self@;
        let mut i: usize = 0;
        while i < mem_input.len()
            invariant
                self.wf(),
                i <= mem_input@.len(),
                mem_input@.len() <= 32768,
                self@ == (State { mem: self@.mem, ..s0 }),
                self@.mem.len() == 32768,
                forall|j: int| 0 <= j < i ==> self@.mem[j] == mem_input@[j],
                forall|j: int| i <= j < 32768 ==> self@.mem[j] == s0.mem[j],
            decreases mem_input@.len() - i,
        {
            let w = mem_input[i];
            self.mem.set(i, w);
            i = i + 1;
        }
        proof {
            assert(self@.mem =~= loaded_mem(s0.mem, mem_input@));
            assert(self@ =~= (State { mem: loaded_mem(s0.mem, mem_input@), ..s0 }));
        }
        Ok(())
    }

    /// Read through the unified address space: a memory cell for
    /// addresses up to 32767, a register for 32768 through 32775, a
    /// fault beyond; a memory cell holding a word above 32775 is itself
    /// a fault.
    pub fn mem_read(&self, mem_addr: u16) -> (r: Result<u16, Fault>)
        requires
            self.wf(),
        ensures
            match r {
                Ok(v) => read_ok(self@, mem_addr) && v == read_spec(self@, mem_addr),
                Err(f) => !read_ok(self@, mem_addr) && f == read_fault(self@, mem_addr),
            },
    {
        if mem_addr > 32775 {
            return Err(Fault::Address);
        }
        if mem_addr > 32767 {
            let reg_id: usize = (mem_addr - 32768) as usize;
            return Ok(self.reg[reg_id]);
        }
        let v: u16 = self.mem[mem_addr as usize];
        if v > 32775 {
            return Err(Fault::Decode);
        }
        Ok(v)
    }

    /// Write through the unified address space; only an address beyond
    /// 32775 is rejected.
    pub fn mem_write(&mut self, mem_addr: u16, val: u16) -> (r: Result<(), Fault>)
        requires
            old(self).wf(),
        ensures
            final(self).wf(),
            match r {
                Ok(()) => mem_addr <= 32775 && final(self)@ == write_spec(
                    old(self)@,
                    mem_addr,
                    val,
                ),
                Err(f) => mem_addr > 32775 && f == Fault::Address && final(self)@ == old(self)@,
            },
    {
        if mem_addr > 32775 {
            return Err(Fault::Address);
        }
        self.write_cell(mem_addr, val);
        Ok(())
    }

    /// The write itself, for callers that have already validated the
    /// address (every operand that reaches it went through decoding).
    pub(crate) fn write_cell(&mut self, addr: u16, val: u16)
        requires
            old(self).wf(),
            addr <= 32775,
        ensures
            final(self).wf(),
            final(self)@ == write_spec(old(self)@, addr, val),
    {
        if addr > 32767 {
            let reg_id: usize = (addr - 32768) as usize;
            self.reg.set(reg_id, val);
        } else {
            self.mem.set(addr as usize, val);
        }
    }

    /// Resolve a source operand word that decoding has already bounded.
    pub(crate) fn resolve(&self, w: u16) -> (v: u16)
        requires
            self.wf(),
            w <= 32775,
        ensures
            v == resolve_spec(self@, w),
    {
        if w <= 32767 {
            w
        } else {
            self.reg[(w - 32768) as usize]
        }
    }

    /// The operand resolver: a word up to 32767 is its own value, 32768
    /// through 32775 yield the named register's contents, anything
    /// larger is an invalid operand.
    pub fn resolve_operand(&self, w: u16) -> (r: Result<u16, Fault>)
        requires
            self.wf(),
        ensures
            match r {
                Ok(v) => w <= 32775 && v == resolve_spec(self@, w),
                Err(f) => w > 32775 && f == Fault::Decode,
            },
    {
        if w > 32775 {
            return Err(Fault::Decode);
        }
        Ok(self.resolve(w))
    }

    /// Contents of a register by id (0 through 7).
    pub fn get_reg(&self, reg_id: u16) -> (r: Result<u16, Fault>)
        requires
            self.wf(),
        ensures
            match r {
                Ok(v) => reg_id <= 7 && v == self@.reg[reg_id as int],
                Err(f) => reg_id > 7 && f == Fault::Address,
            },
    {
        if reg_id > 7 {
            return Err(Fault::Address);
        }
        Ok(self.reg[reg_id as usize])
    }

    /// Contents of a register, for callers that know the id is in range
    /// (diagnostic dumps walk ids 0 through 7).
    pub fn reg_value(&self, reg_id: u16) -> (v: u16)
        requires
            self.wf(),
            reg_id <= 7,
        ensures
            v == self@.reg[reg_id as int],
    {
        self.reg[reg_id as usize]
    }

    /// Contents of a memory cell, for diagnostic dumps.
    pub fn mem_at(&self, addr: u16) -> (v: u16)
        requires
            self.wf(),
            addr <= 32767,
        ensures
            v == self@.mem[addr as int],
    {
        self.mem[addr as usize]
    }

    /// Every byte the machine has emitted through OUT, in cycle order.
    pub fn output(&self) -> (r: &Vec<u8>)
        ensures
            r@ == self@.output,
    {
        &self.output
    }

    /// Current program counter.
    pub fn pc(&self) -> (r: u16)
        ensures
            r as int == self@.pc,
    {
        self.pc
    }

    /// Number of instructions executed so far.
    pub fn cycle_count(&self) -> (r: u64)
        ensures
            r as int == self@.cc,
    {
        self.cc
    }

    /// Whether the halt flag is set.
    pub fn halted(&self) -> (r: bool)
        ensures
            r == self@.halt,
    {
        self.halt
    }

    /// Whether instruction tracing is enabled (toggled by the LOG_START
    /// and LOG_END debugger commands; the driver formats and stores the
    /// trace).
    pub fn logging(&self) -> (r: bool)
        ensures
            r == self@.logging,
    {
        self.logging
    }

    /// Whether the input buffer is drained, so that the next IN will ask
    /// for a line.
    pub fn input_is_empty(&self) -> (r: bool)
        ensures
            r == (self@.input.len() == 0),
    {
        self.input.len() == 0
    }

    /// Move the program counter past an instruction's operands.
    pub(crate) fn advance_pc(&mut self, width: u16)
        requires
            old(self)@.pc + width < 65536,
        ensures
            final(self)@ == (State { pc: old(self)@.pc + width, ..old(self)@ }),
    {
        self.pc = self.pc + width;
    }

    /// Point the program counter at a branch target.
    pub(crate) fn set_pc(&mut self, addr: u16)
        ensures
            final(self)@ == (State { pc: addr as int, ..old(self)@ }),
    {
        self.pc = addr;
    }

    /// Count one executed instruction.
    pub(crate) fn count_cycle(&mut self)
        requires
            old(self)@.cc < u64::MAX,
        ensures
            final(self)@ == (State { cc: old(self)@.cc + 1, ..old(self)@ }),
    {
        self.cc = self.cc + 1;
    }

    /// Raise the halt flag.
    pub(crate) fn set_halt(&mut self)
        ensures
            final(self)@ == halted(old(self)@),
    {
        self.halt = true;
    }

    /// Switch instruction tracing on or off.
    pub(crate) fn set_logging(&mut self, on: bool)
        ensures
            final(self)@ == (State { logging: on, ..old(self)@ }),
    {
        self.logging = on;
    }

    /// Push a word onto the stack.
    pub(crate) fn stack_push(&mut self, v: u16)
        ensures
            final(self)@ == (State { stack: old(self)@.stack.push(v), ..old(self)@ }),
    {
        self.stack.push(v);
    }

    /// Pop the top of the stack, if there is one.
    pub(crate) fn stack_pop(&mut self) -> (r: Option<u16>)
        ensures
            old(self)@.stack.len() == 0 ==> r is None && final(self)@ == old(self)@,
            old(self)@.stack.len() > 0 ==> r == Some(old(self)@.stack.last()) && final(self)@
                == (State { stack: old(self)@.stack.drop_last(), ..old(self)@ }),
    {
        let r = self.stack.pop();
        proof {
            if old(self)@.stack.len() > 0 {
                assert(self@.stack =~= old(self)@.stack.drop_last());
            }
        }
        r
    }

    /// First unconsumed input character, if any.
    pub(crate) fn input_first(&self) -> (r: Option<u8>)
        ensures
            self@.input.len() == 0 ==> r is None,
            self@.input.len() > 0 ==> r == Some(self@.input[0]),
    {
        if self.input.len() == 0 {
            None
        } else {
            Some(self.input[0])
        }
    }

    /// Consume the first input character.
    pub(crate) fn consume_input(&mut self)
        requires
            old(self)@.input.len() > 0,
        ensures
            final(self)@ == (State { input: old(self)@.input.remove(0), ..old(self)@ }),
    {
        let _removed = self.input.remove(0);
    }

    /// Refill the (drained) input buffer with a fresh line.
    pub(crate) fn fill_input(&mut self, line: &Vec<u8>)
        requires
            old(self)@.input.len() == 0,
        ensures
            final(self)@ == (State { input: line@, ..old(self)@ }),
    {
        let ghost s0 = self@;
        let mut j: usize = 0;
        while j < line.len()
            invariant
                j <= line@.len(),
                self@ == (State { input: self@.input, ..s0 }),
                self@.input =~= line@.subrange(0, j as int),
            decreases line@.len() - j,
        {
            let b = line[j];
            self.input.push(b);
            j = j + 1;
        }
        proof {
            assert(self@.input =~= line@);
            assert(self@ =~= (State { input: line@, ..s0 }));
        }
    }

    /// Append one emitted byte to the output trace.
    pub(crate) fn push_output(&mut self, b: u8)
        ensures
            final(self)@ == (State { output: old(self)@.output.push(b), ..old(self)@ }),
    {
        self.output.push(b);
    }
}

} // verus!
