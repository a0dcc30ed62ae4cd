//! The architecture's cross-cutting guarantees, stated and proved over
//! the semantic model: operand resolution, address unification, the
//! modular arithmetic of ADD and MULT, the 15-bit complement, and the
//! CALL/RET discipline.

use vstd::prelude::*;

use crate::isa::{Fault, Instr};
use crate::sem::{
    decode_spec, exec_spec, lemma_decode_operands, next_of, not15, read_spec, resolve_spec,
    step_spec, write_spec, State,
};

verus! {

/// Operand resolution round-trip: a word up to 32767 resolves to
/// itself, and a word in the register band resolves to the contents of
/// the register it names.
pub proof fn lemma_operand_resolution(s: State, w: u16)
    requires
        s.wf(),
        w <= 32775,
    ensures
        w <= 32767 ==> resolve_spec(s, w) == w,
        32768 <= w ==> resolve_spec(s, w) == s.reg[w - 32768],
{
}

/// Address unification: writing through a unified address in the
/// register band and reading it back returns the written word, and the
/// write is exactly a write of the register the address names.
pub proof fn lemma_address_unification(s: State, addr: u16, v: u16)
    requires
        s.wf(),
        32768 <= addr <= 32775,
    ensures
        read_spec(write_spec(s, addr, v), addr) == v,
        write_spec(s, addr, v) == (State { reg: s.reg.update(addr - 32768, v), ..s }),
{
}

/// ADD is modular: for literal sources, the destination afterwards
/// reads back the sum reduced modulo 32768.
pub proof fn lemma_add_modular(s: State, dest: u16, b: u16, c: u16)
    requires
        s.wf(),
        dest <= 32775,
        b <= 32767,
        c <= 32767,
    ensures
        exec_spec(s, Instr::Add(dest, b, c)) is Next,
        read_spec(next_of(exec_spec(s, Instr::Add(dest, b, c))), dest) == (b + c) % 32768,
{
    assert(0 <= (b + c) % 32768 < 32768);
}

/// MULT is modular even past 16-bit range: the product is taken over
/// the unbounded integers before reduction modulo 32768, so no overflow
/// can perturb the destination.
pub proof fn lemma_mult_modular(s: State, dest: u16, b: u16, c: u16)
    requires
        s.wf(),
        dest <= 32775,
        b <= 32767,
        c <= 32767,
    ensures
        exec_spec(s, Instr::Mult(dest, b, c)) is Next,
        read_spec(next_of(exec_spec(s, Instr::Mult(dest, b, c))), dest) == (b * c) % 32768,
{
    assert(0 <= (b as int) * (c as int)) by (nonlinear_arith)
        requires
            0 <= b,
            0 <= c,
    ;
    assert(0 <= (b * c) % 32768 < 32768);
}

/// NOT stays within 15 bits, and applying it twice to a 15-bit word
/// gives the word back.
pub proof fn lemma_not_involution(b: u16)
    ensures
        not15(b) <= 32767,
        b <= 32767 ==> not15(not15(b)) == b,
{
    assert((b ^ 0x7fff) & 0x7fff <= 32767) by (bit_vector);
    assert(b <= 32767 ==> ((((b ^ 0x7fff) & 0x7fff) ^ 0x7fff) & 0x7fff) == b) by (bit_vector);
}

/// CALL/RET balance: a CALL whose target holds a lone RET comes back,
/// two cycles later, to the instruction textually following the CALL,
/// with the stack — and all of memory, the registers and the output —
/// exactly as before.
pub proof fn lemma_call_ret_balance(s: State, t: u16)
    requires
        s.wf(),
        !s.halt,
        decode_spec(s) == Ok::<Instr, Fault>(Instr::Call(t)),
        resolve_spec(s, t) <= 32767,
        s.mem[resolve_spec(s, t) as int] == 18,
    ensures
        step_spec(s) is Next,
        step_spec(next_of(step_spec(s))) is Next,
        ({
            let after = next_of(step_spec(next_of(step_spec(s))));
            &&& after.pc == s.pc + 2
            &&& after.stack == s.stack
            &&& after.cc == s.cc + 2
            &&& !after.halt
            &&& after.mem == s.mem
            &&& after.reg == s.reg
            &&& after.output == s.output
        }),
{
    lemma_decode_operands(s, Instr::Call(t));
    let s1 = next_of(step_spec(s));
    assert(decode_spec(s1) == Ok::<Instr, Fault>(Instr::Ret));
    assert(s1.stack.len() > 0);
    assert(s1.stack.last() == (s.pc + 2) as u16);
    assert(s1.stack.drop_last() =~= s.stack);
    assert((s.pc + 2) as u16 as int == s.pc + 2);
}

} // verus!
