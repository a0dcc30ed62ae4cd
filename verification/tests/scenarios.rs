//! End-to-end runs of small program images.

use synacor_vm::isa::RunOutcome;
use synacor_vm::machine::CPU;

fn run_image(image: Vec<u16>, fuel: u64) -> (CPU, RunOutcome) {
    let mut cpu = CPU::new();
    cpu.load_mem(image).expect("image loads");
    let outcome = cpu.run(0, 0, fuel);
    (cpu, outcome)
}

#[test]
fn halt_only_runs_one_cycle() {
    let (cpu, outcome) = run_image(vec![0], 100);
    assert_eq!(outcome, RunOutcome::Halted);
    assert!(cpu.halted());
    assert_eq!(cpu.cycle_count(), 1);
    assert!(cpu.output().is_empty());
}

#[test]
fn out_prints_hi() {
    let (cpu, outcome) = run_image(vec![19, 72, 19, 105, 0], 100);
    assert_eq!(outcome, RunOutcome::Halted);
    assert_eq!(cpu.output().as_slice(), b"Hi");
    assert_eq!(cpu.cycle_count(), 3);
}

#[test]
fn modular_add_prints_nul() {
    let image = vec![1, 32768, 32767, 1, 32769, 1, 9, 32770, 32768, 32769, 19, 32770, 0];
    let (cpu, outcome) = run_image(image, 100);
    assert_eq!(outcome, RunOutcome::Halted);
    assert_eq!(cpu.reg_value(0), 32767);
    assert_eq!(cpu.reg_value(1), 1);
    assert_eq!(cpu.reg_value(2), 0);
    assert_eq!(cpu.output().as_slice(), &[0u8]);
}

#[test]
fn call_and_ret_round_trip() {
    // CALL 5 at 0..1, OUT 'A' at 2..3, HALT at 4, RET at 5: the call
    // jumps over the OUT, the return comes back to it.
    let (cpu, outcome) = run_image(vec![17, 5, 19, 65, 0, 18], 100);
    assert_eq!(outcome, RunOutcome::Halted);
    assert_eq!(cpu.output().as_slice(), b"A");
    assert_eq!(cpu.cycle_count(), 4);
}

#[test]
fn ret_on_empty_stack_halts_cleanly() {
    let (cpu, outcome) = run_image(vec![18], 100);
    assert_eq!(outcome, RunOutcome::Halted);
    assert!(cpu.halted());
    assert!(cpu.output().is_empty());
    assert_eq!(cpu.cycle_count(), 1);
}

#[test]
fn rmem_register_indirection() {
    // r0 <- 7; RMEM r1 <- mem[r0] (cell 7 holds 66); OUT reads cell 7 as
    // its literal operand; HALT.
    let image = vec![1, 32768, 7, 15, 32769, 32768, 19, 66, 0, 0, 0, 0, 0, 0, 0, 0];
    let (cpu, outcome) = run_image(image, 100);
    assert_eq!(outcome, RunOutcome::Halted);
    assert_eq!(cpu.reg_value(0), 7);
    assert_eq!(cpu.reg_value(1), 66);
    assert_eq!(cpu.output().as_slice(), b"B");
}

#[test]
fn add_wraps_at_32768() {
    let (cpu, outcome) = run_image(vec![9, 32768, 32767, 1, 0], 100);
    assert_eq!(outcome, RunOutcome::Halted);
    assert_eq!(cpu.reg_value(0), 0);
}

#[test]
fn add_exact_value() {
    let (cpu, _) = run_image(vec![9, 32768, 20000, 20000, 0], 100);
    assert_eq!(cpu.reg_value(0), (20000 + 20000) % 32768);
}

#[test]
fn mult_wraps_like_wide_multiply() {
    // 32767 * 32767 overflows 16 bits; the product is reduced mod 32768.
    let (cpu, outcome) = run_image(vec![10, 32768, 32767, 32767, 0], 100);
    assert_eq!(outcome, RunOutcome::Halted);
    assert_eq!(cpu.reg_value(0), 1);
}

#[test]
fn not_is_fifteen_bit_involution() {
    // r0 <- NOT 0 = 32767; r1 <- NOT r0 = 0.
    let (cpu, outcome) = run_image(vec![14, 32768, 0, 14, 32769, 32768, 0], 100);
    assert_eq!(outcome, RunOutcome::Halted);
    assert_eq!(cpu.reg_value(0), 32767);
    assert_eq!(cpu.reg_value(1), 0);
}

#[test]
fn eq_and_gt_write_flags() {
    let image = vec![4, 32768, 5, 5, 5, 32769, 7, 3, 5, 32770, 3, 7, 0];
    let (cpu, outcome) = run_image(image, 100);
    assert_eq!(outcome, RunOutcome::Halted);
    assert_eq!(cpu.reg_value(0), 1);
    assert_eq!(cpu.reg_value(1), 1);
    assert_eq!(cpu.reg_value(2), 0);
}

#[test]
fn and_or_bitwise() {
    let image = vec![12, 32768, 12, 10, 13, 32769, 12, 10, 0];
    let (cpu, outcome) = run_image(image, 100);
    assert_eq!(outcome, RunOutcome::Halted);
    assert_eq!(cpu.reg_value(0), 8);
    assert_eq!(cpu.reg_value(1), 14);
}

#[test]
fn modulo_remainder() {
    let (cpu, outcome) = run_image(vec![11, 32768, 17, 5, 0], 100);
    assert_eq!(outcome, RunOutcome::Halted);
    assert_eq!(cpu.reg_value(0), 2);
}

#[test]
fn push_pop_round_trip() {
    let (cpu, outcome) = run_image(vec![2, 42, 3, 32768, 0], 100);
    assert_eq!(outcome, RunOutcome::Halted);
    assert_eq!(cpu.reg_value(0), 42);
}

#[test]
fn jt_taken_jf_not_taken() {
    // JT 1 4 jumps to 4; the HALT at 3 is skipped; at 4 a HALT.
    let (cpu, outcome) = run_image(vec![7, 1, 4, 0, 0], 100);
    assert_eq!(outcome, RunOutcome::Halted);
    assert_eq!(cpu.pc(), 4);
    assert_eq!(cpu.cycle_count(), 2);
    // JF 0 5 jumps to 5.
    let (cpu2, outcome2) = run_image(vec![8, 0, 5, 0, 0, 0], 100);
    assert_eq!(outcome2, RunOutcome::Halted);
    assert_eq!(cpu2.pc(), 5);
}

#[test]
fn jt_not_taken_falls_through() {
    // JT 0 4 does not jump; pc advances past both operands to the HALT at 3.
    let (cpu, outcome) = run_image(vec![7, 0, 4, 0, 0], 100);
    assert_eq!(outcome, RunOutcome::Halted);
    assert_eq!(cpu.pc(), 3);
}

#[test]
fn set_writes_memory_cell_destination() {
    // A destination word below 32768 names a memory cell in the unified
    // address space.
    let (cpu, outcome) = run_image(vec![1, 500, 7, 0], 100);
    assert_eq!(outcome, RunOutcome::Halted);
    assert_eq!(cpu.mem_at(500), 7);
}

#[test]
fn wmem_writes_memory() {
    let (cpu, outcome) = run_image(vec![16, 100, 77, 0], 100);
    assert_eq!(outcome, RunOutcome::Halted);
    assert_eq!(cpu.mem_at(100), 77);
}

#[test]
fn wmem_destination_through_register() {
    // WMEM's destination operand is itself resolved: r2 holds 0, so the
    // write lands on cell 0.
    let (cpu, outcome) = run_image(vec![16, 32770, 9, 0], 100);
    assert_eq!(outcome, RunOutcome::Halted);
    assert_eq!(cpu.mem_at(0), 9);
}

#[test]
fn noop_advances_only() {
    let (cpu, outcome) = run_image(vec![21, 0], 100);
    assert_eq!(outcome, RunOutcome::Halted);
    assert_eq!(cpu.pc(), 1);
    assert_eq!(cpu.cycle_count(), 2);
}
