//! One test per fault kind: each names an input that provokes it.

use synacor_vm::isa::{Fault, RunOutcome};
use synacor_vm::machine::CPU;

fn run_image(image: Vec<u16>, fuel: u64) -> (CPU, RunOutcome) {
    let mut cpu = CPU::new();
    cpu.load_mem(image).expect("image loads");
    let outcome = cpu.run(0, 0, fuel);
    (cpu, outcome)
}

#[test]
fn load_rejects_empty_image() {
    let mut cpu = CPU::new();
    assert_eq!(cpu.load_mem(vec![]), Err(Fault::LoadEmpty));
}

#[test]
fn load_rejects_oversized_image() {
    let mut cpu = CPU::new();
    assert_eq!(cpu.load_mem(vec![0; 32769]), Err(Fault::LoadTooLarge));
}

#[test]
fn load_fills_prefix_and_keeps_zeros() {
    let mut cpu = CPU::new();
    cpu.load_mem(vec![5, 6, 7]).expect("image loads");
    assert_eq!(cpu.mem_at(0), 5);
    assert_eq!(cpu.mem_at(1), 6);
    assert_eq!(cpu.mem_at(2), 7);
    assert_eq!(cpu.mem_at(3), 0);
    assert_eq!(cpu.mem_at(32767), 0);
}

#[test]
fn unknown_opcode_faults() {
    let (cpu, outcome) = run_image(vec![22], 100);
    assert_eq!(outcome, RunOutcome::Fault(Fault::Decode));
    assert!(cpu.halted());
    assert_eq!(cpu.cycle_count(), 0);
}

#[test]
fn invalid_word_in_fetch_faults() {
    let (cpu, outcome) = run_image(vec![40000], 100);
    assert_eq!(outcome, RunOutcome::Fault(Fault::Decode));
    assert!(cpu.halted());
}

#[test]
fn invalid_operand_word_faults() {
    // OUT's operand word 32776 is outside both the literal range and the
    // register band.
    let (_cpu, outcome) = run_image(vec![19, 32776], 100);
    assert_eq!(outcome, RunOutcome::Fault(Fault::Decode));
}

#[test]
fn mod_by_zero_faults() {
    let (cpu, outcome) = run_image(vec![11, 32768, 7, 0, 0], 100);
    assert_eq!(outcome, RunOutcome::Fault(Fault::DivZero));
    assert!(cpu.halted());
}

#[test]
fn out_above_255_faults() {
    let (cpu, outcome) = run_image(vec![19, 300], 100);
    assert_eq!(outcome, RunOutcome::Fault(Fault::Ascii));
    assert!(cpu.output().is_empty());
}

#[test]
fn pop_on_empty_stack_faults() {
    let (cpu, outcome) = run_image(vec![3, 32768], 100);
    assert_eq!(outcome, RunOutcome::Fault(Fault::StackEmpty));
    assert!(cpu.halted());
}

#[test]
fn in_above_127_faults() {
    let mut cpu = CPU::new();
    cpu.load_mem(vec![20, 32768, 0]).expect("image loads");
    assert_eq!(cpu.run(0, 0, 100), RunOutcome::NeedInput);
    cpu.provide_line(&vec![200, 10]);
    assert_eq!(cpu.run(0, 0, 100), RunOutcome::Fault(Fault::Ascii));
}

#[test]
fn rmem_through_sentinel_faults() {
    // RMEM r0 <- mem[4], and cell 4 holds the register sentinel 32769.
    let (cpu, outcome) = run_image(vec![15, 32768, 4, 0, 32769], 100);
    assert_eq!(outcome, RunOutcome::Fault(Fault::Decode));
    assert!(cpu.halted());
}

#[test]
fn fetch_past_memory_end_faults() {
    // A NOOP in the very last cell leaves the program counter at 32768,
    // outside memory.
    let (cpu, outcome) = run_image(vec![21; 32768], 40000);
    assert_eq!(outcome, RunOutcome::Fault(Fault::Address));
    assert_eq!(cpu.cycle_count(), 32768);
}

#[test]
fn operand_slot_past_memory_end_faults() {
    // Jump to an OUT in the very last cell: its operand slot would be at
    // 32768, outside memory.
    let mut image = vec![0u16; 32768];
    image[0] = 6;
    image[1] = 32767;
    image[32767] = 19;
    let (_cpu, outcome) = run_image(image, 100);
    assert_eq!(outcome, RunOutcome::Fault(Fault::Address));
}

#[test]
fn mem_read_rejects_high_address() {
    let cpu = CPU::new();
    assert_eq!(cpu.mem_read(32776), Err(Fault::Address));
    assert_eq!(cpu.mem_read(65535), Err(Fault::Address));
}

#[test]
fn mem_read_rejects_invalid_stored_word() {
    let mut cpu = CPU::new();
    // The low-level store accepts any 16-bit word; reading it back as a
    // value is the fault.
    cpu.mem_write(5, 40000).expect("in range");
    assert_eq!(cpu.mem_read(5), Err(Fault::Decode));
}

#[test]
fn get_reg_rejects_high_id() {
    let cpu = CPU::new();
    assert_eq!(cpu.get_reg(8), Err(Fault::Address));
    assert_eq!(cpu.get_reg(0), Ok(0));
}
