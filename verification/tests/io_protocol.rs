//! The input-line protocol (including the reserved debugger commands),
//! breakpoints, and the fuel bound of the run loop.

use synacor_vm::isa::{LineAction, RunOutcome};
use synacor_vm::machine::CPU;

#[test]
fn input_echo() {
    // IN r0; OUT r0; HALT.
    let mut cpu = CPU::new();
    cpu.load_mem(vec![20, 32768, 19, 32768, 0]).expect("image loads");
    assert_eq!(cpu.run(0, 0, 100), RunOutcome::NeedInput);
    assert!(cpu.input_is_empty());
    assert_eq!(cpu.provide_line(&b"A\n".to_vec()), LineAction::Text);
    assert_eq!(cpu.run(0, 0, 100), RunOutcome::Halted);
    assert_eq!(cpu.output().as_slice(), b"A");
    // The newline of the line is still buffered.
    assert!(!cpu.input_is_empty());
}

#[test]
fn input_line_delivered_character_by_character() {
    // Three INs into r0, r1, r2 from a single line.
    let mut cpu = CPU::new();
    let image = vec![20, 32768, 20, 32769, 20, 32770, 0];
    cpu.load_mem(image).expect("image loads");
    assert_eq!(cpu.run(0, 0, 100), RunOutcome::NeedInput);
    assert_eq!(cpu.provide_line(&b"hi\n".to_vec()), LineAction::Text);
    assert_eq!(cpu.run(0, 0, 100), RunOutcome::Halted);
    assert_eq!(cpu.reg_value(0), 'h' as u16);
    assert_eq!(cpu.reg_value(1), 'i' as u16);
    assert_eq!(cpu.reg_value(2), '\n' as u16);
}

#[test]
fn fix_command_sets_register_seven() {
    let mut cpu = CPU::new();
    cpu.load_mem(vec![20, 32768, 0]).expect("image loads");
    assert_eq!(cpu.run(0, 0, 100), RunOutcome::NeedInput);
    assert_eq!(cpu.provide_line(&b"FIX\n".to_vec()), LineAction::Fix);
    assert_eq!(cpu.reg_value(7), 5);
    // The command line is not delivered to the program.
    assert!(cpu.input_is_empty());
    assert_eq!(cpu.run(0, 0, 100), RunOutcome::NeedInput);
}

#[test]
fn log_commands_toggle_tracing() {
    let mut cpu = CPU::new();
    cpu.load_mem(vec![20, 32768, 0]).expect("image loads");
    assert!(!cpu.logging());
    assert_eq!(cpu.run(0, 0, 100), RunOutcome::NeedInput);
    assert_eq!(cpu.provide_line(&b"LOG_START\n".to_vec()), LineAction::LogStart);
    assert!(cpu.logging());
    assert_eq!(cpu.provide_line(&b"LOG_END\n".to_vec()), LineAction::LogEnd);
    assert!(!cpu.logging());
}

#[test]
fn dump_command_leaves_state_alone() {
    let mut cpu = CPU::new();
    cpu.load_mem(vec![20, 32768, 0]).expect("image loads");
    assert_eq!(cpu.run(0, 0, 100), RunOutcome::NeedInput);
    let pc_before = cpu.pc();
    let cc_before = cpu.cycle_count();
    assert_eq!(cpu.provide_line(&b"DUMP\n".to_vec()), LineAction::Dump);
    assert_eq!(cpu.pc(), pc_before);
    assert_eq!(cpu.cycle_count(), cc_before);
    assert!(cpu.input_is_empty());
}

#[test]
fn near_command_lines_are_plain_text() {
    // Only the exact command line (newline included) is reserved.
    let mut cpu = CPU::new();
    cpu.load_mem(vec![20, 32768, 0]).expect("image loads");
    assert_eq!(cpu.run(0, 0, 100), RunOutcome::NeedInput);
    assert_eq!(cpu.provide_line(&b"FIXX\n".to_vec()), LineAction::Text);
    assert_eq!(cpu.run(0, 0, 100), RunOutcome::Halted);
    assert_eq!(cpu.reg_value(0), 'F' as u16);
    assert_eq!(cpu.reg_value(7), 0);
}

#[test]
fn breakpoint_at_cycle_count() {
    let mut cpu = CPU::new();
    cpu.load_mem(vec![21, 21, 21, 21, 0]).expect("image loads");
    assert_eq!(cpu.run(2, 0, 100), RunOutcome::Breakpoint);
    assert!(cpu.halted());
    assert_eq!(cpu.cycle_count(), 2);
}

#[test]
fn breakpoint_at_program_counter() {
    let mut cpu = CPU::new();
    cpu.load_mem(vec![21, 21, 21, 21, 0]).expect("image loads");
    assert_eq!(cpu.run(0, 3, 100), RunOutcome::Breakpoint);
    assert!(cpu.halted());
    assert_eq!(cpu.pc(), 3);
    assert_eq!(cpu.cycle_count(), 3);
}

#[test]
fn zero_thresholds_disable_breakpoints() {
    let mut cpu = CPU::new();
    cpu.load_mem(vec![21, 21, 21, 21, 0]).expect("image loads");
    assert_eq!(cpu.run(0, 0, 100), RunOutcome::Halted);
    assert_eq!(cpu.cycle_count(), 5);
}

#[test]
fn run_out_of_fuel() {
    // JMP 0 loops forever.
    let mut cpu = CPU::new();
    cpu.load_mem(vec![6, 0]).expect("image loads");
    assert_eq!(cpu.run(0, 0, 10), RunOutcome::OutOfFuel);
    assert!(!cpu.halted());
    assert_eq!(cpu.cycle_count(), 10);
    // The run can simply be resumed.
    assert_eq!(cpu.run(0, 0, 7), RunOutcome::OutOfFuel);
    assert_eq!(cpu.cycle_count(), 17);
}

#[test]
fn run_on_halted_machine_stays_put() {
    let mut cpu = CPU::new();
    cpu.load_mem(vec![0]).expect("image loads");
    assert_eq!(cpu.run(0, 0, 100), RunOutcome::Halted);
    let cc = cpu.cycle_count();
    assert_eq!(cpu.run(0, 0, 100), RunOutcome::Halted);
    assert_eq!(cpu.cycle_count(), cc);
}
