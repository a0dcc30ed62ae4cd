//! A verified emulator core for the Synacor Challenge virtual machine:
//! a 16-bit word machine with 15-bit addressing, eight registers overlaid
//! on the high end of the address space, an unbounded stack, and a
//! 22-opcode instruction set.
//!
//! The machine itself is pure state transformation and is fully verified
//! here against a mathematical small-step semantics (`sem`).  Terminal
//! and file I/O live outside this crate: the driver feeds input lines in
//! through [`machine::CPU::provide_line`] and drains the output trace
//! from [`machine::CPU::output`].

pub mod isa;
pub mod sem;
pub mod machine;
pub mod step;
pub mod run;
pub mod image;
pub mod laws;
