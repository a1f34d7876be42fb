//! A CHIP-8 virtual machine: memory, call stack, instruction decoder,
//! execution engine with run control and snapshots, a drift-free tick
//! clock, and a disassembler.

pub mod args;
pub mod clock;
pub mod disasm;
pub mod error;
pub mod laws;
pub mod memory;
pub mod model;
pub mod quirks;
pub mod stack;
pub mod state;
pub mod text;
