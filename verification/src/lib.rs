//! Instruction decode/execute core of the Sharp LR35902, the 8080/Z80
//! derivative found in a classic handheld game console. The crate models
//! the register file and flags, decomposes opcodes into their structural
//! fields, executes the base and CB-prefixed instruction tables with their
//! documented flag behaviour and cycle costs, drives the run/halt/interrupt
//! state machine, and disassembles the same opcode map to mnemonic text.

pub mod registers;
pub mod opcode;
pub mod alu;
pub mod cpu;
pub mod disasm;
pub mod debugger;

pub use registers::SharpLR35902Registers;
pub use cpu::{Cpu, FlatMemory, LRError, MemoryInterconnect, SharpLR35902};
pub use debugger::Debugger;
