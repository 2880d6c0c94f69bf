//! Instruction-level model of the MOS 6502 microprocessor: register file,
//! status flags, the full documented opcode set, addressing modes and
//! interrupt sequencing, with machine-checked contracts for each part.

pub mod registers;
pub mod mem;
pub mod opcodes;
pub mod alu;
pub mod addr;
pub mod cpu;
