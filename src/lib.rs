//! Instruction-set core of a 6502-family processor: status register,
//! opcode table, addressing-mode resolution and the execution engine.
pub mod cpu;
pub mod instruction;
pub mod lemmas;
pub mod memory;
pub mod nes;
pub mod status;
