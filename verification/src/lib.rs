//! An 8080-class CPU emulation core: registers, flags, memory, a
//! fetch/decode/execute engine over a fixed opcode table, timer-gated
//! interrupt delivery, hexadecimal state rendering, and a disassembler.

pub mod disasm;
pub mod fault;
pub mod flags;
pub mod hex;
pub mod interrupt;
pub mod laws;
pub mod model;
pub mod vm;
