//! Execution core of an 8-bit CPU emulator in the LR35902/Z80 family:
//! register file with packed flag byte, flat byte-addressable memory, and
//! the addition subset of the arithmetic-logic unit with its opcode
//! dispatcher.

pub mod cpu;
pub mod mmu;
pub mod registers;
