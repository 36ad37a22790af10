//! Core of a Nintendo Entertainment System emulator: a 6502-family CPU, the
//! picture processing unit (PPU), the NROM cartridge mapping, and the memory
//! bus that wires them together. Every state transition is specified against
//! a mathematical model of the machine and verified with Verus.

pub mod bus;
pub mod cartridge;
pub mod cpu;
pub mod cpu_ops;
pub mod cpu_trace;
pub mod nes;
pub mod opcodes;
pub mod ppu;
pub mod rendering;
