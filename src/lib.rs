//! A cycle-counted emulator of the 8-bit processor of a 1980s game console: registers and
//! flags, every addressing mode (with the indirect-jump page defect), the stack, subroutine
//! and interrupt transfer, and per-instruction timing, each operation proved against a
//! mathematical model of the processor.

pub mod cpu;
pub mod engine;
pub mod ines;
pub mod instruction;
pub mod laws;
pub mod mapper;
pub mod mem;
pub mod state;

pub use cpu::{CPU, NTSC_SPEED, PAL_SPEED};
pub use ines::{NesFormat, Timing};
pub use instruction::{AddressingMode, Instruction, Mnemonic};
pub use mapper::Mapper;
pub use mem::{CpuRam, Mem};
pub use state::{Flag, IRQ_VECTOR, NMI_VECTOR, RESET_VECTOR};
