//! The processor of an 8-bit game console, a MOS 6502 without decimal
//! arithmetic, with the memory map around it. Every function is verified
//! against a model of the processor: `cpu::model` says what each addressing
//! mode, each instruction and each clock cycle does to the registers and to
//! memory, and `cpu::laws` proves what follows from it.
use vstd::prelude::*;

pub mod bus;
pub mod cartridge;
pub mod cpu;
pub mod memory;
pub mod nes;
pub mod ppu;

pub use bus::Bus;
pub use cartridge::Cartridge;
pub use cpu::{AddressingMode, Instruction, InstructionType, StatusFlags, CPU};
pub use memory::Memory;
pub use nes::NES;
pub use ppu::{Screen, PPU};
