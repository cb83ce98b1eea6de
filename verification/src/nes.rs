use vstd::prelude::*;

use crate::bus::{Bus, ADDRESS_SPACE};
use crate::cpu::CPU;
use crate::ppu::PPU;

verus! {

/// The console: a processor, a picture unit and the bus between them.
pub struct NES {
    pub bus: Bus,
    pub cpu: CPU,
    pub ppu: PPU,
    /// Clock cycles since power-on, counted modulo 65536.
    pub clock_count: u16,
}

impl NES {
    /// A console at power-on: the processor in its power-on state, every
    /// byte of the bus zero, the clock at zero.
    pub fn new() -> (nes: NES)
        ensures
            nes.cpu == CPU::power_on(),
            nes.bus@ == Seq::new(ADDRESS_SPACE as nat, |address: int| 0u8),
            nes.clock_count == 0,
    {
        NES { bus: Bus::new(), cpu: CPU::new(), ppu: PPU::new(), clock_count: 0 }
    }

    /// One clock cycle: the processor ticks on the bus and the clock counts.
    pub fn tick(&mut self)
        ensures
            (final(self).cpu, final(self).bus@) == old(self).cpu.ticked::<Bus>(old(self).bus@),
            final(self).clock_count == (old(self).clock_count + 1) % 0x10000,
            final(self).ppu == old(self).ppu,
    {
        self.cpu.tick(&mut self.bus);
        self.clock_count = self.clock_count.wrapping_add(1);
    }
}

} // verus!
