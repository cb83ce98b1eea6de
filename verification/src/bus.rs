use vstd::prelude::*;

use crate::cartridge::{Cartridge, PRG_SIZE};
use crate::memory::{retains, Memory};

verus! {

/// Size of the address space that the processor sees.
pub const ADDRESS_SPACE: usize = 0x10000;

/// The memory map of the console. Its view is the address space as the
/// processor sees it: 65536 bytes, the byte at each address being what a
/// read there gives, mirrors included.
pub struct Bus {
    /// CPU ram
    ram: Vec<u8>,
    /// PPU registers
    ppu_mem: Vec<u8>,
    /// APU and I/O registers
    apu_io: Vec<u8>,
    apu_io_test: Vec<u8>,
    /// Cartridge space
    cartridge: Cartridge,
}

/// For the ranges that mirror, the mask and the remainder say the same.
proof fn lemma_masks(i: usize)
    by (bit_vector)
    ensures
        i & 0x7FF == i % 0x800,
        i & 0x7 == i % 0x8,
        i & 0x7FFF == i % 0x8000,
{
}

impl View for Bus {
    type V = Seq<u8>;

    closed spec fn view(&self) -> Seq<u8> {
        Seq::new(ADDRESS_SPACE as nat, |address: int| self.cell(address))
    }
}

impl Bus {
    #[verifier::type_invariant]
    spec fn sized(self) -> bool {
        &&& self.ram@.len() == 0x800
        &&& self.ppu_mem@.len() == 8
        &&& self.apu_io@.len() == 0x18
        &&& self.apu_io_test@.len() == 8
        &&& self.cartridge@.len() == PRG_SIZE
    }

    /// The byte behind an address.
    spec fn cell(self, address: int) -> u8 {
        if address <= 0x1FFF {
            self.ram@[address % 0x800]
        } else if address <= 0x3FFF {
            self.ppu_mem@[address % 8]
        } else if address <= 0x4017 {
            self.apu_io@[address - 0x4000]
        } else if address <= 0x401F {
            self.apu_io_test@[address - 0x4018]
        } else {
            self.cartridge@[address % 0x8000]
        }
    }

    /// The first of the addresses that name one byte. The 2 KiB of RAM
    /// repeat up to 0x1FFF, the eight PPU registers from 0x2000 up to
    /// 0x3FFF, the APU and I/O registers stand once, and from 0x4020 on the
    /// low 15 bits of an address select a byte of the cartridge.
    pub open spec fn mirror(address: int) -> int {
        if address <= 0x1FFF {
            address % 0x800
        } else if address <= 0x3FFF {
            0x2000 + address % 8
        } else if address <= 0x401F {
            address
        } else if address % 0x8000 < 0x4020 {
            0x8000 + address % 0x8000
        } else {
            address % 0x8000
        }
    }

    /// The address that an index stands for: itself within the address
    /// space, else the cartridge byte that its low 15 bits select.
    pub open spec fn fold(i: usize) -> int {
        if i < ADDRESS_SPACE {
            i as int
        } else {
            0x8000 + i % 0x8000
        }
    }

    /// The address space after a write: the byte changes at the address and
    /// at every address that mirrors it, and nowhere else.
    pub open spec fn written(image: Seq<u8>, address: int, value: u8) -> Seq<u8> {
        Seq::new(
            image.len(),
            |other: int|
                if Self::mirror(other) == Self::mirror(address) {
                    value
                } else {
                    image[other]
                },
        )
    }

    /// A bus whose every byte reads zero.
    pub fn new() -> (bus: Bus)
        ensures
            bus@ == Seq::new(ADDRESS_SPACE as nat, |address: int| 0u8),
    {
        let bus = Bus {
            ram: vec![0u8; 0x800],
            ppu_mem: vec![0u8; 8],
            apu_io: vec![0u8; 0x18],
            apu_io_test: vec![0u8; 8],
            cartridge: Cartridge::new(),
        };
        assert(bus@ =~= Seq::new(ADDRESS_SPACE as nat, |address: int| 0u8));
        bus
    }

    /// Reads the byte at an address.
    pub fn read(&self, i: usize) -> (value: u8)
        ensures
            value == self@[Self::fold(i)],
            self@.len() == ADDRESS_SPACE,
    {
        proof {
            use_type_invariant(self);
            lemma_masks(i);
        }
        if i <= 0x1FFF {
            return self.ram[i & 0x7FF];
        } else if i <= 0x3FFF {
            return self.ppu_mem[i & 0x7];
        } else if i <= 0x4017 {
            return self.apu_io[i - 0x4000];
        } else if i <= 0x401F {
            return self.apu_io_test[i - 0x4018];
        } else {
            return self.cartridge.read(i & 0x7FFF);
        }
    }

    /// Writes the byte at an address and thereby at its mirrors.
    pub fn write(&mut self, i: usize, value: u8)
        ensures
            final(self)@ == Self::written(old(self)@, Self::fold(i), value),
            final(self)@.len() == ADDRESS_SPACE,
    {
        proof {
            use_type_invariant(&*self);
            lemma_masks(i);
        }
        if i <= 0x1FFF {
            self.ram[i & 0x7FF] = value;
        } else if i <= 0x3FFF {
            self.ppu_mem[i & 0x7] = value;
        } else if i <= 0x4017 {
            self.apu_io[i - 0x4000] = value;
        } else if i <= 0x401F {
            self.apu_io_test[i - 0x4018] = value;
        } else {
            self.cartridge.write(i & 0x7FFF, value);
        }
        assert(self@ =~= Self::written(old(self)@, Self::fold(i), value));
    }
}

impl Memory for Bus {
    open spec fn peek(image: Seq<u8>, address: u16) -> u8 {
        image[address as int]
    }

    open spec fn poke(image: Seq<u8>, address: u16, value: u8) -> Seq<u8> {
        Bus::written(image, address as int, value)
    }

    fn read(&self, address: u16) -> (value: u8) {
        Bus::read(self, address as usize)
    }

    fn write(&mut self, address: u16, value: u8) {
        Bus::write(self, address as usize, value)
    }
}

/// Every address of the bus retains what is written there, and a write
/// changes the bytes at the mirrors of its address and no others.
pub proof fn law_bus_retains(image: Seq<u8>, address: u16, value: u8)
    requires
        image.len() == ADDRESS_SPACE,
    ensures
        retains::<Bus>(image, address, value),
        forall|other: u16|
            Bus::mirror(other as int) != Bus::mirror(address as int) ==> <Bus as Memory>::peek(
                <Bus as Memory>::poke(image, address, value),
                other,
            ) == <Bus as Memory>::peek(image, other),
        forall|other: u16|
            Bus::mirror(other as int) == Bus::mirror(address as int) ==> <Bus as Memory>::peek(
                <Bus as Memory>::poke(image, address, value),
                other,
            ) == value,
{
}

} // verus!
