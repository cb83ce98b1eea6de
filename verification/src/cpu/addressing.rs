use vstd::prelude::*;

use crate::cpu::instruction::{AddressingMode, Instruction};
use crate::cpu::model::peek_word;
use crate::cpu::word::{high_byte, low_byte, make_word, same_page, sign_extend};
use crate::cpu::CPU;
use crate::memory::Memory;

verus! {

impl CPU {
    /// Fetch memory pointed by program counter
    pub fn fetch_instruction<M: Memory>(&mut self, bus: &M) -> (instruction: Instruction)
        ensures
            instruction == Instruction::decoded(M::peek(bus@, old(self).pc)),
            *final(self) == (CPU { pc: old(self).pc.wrapping_add(1), ..*old(self) }),
    {
        let instruction = Instruction::new(bus.read(self.pc));
        self.pc = self.pc.wrapping_add(1);
        instruction
    }

    /// Fetch memory based on addressing mode.
    pub fn fetch_memory<M: Memory>(&self, bus: &M) -> (value: u8)
        ensures
            value == M::peek(bus@, self.address),
    {
        bus.read(self.address)
    }

    /// Reads the word at the program counter and moves the program counter
    /// past it.
    fn fetch_word<M: Memory>(&mut self, bus: &M) -> (word: u16)
        ensures
            word == peek_word::<M>(bus@, old(self).pc),
            *final(self) == (CPU { pc: old(self).pc.wrapping_add(2), ..*old(self) }),
    {
        let low = bus.read(self.pc);
        let high = bus.read(self.pc.wrapping_add(1));
        self.pc = self.pc.wrapping_add(2);
        make_word(low, high)
    }

    /// Execute operation related to addressing mode.
    pub fn addressing_mode<M: Memory>(&mut self, mode: &AddressingMode, bus: &M) -> (crossed: bool)
        ensures
            (*final(self), crossed) == old(self).resolved::<M>(*mode, bus@),
            final(self).pc == old(self).pc.wrapping_add((mode.spec_length() - 1) as u16),
    {
        match mode {
            AddressingMode::Immediate => self.immediate(),
            AddressingMode::Implied => false,
            AddressingMode::ZeroPage => self.zero_page(bus),
            AddressingMode::ZeroPageX => self.zero_page_x(bus),
            AddressingMode::ZeroPageY => self.zero_page_y(bus),
            AddressingMode::Relative => self.relative(bus),
            AddressingMode::Absolute => self.absolute(bus),
            AddressingMode::AbsoluteX => self.absolute_x(bus),
            AddressingMode::AbsoluteY => self.absolute_y(bus),
            AddressingMode::Indirect => self.indirect(bus),
            AddressingMode::IndirectX => self.indirect_x(bus),
            AddressingMode::IndirectY => self.indirect_y(bus),
            AddressingMode::Accumulator => false,
        }
    }

    /* Different addressing modes: */
    /// The operand is the byte after the opcode.
    pub fn immediate(&mut self) -> (crossed: bool)
        ensures
            !crossed,
            *final(self) == (CPU {
                address: old(self).pc,
                pc: old(self).pc.wrapping_add(1),
                ..*old(self)
            }),
    {
        self.address = self.pc;
        self.pc = self.pc.wrapping_add(1);
        false
    }

    /// The operand byte is an address in page zero.
    pub fn zero_page<M: Memory>(&mut self, bus: &M) -> (crossed: bool)
        ensures
            (*final(self), crossed) == old(self).resolved::<M>(AddressingMode::ZeroPage, bus@),
            !crossed,
            final(self).address == M::peek(bus@, old(self).pc),
    {
        self.address = bus.read(self.pc) as u16;
        self.pc = self.pc.wrapping_add(1);
        false
    }

    /// The operand byte plus X, kept within page zero.
    pub fn zero_page_x<M: Memory>(&mut self, bus: &M) -> (crossed: bool)
        ensures
            (*final(self), crossed) == old(self).resolved::<M>(AddressingMode::ZeroPageX, bus@),
            !crossed,
            final(self).address == (M::peek(bus@, old(self).pc) + old(self).x) % 256,
    {
        self.address = bus.read(self.pc).wrapping_add(self.x) as u16;
        self.pc = self.pc.wrapping_add(1);
        false
    }

    /// The operand byte plus Y, kept within page zero.
    pub fn zero_page_y<M: Memory>(&mut self, bus: &M) -> (crossed: bool)
        ensures
            (*final(self), crossed) == old(self).resolved::<M>(AddressingMode::ZeroPageY, bus@),
            !crossed,
            final(self).address == (M::peek(bus@, old(self).pc) + old(self).y) % 256,
    {
        self.address = bus.read(self.pc).wrapping_add(self.y) as u16;
        self.pc = self.pc.wrapping_add(1);
        false
    }

    /// The two operand bytes are the address, low byte first.
    pub fn absolute<M: Memory>(&mut self, bus: &M) -> (crossed: bool)
        ensures
            (*final(self), crossed) == old(self).resolved::<M>(AddressingMode::Absolute, bus@),
            !crossed,
    {
        self.address = self.fetch_word(bus);
        false
    }

    /// The operand address plus X. The flag says that the sum left the page
    /// of the operand address.
    pub fn absolute_x<M: Memory>(&mut self, bus: &M) -> (crossed: bool)
        ensures
            (*final(self), crossed) == old(self).resolved::<M>(AddressingMode::AbsoluteX, bus@),
            crossed == !same_page(peek_word::<M>(bus@, old(self).pc), final(self).address),
    {
        self.absolute(bus);
        let prev = self.address;
        self.address = prev.wrapping_add(self.x as u16);
        !same_page(prev, self.address)
    }

    /// The operand address plus Y. The flag says that the sum left the page
    /// of the operand address.
    pub fn absolute_y<M: Memory>(&mut self, bus: &M) -> (crossed: bool)
        ensures
            (*final(self), crossed) == old(self).resolved::<M>(AddressingMode::AbsoluteY, bus@),
            crossed == !same_page(peek_word::<M>(bus@, old(self).pc), final(self).address),
    {
        self.absolute(bus);
        let prev = self.address;
        self.address = prev.wrapping_add(self.y as u16);
        !same_page(prev, self.address)
    }

    /// The operand is a pointer to the address. The second byte of the
    /// address is read from the page of the pointer: a pointer at the last
    /// byte of a page takes it from the first byte of the same page.
    pub fn indirect<M: Memory>(&mut self, bus: &M) -> (crossed: bool)
        ensures
            (*final(self), crossed) == old(self).resolved::<M>(AddressingMode::Indirect, bus@),
            !crossed,
            ({
                let pointer = peek_word::<M>(bus@, old(self).pc);
                let second = make_word(low_byte(pointer).wrapping_add(1), high_byte(pointer));
                &&& final(self).address == make_word(
                    M::peek(bus@, pointer),
                    M::peek(bus@, second),
                )
                &&& same_page(pointer, second)
                &&& pointer % 256 == 0xFF ==> second == pointer - 0xFF
                &&& pointer % 256 != 0xFF ==> second == pointer + 1
            }),
    {
        let pointer = self.fetch_word(bus);
        let second = make_word(low_byte(pointer).wrapping_add(1), high_byte(pointer));
        self.address = make_word(bus.read(pointer), bus.read(second));
        false
    }

    /// The operand byte plus X, kept within page zero, points to the
    /// address, whose two bytes both come from page zero.
    pub fn indirect_x<M: Memory>(&mut self, bus: &M) -> (crossed: bool)
        ensures
            (*final(self), crossed) == old(self).resolved::<M>(AddressingMode::IndirectX, bus@),
            !crossed,
    {
        let pointer = bus.read(self.pc).wrapping_add(self.x);
        self.address = make_word(
            bus.read(pointer as u16),
            bus.read(pointer.wrapping_add(1) as u16),
        );
        self.pc = self.pc.wrapping_add(1);
        false
    }

    /// The operand byte points into page zero to a base address, to which Y
    /// is added. The flag says that the sum left the page of the base.
    pub fn indirect_y<M: Memory>(&mut self, bus: &M) -> (crossed: bool)
        ensures
            (*final(self), crossed) == old(self).resolved::<M>(AddressingMode::IndirectY, bus@),
    {
        let pointer = bus.read(self.pc);
        let base = make_word(bus.read(pointer as u16), bus.read(pointer.wrapping_add(1) as u16));
        self.address = base.wrapping_add(self.y as u16);
        self.pc = self.pc.wrapping_add(1);
        !same_page(base, self.address)
    }

    /// The operand byte is a signed displacement for a branch.
    pub fn relative<M: Memory>(&mut self, bus: &M) -> (crossed: bool)
        ensures
            (*final(self), crossed) == old(self).resolved::<M>(AddressingMode::Relative, bus@),
            !crossed,
    {
        self.branch_address = sign_extend(bus.read(self.pc));
        self.pc = self.pc.wrapping_add(1);
        false
    }
}

} // verus!
