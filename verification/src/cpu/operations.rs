use vstd::prelude::*;

use crate::cpu::instruction::{AddressingMode, Instruction, InstructionType};
use crate::cpu::model::spec_status_for_break;
use crate::cpu::word::{high_byte, low_byte, make_word, same_page};
use crate::cpu::{StatusFlags, CPU, IRQ_VECTOR, STACK_PAGE};
use crate::memory::Memory;

verus! {

/// Z and N written one after the other into a status byte: each flag then
/// reads as it was written, and the six other bits read as before.
proof fn lemma_zero_negative(status: u8, zero: bool, negative: bool)
    by (bit_vector)
    ensures
        ({
            let first = if zero {
                status | 0x02
            } else {
                status & !0x02u8
            };
            let second = if negative {
                first | 0x80
            } else {
                first & !0x80u8
            };
            &&& (second & 0x02 != 0) == zero
            &&& (second & 0x80 != 0) == negative
            &&& second & 0x7D == status & 0x7D
        }),
{
}

impl CPU {
    /// The sum of two bytes: whether it leaves the byte range, and its low
    /// byte.
    pub fn overflow_add(&self, a: u8, b: u8) -> (res: (bool, u8))
        ensures
            res.0 == (a + b > 0xFF),
            res.1 == (a + b) % 256,
    {
        let res: u16 = a as u16 + b as u16;
        (res > 0xFF, (res % 256) as u8)
    }

    /// The difference of two bytes: whether it is negative, and its low
    /// byte.
    pub fn overflow_subtract(&self, a: u8, b: u8) -> (res: (bool, u8))
        ensures
            res.0 == (a < b),
            res.1 == (a - b) % 256,
    {
        (a < b, a.wrapping_sub(b))
    }

    /// Sets or clears a flag.
    pub fn assign_flag(&mut self, flag: StatusFlags, on: bool)
        ensures
            *final(self) == old(self).with_flag(flag, on),
    {
        if on {
            self.set_flag(flag);
        } else {
            self.clear_flag(flag);
        }
    }

    /// Sets Z if and only if the value is zero and N if and only if bit 7 of
    /// the value is set, and clears the one that does not apply. No other
    /// bit of the status register changes.
    pub fn set_value_flags(&mut self, value: u8)
        ensures
            *final(self) == old(self).with_nz(value),
            final(self).flag(StatusFlags::Z) <==> value == 0,
            final(self).flag(StatusFlags::N) <==> value & 0x80 != 0,
            final(self).status & 0x7D == old(self).status & 0x7D,
    {
        self.assign_flag(StatusFlags::Z, value == 0);
        self.assign_flag(StatusFlags::N, value & 0x80 != 0);
        proof {
            lemma_zero_negative(old(self).status, value == 0, value & 0x80 != 0);
        }
    }

    /// Sets Z and N from the accumulator.
    pub fn set_accumulator_flags(&mut self)
        ensures
            *final(self) == old(self).with_nz(old(self).a),
    {
        self.set_value_flags(self.a);
    }

    /// The byte that a shift or rotate works on: the accumulator in
    /// Accumulator mode, else the byte at the operand address.
    pub fn get_value<M: Memory>(&mut self, mode: &AddressingMode, bus: &M) -> (value: u8)
        ensures
            value == old(self).operand_value::<M>(*mode, bus@),
            *final(self) == *old(self),
    {
        match mode {
            AddressingMode::Accumulator => self.a,
            _ => bus.read(self.address),
        }
    }

    /// Writes a byte back where `get_value` took it from.
    pub fn store_value<M: Memory>(&mut self, mode: &AddressingMode, bus: &mut M, value: u8)
        ensures
            (*final(self), final(bus)@) == old(self).stored::<M>(*mode, old(bus)@, value),
    {
        match mode {
            AddressingMode::Accumulator => {
                self.a = value;
            },
            _ => {
                bus.write(self.address, value);
            },
        }
    }

    /// Writes a byte at the stack address and moves the stack pointer down.
    pub fn push<M: Memory>(&mut self, bus: &mut M, value: u8)
        ensures
            (*final(self), final(bus)@) == old(self).pushed::<M>(old(bus)@, value),
            final(self).sp == (old(self).sp + 255) % 256,
    {
        bus.write(STACK_PAGE + self.sp as u16, value);
        self.sp = self.sp.wrapping_sub(1);
    }

    /// Moves the stack pointer up and reads the byte at the stack address.
    pub fn pull<M: Memory>(&mut self, bus: &M) -> (value: u8)
        ensures
            (*final(self), value) == old(self).pulled::<M>(bus@),
            final(self).sp == (old(self).sp + 1) % 256,
    {
        self.sp = self.sp.wrapping_add(1);
        bus.read(STACK_PAGE + self.sp as u16)
    }

    /// Pushes a word, high byte first.
    pub fn push_word<M: Memory>(&mut self, bus: &mut M, word: u16)
        ensures
            (*final(self), final(bus)@) == old(self).pushed_word::<M>(old(bus)@, word),
    {
        self.push(bus, high_byte(word));
        self.push(bus, low_byte(word));
    }

    /// Pulls a word, low byte first.
    pub fn pull_word<M: Memory>(&mut self, bus: &M) -> (word: u16)
        ensures
            (*final(self), word) == old(self).pulled_word::<M>(bus@),
    {
        let low = self.pull(bus);
        let high = self.pull(bus);
        make_word(low, high)
    }

    /// Pushes the program counter and a status byte, sets I and loads the
    /// program counter from a vector.
    pub fn enter_vector<M: Memory>(&mut self, bus: &mut M, vector: u16, status: u8)
        ensures
            (*final(self), final(bus)@) == old(self).vectored::<M>(old(bus)@, vector, status),
    {
        self.push_word(bus, self.pc);
        self.push(bus, status);
        self.set_flag(StatusFlags::I);
        let low = bus.read(vector);
        let high = bus.read(vector.wrapping_add(1));
        self.pc = make_word(low, high);
    }

    /* Instruction implementations */
    /// ADC: adds the operand and the carry to the accumulator.
    pub fn adc<M: Memory>(&mut self, bus: &M) -> (honored: bool)
        ensures
            honored,
            *final(self) == old(self).added(M::peek(bus@, old(self).address)),
    {
        let val = bus.read(self.address);
        self.add_with_carry(val);
        true
    }

    /// Adds a value and the carry to the accumulator.
    pub fn add_with_carry(&mut self, val: u8)
        ensures
            *final(self) == old(self).added(val),
    {
        let carry: u16 = if self.check_flag(StatusFlags::C) {
            1
        } else {
            0
        };
        let sum: u16 = self.a as u16 + val as u16 + carry;
        let res: u8 = (sum % 256) as u8;
        let overflow: bool = (!(self.a ^ val) & (self.a ^ res) & 0x80) != 0;
        self.a = res;
        self.assign_flag(StatusFlags::C, sum > 0xFF);
        self.assign_flag(StatusFlags::V, overflow);
        self.set_value_flags(res);
    }

    /// SBC: subtracts the operand and the borrow from the accumulator.
    pub fn sbc<M: Memory>(&mut self, bus: &M) -> (honored: bool)
        ensures
            honored,
            *final(self) == old(self).subtracted(M::peek(bus@, old(self).address)),
    {
        let val = bus.read(self.address);
        self.add_with_carry(val ^ 0xFF);
        true
    }

    /// AND: the accumulator and the operand, bit by bit.
    pub fn and<M: Memory>(&mut self, bus: &M) -> (honored: bool)
        ensures
            honored,
            *final(self) == old(self).with_a(old(self).a & M::peek(bus@, old(self).address)),
    {
        self.a = self.a & self.fetch_memory(bus);
        self.set_accumulator_flags();
        true
    }

    /// Shifts or rotates the operand by one bit, as `itype` says.
    fn rotate<M: Memory>(&mut self, itype: InstructionType, mode: &AddressingMode, bus: &mut M)
        requires
            itype == InstructionType::ASL || itype == InstructionType::LSR || itype
                == InstructionType::ROL || itype == InstructionType::ROR,
        ensures
            (*final(self), final(bus)@) == old(self).rotated::<M>(itype, *mode, old(bus)@),
    {
        let val = self.get_value(mode, bus);
        let carry: u8 = if self.check_flag(StatusFlags::C) {
            1
        } else {
            0
        };
        let res: u8 = match itype {
            InstructionType::ASL => val << 1,
            InstructionType::LSR => val >> 1,
            InstructionType::ROL => (val << 1) | carry,
            _ => (val >> 1) | (if carry == 1 {
                0x80u8
            } else {
                0u8
            }),
        };
        let out: bool = match itype {
            InstructionType::ASL | InstructionType::ROL => val & 0x80 != 0,
            _ => val & 0x01 != 0,
        };
        self.assign_flag(StatusFlags::C, out);
        self.set_value_flags(res);
        self.store_value(mode, bus, res);
    }

    /// ASL: shifts the operand one bit to the left; bit 7 goes to the carry.
    pub fn asl<M: Memory>(&mut self, mode: &AddressingMode, bus: &mut M) -> (honored: bool)
        ensures
            !honored,
            (*final(self), final(bus)@) == old(self).rotated::<M>(
                InstructionType::ASL,
                *mode,
                old(bus)@,
            ),
    {
        self.rotate(InstructionType::ASL, mode, bus);
        false
    }

    /// Takes a branch or not. Taken, it costs one cycle, and two where the
    /// target lies on another page.
    pub fn branch_if(&mut self, value: bool) -> (honored: bool)
        requires
            old(self).cycles <= 253,
        ensures
            !honored,
            *final(self) == old(self).branched(value),
            !value ==> *final(self) == *old(self),
            value ==> final(self).pc == old(self).pc.wrapping_add(old(self).branch_address),
            value ==> final(self).cycles == old(self).cycles + (if same_page(
                old(self).pc,
                final(self).pc,
            ) {
                1int
            } else {
                2int
            }),
    {
        if value {
            self.cycles = self.cycles + 1;
            let prev = self.pc;
            self.pc = self.pc.wrapping_add(self.branch_address);
            if !same_page(prev, self.pc) {
                self.cycles = self.cycles + 1;
            }
        }
        false
    }

    /// BCS: branches if the carry is set.
    pub fn bcs(&mut self) -> (honored: bool)
        requires
            old(self).cycles <= 253,
        ensures
            !honored,
            *final(self) == old(self).branched(old(self).flag(StatusFlags::C)),
    {
        self.branch_if(self.check_flag(StatusFlags::C))
    }

    /// BCC: branches if the carry is clear.
    pub fn bcc(&mut self) -> (honored: bool)
        requires
            old(self).cycles <= 253,
        ensures
            !honored,
            *final(self) == old(self).branched(!old(self).flag(StatusFlags::C)),
    {
        self.branch_if(!self.check_flag(StatusFlags::C))
    }

    /// BEQ: branches if Z is set.
    pub fn beq(&mut self) -> (honored: bool)
        requires
            old(self).cycles <= 253,
        ensures
            !honored,
            *final(self) == old(self).branched(old(self).flag(StatusFlags::Z)),
    {
        self.branch_if(self.check_flag(StatusFlags::Z))
    }

    /// BIT: tests the operand against the accumulator. Z says that they share
    /// no bit; N and V are bits 7 and 6 of the operand.
    pub fn bit<M: Memory>(&mut self, bus: &M) -> (honored: bool)
        ensures
            honored,
            *final(self) == old(self).bit_tested(M::peek(bus@, old(self).address)),
    {
        let val = bus.read(self.address);
        self.assign_flag(StatusFlags::Z, self.a & val == 0);
        self.assign_flag(StatusFlags::N, val & 0x80 != 0);
        self.assign_flag(StatusFlags::V, val & 0x40 != 0);
        true
    }

    /// BMI: branches if N is set.
    pub fn bmi(&mut self) -> (honored: bool)
        requires
            old(self).cycles <= 253,
        ensures
            !honored,
            *final(self) == old(self).branched(old(self).flag(StatusFlags::N)),
    {
        self.branch_if(self.check_flag(StatusFlags::N))
    }

    /// BNE: branches if Z is clear.
    pub fn bne(&mut self) -> (honored: bool)
        requires
            old(self).cycles <= 253,
        ensures
            !honored,
            *final(self) == old(self).branched(!old(self).flag(StatusFlags::Z)),
    {
        self.branch_if(!self.check_flag(StatusFlags::Z))
    }

    /// BPL: branches if N is clear.
    pub fn bpl(&mut self) -> (honored: bool)
        requires
            old(self).cycles <= 253,
        ensures
            !honored,
            *final(self) == old(self).branched(!old(self).flag(StatusFlags::N)),
    {
        self.branch_if(!self.check_flag(StatusFlags::N))
    }

    /// BVC: branches if V is clear.
    pub fn bvc(&mut self) -> (honored: bool)
        requires
            old(self).cycles <= 253,
        ensures
            !honored,
            *final(self) == old(self).branched(!old(self).flag(StatusFlags::V)),
    {
        self.branch_if(!self.check_flag(StatusFlags::V))
    }

    /// BVS: branches if V is set.
    pub fn bvs(&mut self) -> (honored: bool)
        requires
            old(self).cycles <= 253,
        ensures
            !honored,
            *final(self) == old(self).branched(old(self).flag(StatusFlags::V)),
    {
        self.branch_if(self.check_flag(StatusFlags::V))
    }

    /// BRK: skips the byte after the opcode, pushes the program counter and
    /// the status with bits 4 and 5 set, sets I and goes through the IRQ
    /// vector.
    pub fn brk<M: Memory>(&mut self, bus: &mut M) -> (honored: bool)
        ensures
            !honored,
            (*final(self), final(bus)@) == old(self).broken::<M>(old(bus)@),
    {
        self.pc = self.pc.wrapping_add(1);
        self.enter_vector(bus, IRQ_VECTOR, self.status | 0x30);
        false
    }

    /// CLC: clears the carry.
    pub fn clc(&mut self) -> (honored: bool)
        ensures
            !honored,
            *final(self) == old(self).with_flag(StatusFlags::C, false),
    {
        self.clear_flag(StatusFlags::C);
        false
    }

    /// CLI: clears the interrupt disable.
    pub fn cli(&mut self) -> (honored: bool)
        ensures
            !honored,
            *final(self) == old(self).with_flag(StatusFlags::I, false),
    {
        self.clear_flag(StatusFlags::I);
        false
    }

    /// CLD: clears the decimal mode.
    pub fn cld(&mut self) -> (honored: bool)
        ensures
            !honored,
            *final(self) == old(self).with_flag(StatusFlags::D, false),
    {
        self.clear_flag(StatusFlags::D);
        false
    }

    /// CLV: clears the overflow flag.
    pub fn clv(&mut self) -> (honored: bool)
        ensures
            !honored,
            *final(self) == old(self).with_flag(StatusFlags::V, false),
    {
        self.clear_flag(StatusFlags::V);
        false
    }

    /// Sets C, Z and N as the difference of a register and the operand
    /// gives them: C where the register is not below the operand, Z where
    /// the two are equal, N from bit 7 of the difference.
    pub fn compare<M: Memory>(&mut self, bus: &M, value: u8)
        ensures
            *final(self) == old(self).compared(value, M::peek(bus@, old(self).address)),
    {
        let val = bus.read(self.address);
        self.assign_flag(StatusFlags::C, value >= val);
        self.assign_flag(StatusFlags::Z, value == val);
        self.assign_flag(StatusFlags::N, value.wrapping_sub(val) & 0x80 != 0);
    }

    /// CMP: compares the accumulator with the operand.
    pub fn cmp<M: Memory>(&mut self, bus: &M) -> (honored: bool)
        ensures
            honored,
            *final(self) == old(self).compared(old(self).a, M::peek(bus@, old(self).address)),
    {
        self.compare(bus, self.a);
        true
    }

    /// CPX: compares X with the operand.
    pub fn cpx<M: Memory>(&mut self, bus: &M) -> (honored: bool)
        ensures
            honored,
            *final(self) == old(self).compared(old(self).x, M::peek(bus@, old(self).address)),
    {
        self.compare(bus, self.x);
        true
    }

    /// CPY: compares Y with the operand.
    pub fn cpy<M: Memory>(&mut self, bus: &M) -> (honored: bool)
        ensures
            honored,
            *final(self) == old(self).compared(old(self).y, M::peek(bus@, old(self).address)),
    {
        self.compare(bus, self.y);
        true
    }

    /// DEC: takes one from the byte at the operand address.
    pub fn dec<M: Memory>(&mut self, bus: &mut M) -> (honored: bool)
        ensures
            !honored,
            (*final(self), final(bus)@) == old(self).adjusted::<M>(old(bus)@, false),
    {
        let res = self.overflow_subtract(bus.read(self.address), 1);
        bus.write(self.address, res.1);
        self.set_value_flags(res.1);
        false
    }

    /// DEX: takes one from X.
    pub fn dex(&mut self) -> (honored: bool)
        ensures
            !honored,
            *final(self) == old(self).with_x(old(self).x.wrapping_sub(1)),
    {
        let res = self.overflow_subtract(self.x, 1);
        self.x = res.1;
        self.set_value_flags(res.1);
        false
    }

    /// DEY: takes one from Y.
    pub fn dey(&mut self) -> (honored: bool)
        ensures
            !honored,
            *final(self) == old(self).with_y(old(self).y.wrapping_sub(1)),
    {
        let res = self.overflow_subtract(self.y, 1);
        self.y = res.1;
        self.set_value_flags(res.1);
        false
    }

    /// EOR: the accumulator or the operand but not both, bit by bit.
    pub fn eor<M: Memory>(&mut self, bus: &M) -> (honored: bool)
        ensures
            honored,
            *final(self) == old(self).with_a(old(self).a ^ M::peek(bus@, old(self).address)),
    {
        self.a = self.a ^ bus.read(self.address);
        self.set_accumulator_flags();
        true
    }

    /// INC: adds one to the byte at the operand address.
    pub fn inc<M: Memory>(&mut self, bus: &mut M) -> (honored: bool)
        ensures
            !honored,
            (*final(self), final(bus)@) == old(self).adjusted::<M>(old(bus)@, true),
    {
        let res = self.overflow_add(bus.read(self.address), 1);
        bus.write(self.address, res.1);
        self.set_value_flags(res.1);
        false
    }

    /// INX: adds one to X.
    pub fn inx(&mut self) -> (honored: bool)
        ensures
            !honored,
            *final(self) == old(self).with_x(old(self).x.wrapping_add(1)),
    {
        let res = self.overflow_add(self.x, 1);
        self.x = res.1;
        self.set_value_flags(self.x);
        false
    }

    /// INY: adds one to Y.
    pub fn iny(&mut self) -> (honored: bool)
        ensures
            !honored,
            *final(self) == old(self).with_y(old(self).y.wrapping_add(1)),
    {
        let res = self.overflow_add(self.y, 1);
        self.y = res.1;
        self.set_value_flags(self.y);
        false
    }

    /// JMP: goes on at the operand address.
    pub fn jmp(&mut self) -> (honored: bool)
        ensures
            !honored,
            *final(self) == (CPU { pc: old(self).address, ..*old(self) }),
    {
        self.pc = self.address;
        false
    }

    /// JSR: pushes the address of the last byte of the instruction, high
    /// byte first, and jumps to the operand address.
    pub fn jsr<M: Memory>(&mut self, bus: &mut M) -> (honored: bool)
        ensures
            !honored,
            (*final(self), final(bus)@) == old(self).called::<M>(old(bus)@),
    {
        self.push_word(bus, self.pc.wrapping_sub(1));
        self.pc = self.address;
        false
    }

    /// LDA: loads the accumulator.
    pub fn lda<M: Memory>(&mut self, bus: &M) -> (honored: bool)
        ensures
            honored,
            *final(self) == old(self).with_a(M::peek(bus@, old(self).address)),
    {
        self.a = bus.read(self.address);
        self.set_accumulator_flags();
        true
    }

    /// LDX: loads X.
    pub fn ldx<M: Memory>(&mut self, bus: &M) -> (honored: bool)
        ensures
            honored,
            *final(self) == old(self).with_x(M::peek(bus@, old(self).address)),
    {
        self.x = bus.read(self.address);
        self.set_value_flags(self.x);
        true
    }

    /// LDY: loads Y.
    pub fn ldy<M: Memory>(&mut self, bus: &M) -> (honored: bool)
        ensures
            honored,
            *final(self) == old(self).with_y(M::peek(bus@, old(self).address)),
    {
        self.y = bus.read(self.address);
        self.set_value_flags(self.y);
        true
    }

    /// LSR: shifts the operand one bit to the right; bit 0 goes to the carry.
    pub fn lsr<M: Memory>(&mut self, mode: &AddressingMode, bus: &mut M) -> (honored: bool)
        ensures
            !honored,
            (*final(self), final(bus)@) == old(self).rotated::<M>(
                InstructionType::LSR,
                *mode,
                old(bus)@,
            ),
    {
        self.rotate(InstructionType::LSR, mode, bus);
        false
    }

    /// ORA: the accumulator or the operand, bit by bit.
    pub fn ora<M: Memory>(&mut self, bus: &M) -> (honored: bool)
        ensures
            honored,
            *final(self) == old(self).with_a(old(self).a | M::peek(bus@, old(self).address)),
    {
        let val = bus.read(self.address);
        self.a = self.a | val;
        self.set_accumulator_flags();
        true
    }

    /// PHA: pushes the accumulator.
    pub fn pha<M: Memory>(&mut self, bus: &mut M) -> (honored: bool)
        ensures
            !honored,
            (*final(self), final(bus)@) == old(self).pushed::<M>(old(bus)@, old(self).a),
    {
        self.push(bus, self.a);
        false
    }

    /// PHP: pushes the status with bits 4 and 5 set. The register itself
    /// keeps its value.
    pub fn php<M: Memory>(&mut self, bus: &mut M) -> (honored: bool)
        ensures
            !honored,
            (*final(self), final(bus)@) == old(self).pushed::<M>(
                old(bus)@,
                spec_status_for_break(old(self).status),
            ),
    {
        self.push(bus, self.status | 0x30);
        false
    }

    /// PLA: pulls the accumulator; Z and N follow it.
    pub fn pla<M: Memory>(&mut self, bus: &M) -> (honored: bool)
        ensures
            !honored,
            *final(self) == old(self).pulled::<M>(bus@).0.with_a(old(self).pulled::<M>(bus@).1),
    {
        self.a = self.pull(bus);
        self.set_accumulator_flags();
        false
    }

    /// PLP: pulls the status; bit 4 then reads 0 and bit 5 reads 1.
    pub fn plp<M: Memory>(&mut self, bus: &M) -> (honored: bool)
        ensures
            !honored,
            *final(self) == old(self).status_pulled::<M>(bus@),
    {
        let val = self.pull(bus);
        self.status = (val & 0xEF) | 0x20;
        false
    }

    /// ROL: rotates the operand one bit to the left through the carry.
    pub fn rol<M: Memory>(&mut self, mode: &AddressingMode, bus: &mut M) -> (honored: bool)
        ensures
            !honored,
            (*final(self), final(bus)@) == old(self).rotated::<M>(
                InstructionType::ROL,
                *mode,
                old(bus)@,
            ),
    {
        self.rotate(InstructionType::ROL, mode, bus);
        false
    }

    /// ROR: rotates the operand one bit to the right through the carry.
    pub fn ror<M: Memory>(&mut self, mode: &AddressingMode, bus: &mut M) -> (honored: bool)
        ensures
            !honored,
            (*final(self), final(bus)@) == old(self).rotated::<M>(
                InstructionType::ROR,
                *mode,
                old(bus)@,
            ),
    {
        self.rotate(InstructionType::ROR, mode, bus);
        false
    }

    /// RTI: pulls the status as PLP does, then the program counter, low byte
    /// first.
    pub fn rti<M: Memory>(&mut self, bus: &M) -> (honored: bool)
        ensures
            !honored,
            *final(self) == old(self).interrupt_returned::<M>(bus@),
    {
        self.plp(bus);
        self.pc = self.pull_word(bus);
        false
    }

    /// RTS: pulls the program counter, low byte first, and moves it one
    /// byte on.
    pub fn rts<M: Memory>(&mut self, bus: &M) -> (honored: bool)
        ensures
            !honored,
            *final(self) == old(self).returned::<M>(bus@),
    {
        self.pc = self.pull_word(bus).wrapping_add(1);
        false
    }

    /// SEC: sets the carry.
    pub fn sec(&mut self) -> (honored: bool)
        ensures
            !honored,
            *final(self) == old(self).with_flag(StatusFlags::C, true),
    {
        self.set_flag(StatusFlags::C);
        false
    }

    /// SED: sets the decimal mode.
    pub fn sed(&mut self) -> (honored: bool)
        ensures
            !honored,
            *final(self) == old(self).with_flag(StatusFlags::D, true),
    {
        self.set_flag(StatusFlags::D);
        false
    }

    /// SEI: sets the interrupt disable.
    pub fn sei(&mut self) -> (honored: bool)
        ensures
            !honored,
            *final(self) == old(self).with_flag(StatusFlags::I, true),
    {
        self.set_flag(StatusFlags::I);
        false
    }

    /// STA: stores the accumulator; no flag changes.
    pub fn sta<M: Memory>(&mut self, bus: &mut M) -> (honored: bool)
        ensures
            !honored,
            *final(self) == *old(self),
            final(bus)@ == M::poke(old(bus)@, old(self).address, old(self).a),
    {
        bus.write(self.address, self.a);
        false
    }

    /// STX: stores X; no flag changes.
    pub fn stx<M: Memory>(&mut self, bus: &mut M) -> (honored: bool)
        ensures
            !honored,
            *final(self) == *old(self),
            final(bus)@ == M::poke(old(bus)@, old(self).address, old(self).x),
    {
        bus.write(self.address, self.x);
        false
    }

    /// STY: stores Y; no flag changes.
    pub fn sty<M: Memory>(&mut self, bus: &mut M) -> (honored: bool)
        ensures
            !honored,
            *final(self) == *old(self),
            final(bus)@ == M::poke(old(bus)@, old(self).address, old(self).y),
    {
        bus.write(self.address, self.y);
        false
    }

    /// TAX: the accumulator goes to X; Z and N follow it.
    pub fn tax(&mut self) -> (honored: bool)
        ensures
            !honored,
            *final(self) == old(self).with_x(old(self).a),
    {
        self.x = self.a;
        self.set_accumulator_flags();
        false
    }

    /// TAY: the accumulator goes to Y; Z and N follow it.
    pub fn tay(&mut self) -> (honored: bool)
        ensures
            !honored,
            *final(self) == old(self).with_y(old(self).a),
    {
        self.y = self.a;
        self.set_accumulator_flags();
        false
    }

    /// TSX: the stack pointer goes to X; Z and N follow it.
    pub fn tsx(&mut self) -> (honored: bool)
        ensures
            !honored,
            *final(self) == old(self).with_x(old(self).sp),
    {
        self.x = self.sp;
        self.set_value_flags(self.x);
        false
    }

    /// TXA: X goes to the accumulator; Z and N follow it.
    pub fn txa(&mut self) -> (honored: bool)
        ensures
            !honored,
            *final(self) == old(self).with_a(old(self).x),
    {
        self.a = self.x;
        self.set_accumulator_flags();
        false
    }

    /// TXS: X goes to the stack pointer; no flag changes.
    pub fn txs(&mut self) -> (honored: bool)
        ensures
            !honored,
            *final(self) == (CPU { sp: old(self).x, ..*old(self) }),
    {
        self.sp = self.x;
        false
    }

    /// TYA: Y goes to the accumulator; Z and N follow it.
    pub fn tya(&mut self) -> (honored: bool)
        ensures
            !honored,
            *final(self) == old(self).with_a(old(self).y),
    {
        self.a = self.y;
        self.set_accumulator_flags();
        false
    }

    /// Execute instruction.
    pub fn execute<M: Memory>(&mut self, instruction: &Instruction, bus: &mut M) -> (honored: bool)
        requires
            old(self).cycles <= 253,
        ensures
            (*final(self), final(bus)@) == old(self).executed::<M>(
                instruction.itype,
                instruction.addressing_mode,
                old(bus)@,
            ),
            honored == instruction.itype.reads_operand(),
            final(self).cycles <= old(self).cycles + 2,
            !instruction.itype.is_branch() ==> final(self).cycles == old(self).cycles,
            !instruction.itype.transfers_control() ==> final(self).pc == old(self).pc,
    {
        match instruction.itype {
            InstructionType::ADC => self.adc(bus),
            InstructionType::AND => self.and(bus),
            InstructionType::ASL => self.asl(&instruction.addressing_mode, bus),
            InstructionType::BCC => self.bcc(),
            InstructionType::BCS => self.bcs(),
            InstructionType::BEQ => self.beq(),
            InstructionType::BIT => self.bit(bus),
            InstructionType::BMI => self.bmi(),
            InstructionType::BNE => self.bne(),
            InstructionType::BPL => self.bpl(),
            InstructionType::BRK => self.brk(bus),
            InstructionType::BVC => self.bvc(),
            InstructionType::BVS => self.bvs(),
            InstructionType::CLC => self.clc(),
            InstructionType::CLD => self.cld(),
            InstructionType::CLI => self.cli(),
            InstructionType::CLV => self.clv(),
            InstructionType::CMP => self.cmp(bus),
            InstructionType::CPX => self.cpx(bus),
            InstructionType::CPY => self.cpy(bus),
            InstructionType::DEC => self.dec(bus),
            InstructionType::DEX => self.dex(),
            InstructionType::DEY => self.dey(),
            InstructionType::EOR => self.eor(bus),
            InstructionType::INC => self.inc(bus),
            InstructionType::INX => self.inx(),
            InstructionType::INY => self.iny(),
            InstructionType::JMP => self.jmp(),
            InstructionType::JSR => self.jsr(bus),
            InstructionType::LDA => self.lda(bus),
            InstructionType::LDX => self.ldx(bus),
            InstructionType::LDY => self.ldy(bus),
            InstructionType::LSR => self.lsr(&instruction.addressing_mode, bus),
            InstructionType::NOP => false,
            InstructionType::ORA => self.ora(bus),
            InstructionType::PHA => self.pha(bus),
            InstructionType::PHP => self.php(bus),
            InstructionType::PLA => self.pla(bus),
            InstructionType::PLP => self.plp(bus),
            InstructionType::ROL => self.rol(&instruction.addressing_mode, bus),
            InstructionType::ROR => self.ror(&instruction.addressing_mode, bus),
            InstructionType::RTI => self.rti(bus),
            InstructionType::RTS => self.rts(bus),
            InstructionType::SBC => self.sbc(bus),
            InstructionType::SEC => self.sec(),
            InstructionType::SED => self.sed(),
            InstructionType::SEI => self.sei(),
            InstructionType::STA => self.sta(bus),
            InstructionType::STX => self.stx(bus),
            InstructionType::STY => self.sty(bus),
            InstructionType::TAX => self.tax(),
            InstructionType::TAY => self.tay(),
            InstructionType::TSX => self.tsx(),
            InstructionType::TXA => self.txa(),
            InstructionType::TXS => self.txs(),
            InstructionType::TYA => self.tya(),
        }
    }
}

} // verus!
