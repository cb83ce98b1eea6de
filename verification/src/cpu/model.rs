use vstd::prelude::*;

use crate::cpu::instruction::{AddressingMode, Instruction, InstructionType};
use crate::cpu::word::{high_byte, low_byte, make_word, same_page, sign_extend};
use crate::cpu::{StatusFlags, CPU, IRQ_VECTOR, NMI_VECTOR, RESET_VECTOR, STACK_PAGE};
use crate::memory::Memory;

verus! {

/// The little-endian word that a memory holds at an address and the one
/// after it.
pub open spec fn peek_word<M: Memory>(image: M::V, address: u16) -> u16 {
    make_word(M::peek(image, address), M::peek(image, address.wrapping_add(1)))
}

/// A status byte as PHP and BRK push it: bits 4 and 5 forced to 1.
pub open spec fn spec_status_for_break(status: u8) -> u8 {
    status | 0x30
}

/// A status byte as an interrupt pushes it: bit 4 cleared, bit 5 set.
pub open spec fn spec_status_for_interrupt(status: u8) -> u8 {
    (status & 0xEF) | 0x20
}

/// A status byte as PLP and RTI take it from the stack: bit 4 reads 0 and
/// bit 5 reads 1, whatever was pushed.
pub open spec fn spec_status_from_stack(value: u8) -> u8 {
    (value & 0xEF) | 0x20
}

impl CPU {
    /// The address that the stack pointer stands for.
    pub open spec fn stack_address(self) -> u16 {
        (STACK_PAGE + self.sp) as u16
    }

    /// The carry flag as a number.
    pub open spec fn carry(self) -> u8 {
        if self.flag(StatusFlags::C) {
            1
        } else {
            0
        }
    }

    /// A value loaded into the accumulator, with Z and N following it.
    pub open spec fn with_a(self, value: u8) -> CPU {
        CPU { a: value, ..self }.with_nz(value)
    }

    /// A value loaded into X, with Z and N following it.
    pub open spec fn with_x(self, value: u8) -> CPU {
        CPU { x: value, ..self }.with_nz(value)
    }

    /// A value loaded into Y, with Z and N following it.
    pub open spec fn with_y(self, value: u8) -> CPU {
        CPU { y: value, ..self }.with_nz(value)
    }

    /// ADC: the accumulator, the operand and the carry are added. C is the
    /// carry out of bit 7. V says that both addends have the sign that the
    /// result lacks. Decimal mode is ignored.
    pub open spec fn added(self, operand: u8) -> CPU {
        let sum: int = self.a + operand + self.carry();
        let result: u8 = (sum % 256) as u8;
        let overflow: bool = (!(self.a ^ operand) & (self.a ^ result) & 0x80) != 0;
        CPU { a: result, ..self }.with_flag(StatusFlags::C, sum > 0xFF).with_flag(
            StatusFlags::V,
            overflow,
        ).with_nz(result)
    }

    /// SBC: ADC of the operand with every bit inverted, so that a clear
    /// carry is a borrow.
    pub open spec fn subtracted(self, operand: u8) -> CPU {
        self.added(operand ^ 0xFF)
    }

    /// CMP, CPX, CPY: the flags of `register - operand`; no register changes.
    pub open spec fn compared(self, register: u8, operand: u8) -> CPU {
        self.with_flag(StatusFlags::C, register >= operand).with_flag(
            StatusFlags::Z,
            register == operand,
        ).with_flag(StatusFlags::N, register.wrapping_sub(operand) & 0x80 != 0)
    }

    /// BIT: Z from the accumulator and the operand, N and V from bits 7 and
    /// 6 of the operand.
    pub open spec fn bit_tested(self, operand: u8) -> CPU {
        self.with_flag(StatusFlags::Z, self.a & operand == 0).with_flag(
            StatusFlags::N,
            operand & 0x80 != 0,
        ).with_flag(StatusFlags::V, operand & 0x40 != 0)
    }

    /// The byte that a shift or rotate makes of a value. The rotates take
    /// the carry flag into the bit that the shift frees.
    pub open spec fn shift_result(self, itype: InstructionType, value: u8) -> u8 {
        match itype {
            InstructionType::ASL => value << 1,
            InstructionType::LSR => value >> 1,
            InstructionType::ROL => (value << 1) | self.carry(),
            InstructionType::ROR => (value >> 1) | (if self.flag(StatusFlags::C) {
                0x80u8
            } else {
                0u8
            }),
            _ => value,
        }
    }

    /// The bit that a shift or rotate moves out, which becomes the carry:
    /// bit 7 to the left, bit 0 to the right.
    pub open spec fn shift_carry(itype: InstructionType, value: u8) -> bool {
        match itype {
            InstructionType::ASL | InstructionType::ROL => value & 0x80 != 0,
            _ => value & 0x01 != 0,
        }
    }

    /// The flags after a shift or rotate of `value`.
    pub open spec fn shifted(self, itype: InstructionType, value: u8) -> CPU {
        self.with_flag(StatusFlags::C, Self::shift_carry(itype, value)).with_nz(
            self.shift_result(itype, value),
        )
    }

    /// A branch. Taken, it adds the offset to the program counter and costs
    /// one cycle, and one more when the target is on another page than the
    /// instruction that follows the branch.
    pub open spec fn branched(self, taken: bool) -> CPU {
        if taken {
            let target = self.pc.wrapping_add(self.branch_address);
            let extra: int = if same_page(self.pc, target) {
                1
            } else {
                2
            };
            CPU { pc: target, cycles: (self.cycles + extra) as u8, ..self }
        } else {
            self
        }
    }

    /// A push: the byte is written at the stack address, then the stack
    /// pointer goes down by one, from 0x00 to 0xFF.
    pub open spec fn pushed<M: Memory>(self, image: M::V, value: u8) -> (CPU, M::V) {
        (
            CPU { sp: self.sp.wrapping_sub(1), ..self },
            M::poke(image, self.stack_address(), value),
        )
    }

    /// A pull: the stack pointer goes up by one, from 0xFF to 0x00, then the
    /// byte at the stack address is read.
    pub open spec fn pulled<M: Memory>(self, image: M::V) -> (CPU, u8) {
        let raised = CPU { sp: self.sp.wrapping_add(1), ..self };
        (raised, M::peek(image, raised.stack_address()))
    }

    /// A word pushed high byte first, so that its low byte is pulled first.
    pub open spec fn pushed_word<M: Memory>(self, image: M::V, word: u16) -> (CPU, M::V) {
        let (first, written) = self.pushed::<M>(image, high_byte(word));
        first.pushed::<M>(written, low_byte(word))
    }

    /// A word pulled low byte first.
    pub open spec fn pulled_word<M: Memory>(self, image: M::V) -> (CPU, u16) {
        let (first, low) = self.pulled::<M>(image);
        let (second, high) = first.pulled::<M>(image);
        (second, make_word(low, high))
    }

    /// JSR: the address of the last byte of the instruction is pushed and
    /// the program counter takes the operand address.
    pub open spec fn called<M: Memory>(self, image: M::V) -> (CPU, M::V) {
        let (entered, written) = self.pushed_word::<M>(image, self.pc.wrapping_sub(1));
        (CPU { pc: self.address, ..entered }, written)
    }

    /// RTS: the program counter is pulled and moved one byte on.
    pub open spec fn returned<M: Memory>(self, image: M::V) -> CPU {
        let (left, word) = self.pulled_word::<M>(image);
        CPU { pc: word.wrapping_add(1), ..left }
    }

    /// PLP: the status register is pulled.
    pub open spec fn status_pulled<M: Memory>(self, image: M::V) -> CPU {
        let (raised, value) = self.pulled::<M>(image);
        CPU { status: spec_status_from_stack(value), ..raised }
    }

    /// RTI: the status register is pulled, then the program counter, which
    /// stays as it was pushed.
    pub open spec fn interrupt_returned<M: Memory>(self, image: M::V) -> CPU {
        let restored = self.status_pulled::<M>(image);
        let (left, word) = restored.pulled_word::<M>(image);
        CPU { pc: word, ..left }
    }

    /// The sequence common to BRK and the interrupts: the program counter
    /// and a status byte are pushed, I is set and the program counter is
    /// loaded from a vector, read after the pushes.
    pub open spec fn vectored<M: Memory>(self, image: M::V, vector: u16, status: u8) -> (
        CPU,
        M::V,
    ) {
        let (first, written) = self.pushed_word::<M>(image, self.pc);
        let (second, stacked) = first.pushed::<M>(written, status);
        (
            CPU { pc: peek_word::<M>(stacked, vector), ..second.with_flag(StatusFlags::I, true) },
            stacked,
        )
    }

    /// BRK: the byte after the opcode is skipped, then the sequence runs
    /// through the IRQ vector with bits 4 and 5 set in the pushed status.
    pub open spec fn broken<M: Memory>(self, image: M::V) -> (CPU, M::V) {
        CPU { pc: self.pc.wrapping_add(1), ..self }.vectored::<M>(
            image,
            IRQ_VECTOR,
            spec_status_for_break(self.status),
        )
    }

    /// The byte that a shift or rotate works on: the accumulator in
    /// Accumulator mode, else the byte at the operand address.
    pub open spec fn operand_value<M: Memory>(self, mode: AddressingMode, image: M::V) -> u8 {
        if mode == AddressingMode::Accumulator {
            self.a
        } else {
            M::peek(image, self.address)
        }
    }

    /// A byte written back where `operand_value` took it from.
    pub open spec fn stored<M: Memory>(self, mode: AddressingMode, image: M::V, value: u8) -> (
        CPU,
        M::V,
    ) {
        if mode == AddressingMode::Accumulator {
            (CPU { a: value, ..self }, image)
        } else {
            (self, M::poke(image, self.address, value))
        }
    }

    /// ASL, LSR, ROL, ROR: the operand is shifted or rotated by one bit and
    /// written back; C takes the bit that left, Z and N follow the result.
    pub open spec fn rotated<M: Memory>(
        self,
        itype: InstructionType,
        mode: AddressingMode,
        image: M::V,
    ) -> (CPU, M::V) {
        let value = self.operand_value::<M>(mode, image);
        self.shifted(itype, value).stored::<M>(mode, image, self.shift_result(itype, value))
    }

    /// INC and DEC: the byte at the operand address goes up or down by one,
    /// around the ends of its range; Z and N follow it.
    pub open spec fn adjusted<M: Memory>(self, image: M::V, up: bool) -> (CPU, M::V) {
        let value = M::peek(image, self.address);
        let result = if up {
            value.wrapping_add(1)
        } else {
            value.wrapping_sub(1)
        };
        (self.with_nz(result), M::poke(image, self.address, result))
    }

    /// Whether the branch `itype` is taken in this state.
    pub open spec fn branch_taken(self, itype: InstructionType) -> bool {
        match itype {
            InstructionType::BCC => !self.flag(StatusFlags::C),
            InstructionType::BCS => self.flag(StatusFlags::C),
            InstructionType::BNE => !self.flag(StatusFlags::Z),
            InstructionType::BEQ => self.flag(StatusFlags::Z),
            InstructionType::BPL => !self.flag(StatusFlags::N),
            InstructionType::BMI => self.flag(StatusFlags::N),
            InstructionType::BVC => !self.flag(StatusFlags::V),
            InstructionType::BVS => self.flag(StatusFlags::V),
            _ => false,
        }
    }

    /// What an instruction does once its addressing mode has run: the new
    /// registers and the new memory.
    pub open spec fn executed<M: Memory>(
        self,
        itype: InstructionType,
        mode: AddressingMode,
        image: M::V,
    ) -> (CPU, M::V) {
        let operand = M::peek(image, self.address);
        match itype {
            InstructionType::ADC => (self.added(operand), image),
            InstructionType::SBC => (self.subtracted(operand), image),
            InstructionType::AND => (self.with_a(self.a & operand), image),
            InstructionType::ORA => (self.with_a(self.a | operand), image),
            InstructionType::EOR => (self.with_a(self.a ^ operand), image),
            InstructionType::BIT => (self.bit_tested(operand), image),
            InstructionType::CMP => (self.compared(self.a, operand), image),
            InstructionType::CPX => (self.compared(self.x, operand), image),
            InstructionType::CPY => (self.compared(self.y, operand), image),
            InstructionType::LDA => (self.with_a(operand), image),
            InstructionType::LDX => (self.with_x(operand), image),
            InstructionType::LDY => (self.with_y(operand), image),
            InstructionType::STA => (self, M::poke(image, self.address, self.a)),
            InstructionType::STX => (self, M::poke(image, self.address, self.x)),
            InstructionType::STY => (self, M::poke(image, self.address, self.y)),
            InstructionType::ASL
            | InstructionType::LSR
            | InstructionType::ROL
            | InstructionType::ROR => self.rotated::<M>(itype, mode, image),
            InstructionType::INC => self.adjusted::<M>(image, true),
            InstructionType::DEC => self.adjusted::<M>(image, false),
            InstructionType::INX => (self.with_x(self.x.wrapping_add(1)), image),
            InstructionType::INY => (self.with_y(self.y.wrapping_add(1)), image),
            InstructionType::DEX => (self.with_x(self.x.wrapping_sub(1)), image),
            InstructionType::DEY => (self.with_y(self.y.wrapping_sub(1)), image),
            InstructionType::TAX => (self.with_x(self.a), image),
            InstructionType::TAY => (self.with_y(self.a), image),
            InstructionType::TSX => (self.with_x(self.sp), image),
            InstructionType::TXA => (self.with_a(self.x), image),
            InstructionType::TYA => (self.with_a(self.y), image),
            InstructionType::TXS => (CPU { sp: self.x, ..self }, image),
            InstructionType::CLC => (self.with_flag(StatusFlags::C, false), image),
            InstructionType::CLD => (self.with_flag(StatusFlags::D, false), image),
            InstructionType::CLI => (self.with_flag(StatusFlags::I, false), image),
            InstructionType::CLV => (self.with_flag(StatusFlags::V, false), image),
            InstructionType::SEC => (self.with_flag(StatusFlags::C, true), image),
            InstructionType::SED => (self.with_flag(StatusFlags::D, true), image),
            InstructionType::SEI => (self.with_flag(StatusFlags::I, true), image),
            InstructionType::BCC
            | InstructionType::BCS
            | InstructionType::BEQ
            | InstructionType::BMI
            | InstructionType::BNE
            | InstructionType::BPL
            | InstructionType::BVC
            | InstructionType::BVS => (self.branched(self.branch_taken(itype)), image),
            InstructionType::JMP => (CPU { pc: self.address, ..self }, image),
            InstructionType::JSR => self.called::<M>(image),
            InstructionType::RTS => (self.returned::<M>(image), image),
            InstructionType::RTI => (self.interrupt_returned::<M>(image), image),
            InstructionType::BRK => self.broken::<M>(image),
            InstructionType::PHA => self.pushed::<M>(image, self.a),
            InstructionType::PHP => self.pushed::<M>(image, spec_status_for_break(self.status)),
            InstructionType::PLA => {
                let (raised, value) = self.pulled::<M>(image);
                (raised.with_a(value), image)
            },
            InstructionType::PLP => (self.status_pulled::<M>(image), image),
            InstructionType::NOP => (self, image),
        }
    }

    /// The state that a reset leaves: registers cleared, the stack pointer
    /// at 0xFD, I and bit 5 set, the program counter loaded from the reset
    /// vector, seven cycles owed.
    pub open spec fn reset_state<M: Memory>(self, image: M::V) -> CPU {
        CPU {
            a: 0,
            x: 0,
            y: 0,
            sp: 0xFD,
            status: 0x24,
            pc: peek_word::<M>(image, RESET_VECTOR),
            cycles: 7,
            reset_pending: false,
            ..self
        }
    }

    /// An interrupt taken through `vector`: the program counter and the
    /// status, with bit 4 cleared and bit 5 set, are pushed, I is set, the
    /// program counter is loaded from the vector and seven cycles are owed.
    pub open spec fn interrupted<M: Memory>(self, image: M::V, vector: u16) -> (CPU, M::V) {
        let (entered, written) = self.vectored::<M>(
            image,
            vector,
            spec_status_for_interrupt(self.status),
        );
        (CPU { cycles: 7, ..entered }, written)
    }

    /// What the requests that wait do at an instruction boundary. The one of
    /// highest priority is served, a reset before a non-maskable interrupt
    /// and that before a maskable one, and the others keep waiting. A
    /// maskable interrupt whose turn comes while I is set is dropped. The
    /// flag says that a request was served.
    pub open spec fn serviced<M: Memory>(self, image: M::V) -> (CPU, M::V, bool) {
        if self.reset_pending {
            (self.reset_state::<M>(image), image, true)
        } else if self.nmi_pending {
            let (entered, written) = CPU { nmi_pending: false, ..self }.interrupted::<M>(
                image,
                NMI_VECTOR,
            );
            (entered, written, true)
        } else if self.irq_pending {
            let taken = CPU { irq_pending: false, ..self };
            if self.flag(StatusFlags::I) {
                (taken, image, false)
            } else {
                let (entered, written) = taken.interrupted::<M>(image, IRQ_VECTOR);
                (entered, written, true)
            }
        } else {
            (self, image, false)
        }
    }

    /// A request that has just been recorded: at an instruction boundary it
    /// is served at once with whatever else waits, inside an instruction it
    /// waits for the boundary.
    pub open spec fn requested<M: Memory>(self, image: M::V) -> (CPU, M::V) {
        if self.cycles == 0 {
            let (served, written, done) = self.serviced::<M>(image);
            (served, written)
        } else {
            (self, image)
        }
    }

    /// The count of executed bytes outside the opcode table after one more
    /// byte.
    pub open spec fn counted(self, value: u8) -> u32 {
        if !Instruction::legal(value) && self.illegal_opcodes < u32::MAX {
            (self.illegal_opcodes + 1) as u32
        } else {
            self.illegal_opcodes
        }
    }

    /// One instruction, fetched at the program counter, decoded and run.
    /// The cycles owed afterwards are the base cycles of the instruction
    /// less the one in which it ran, one more where an instruction that
    /// only reads its operand crossed a page, and what a taken branch adds.
    pub open spec fn instructed<M: Memory>(self, image: M::V) -> (CPU, M::V) {
        let instruction = Instruction::decoded(M::peek(image, self.pc));
        let fetched = CPU {
            pc: self.pc.wrapping_add(1),
            cycles: (instruction.cycles - 1) as u8,
            illegal_opcodes: self.counted(instruction.value),
            ..self
        };
        let (resolved, crossed) = fetched.resolved::<M>(instruction.addressing_mode, image);
        let (done, written) = resolved.executed::<M>(
            instruction.itype,
            instruction.addressing_mode,
            image,
        );
        let penalty: int = if crossed && instruction.itype.reads_operand() {
            1
        } else {
            0
        };
        (CPU { cycles: (done.cycles + penalty) as u8, ..done }, written)
    }

    /// One clock cycle. Inside an instruction it only counts down. At a
    /// boundary a waiting request is served; where none is served, the next
    /// instruction runs.
    pub open spec fn ticked<M: Memory>(self, image: M::V) -> (CPU, M::V) {
        if self.cycles > 0 {
            (CPU { cycles: (self.cycles - 1) as u8, ..self }, image)
        } else {
            let (served, written, done) = self.serviced::<M>(image);
            if done {
                (served, written)
            } else {
                served.instructed::<M>(written)
            }
        }
    }

    /// One step: the cycles owed are let pass, the clock ticks once at the
    /// boundary, and the cycles that this tick leaves are let pass too.
    #[verifier::opaque]
    pub open spec fn stepped<M: Memory>(self, image: M::V) -> (CPU, M::V) {
        let (ran, written) = CPU { cycles: 0, ..self }.ticked::<M>(image);
        (CPU { cycles: 0, ..ran }, written)
    }

    /// What an addressing mode does before the instruction runs: it reads
    /// the operand bytes at the program counter, moves the program counter
    /// past them and leaves the operand address (for Relative the branch
    /// offset). The flag says that an index carried into the next page.
    pub open spec fn resolved<M: Memory>(self, mode: AddressingMode, image: M::V) -> (CPU, bool) {
        let operand = M::peek(image, self.pc);
        let absolute = peek_word::<M>(image, self.pc);
        let one = CPU { pc: self.pc.wrapping_add(1), ..self };
        let two = CPU { pc: self.pc.wrapping_add(2), ..self };
        match mode {
            AddressingMode::Implied | AddressingMode::Accumulator => (self, false),
            AddressingMode::Immediate => (CPU { address: self.pc, ..one }, false),
            AddressingMode::ZeroPage => (CPU { address: operand as u16, ..one }, false),
            AddressingMode::ZeroPageX => (
                CPU { address: operand.wrapping_add(self.x) as u16, ..one },
                false,
            ),
            AddressingMode::ZeroPageY => (
                CPU { address: operand.wrapping_add(self.y) as u16, ..one },
                false,
            ),
            AddressingMode::Relative => (
                CPU { branch_address: sign_extend(operand), ..one },
                false,
            ),
            AddressingMode::Absolute => (CPU { address: absolute, ..two }, false),
            AddressingMode::AbsoluteX => {
                let target = absolute.wrapping_add(self.x as u16);
                (CPU { address: target, ..two }, !same_page(absolute, target))
            },
            AddressingMode::AbsoluteY => {
                let target = absolute.wrapping_add(self.y as u16);
                (CPU { address: target, ..two }, !same_page(absolute, target))
            },
            AddressingMode::Indirect => {
                // The high byte comes from the page of the pointer, also
                // where the pointer is the last byte of its page.
                let second = make_word(low_byte(absolute).wrapping_add(1), high_byte(absolute));
                let target = make_word(M::peek(image, absolute), M::peek(image, second));
                (CPU { address: target, ..two }, false)
            },
            AddressingMode::IndirectX => {
                let pointer = operand.wrapping_add(self.x);
                let target = make_word(
                    M::peek(image, pointer as u16),
                    M::peek(image, pointer.wrapping_add(1) as u16),
                );
                (CPU { address: target, ..one }, false)
            },
            AddressingMode::IndirectY => {
                let base = make_word(
                    M::peek(image, operand as u16),
                    M::peek(image, operand.wrapping_add(1) as u16),
                );
                let target = base.wrapping_add(self.y as u16);
                (CPU { address: target, ..one }, !same_page(base, target))
            },
        }
    }
}

} // verus!
