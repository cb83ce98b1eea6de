use vstd::prelude::*;

use crate::cpu::instruction::{AddressingMode, Instruction, InstructionType};
use crate::cpu::model::{spec_status_for_break, spec_status_from_stack};
use crate::cpu::word::{high_byte, lemma_word_bytes, low_byte, make_word};
use crate::cpu::{StatusFlags, CPU, UNUSED_BIT};
use crate::memory::{retains, Memory};

verus! {

/// A byte pushed as PHP pushes it and taken back as PLP takes it differs
/// from the status it came from in bits 4 and 5 at most: bit 4 is then
/// clear and bit 5 set.
proof fn lemma_status_round_trip(status: u8)
    by (bit_vector)
    ensures
        ((status | 0x30) & 0xEF) | 0x20 == (status & 0xCF) | 0x20,
        ((status & 0xCF) | 0x20) & 0xCF == status & 0xCF,
        ((status & 0xCF) | 0x20) & 0x10 == 0,
        ((status & 0xCF) | 0x20) & 0x20 == 0x20,
{
}

/// The number that a byte stands for when bit 7 is read as its sign.
pub open spec fn signed(byte: u8) -> int {
    if byte >= 0x80 {
        byte - 256
    } else {
        byte as int
    }
}

/// The bit operations of the arithmetic instructions, said in numbers.
proof fn lemma_sign_bits(a: u8, m: u8, r: u8)
    by (bit_vector)
    ensures
        (a & 0x80 != 0) == (a >= 0x80),
        ((!(a ^ m) & (a ^ r) & 0x80) != 0) == ((a >= 0x80) == (m >= 0x80) && (a >= 0x80) != (r
            >= 0x80)),
        m ^ 0xFF == 255 - m,
{
}

/// The shifts to the left by one bit, said in numbers.
proof fn lemma_shift_left_bits(value: u8)
    by (bit_vector)
    ensures
        value << 1 == (2 * value) % 256,
        (value << 1) | 1 == (2 * value) % 256 + 1,
        (value << 1) | 0 == (2 * value) % 256,
        (value & 0x80 != 0) == (value >= 0x80),
{
}

/// The shifts to the right by one bit, said in numbers.
proof fn lemma_shift_right_bits(value: u8)
    by (bit_vector)
    ensures
        value >> 1 == value / 2,
        (value >> 1) | 0x80 == value / 2 + 128,
        (value >> 1) | 0 == value / 2,
        (value & 0x01 != 0) == (value % 2 == 1),
        (value >> 1) & 0x80 == 0,
{
}

impl CPU {
    /// No request waits: at the next boundary an instruction runs.
    pub open spec fn idle(self) -> bool {
        !self.reset_pending && !self.nmi_pending && !self.irq_pending
    }

    /// Z is set exactly for the value zero and N exactly for a value with
    /// bit 7 set; the other flags and bit 5 stay.
    pub proof fn law_zero_negative(self, value: u8)
        ensures
            self.with_nz(value).flag(StatusFlags::Z) <==> value == 0,
            self.with_nz(value).flag(StatusFlags::N) <==> value & 0x80 != 0,
            forall|other: StatusFlags|
                other != StatusFlags::Z && other != StatusFlags::N ==> self.with_nz(value).flag(
                    other,
                ) == self.flag(other),
            self.with_nz(value).status & UNUSED_BIT == self.status & UNUSED_BIT,
    {
        let first = self.with_flag(StatusFlags::Z, value == 0);
        self.lemma_with_flag(StatusFlags::Z, value == 0, StatusFlags::Z);
        first.lemma_with_flag(StatusFlags::N, value & 0x80 != 0, StatusFlags::Z);
        first.lemma_with_flag(StatusFlags::N, value & 0x80 != 0, StatusFlags::N);
        assert forall|other: StatusFlags|
            other != StatusFlags::Z && other != StatusFlags::N implies self.with_nz(value).flag(
            other,
        ) == self.flag(other) by {
            self.lemma_with_flag(StatusFlags::Z, value == 0, other);
            first.lemma_with_flag(StatusFlags::N, value & 0x80 != 0, other);
        }
    }

    /// The bytes that fetching and addressing take from the instruction
    /// stream are as many as the decoded instruction is long: after both,
    /// the program counter stands that many bytes on, around the end of the
    /// address space.
    pub proof fn law_bytes_consumed<M: Memory>(self, image: M::V)
        ensures
            ({
                let instruction = Instruction::decoded(M::peek(image, self.pc));
                let fetched = CPU { pc: self.pc.wrapping_add(1), ..self };
                let resolved = fetched.resolved::<M>(instruction.addressing_mode, image).0;
                &&& 1 <= instruction.bytes <= 3
                &&& resolved.pc == (self.pc + instruction.bytes) % 0x10000
            }),
    {
    }

    /// An instruction that does not transfer control leaves the program
    /// counter and the cycle count as the addressing mode left them.
    pub proof fn lemma_executed_in_place<M: Memory>(
        self,
        itype: InstructionType,
        mode: AddressingMode,
        image: M::V,
    )
        requires
            !itype.transfers_control(),
        ensures
            self.executed::<M>(itype, mode, image).0.pc == self.pc,
            self.executed::<M>(itype, mode, image).0.cycles == self.cycles,
    {
    }

    /// With no request waiting, a tick at a boundary runs the instruction at
    /// the program counter, and a step does so from anywhere.
    pub proof fn lemma_idle_runs<M: Memory>(self, image: M::V)
        requires
            self.idle(),
        ensures
            self.cycles == 0 ==> self.ticked::<M>(image) == self.instructed::<M>(image),
            self.stepped::<M>(image).1 == (CPU { cycles: 0, ..self }).instructed::<M>(image).1,
            self.stepped::<M>(image).0 == (CPU {
                cycles: 0,
                ..(CPU { cycles: 0, ..self }).instructed::<M>(image).0
            }),
    {
        reveal(CPU::stepped);
    }

    /// An instruction that is no branch, jump, call, return or BRK leaves
    /// the program counter behind its last byte, around the end of the
    /// address space.
    pub proof fn law_sequential<M: Memory>(self, image: M::V)
        requires
            self.idle(),
            !Instruction::decoded(M::peek(image, self.pc)).itype.transfers_control(),
        ensures
            self.stepped::<M>(image).0.pc == (self.pc + Instruction::decoded(
                M::peek(image, self.pc),
            ).bytes) % 0x10000,
            self.cycles == 0 ==> self.ticked::<M>(image).0.pc == self.stepped::<M>(image).0.pc,
    {
        let start = CPU { cycles: 0, ..self };
        let instruction = Instruction::decoded(M::peek(image, self.pc));
        let fetched = CPU {
            pc: start.pc.wrapping_add(1),
            cycles: (instruction.cycles - 1) as u8,
            illegal_opcodes: start.counted(instruction.value),
            ..start
        };
        let resolved = fetched.resolved::<M>(instruction.addressing_mode, image).0;
        self.lemma_idle_runs::<M>(image);
        self.law_bytes_consumed::<M>(image);
        assert(resolved.pc == (CPU { pc: self.pc.wrapping_add(1), ..self }).resolved::<M>(
            instruction.addressing_mode,
            image,
        ).0.pc);
        resolved.lemma_executed_in_place::<M>(
            instruction.itype,
            instruction.addressing_mode,
            image,
        );
        if self.cycles == 0 {
            let again = CPU {
                pc: self.pc.wrapping_add(1),
                cycles: (instruction.cycles - 1) as u8,
                illegal_opcodes: self.counted(instruction.value),
                ..self
            };
            assert(again == fetched);
        }
    }

    /// The stack pointer stays a byte, so the stack never leaves page one,
    /// and a pull after a push gives the pushed byte and the old stack
    /// pointer, in a memory that retains the byte.
    pub proof fn law_push_pull<M: Memory>(self, image: M::V, value: u8)
        requires
            retains::<M>(image, self.stack_address(), value),
        ensures
            ({
                let (pushed, written) = self.pushed::<M>(image, value);
                let (pulled, back) = pushed.pulled::<M>(written);
                &&& 0 <= pushed.sp <= 255
                &&& 0x0100 <= pushed.stack_address() <= 0x01FF
                &&& pulled == self
                &&& back == value
            }),
    {
    }

    /// What one step does to a state with no request waiting, in which the
    /// byte at the program counter encodes an instruction without operand
    /// bytes.
    proof fn lemma_step_implied<M: Memory>(self, image: M::V)
        requires
            self.idle(),
            Instruction::decoded(M::peek(image, self.pc)).addressing_mode
                == AddressingMode::Implied,
        ensures
            ({
                let instruction = Instruction::decoded(M::peek(image, self.pc));
                let fetched = CPU {
                    pc: self.pc.wrapping_add(1),
                    cycles: (instruction.cycles - 1) as u8,
                    illegal_opcodes: self.counted(instruction.value),
                    ..self
                };
                let (done, written) = fetched.executed::<M>(
                    instruction.itype,
                    AddressingMode::Implied,
                    image,
                );
                self.stepped::<M>(image) == (CPU { cycles: 0, ..done }, written)
            }),
    {
        self.lemma_idle_runs::<M>(image);
    }

    /// One step over PHA.
    proof fn lemma_step_pha<M: Memory>(self, image: M::V)
        requires
            self.idle(),
            M::peek(image, self.pc) == 0x48,
        ensures
            self.stepped::<M>(image) == (
                CPU { pc: self.pc.wrapping_add(1), sp: self.sp.wrapping_sub(1), cycles: 0, ..self },
                M::poke(image, self.stack_address(), self.a),
            ),
    {
        self.lemma_step_implied::<M>(image);
    }

    /// One step over PLA.
    proof fn lemma_step_pla<M: Memory>(self, image: M::V)
        requires
            self.idle(),
            M::peek(image, self.pc) == 0x68,
        ensures
            ({
                let raised = CPU {
                    pc: self.pc.wrapping_add(1),
                    sp: self.sp.wrapping_add(1),
                    cycles: 0,
                    ..self
                };
                self.stepped::<M>(image) == (
                    raised.with_a(M::peek(image, raised.stack_address())),
                    image,
                )
            }),
    {
        self.lemma_step_implied::<M>(image);
    }

    /// One step over PHP.
    proof fn lemma_step_php<M: Memory>(self, image: M::V)
        requires
            self.idle(),
            M::peek(image, self.pc) == 0x08,
        ensures
            self.stepped::<M>(image) == (
                CPU { pc: self.pc.wrapping_add(1), sp: self.sp.wrapping_sub(1), cycles: 0, ..self },
                M::poke(image, self.stack_address(), spec_status_for_break(self.status)),
            ),
    {
        self.lemma_step_implied::<M>(image);
    }

    /// One step over PLP.
    proof fn lemma_step_plp<M: Memory>(self, image: M::V)
        requires
            self.idle(),
            M::peek(image, self.pc) == 0x28,
        ensures
            ({
                let raised = CPU {
                    pc: self.pc.wrapping_add(1),
                    sp: self.sp.wrapping_add(1),
                    cycles: 0,
                    ..self
                };
                self.stepped::<M>(image) == (
                    CPU {
                        status: spec_status_from_stack(M::peek(image, raised.stack_address())),
                        ..raised
                    },
                    image,
                )
            }),
    {
        self.lemma_step_implied::<M>(image);
    }

    /// One step over JSR.
    proof fn lemma_step_jsr<M: Memory>(self, image: M::V)
        requires
            self.idle(),
            M::peek(image, self.pc) == 0x20,
        ensures
            ({
                let target = make_word(
                    M::peek(image, self.pc.wrapping_add(1)),
                    M::peek(image, self.pc.wrapping_add(2)),
                );
                let link = self.pc.wrapping_add(2);
                let lower = CPU { sp: self.sp.wrapping_sub(1), ..self };
                self.stepped::<M>(image) == (
                    CPU {
                        pc: target,
                        address: target,
                        sp: self.sp.wrapping_sub(2),
                        cycles: 0,
                        ..self
                    },
                    M::poke(
                        M::poke(image, self.stack_address(), high_byte(link)),
                        lower.stack_address(),
                        low_byte(link),
                    ),
                )
            }),
    {
        self.lemma_idle_runs::<M>(image);
    }

    /// One step over RTS.
    proof fn lemma_step_rts<M: Memory>(self, image: M::V)
        requires
            self.idle(),
            M::peek(image, self.pc) == 0x60,
        ensures
            ({
                let first = CPU { sp: self.sp.wrapping_add(1), ..self };
                let second = CPU { sp: self.sp.wrapping_add(2), ..self };
                let link = make_word(
                    M::peek(image, first.stack_address()),
                    M::peek(image, second.stack_address()),
                );
                self.stepped::<M>(image) == (
                    CPU { pc: link.wrapping_add(1), sp: second.sp, cycles: 0, ..self },
                    image,
                )
            }),
    {
        self.lemma_step_implied::<M>(image);
    }

    /// One step over TAX.
    proof fn lemma_step_tax<M: Memory>(self, image: M::V)
        requires
            self.idle(),
            M::peek(image, self.pc) == 0xAA,
        ensures
            self.stepped::<M>(image) == (
                (CPU { pc: self.pc.wrapping_add(1), cycles: 0, ..self }).with_x(self.a),
                image,
            ),
    {
        self.lemma_step_implied::<M>(image);
    }

    /// One step over TXA.
    proof fn lemma_step_txa<M: Memory>(self, image: M::V)
        requires
            self.idle(),
            M::peek(image, self.pc) == 0x8A,
        ensures
            self.stepped::<M>(image) == (
                (CPU { pc: self.pc.wrapping_add(1), cycles: 0, ..self }).with_a(self.x),
                image,
            ),
    {
        self.lemma_step_implied::<M>(image);
    }


    /// PHA then PLA: the accumulator and the stack pointer are as before,
    /// Z and N follow the accumulator, and the program counter stands
    /// behind the two instructions. The stack must retain the pushed byte.
    pub proof fn law_pha_pla<M: Memory>(self, image: M::V)
        requires
            self.idle(),
            M::peek(image, self.pc) == 0x48,
            retains::<M>(image, self.stack_address(), self.a),
            M::peek(M::poke(image, self.stack_address(), self.a), self.pc.wrapping_add(1))
                == 0x68,
        ensures
            ({
                let (pushed, written) = self.stepped::<M>(image);
                let (pulled, after) = pushed.stepped::<M>(written);
                &&& written == M::poke(image, self.stack_address(), self.a)
                &&& after == written
                &&& pulled.a == self.a
                &&& pulled.sp == self.sp
                &&& pulled.pc == (self.pc + 2) % 0x10000
                &&& pulled.flag(StatusFlags::Z) <==> self.a == 0
                &&& pulled.flag(StatusFlags::N) <==> self.a & 0x80 != 0
            }),
    {
        self.lemma_step_pha::<M>(image);
        let pushed = CPU {
            pc: self.pc.wrapping_add(1),
            sp: self.sp.wrapping_sub(1),
            cycles: 0,
            ..self
        };
        let written = M::poke(image, self.stack_address(), self.a);
        pushed.lemma_step_pla::<M>(written);
        let raised = CPU {
            pc: pushed.pc.wrapping_add(1),
            sp: pushed.sp.wrapping_add(1),
            cycles: 0,
            ..pushed
        };
        raised.law_zero_negative(self.a);
    }

    /// PHP then PLP: the status register is as before but for bits 4 and 5,
    /// of which bit 4 is then clear and bit 5 set; the stack pointer is as
    /// before. The stack must retain the pushed byte.
    pub proof fn law_php_plp<M: Memory>(self, image: M::V)
        requires
            self.idle(),
            M::peek(image, self.pc) == 0x08,
            retains::<M>(image, self.stack_address(), spec_status_for_break(self.status)),
            M::peek(
                M::poke(image, self.stack_address(), spec_status_for_break(self.status)),
                self.pc.wrapping_add(1),
            ) == 0x28,
        ensures
            ({
                let (pushed, written) = self.stepped::<M>(image);
                let (pulled, after) = pushed.stepped::<M>(written);
                &&& after == written
                &&& pulled.status & 0xCF == self.status & 0xCF
                &&& pulled.status & 0x10 == 0
                &&& pulled.status & 0x20 == 0x20
                &&& pulled.sp == self.sp
                &&& pulled.a == self.a
                &&& pulled.pc == (self.pc + 2) % 0x10000
            }),
    {
        self.lemma_step_php::<M>(image);
        let pushed = CPU {
            pc: self.pc.wrapping_add(1),
            sp: self.sp.wrapping_sub(1),
            cycles: 0,
            ..self
        };
        let written = M::poke(image, self.stack_address(), spec_status_for_break(self.status));
        pushed.lemma_step_plp::<M>(written);
        lemma_status_round_trip(self.status);
    }

    /// JSR then RTS: the program counter stands at the instruction after
    /// the JSR and the stack pointer is as before. The stack must retain the
    /// two bytes of the return address, and the subroutine is the one
    /// instruction RTS.
    pub proof fn law_jsr_rts<M: Memory>(self, image: M::V)
        requires
            self.idle(),
            M::peek(image, self.pc) == 0x20,
            ({
                let (called, written) = self.stepped::<M>(image);
                let link = self.pc.wrapping_add(2);
                &&& M::peek(written, called.pc) == 0x60
                &&& M::peek(written, self.stack_address()) == high_byte(link)
                &&& M::peek(written, (CPU { sp: self.sp.wrapping_sub(1), ..self }).stack_address())
                    == low_byte(link)
            }),
        ensures
            ({
                let (called, written) = self.stepped::<M>(image);
                let (back, after) = called.stepped::<M>(written);
                &&& called.pc == make_word(
                    M::peek(image, self.pc.wrapping_add(1)),
                    M::peek(image, self.pc.wrapping_add(2)),
                )
                &&& called.sp == self.sp.wrapping_sub(2)
                &&& after == written
                &&& back.pc == (self.pc + 3) % 0x10000
                &&& back.sp == self.sp
            }),
    {
        self.lemma_step_jsr::<M>(image);
        let (called, written) = self.stepped::<M>(image);
        let link = self.pc.wrapping_add(2);
        called.lemma_step_rts::<M>(written);
        lemma_word_bytes(link, 0, 0);
    }

    /// TAX then TXA: the accumulator is as before, X equals it, Z and N
    /// follow it, and memory is untouched.
    pub proof fn law_tax_txa<M: Memory>(self, image: M::V)
        requires
            self.idle(),
            M::peek(image, self.pc) == 0xAA,
            M::peek(image, self.pc.wrapping_add(1)) == 0x8A,
        ensures
            ({
                let (moved, written) = self.stepped::<M>(image);
                let (back, after) = moved.stepped::<M>(written);
                &&& after == image
                &&& back.a == self.a
                &&& back.x == self.a
                &&& back.pc == (self.pc + 2) % 0x10000
                &&& back.flag(StatusFlags::Z) <==> self.a == 0
                &&& back.flag(StatusFlags::N) <==> self.a & 0x80 != 0
            }),
    {
        self.lemma_step_tax::<M>(image);
        let moved = (CPU { pc: self.pc.wrapping_add(1), cycles: 0, ..self }).with_x(self.a);
        moved.lemma_step_txa::<M>(image);
        (CPU { pc: moved.pc.wrapping_add(1), cycles: 0, ..moved }).law_zero_negative(self.a);
    }

    /// The flags of a state to which four flags were written one after the
    /// other, each read as the last write to it left it.
    proof fn lemma_flag_chain(
        self,
        first: (StatusFlags, bool),
        second: (StatusFlags, bool),
        third: (StatusFlags, bool),
        fourth: (StatusFlags, bool),
        read: StatusFlags,
    )
        ensures
            self.with_flag(first.0, first.1).with_flag(second.0, second.1).with_flag(
                third.0,
                third.1,
            ).with_flag(fourth.0, fourth.1).flag(read) == (if read == fourth.0 {
                fourth.1
            } else if read == third.0 {
                third.1
            } else if read == second.0 {
                second.1
            } else if read == first.0 {
                first.1
            } else {
                self.flag(read)
            }),
    {
        let one = self.with_flag(first.0, first.1);
        let two = one.with_flag(second.0, second.1);
        let three = two.with_flag(third.0, third.1);
        self.lemma_with_flag(first.0, first.1, read);
        one.lemma_with_flag(second.0, second.1, read);
        two.lemma_with_flag(third.0, third.1, read);
        three.lemma_with_flag(fourth.0, fourth.1, read);
    }

    /// ADC in numbers. The accumulator takes the sum of itself, the operand
    /// and the carry, modulo 256. C says that the sum passed 255, V that the
    /// sum of the same bytes read as signed numbers left the range from -128
    /// to 127, Z that the result is zero, N that its bit 7 is set. The flags
    /// I, D and B stay, and so does every other register.
    pub proof fn law_add_with_carry(self, operand: u8)
        ensures
            ({
                let sum = self.a + operand + self.carry();
                let after = self.added(operand);
                &&& after.a == sum % 256
                &&& after.flag(StatusFlags::C) <==> sum > 255
                &&& after.flag(StatusFlags::V) <==> !(-128 <= signed(self.a) + signed(operand)
                    + self.carry() <= 127)
                &&& after.flag(StatusFlags::Z) <==> sum % 256 == 0
                &&& after.flag(StatusFlags::N) <==> sum % 256 >= 128
                &&& after.flag(StatusFlags::I) == self.flag(StatusFlags::I)
                &&& after.flag(StatusFlags::D) == self.flag(StatusFlags::D)
                &&& after.flag(StatusFlags::B) == self.flag(StatusFlags::B)
                &&& after == CPU { a: after.a, status: after.status, ..self }
            }),
    {
        let sum = self.a + operand + self.carry();
        let result: u8 = (sum % 256) as u8;
        let overflow: bool = (!(self.a ^ operand) & (self.a ^ result) & 0x80) != 0;
        let start = CPU { a: result, ..self };
        lemma_sign_bits(self.a, operand, result);
        lemma_sign_bits(result, operand, result);
        assert forall|read: StatusFlags| true implies #[trigger] self.added(operand).flag(read) == (
        if read == StatusFlags::N {
            result & 0x80 != 0
        } else if read == StatusFlags::Z {
            result == 0
        } else if read == StatusFlags::V {
            overflow
        } else if read == StatusFlags::C {
            sum > 0xFF
        } else {
            self.flag(read)
        }) by {
            start.lemma_flag_chain(
                (StatusFlags::C, sum > 0xFF),
                (StatusFlags::V, overflow),
                (StatusFlags::Z, result == 0),
                (StatusFlags::N, result & 0x80 != 0),
                read,
            );
        }
    }

    /// SBC in numbers. A clear carry is a borrow of one. The accumulator
    /// takes itself less the operand less the borrow, modulo 256. C says
    /// that no borrow was needed, V that the difference of the same bytes
    /// read as signed numbers left the range from -128 to 127.
    pub proof fn law_subtract_with_borrow(self, operand: u8)
        ensures
            ({
                let difference = self.a - operand - (1 - self.carry());
                let after = self.subtracted(operand);
                &&& after.a == difference % 256
                &&& after.flag(StatusFlags::C) <==> difference >= 0
                &&& after.flag(StatusFlags::V) <==> !(-128 <= signed(self.a) - signed(operand) - (1
                    - self.carry()) <= 127)
                &&& after.flag(StatusFlags::Z) <==> difference % 256 == 0
                &&& after.flag(StatusFlags::N) <==> difference % 256 >= 128
                &&& after == CPU { a: after.a, status: after.status, ..self }
            }),
    {
        let inverted: u8 = operand ^ 0xFF;
        lemma_sign_bits(self.a, operand, 0);
        self.law_add_with_carry(inverted);
    }

    /// The compare instructions in numbers: C says that the register is not
    /// below the operand, Z that the two are equal, N that bit 7 of their
    /// difference modulo 256 is set. Nothing but the status register
    /// changes, and of it only these three flags.
    pub proof fn law_compare(self, register: u8, operand: u8)
        ensures
            ({
                let after = self.compared(register, operand);
                &&& after.flag(StatusFlags::C) <==> register >= operand
                &&& after.flag(StatusFlags::Z) <==> register == operand
                &&& after.flag(StatusFlags::N) <==> (register - operand) % 256 >= 128
                &&& after.flag(StatusFlags::V) == self.flag(StatusFlags::V)
                &&& after.flag(StatusFlags::I) == self.flag(StatusFlags::I)
                &&& after.flag(StatusFlags::D) == self.flag(StatusFlags::D)
                &&& after.flag(StatusFlags::B) == self.flag(StatusFlags::B)
                &&& after == CPU { status: after.status, ..self }
            }),
    {
        let difference: u8 = register.wrapping_sub(operand);
        lemma_sign_bits(difference, 0, 0);
        assert forall|read: StatusFlags| true implies #[trigger] self.compared(
            register,
            operand,
        ).flag(read) == (if read == StatusFlags::N {
            difference & 0x80 != 0
        } else if read == StatusFlags::Z {
            register == operand
        } else if read == StatusFlags::C {
            register >= operand
        } else {
            self.flag(read)
        }) by {
            let one = self.with_flag(StatusFlags::C, register >= operand);
            let two = one.with_flag(StatusFlags::Z, register == operand);
            self.lemma_with_flag(StatusFlags::C, register >= operand, read);
            one.lemma_with_flag(StatusFlags::Z, register == operand, read);
            two.lemma_with_flag(StatusFlags::N, difference & 0x80 != 0, read);
        }
    }

    /// The shifts and rotates in numbers. To the left the byte is doubled
    /// modulo 256 and bit 7 leaves; to the right it is halved and bit 0
    /// leaves. A rotate puts the old carry into the bit that became free.
    /// LSR therefore never leaves bit 7 set.
    pub proof fn law_shift(self, value: u8)
        ensures
            self.shift_result(InstructionType::ASL, value) == (2 * value) % 256,
            self.shift_result(InstructionType::LSR, value) == value / 2,
            self.shift_result(InstructionType::ROL, value) == (2 * value) % 256 + self.carry(),
            self.shift_result(InstructionType::ROR, value) == value / 2 + 128 * self.carry(),
            Self::shift_carry(InstructionType::ASL, value) <==> value >= 128,
            Self::shift_carry(InstructionType::ROL, value) <==> value >= 128,
            Self::shift_carry(InstructionType::LSR, value) <==> value % 2 == 1,
            Self::shift_carry(InstructionType::ROR, value) <==> value % 2 == 1,
            !self.shifted(InstructionType::LSR, value).flag(StatusFlags::N),
    {
        lemma_shift_left_bits(value);
        lemma_shift_right_bits(value);
        self.with_flag(
            StatusFlags::C,
            Self::shift_carry(InstructionType::LSR, value),
        ).law_zero_negative(value >> 1);
    }
}

} // verus!
