use vstd::prelude::*;

pub mod addressing;
pub mod instruction;
pub mod laws;
pub mod model;
pub mod operations;
pub mod word;

pub use instruction::{AddressingMode, Instruction, InstructionType};

use crate::cpu::word::make_word;
use crate::memory::Memory;

verus! {

/// Where the stack lives: page one.
pub const STACK_PAGE: u16 = 0x0100;

/// Address of the vector of the non-maskable interrupt.
pub const NMI_VECTOR: u16 = 0xFFFA;

/// Address of the reset vector.
pub const RESET_VECTOR: u16 = 0xFFFC;

/// Address of the vector shared by the maskable interrupt and BRK.
pub const IRQ_VECTOR: u16 = 0xFFFE;

/// Bit 5 of the status register. It is no flag and reads as 1 when the
/// register is pushed.
pub const UNUSED_BIT: u8 = 0x20;

/// The flags of the status register.
#[derive(Copy, Clone, Debug, PartialEq, Eq, Structural)]
pub enum StatusFlags {
    /// carry flag
    C,
    /// zero flag
    Z,
    /// interrupt disable
    I,
    /// decimal mode
    D,
    /// break command
    B,
    /// overflow flag
    V,
    /// Negative flag
    N,
}

impl StatusFlags {
    /// The bit of the status register that holds the flag.
    pub open spec fn spec_mask(self) -> u8 {
        match self {
            StatusFlags::C => 0x01,
            StatusFlags::Z => 0x02,
            StatusFlags::I => 0x04,
            StatusFlags::D => 0x08,
            StatusFlags::B => 0x10,
            StatusFlags::V => 0x40,
            StatusFlags::N => 0x80,
        }
    }

    #[verifier::when_used_as_spec(spec_mask)]
    pub fn mask(self) -> (mask: u8)
        ensures
            mask == self.spec_mask(),
    {
        match self {
            StatusFlags::C => 0x01,
            StatusFlags::Z => 0x02,
            StatusFlags::I => 0x04,
            StatusFlags::D => 0x08,
            StatusFlags::B => 0x10,
            StatusFlags::V => 0x40,
            StatusFlags::N => 0x80,
        }
    }
}

/// 6502 CPU emulator
#[derive(Copy, Clone, Debug, PartialEq, Eq, Structural)]
pub struct CPU {
    /// Accumulator register
    pub a: u8,
    /// X index register
    pub x: u8,
    /// Y index register
    pub y: u8,
    /// Program counter
    pub pc: u16,
    /// Stack pointer: the low byte of an address in page one
    pub sp: u8,
    /// Processor status flag register
    pub status: u8,
    /// Cycles left for current instruction
    pub cycles: u8,
    /// Address pointed by the addressing mode
    pub address: u16,
    /// Relative address for branching, sign-extended
    pub branch_address: u16,
    /// A reset was requested and waits for the instruction to end
    pub reset_pending: bool,
    /// A non-maskable interrupt waits for the instruction to end
    pub nmi_pending: bool,
    /// A maskable interrupt waits for the instruction to end
    pub irq_pending: bool,
    /// How many bytes outside the opcode table were executed; stops at the
    /// largest value
    pub illegal_opcodes: u32,
}

/// What one status byte becomes when one flag is set or cleared, read
/// through the mask of any flag.
pub proof fn lemma_flag_update(status: u8, changed: u8, read: u8)
    by (bit_vector)
    requires
        changed == 0x01 || changed == 0x02 || changed == 0x04 || changed == 0x08 || changed == 0x10
            || changed == 0x40 || changed == 0x80,
        read == 0x01 || read == 0x02 || read == 0x04 || read == 0x08 || read == 0x10 || read == 0x40
            || read == 0x80,
    ensures
        ((status | changed) & read != 0) == (read == changed || status & read != 0),
        ((status & !changed) & read != 0) == (read != changed && status & read != 0),
        (status | changed) & UNUSED_BIT == status & UNUSED_BIT,
        (status & !changed) & UNUSED_BIT == status & UNUSED_BIT,
{
}

impl CPU {
    /// The state at power-on: registers as a reset leaves them, the program
    /// counter at zero until a reset loads it, no cycle owed.
    pub open spec fn power_on() -> CPU {
        CPU {
            a: 0,
            x: 0,
            y: 0,
            pc: 0,
            sp: 0xFD,
            status: 0x24,
            cycles: 0,
            address: 0,
            branch_address: 0,
            reset_pending: false,
            nmi_pending: false,
            irq_pending: false,
            illegal_opcodes: 0,
        }
    }

    /// Whether a flag is set.
    pub open spec fn flag(self, flag: StatusFlags) -> bool {
        self.status & flag.spec_mask() != 0
    }

    /// The state with one flag set or cleared and nothing else changed.
    pub open spec fn with_flag(self, flag: StatusFlags, on: bool) -> CPU {
        CPU {
            status: if on {
                self.status | flag.spec_mask()
            } else {
                self.status & !flag.spec_mask()
            },
            ..self
        }
    }

    /// The state with Z and N set from a value: Z if it is zero, N if its
    /// bit 7 is set, each cleared otherwise.
    pub open spec fn with_nz(self, value: u8) -> CPU {
        self.with_flag(StatusFlags::Z, value == 0).with_flag(StatusFlags::N, value & 0x80 != 0)
    }

    /// Setting or clearing a flag changes that flag and no other, nor bit 5.
    pub proof fn lemma_with_flag(self, changed: StatusFlags, on: bool, read: StatusFlags)
        ensures
            self.with_flag(changed, on).flag(read) == (if read == changed {
                on
            } else {
                self.flag(read)
            }),
            self.with_flag(changed, on).status & UNUSED_BIT == self.status & UNUSED_BIT,
    {
        lemma_flag_update(self.status, changed.spec_mask(), read.spec_mask());
    }

    // Create an instance of the CPU.
    pub fn new() -> (cpu: CPU)
        ensures
            cpu == CPU::power_on(),
    {
        CPU {
            a: 0,
            x: 0,
            y: 0,
            pc: 0,
            sp: 0xFD,
            status: 0x24,
            cycles: 0,
            address: 0,
            branch_address: 0,
            reset_pending: false,
            nmi_pending: false,
            irq_pending: false,
            illegal_opcodes: 0,
        }
    }

    pub fn set_pc(&mut self, pc: u16)
        ensures
            *final(self) == (CPU { pc, ..*old(self) }),
    {
        self.pc = pc;
    }

    /// Sets a flag and leaves the others as they are.
    pub fn set_flag(&mut self, flag: StatusFlags)
        ensures
            *final(self) == old(self).with_flag(flag, true),
            final(self).flag(flag),
            forall|other: StatusFlags| other != flag ==> final(self).flag(other) == old(self).flag(other),
    {
        self.status = self.status | flag.mask();
        proof {
            assert forall|other: StatusFlags| true implies self.flag(other) == (if other == flag {
                true
            } else {
                old(self).flag(other)
            }) by {
                old(self).lemma_with_flag(flag, true, other);
            }
        }
    }

    pub fn check_flag(&self, flag: StatusFlags) -> (set: bool)
        ensures
            set == self.flag(flag),
    {
        self.status & flag.mask() != 0
    }

    /// Clears a flag and leaves the others as they are.
    pub fn clear_flag(&mut self, flag: StatusFlags)
        ensures
            *final(self) == old(self).with_flag(flag, false),
            !final(self).flag(flag),
            forall|other: StatusFlags| other != flag ==> final(self).flag(other) == old(self).flag(other),
    {
        self.status = self.status & !flag.mask();
        proof {
            assert forall|other: StatusFlags| true implies self.flag(other) == (if other == flag {
                false
            } else {
                old(self).flag(other)
            }) by {
                old(self).lemma_with_flag(flag, false, other);
            }
        }
    }

    /// Serves the request of highest priority that waits, if one does.
    pub fn service<M: Memory>(&mut self, bus: &mut M) -> (done: bool)
        ensures
            (*final(self), final(bus)@, done) == old(self).serviced::<M>(old(bus)@),
    {
        if self.reset_pending {
            self.reset_pending = false;
            self.a = 0;
            self.x = 0;
            self.y = 0;
            self.sp = 0xFD;
            self.status = 0x24;
            self.pc = make_word(bus.read(RESET_VECTOR), bus.read(RESET_VECTOR + 1));
            self.cycles = 7;
            true
        } else if self.nmi_pending {
            self.nmi_pending = false;
            self.enter_vector(bus, NMI_VECTOR, (self.status & 0xEF) | 0x20);
            self.cycles = 7;
            true
        } else if self.irq_pending {
            self.irq_pending = false;
            if self.check_flag(StatusFlags::I) {
                false
            } else {
                self.enter_vector(bus, IRQ_VECTOR, (self.status & 0xEF) | 0x20);
                self.cycles = 7;
                true
            }
        } else {
            false
        }
    }

    /// Requests a reset. Between two instructions it happens at once;
    /// inside one it waits for the instruction to end.
    pub fn reset<M: Memory>(&mut self, bus: &mut M)
        ensures
            (*final(self), final(bus)@) == (CPU { reset_pending: true, ..*old(self) }).requested::<M>(
                old(bus)@,
            ),
            old(self).cycles == 0 ==> *final(self) == old(self).reset_state::<M>(old(bus)@)
                && final(bus)@ == old(bus)@,
    {
        self.reset_pending = true;
        if self.cycles == 0 {
            self.service(bus);
        }
    }

    /// Requests a maskable interrupt. It is ignored while I is set.
    /// Otherwise it is taken between two instructions, at once where the
    /// processor is there, unless a request of higher priority waits.
    pub fn irq<M: Memory>(&mut self, bus: &mut M)
        ensures
            old(self).flag(StatusFlags::I) ==> *final(self) == *old(self),
            old(self).flag(StatusFlags::I) ==> final(bus)@ == old(bus)@,
            !old(self).flag(StatusFlags::I) ==> (*final(self), final(bus)@) == (CPU {
                irq_pending: true,
                ..*old(self)
            }).requested::<M>(old(bus)@),
    {
        if !self.check_flag(StatusFlags::I) {
            self.irq_pending = true;
            if self.cycles == 0 {
                self.service(bus);
            }
        }
    }

    /// Requests a non-maskable interrupt. It is taken between two
    /// instructions, at once where the processor is there, unless a reset
    /// waits.
    pub fn nmi<M: Memory>(&mut self, bus: &mut M)
        ensures
            (*final(self), final(bus)@) == (CPU { nmi_pending: true, ..*old(self) }).requested::<M>(
                old(bus)@,
            ),
    {
        self.nmi_pending = true;
        if self.cycles == 0 {
            self.service(bus);
        }
    }

    ///  Execute one clock cycle
    pub fn tick<M: Memory>(&mut self, bus: &mut M)
        ensures
            (*final(self), final(bus)@) == old(self).ticked::<M>(old(bus)@),
            old(self).cycles > 0 ==> final(self).cycles == old(self).cycles - 1,
            old(self).cycles == 0 ==> final(self).cycles <= 9,
    {
        if self.cycles > 0 {
            self.cycles = self.cycles - 1;
            return ;
        }
        if self.service(bus) {
            return ;
        }
        let instruction = self.fetch_instruction(bus);
        if instruction.is_illegal() && self.illegal_opcodes < u32::MAX {
            self.illegal_opcodes = self.illegal_opcodes + 1;
        }
        self.cycles = instruction.cycles - 1;  // Remove this cycle
        let mut add_cycles = self.addressing_mode(&instruction.addressing_mode, bus);
        add_cycles = self.execute(&instruction, bus) && add_cycles;
        if add_cycles {
            self.cycles = self.cycles + 1;
        }
    }

    /// Runs to the end of the instruction in flight, then one tick at the
    /// boundary (an instruction, or a request that waited) and the cycles
    /// that it costs.
    pub fn step<M: Memory>(&mut self, bus: &mut M)
        ensures
            (*final(self), final(bus)@) == old(self).stepped::<M>(old(bus)@),
            final(self).cycles == 0,
            0 <= final(self).a <= 255,
            0 <= final(self).x <= 255,
            0 <= final(self).y <= 255,
            0 <= final(self).sp <= 255,
            0 <= final(self).pc <= 65535,
    {
        proof {
            reveal(CPU::stepped);
        }
        while self.cycles > 0
            invariant
                *self == (CPU { cycles: self.cycles, ..*old(self) }),
                bus@ == old(bus)@,
            decreases self.cycles,
        {
            self.tick(bus);
        }
        self.tick(bus);
        let ghost ran = *self;
        let ghost written = bus@;
        while self.cycles > 0
            invariant
                *self == (CPU { cycles: self.cycles, ..ran }),
                bus@ == written,
            decreases self.cycles,
        {
            self.tick(bus);
        }
    }

    /// The instruction at an address: its mnemonic, its addressing mode and
    /// its bytes, the opcode first. Nothing changes.
    pub fn disassemble<M: Memory>(bus: &M, pc: u16) -> (listing: (
        InstructionType,
        AddressingMode,
        Vec<u8>,
    ))
        ensures
            listing.0 == Instruction::decoded(M::peek(bus@, pc)).itype,
            listing.1 == Instruction::decoded(M::peek(bus@, pc)).addressing_mode,
            listing.2@.len() == Instruction::decoded(M::peek(bus@, pc)).bytes,
            forall|i: int|
                0 <= i < listing.2@.len() ==> listing.2@[i] == M::peek(
                    bus@,
                    pc.wrapping_add(i as u16),
                ),
    {
        let instruction = Instruction::new(bus.read(pc));
        let mut bytes: Vec<u8> = Vec::new();
        let mut i: u8 = 0;
        while i < instruction.bytes
            invariant
                i <= instruction.bytes <= 3,
                bytes@.len() == i,
                forall|k: int|
                    0 <= k < i ==> bytes@[k] == M::peek(bus@, pc.wrapping_add(k as u16)),
            decreases instruction.bytes - i,
        {
            bytes.push(bus.read(pc.wrapping_add(i as u16)));
            i = i + 1;
        }
        (instruction.itype, instruction.addressing_mode, bytes)
    }

    /// The accumulator.
    pub fn a(&self) -> (value: u8)
        ensures
            value == self.a,
    {
        self.a
    }

    /// The X index register.
    pub fn x(&self) -> (value: u8)
        ensures
            value == self.x,
    {
        self.x
    }

    /// The Y index register.
    pub fn y(&self) -> (value: u8)
        ensures
            value == self.y,
    {
        self.y
    }

    /// The program counter.
    pub fn pc(&self) -> (value: u16)
        ensures
            value == self.pc,
    {
        self.pc
    }

    /// The stack pointer.
    pub fn sp(&self) -> (value: u8)
        ensures
            value == self.sp,
    {
        self.sp
    }

    /// The status register.
    pub fn status(&self) -> (value: u8)
        ensures
            value == self.status,
    {
        self.status
    }
}

} // verus!
