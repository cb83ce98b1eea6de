use vstd::prelude::*;

verus! {

/// The 56 mnemonics of the processor.
#[derive(Debug, Clone, Copy, PartialEq, Eq, Structural)]
pub enum InstructionType {
    /// Arithmetic
    ADC,
    SBC,
    /// Boolean operator
    AND,
    ORA,
    /// Shift
    ASL,
    LSR,
    /// Bit test
    BIT,
    /// Interrupt
    BRK,
    RTI,
    /// Branch
    BEQ,
    BCC,
    BCS,
    BMI,
    BNE,
    BPL,
    BVC,
    BVS,
    /// Clear
    CLC,
    CLD,
    CLI,
    CLV,
    /// Compare
    CMP,
    CPX,
    CPY,
    /// Decrement
    DEC,
    DEX,
    DEY,
    EOR,
    /// Increment
    INC,
    INX,
    INY,
    /// Jump
    JMP,
    RTS,
    /// Subroutine
    JSR,
    /// Load
    LDA,
    LDX,
    LDY,
    /// No operation
    NOP,
    /// Push
    PHA,
    PHP,
    /// Pull
    PLA,
    PLP,
    /// Rotate
    ROL,
    ROR,
    /// Set
    SEC,
    SED,
    SEI,
    /// Store
    STA,
    STX,
    STY,
    /// Transfer
    TAX,
    TAY,
    TSX,
    TXA,
    TXS,
    TYA,
}

/// The rule by which an instruction finds its operand.
#[derive(Debug, Clone, Copy, PartialEq, Eq, Structural)]
pub enum AddressingMode {
    Accumulator,
    Immediate,
    ZeroPage,
    ZeroPageX,
    ZeroPageY,
    Absolute,
    AbsoluteX,
    AbsoluteY,
    Indirect,
    IndirectX,
    IndirectY,
    Relative,
    Implied,
}

/// 6502 instruction
#[derive(Debug, Clone, Copy, PartialEq, Eq, Structural)]
pub struct Instruction {
    /// The opcode byte as it was fetched.
    pub value: u8,
    pub itype: InstructionType,
    pub addressing_mode: AddressingMode,
    /// Cycles of the instruction before any penalty.
    pub cycles: u8,
    /// Length in bytes, the opcode byte included.
    pub bytes: u8,
}

impl InstructionType {
    /// Instructions that only read their operand. With an indexed mode they
    /// take one cycle more when the index carries into the next page.
    pub open spec fn reads_operand(self) -> bool {
        match self {
            InstructionType::ADC
            | InstructionType::AND
            | InstructionType::BIT
            | InstructionType::CMP
            | InstructionType::CPX
            | InstructionType::CPY
            | InstructionType::EOR
            | InstructionType::LDA
            | InstructionType::LDX
            | InstructionType::LDY
            | InstructionType::ORA
            | InstructionType::SBC => true,
            _ => false,
        }
    }

    /// Instructions that write a register to memory.
    pub open spec fn stores_register(self) -> bool {
        match self {
            InstructionType::STA | InstructionType::STX | InstructionType::STY => true,
            _ => false,
        }
    }

    /// Instructions that read a byte, change it and write it back.
    pub open spec fn modifies_operand(self) -> bool {
        match self {
            InstructionType::ASL
            | InstructionType::LSR
            | InstructionType::ROL
            | InstructionType::ROR
            | InstructionType::INC
            | InstructionType::DEC => true,
            _ => false,
        }
    }

    /// The eight conditional branches.
    pub open spec fn is_branch(self) -> bool {
        match self {
            InstructionType::BCC
            | InstructionType::BCS
            | InstructionType::BEQ
            | InstructionType::BMI
            | InstructionType::BNE
            | InstructionType::BPL
            | InstructionType::BVC
            | InstructionType::BVS => true,
            _ => false,
        }
    }

    /// Instructions that load the program counter: branches, jumps, calls,
    /// returns and the software interrupt.
    pub open spec fn transfers_control(self) -> bool {
        self.is_branch() || match self {
            InstructionType::JMP
            | InstructionType::JSR
            | InstructionType::RTS
            | InstructionType::RTI
            | InstructionType::BRK => true,
            _ => false,
        }
    }
}

impl AddressingMode {
    /// Length of an instruction in this mode: the opcode byte and its
    /// operand bytes.
    pub open spec fn spec_length(self) -> u8 {
        match self {
            AddressingMode::Implied | AddressingMode::Accumulator => 1,
            AddressingMode::Immediate
            | AddressingMode::ZeroPage
            | AddressingMode::ZeroPageX
            | AddressingMode::ZeroPageY
            | AddressingMode::IndirectX
            | AddressingMode::IndirectY
            | AddressingMode::Relative => 2,
            AddressingMode::Absolute
            | AddressingMode::AbsoluteX
            | AddressingMode::AbsoluteY
            | AddressingMode::Indirect => 3,
        }
    }
}

impl Instruction {
    /// The opcode table: the mnemonic and addressing mode that a byte
    /// encodes, `None` for the bytes that encode no documented instruction.
    pub open spec fn spec_operation(value: u8) -> Option<(InstructionType, AddressingMode)> {
        match value {
            0x69 => Some((InstructionType::ADC, AddressingMode::Immediate)),
            0x65 => Some((InstructionType::ADC, AddressingMode::ZeroPage)),
            0x75 => Some((InstructionType::ADC, AddressingMode::ZeroPageX)),
            0x6D => Some((InstructionType::ADC, AddressingMode::Absolute)),
            0x7D => Some((InstructionType::ADC, AddressingMode::AbsoluteX)),
            0x79 => Some((InstructionType::ADC, AddressingMode::AbsoluteY)),
            0x61 => Some((InstructionType::ADC, AddressingMode::IndirectX)),
            0x71 => Some((InstructionType::ADC, AddressingMode::IndirectY)),
            0xE9 => Some((InstructionType::SBC, AddressingMode::Immediate)),
            0xE5 => Some((InstructionType::SBC, AddressingMode::ZeroPage)),
            0xF5 => Some((InstructionType::SBC, AddressingMode::ZeroPageX)),
            0xED => Some((InstructionType::SBC, AddressingMode::Absolute)),
            0xFD => Some((InstructionType::SBC, AddressingMode::AbsoluteX)),
            0xF9 => Some((InstructionType::SBC, AddressingMode::AbsoluteY)),
            0xE1 => Some((InstructionType::SBC, AddressingMode::IndirectX)),
            0xF1 => Some((InstructionType::SBC, AddressingMode::IndirectY)),
            0x29 => Some((InstructionType::AND, AddressingMode::Immediate)),
            0x25 => Some((InstructionType::AND, AddressingMode::ZeroPage)),
            0x35 => Some((InstructionType::AND, AddressingMode::ZeroPageX)),
            0x2D => Some((InstructionType::AND, AddressingMode::Absolute)),
            0x3D => Some((InstructionType::AND, AddressingMode::AbsoluteX)),
            0x39 => Some((InstructionType::AND, AddressingMode::AbsoluteY)),
            0x21 => Some((InstructionType::AND, AddressingMode::IndirectX)),
            0x31 => Some((InstructionType::AND, AddressingMode::IndirectY)),
            0x09 => Some((InstructionType::ORA, AddressingMode::Immediate)),
            0x05 => Some((InstructionType::ORA, AddressingMode::ZeroPage)),
            0x15 => Some((InstructionType::ORA, AddressingMode::ZeroPageX)),
            0x0D => Some((InstructionType::ORA, AddressingMode::Absolute)),
            0x1D => Some((InstructionType::ORA, AddressingMode::AbsoluteX)),
            0x19 => Some((InstructionType::ORA, AddressingMode::AbsoluteY)),
            0x01 => Some((InstructionType::ORA, AddressingMode::IndirectX)),
            0x11 => Some((InstructionType::ORA, AddressingMode::IndirectY)),
            0x49 => Some((InstructionType::EOR, AddressingMode::Immediate)),
            0x45 => Some((InstructionType::EOR, AddressingMode::ZeroPage)),
            0x55 => Some((InstructionType::EOR, AddressingMode::ZeroPageX)),
            0x4D => Some((InstructionType::EOR, AddressingMode::Absolute)),
            0x5D => Some((InstructionType::EOR, AddressingMode::AbsoluteX)),
            0x59 => Some((InstructionType::EOR, AddressingMode::AbsoluteY)),
            0x41 => Some((InstructionType::EOR, AddressingMode::IndirectX)),
            0x51 => Some((InstructionType::EOR, AddressingMode::IndirectY)),
            0xC9 => Some((InstructionType::CMP, AddressingMode::Immediate)),
            0xC5 => Some((InstructionType::CMP, AddressingMode::ZeroPage)),
            0xD5 => Some((InstructionType::CMP, AddressingMode::ZeroPageX)),
            0xCD => Some((InstructionType::CMP, AddressingMode::Absolute)),
            0xDD => Some((InstructionType::CMP, AddressingMode::AbsoluteX)),
            0xD9 => Some((InstructionType::CMP, AddressingMode::AbsoluteY)),
            0xC1 => Some((InstructionType::CMP, AddressingMode::IndirectX)),
            0xD1 => Some((InstructionType::CMP, AddressingMode::IndirectY)),
            0xE0 => Some((InstructionType::CPX, AddressingMode::Immediate)),
            0xE4 => Some((InstructionType::CPX, AddressingMode::ZeroPage)),
            0xEC => Some((InstructionType::CPX, AddressingMode::Absolute)),
            0xC0 => Some((InstructionType::CPY, AddressingMode::Immediate)),
            0xC4 => Some((InstructionType::CPY, AddressingMode::ZeroPage)),
            0xCC => Some((InstructionType::CPY, AddressingMode::Absolute)),
            0xA9 => Some((InstructionType::LDA, AddressingMode::Immediate)),
            0xA5 => Some((InstructionType::LDA, AddressingMode::ZeroPage)),
            0xB5 => Some((InstructionType::LDA, AddressingMode::ZeroPageX)),
            0xAD => Some((InstructionType::LDA, AddressingMode::Absolute)),
            0xBD => Some((InstructionType::LDA, AddressingMode::AbsoluteX)),
            0xB9 => Some((InstructionType::LDA, AddressingMode::AbsoluteY)),
            0xA1 => Some((InstructionType::LDA, AddressingMode::IndirectX)),
            0xB1 => Some((InstructionType::LDA, AddressingMode::IndirectY)),
            0xA2 => Some((InstructionType::LDX, AddressingMode::Immediate)),
            0xA6 => Some((InstructionType::LDX, AddressingMode::ZeroPage)),
            0xB6 => Some((InstructionType::LDX, AddressingMode::ZeroPageY)),
            0xAE => Some((InstructionType::LDX, AddressingMode::Absolute)),
            0xBE => Some((InstructionType::LDX, AddressingMode::AbsoluteY)),
            0xA0 => Some((InstructionType::LDY, AddressingMode::Immediate)),
            0xA4 => Some((InstructionType::LDY, AddressingMode::ZeroPage)),
            0xB4 => Some((InstructionType::LDY, AddressingMode::ZeroPageX)),
            0xAC => Some((InstructionType::LDY, AddressingMode::Absolute)),
            0xBC => Some((InstructionType::LDY, AddressingMode::AbsoluteX)),
            0x85 => Some((InstructionType::STA, AddressingMode::ZeroPage)),
            0x95 => Some((InstructionType::STA, AddressingMode::ZeroPageX)),
            0x8D => Some((InstructionType::STA, AddressingMode::Absolute)),
            0x9D => Some((InstructionType::STA, AddressingMode::AbsoluteX)),
            0x99 => Some((InstructionType::STA, AddressingMode::AbsoluteY)),
            0x81 => Some((InstructionType::STA, AddressingMode::IndirectX)),
            0x91 => Some((InstructionType::STA, AddressingMode::IndirectY)),
            0x86 => Some((InstructionType::STX, AddressingMode::ZeroPage)),
            0x96 => Some((InstructionType::STX, AddressingMode::ZeroPageY)),
            0x8E => Some((InstructionType::STX, AddressingMode::Absolute)),
            0x84 => Some((InstructionType::STY, AddressingMode::ZeroPage)),
            0x94 => Some((InstructionType::STY, AddressingMode::ZeroPageX)),
            0x8C => Some((InstructionType::STY, AddressingMode::Absolute)),
            0xE6 => Some((InstructionType::INC, AddressingMode::ZeroPage)),
            0xF6 => Some((InstructionType::INC, AddressingMode::ZeroPageX)),
            0xEE => Some((InstructionType::INC, AddressingMode::Absolute)),
            0xFE => Some((InstructionType::INC, AddressingMode::AbsoluteX)),
            0xC6 => Some((InstructionType::DEC, AddressingMode::ZeroPage)),
            0xD6 => Some((InstructionType::DEC, AddressingMode::ZeroPageX)),
            0xCE => Some((InstructionType::DEC, AddressingMode::Absolute)),
            0xDE => Some((InstructionType::DEC, AddressingMode::AbsoluteX)),
            0xE8 => Some((InstructionType::INX, AddressingMode::Implied)),
            0xCA => Some((InstructionType::DEX, AddressingMode::Implied)),
            0xC8 => Some((InstructionType::INY, AddressingMode::Implied)),
            0x88 => Some((InstructionType::DEY, AddressingMode::Implied)),
            0x0A => Some((InstructionType::ASL, AddressingMode::Accumulator)),
            0x06 => Some((InstructionType::ASL, AddressingMode::ZeroPage)),
            0x16 => Some((InstructionType::ASL, AddressingMode::ZeroPageX)),
            0x0E => Some((InstructionType::ASL, AddressingMode::Absolute)),
            0x1E => Some((InstructionType::ASL, AddressingMode::AbsoluteX)),
            0x4A => Some((InstructionType::LSR, AddressingMode::Accumulator)),
            0x46 => Some((InstructionType::LSR, AddressingMode::ZeroPage)),
            0x56 => Some((InstructionType::LSR, AddressingMode::ZeroPageX)),
            0x4E => Some((InstructionType::LSR, AddressingMode::Absolute)),
            0x5E => Some((InstructionType::LSR, AddressingMode::AbsoluteX)),
            0x2A => Some((InstructionType::ROL, AddressingMode::Accumulator)),
            0x26 => Some((InstructionType::ROL, AddressingMode::ZeroPage)),
            0x36 => Some((InstructionType::ROL, AddressingMode::ZeroPageX)),
            0x2E => Some((InstructionType::ROL, AddressingMode::Absolute)),
            0x3E => Some((InstructionType::ROL, AddressingMode::AbsoluteX)),
            0x6A => Some((InstructionType::ROR, AddressingMode::Accumulator)),
            0x66 => Some((InstructionType::ROR, AddressingMode::ZeroPage)),
            0x76 => Some((InstructionType::ROR, AddressingMode::ZeroPageX)),
            0x6E => Some((InstructionType::ROR, AddressingMode::Absolute)),
            0x7E => Some((InstructionType::ROR, AddressingMode::AbsoluteX)),
            0x24 => Some((InstructionType::BIT, AddressingMode::ZeroPage)),
            0x2C => Some((InstructionType::BIT, AddressingMode::Absolute)),
            0x10 => Some((InstructionType::BPL, AddressingMode::Relative)),
            0x30 => Some((InstructionType::BMI, AddressingMode::Relative)),
            0x50 => Some((InstructionType::BVC, AddressingMode::Relative)),
            0x70 => Some((InstructionType::BVS, AddressingMode::Relative)),
            0x90 => Some((InstructionType::BCC, AddressingMode::Relative)),
            0xB0 => Some((InstructionType::BCS, AddressingMode::Relative)),
            0xD0 => Some((InstructionType::BNE, AddressingMode::Relative)),
            0xF0 => Some((InstructionType::BEQ, AddressingMode::Relative)),
            0x18 => Some((InstructionType::CLC, AddressingMode::Implied)),
            0x38 => Some((InstructionType::SEC, AddressingMode::Implied)),
            0x58 => Some((InstructionType::CLI, AddressingMode::Implied)),
            0x78 => Some((InstructionType::SEI, AddressingMode::Implied)),
            0xB8 => Some((InstructionType::CLV, AddressingMode::Implied)),
            0xD8 => Some((InstructionType::CLD, AddressingMode::Implied)),
            0xF8 => Some((InstructionType::SED, AddressingMode::Implied)),
            0xAA => Some((InstructionType::TAX, AddressingMode::Implied)),
            0x8A => Some((InstructionType::TXA, AddressingMode::Implied)),
            0xA8 => Some((InstructionType::TAY, AddressingMode::Implied)),
            0x98 => Some((InstructionType::TYA, AddressingMode::Implied)),
            0xBA => Some((InstructionType::TSX, AddressingMode::Implied)),
            0x9A => Some((InstructionType::TXS, AddressingMode::Implied)),
            0x48 => Some((InstructionType::PHA, AddressingMode::Implied)),
            0x68 => Some((InstructionType::PLA, AddressingMode::Implied)),
            0x08 => Some((InstructionType::PHP, AddressingMode::Implied)),
            0x28 => Some((InstructionType::PLP, AddressingMode::Implied)),
            0x4C => Some((InstructionType::JMP, AddressingMode::Absolute)),
            0x6C => Some((InstructionType::JMP, AddressingMode::Indirect)),
            0x20 => Some((InstructionType::JSR, AddressingMode::Absolute)),
            0x60 => Some((InstructionType::RTS, AddressingMode::Implied)),
            0x40 => Some((InstructionType::RTI, AddressingMode::Implied)),
            0x00 => Some((InstructionType::BRK, AddressingMode::Implied)),
            0xEA => Some((InstructionType::NOP, AddressingMode::Implied)),
            _ => None,
        }
    }

    /// Cycles that an instruction takes before penalties. They follow from
    /// what the instruction does with its operand and from the mode.
    pub open spec fn spec_base_cycles(itype: InstructionType, mode: AddressingMode) -> u8 {
        if itype.reads_operand() {
            match mode {
                AddressingMode::Immediate => 2,
                AddressingMode::ZeroPage => 3,
                AddressingMode::IndirectY => 5,
                AddressingMode::IndirectX => 6,
                _ => 4,
            }
        } else if itype.stores_register() {
            match mode {
                AddressingMode::ZeroPage => 3,
                AddressingMode::ZeroPageX | AddressingMode::ZeroPageY | AddressingMode::Absolute => 4,
                AddressingMode::AbsoluteX | AddressingMode::AbsoluteY => 5,
                _ => 6,
            }
        } else if itype.modifies_operand() {
            match mode {
                AddressingMode::Accumulator => 2,
                AddressingMode::ZeroPage => 5,
                AddressingMode::AbsoluteX => 7,
                _ => 6,
            }
        } else {
            match itype {
                InstructionType::JMP => if mode == AddressingMode::Indirect { 5 } else { 3 },
                InstructionType::PHA | InstructionType::PHP => 3,
                InstructionType::PLA | InstructionType::PLP => 4,
                InstructionType::JSR | InstructionType::RTS | InstructionType::RTI => 6,
                InstructionType::BRK => 7,
                _ => 2,
            }
        }
    }

    /// Whether the byte encodes a documented instruction.
    pub open spec fn legal(value: u8) -> bool {
        Self::spec_operation(value) is Some
    }

    /// What a byte outside the table decodes to: a one-byte, two-cycle NOP
    /// that keeps the byte.
    pub open spec fn unknown(value: u8) -> Instruction {
        Instruction {
            value,
            itype: InstructionType::NOP,
            addressing_mode: AddressingMode::Implied,
            cycles: 2,
            bytes: 1,
        }
    }

    /// The decoded form of an opcode byte. Total: every byte decodes.
    pub open spec fn decoded(value: u8) -> Instruction {
        match Self::spec_operation(value) {
            Some((itype, mode)) => Instruction {
                value,
                itype,
                addressing_mode: mode,
                cycles: Self::spec_base_cycles(itype, mode),
                bytes: mode.spec_length(),
            },
            None => Self::unknown(value),
        }
    }

    /// Decodes an opcode byte. A byte outside the table becomes a NOP of one
    /// byte and two cycles; `is_illegal` tells it from the real NOP.
    pub fn new(value: u8) -> (instruction: Instruction)
        ensures
            instruction == Self::decoded(value),
            instruction.value == value,
            instruction.bytes == instruction.addressing_mode.spec_length(),
            1 <= instruction.bytes <= 3,
            2 <= instruction.cycles <= 7,
    {
        match value {
            0x69 | 0x65 | 0x75 | 0x6D | 0x7D | 0x79 | 0x61 | 0x71 => self::adc(value),
            0xE9 | 0xE5 | 0xF5 | 0xED | 0xFD | 0xF9 | 0xE1 | 0xF1 => self::sbc(value),
            0x29 | 0x25 | 0x35 | 0x2D | 0x3D | 0x39 | 0x21 | 0x31 => self::and(value),
            0x09 | 0x05 | 0x15 | 0x0D | 0x1D | 0x19 | 0x01 | 0x11 => self::ora(value),
            0x49 | 0x45 | 0x55 | 0x4D | 0x5D | 0x59 | 0x41 | 0x51 => self::eor(value),
            0xC9 | 0xC5 | 0xD5 | 0xCD | 0xDD | 0xD9 | 0xC1 | 0xD1 => self::cmp(value),
            0xE0 | 0xE4 | 0xEC => self::cpx(value),
            0xC0 | 0xC4 | 0xCC => self::cpy(value),
            0xA9 | 0xA5 | 0xB5 | 0xAD | 0xBD | 0xB9 | 0xA1 | 0xB1 => self::lda(value),
            0xA2 | 0xA6 | 0xB6 | 0xAE | 0xBE => self::ldx(value),
            0xA0 | 0xA4 | 0xB4 | 0xAC | 0xBC => self::ldy(value),
            0x85 | 0x95 | 0x8D | 0x9D | 0x99 | 0x81 | 0x91 => self::sta(value),
            0x86 | 0x96 | 0x8E => self::stx(value),
            0x84 | 0x94 | 0x8C => self::sty(value),
            0xE6 | 0xF6 | 0xEE | 0xFE => self::inc(value),
            0xC6 | 0xD6 | 0xCE | 0xDE => self::dec(value),
            0xE8 => Instruction {
                value,
                itype: InstructionType::INX,
                addressing_mode: AddressingMode::Implied,
                cycles: 2,
                bytes: 1,
            },
            0xCA => Instruction {
                value,
                itype: InstructionType::DEX,
                addressing_mode: AddressingMode::Implied,
                cycles: 2,
                bytes: 1,
            },
            0xC8 => Instruction {
                value,
                itype: InstructionType::INY,
                addressing_mode: AddressingMode::Implied,
                cycles: 2,
                bytes: 1,
            },
            0x88 => Instruction {
                value,
                itype: InstructionType::DEY,
                addressing_mode: AddressingMode::Implied,
                cycles: 2,
                bytes: 1,
            },
            0x0A | 0x06 | 0x16 | 0x0E | 0x1E => self::asl(value),
            0x4A | 0x46 | 0x56 | 0x4E | 0x5E => self::lsr(value),
            0x2A | 0x26 | 0x36 | 0x2E | 0x3E => self::rol(value),
            0x6A | 0x66 | 0x76 | 0x6E | 0x7E => self::ror(value),
            0x24 | 0x2C => self::bit(value),
            0x10 => Instruction {
                value,
                itype: InstructionType::BPL,
                addressing_mode: AddressingMode::Relative,
                cycles: 2,
                bytes: 2,
            },
            0x30 => Instruction {
                value,
                itype: InstructionType::BMI,
                addressing_mode: AddressingMode::Relative,
                cycles: 2,
                bytes: 2,
            },
            0x50 => Instruction {
                value,
                itype: InstructionType::BVC,
                addressing_mode: AddressingMode::Relative,
                cycles: 2,
                bytes: 2,
            },
            0x70 => Instruction {
                value,
                itype: InstructionType::BVS,
                addressing_mode: AddressingMode::Relative,
                cycles: 2,
                bytes: 2,
            },
            0x90 => Instruction {
                value,
                itype: InstructionType::BCC,
                addressing_mode: AddressingMode::Relative,
                cycles: 2,
                bytes: 2,
            },
            0xB0 => Instruction {
                value,
                itype: InstructionType::BCS,
                addressing_mode: AddressingMode::Relative,
                cycles: 2,
                bytes: 2,
            },
            0xD0 => Instruction {
                value,
                itype: InstructionType::BNE,
                addressing_mode: AddressingMode::Relative,
                cycles: 2,
                bytes: 2,
            },
            0xF0 => Instruction {
                value,
                itype: InstructionType::BEQ,
                addressing_mode: AddressingMode::Relative,
                cycles: 2,
                bytes: 2,
            },
            0x18 => Instruction {
                value,
                itype: InstructionType::CLC,
                addressing_mode: AddressingMode::Implied,
                cycles: 2,
                bytes: 1,
            },
            0x38 => Instruction {
                value,
                itype: InstructionType::SEC,
                addressing_mode: AddressingMode::Implied,
                cycles: 2,
                bytes: 1,
            },
            0x58 => Instruction {
                value,
                itype: InstructionType::CLI,
                addressing_mode: AddressingMode::Implied,
                cycles: 2,
                bytes: 1,
            },
            0x78 => Instruction {
                value,
                itype: InstructionType::SEI,
                addressing_mode: AddressingMode::Implied,
                cycles: 2,
                bytes: 1,
            },
            0xB8 => Instruction {
                value,
                itype: InstructionType::CLV,
                addressing_mode: AddressingMode::Implied,
                cycles: 2,
                bytes: 1,
            },
            0xD8 => Instruction {
                value,
                itype: InstructionType::CLD,
                addressing_mode: AddressingMode::Implied,
                cycles: 2,
                bytes: 1,
            },
            0xF8 => Instruction {
                value,
                itype: InstructionType::SED,
                addressing_mode: AddressingMode::Implied,
                cycles: 2,
                bytes: 1,
            },
            0xAA => Instruction {
                value,
                itype: InstructionType::TAX,
                addressing_mode: AddressingMode::Implied,
                cycles: 2,
                bytes: 1,
            },
            0x8A => Instruction {
                value,
                itype: InstructionType::TXA,
                addressing_mode: AddressingMode::Implied,
                cycles: 2,
                bytes: 1,
            },
            0xA8 => Instruction {
                value,
                itype: InstructionType::TAY,
                addressing_mode: AddressingMode::Implied,
                cycles: 2,
                bytes: 1,
            },
            0x98 => Instruction {
                value,
                itype: InstructionType::TYA,
                addressing_mode: AddressingMode::Implied,
                cycles: 2,
                bytes: 1,
            },
            0xBA => Instruction {
                value,
                itype: InstructionType::TSX,
                addressing_mode: AddressingMode::Implied,
                cycles: 2,
                bytes: 1,
            },
            0x9A => Instruction {
                value,
                itype: InstructionType::TXS,
                addressing_mode: AddressingMode::Implied,
                cycles: 2,
                bytes: 1,
            },
            0x48 => Instruction {
                value,
                itype: InstructionType::PHA,
                addressing_mode: AddressingMode::Implied,
                cycles: 3,
                bytes: 1,
            },
            0x68 => Instruction {
                value,
                itype: InstructionType::PLA,
                addressing_mode: AddressingMode::Implied,
                cycles: 4,
                bytes: 1,
            },
            0x08 => Instruction {
                value,
                itype: InstructionType::PHP,
                addressing_mode: AddressingMode::Implied,
                cycles: 3,
                bytes: 1,
            },
            0x28 => Instruction {
                value,
                itype: InstructionType::PLP,
                addressing_mode: AddressingMode::Implied,
                cycles: 4,
                bytes: 1,
            },
            0x4C | 0x6C => self::jmp(value),
            0x20 => Instruction {
                value,
                itype: InstructionType::JSR,
                addressing_mode: AddressingMode::Absolute,
                cycles: 6,
                bytes: 3,
            },
            0x60 => Instruction {
                value,
                itype: InstructionType::RTS,
                addressing_mode: AddressingMode::Implied,
                cycles: 6,
                bytes: 1,
            },
            0x40 => Instruction {
                value,
                itype: InstructionType::RTI,
                addressing_mode: AddressingMode::Implied,
                cycles: 6,
                bytes: 1,
            },
            0x00 => Instruction {
                value,
                itype: InstructionType::BRK,
                addressing_mode: AddressingMode::Implied,
                cycles: 7,
                bytes: 1,
            },
            0xEA => Instruction {
                value,
                itype: InstructionType::NOP,
                addressing_mode: AddressingMode::Implied,
                cycles: 2,
                bytes: 1,
            },
            _ => Instruction {
                value,
                itype: InstructionType::NOP,
                addressing_mode: AddressingMode::Implied,
                cycles: 2,
                bytes: 1,
            },
        }
    }

    /// Whether this instruction stands for a byte outside the opcode table:
    /// a NOP whose byte is not the one of NOP. Of a decoded instruction this
    /// says that its byte encodes no documented instruction.
    pub fn is_illegal(&self) -> (illegal: bool)
        ensures
            illegal == (self.itype == InstructionType::NOP && self.value != 0xEA),
            *self == Self::decoded(self.value) ==> illegal == !Self::legal(self.value),
    {
        self.itype == InstructionType::NOP && self.value != 0xEA
    }
}

/// Decodes a byte of the ADC group (add with carry).
fn adc(value: u8) -> (instruction: Instruction)
    requires
        Instruction::spec_operation(value) matches Some((InstructionType::ADC, _)),
    ensures
        instruction == Instruction::decoded(value),
{
    let (addressing_mode, cycles, bytes): (AddressingMode, u8, u8) = match value {
        0x69 => (AddressingMode::Immediate, 2, 2),
        0x65 => (AddressingMode::ZeroPage, 3, 2),
        0x75 => (AddressingMode::ZeroPageX, 4, 2),
        0x6D => (AddressingMode::Absolute, 4, 3),
        0x7D => (AddressingMode::AbsoluteX, 4, 3),
        0x79 => (AddressingMode::AbsoluteY, 4, 3),
        0x61 => (AddressingMode::IndirectX, 6, 2),
        // The one byte of the group that is left: 0x71.
        _ => (AddressingMode::IndirectY, 5, 2),
    };
    Instruction { value, itype: InstructionType::ADC, addressing_mode, cycles, bytes }
}

/// Decodes a byte of the SBC group (subtract with borrow).
fn sbc(value: u8) -> (instruction: Instruction)
    requires
        Instruction::spec_operation(value) matches Some((InstructionType::SBC, _)),
    ensures
        instruction == Instruction::decoded(value),
{
    let (addressing_mode, cycles, bytes): (AddressingMode, u8, u8) = match value {
        0xE9 => (AddressingMode::Immediate, 2, 2),
        0xE5 => (AddressingMode::ZeroPage, 3, 2),
        0xF5 => (AddressingMode::ZeroPageX, 4, 2),
        0xED => (AddressingMode::Absolute, 4, 3),
        0xFD => (AddressingMode::AbsoluteX, 4, 3),
        0xF9 => (AddressingMode::AbsoluteY, 4, 3),
        0xE1 => (AddressingMode::IndirectX, 6, 2),
        // The one byte of the group that is left: 0xF1.
        _ => (AddressingMode::IndirectY, 5, 2),
    };
    Instruction { value, itype: InstructionType::SBC, addressing_mode, cycles, bytes }
}

/// Decodes a byte of the AND group (bitwise and).
fn and(value: u8) -> (instruction: Instruction)
    requires
        Instruction::spec_operation(value) matches Some((InstructionType::AND, _)),
    ensures
        instruction == Instruction::decoded(value),
{
    let (addressing_mode, cycles, bytes): (AddressingMode, u8, u8) = match value {
        0x29 => (AddressingMode::Immediate, 2, 2),
        0x25 => (AddressingMode::ZeroPage, 3, 2),
        0x35 => (AddressingMode::ZeroPageX, 4, 2),
        0x2D => (AddressingMode::Absolute, 4, 3),
        0x3D => (AddressingMode::AbsoluteX, 4, 3),
        0x39 => (AddressingMode::AbsoluteY, 4, 3),
        0x21 => (AddressingMode::IndirectX, 6, 2),
        // The one byte of the group that is left: 0x31.
        _ => (AddressingMode::IndirectY, 5, 2),
    };
    Instruction { value, itype: InstructionType::AND, addressing_mode, cycles, bytes }
}

/// Decodes a byte of the ORA group (bitwise or).
fn ora(value: u8) -> (instruction: Instruction)
    requires
        Instruction::spec_operation(value) matches Some((InstructionType::ORA, _)),
    ensures
        instruction == Instruction::decoded(value),
{
    let (addressing_mode, cycles, bytes): (AddressingMode, u8, u8) = match value {
        0x09 => (AddressingMode::Immediate, 2, 2),
        0x05 => (AddressingMode::ZeroPage, 3, 2),
        0x15 => (AddressingMode::ZeroPageX, 4, 2),
        0x0D => (AddressingMode::Absolute, 4, 3),
        0x1D => (AddressingMode::AbsoluteX, 4, 3),
        0x19 => (AddressingMode::AbsoluteY, 4, 3),
        0x01 => (AddressingMode::IndirectX, 6, 2),
        // The one byte of the group that is left: 0x11.
        _ => (AddressingMode::IndirectY, 5, 2),
    };
    Instruction { value, itype: InstructionType::ORA, addressing_mode, cycles, bytes }
}

/// Decodes a byte of the EOR group (bitwise exclusive or).
fn eor(value: u8) -> (instruction: Instruction)
    requires
        Instruction::spec_operation(value) matches Some((InstructionType::EOR, _)),
    ensures
        instruction == Instruction::decoded(value),
{
    let (addressing_mode, cycles, bytes): (AddressingMode, u8, u8) = match value {
        0x49 => (AddressingMode::Immediate, 2, 2),
        0x45 => (AddressingMode::ZeroPage, 3, 2),
        0x55 => (AddressingMode::ZeroPageX, 4, 2),
        0x4D => (AddressingMode::Absolute, 4, 3),
        0x5D => (AddressingMode::AbsoluteX, 4, 3),
        0x59 => (AddressingMode::AbsoluteY, 4, 3),
        0x41 => (AddressingMode::IndirectX, 6, 2),
        // The one byte of the group that is left: 0x51.
        _ => (AddressingMode::IndirectY, 5, 2),
    };
    Instruction { value, itype: InstructionType::EOR, addressing_mode, cycles, bytes }
}

/// Decodes a byte of the CMP group (compare with the accumulator).
fn cmp(value: u8) -> (instruction: Instruction)
    requires
        Instruction::spec_operation(value) matches Some((InstructionType::CMP, _)),
    ensures
        instruction == Instruction::decoded(value),
{
    let (addressing_mode, cycles, bytes): (AddressingMode, u8, u8) = match value {
        0xC9 => (AddressingMode::Immediate, 2, 2),
        0xC5 => (AddressingMode::ZeroPage, 3, 2),
        0xD5 => (AddressingMode::ZeroPageX, 4, 2),
        0xCD => (AddressingMode::Absolute, 4, 3),
        0xDD => (AddressingMode::AbsoluteX, 4, 3),
        0xD9 => (AddressingMode::AbsoluteY, 4, 3),
        0xC1 => (AddressingMode::IndirectX, 6, 2),
        // The one byte of the group that is left: 0xD1.
        _ => (AddressingMode::IndirectY, 5, 2),
    };
    Instruction { value, itype: InstructionType::CMP, addressing_mode, cycles, bytes }
}

/// Decodes a byte of the CPX group (compare with X).
fn cpx(value: u8) -> (instruction: Instruction)
    requires
        Instruction::spec_operation(value) matches Some((InstructionType::CPX, _)),
    ensures
        instruction == Instruction::decoded(value),
{
    let (addressing_mode, cycles, bytes): (AddressingMode, u8, u8) = match value {
        0xE0 => (AddressingMode::Immediate, 2, 2),
        0xE4 => (AddressingMode::ZeroPage, 3, 2),
        // The one byte of the group that is left: 0xEC.
        _ => (AddressingMode::Absolute, 4, 3),
    };
    Instruction { value, itype: InstructionType::CPX, addressing_mode, cycles, bytes }
}

/// Decodes a byte of the CPY group (compare with Y).
fn cpy(value: u8) -> (instruction: Instruction)
    requires
        Instruction::spec_operation(value) matches Some((InstructionType::CPY, _)),
    ensures
        instruction == Instruction::decoded(value),
{
    let (addressing_mode, cycles, bytes): (AddressingMode, u8, u8) = match value {
        0xC0 => (AddressingMode::Immediate, 2, 2),
        0xC4 => (AddressingMode::ZeroPage, 3, 2),
        // The one byte of the group that is left: 0xCC.
        _ => (AddressingMode::Absolute, 4, 3),
    };
    Instruction { value, itype: InstructionType::CPY, addressing_mode, cycles, bytes }
}

/// Decodes a byte of the LDA group (load the accumulator).
fn lda(value: u8) -> (instruction: Instruction)
    requires
        Instruction::spec_operation(value) matches Some((InstructionType::LDA, _)),
    ensures
        instruction == Instruction::decoded(value),
{
    let (addressing_mode, cycles, bytes): (AddressingMode, u8, u8) = match value {
        0xA9 => (AddressingMode::Immediate, 2, 2),
        0xA5 => (AddressingMode::ZeroPage, 3, 2),
        0xB5 => (AddressingMode::ZeroPageX, 4, 2),
        0xAD => (AddressingMode::Absolute, 4, 3),
        0xBD => (AddressingMode::AbsoluteX, 4, 3),
        0xB9 => (AddressingMode::AbsoluteY, 4, 3),
        0xA1 => (AddressingMode::IndirectX, 6, 2),
        // The one byte of the group that is left: 0xB1.
        _ => (AddressingMode::IndirectY, 5, 2),
    };
    Instruction { value, itype: InstructionType::LDA, addressing_mode, cycles, bytes }
}

/// Decodes a byte of the LDX group (load X).
fn ldx(value: u8) -> (instruction: Instruction)
    requires
        Instruction::spec_operation(value) matches Some((InstructionType::LDX, _)),
    ensures
        instruction == Instruction::decoded(value),
{
    let (addressing_mode, cycles, bytes): (AddressingMode, u8, u8) = match value {
        0xA2 => (AddressingMode::Immediate, 2, 2),
        0xA6 => (AddressingMode::ZeroPage, 3, 2),
        0xB6 => (AddressingMode::ZeroPageY, 4, 2),
        0xAE => (AddressingMode::Absolute, 4, 3),
        // The one byte of the group that is left: 0xBE.
        _ => (AddressingMode::AbsoluteY, 4, 3),
    };
    Instruction { value, itype: InstructionType::LDX, addressing_mode, cycles, bytes }
}

/// Decodes a byte of the LDY group (load Y).
fn ldy(value: u8) -> (instruction: Instruction)
    requires
        Instruction::spec_operation(value) matches Some((InstructionType::LDY, _)),
    ensures
        instruction == Instruction::decoded(value),
{
    let (addressing_mode, cycles, bytes): (AddressingMode, u8, u8) = match value {
        0xA0 => (AddressingMode::Immediate, 2, 2),
        0xA4 => (AddressingMode::ZeroPage, 3, 2),
        0xB4 => (AddressingMode::ZeroPageX, 4, 2),
        0xAC => (AddressingMode::Absolute, 4, 3),
        // The one byte of the group that is left: 0xBC.
        _ => (AddressingMode::AbsoluteX, 4, 3),
    };
    Instruction { value, itype: InstructionType::LDY, addressing_mode, cycles, bytes }
}

/// Decodes a byte of the STA group (store the accumulator).
fn sta(value: u8) -> (instruction: Instruction)
    requires
        Instruction::spec_operation(value) matches Some((InstructionType::STA, _)),
    ensures
        instruction == Instruction::decoded(value),
{
    let (addressing_mode, cycles, bytes): (AddressingMode, u8, u8) = match value {
        0x85 => (AddressingMode::ZeroPage, 3, 2),
        0x95 => (AddressingMode::ZeroPageX, 4, 2),
        0x8D => (AddressingMode::Absolute, 4, 3),
        0x9D => (AddressingMode::AbsoluteX, 5, 3),
        0x99 => (AddressingMode::AbsoluteY, 5, 3),
        0x81 => (AddressingMode::IndirectX, 6, 2),
        // The one byte of the group that is left: 0x91.
        _ => (AddressingMode::IndirectY, 6, 2),
    };
    Instruction { value, itype: InstructionType::STA, addressing_mode, cycles, bytes }
}

/// Decodes a byte of the STX group (store X).
fn stx(value: u8) -> (instruction: Instruction)
    requires
        Instruction::spec_operation(value) matches Some((InstructionType::STX, _)),
    ensures
        instruction == Instruction::decoded(value),
{
    let (addressing_mode, cycles, bytes): (AddressingMode, u8, u8) = match value {
        0x86 => (AddressingMode::ZeroPage, 3, 2),
        0x96 => (AddressingMode::ZeroPageY, 4, 2),
        // The one byte of the group that is left: 0x8E.
        _ => (AddressingMode::Absolute, 4, 3),
    };
    Instruction { value, itype: InstructionType::STX, addressing_mode, cycles, bytes }
}

/// Decodes a byte of the STY group (store Y).
fn sty(value: u8) -> (instruction: Instruction)
    requires
        Instruction::spec_operation(value) matches Some((InstructionType::STY, _)),
    ensures
        instruction == Instruction::decoded(value),
{
    let (addressing_mode, cycles, bytes): (AddressingMode, u8, u8) = match value {
        0x84 => (AddressingMode::ZeroPage, 3, 2),
        0x94 => (AddressingMode::ZeroPageX, 4, 2),
        // The one byte of the group that is left: 0x8C.
        _ => (AddressingMode::Absolute, 4, 3),
    };
    Instruction { value, itype: InstructionType::STY, addressing_mode, cycles, bytes }
}

/// Decodes a byte of the INC group (increment memory).
fn inc(value: u8) -> (instruction: Instruction)
    requires
        Instruction::spec_operation(value) matches Some((InstructionType::INC, _)),
    ensures
        instruction == Instruction::decoded(value),
{
    let (addressing_mode, cycles, bytes): (AddressingMode, u8, u8) = match value {
        0xE6 => (AddressingMode::ZeroPage, 5, 2),
        0xF6 => (AddressingMode::ZeroPageX, 6, 2),
        0xEE => (AddressingMode::Absolute, 6, 3),
        // The one byte of the group that is left: 0xFE.
        _ => (AddressingMode::AbsoluteX, 7, 3),
    };
    Instruction { value, itype: InstructionType::INC, addressing_mode, cycles, bytes }
}

/// Decodes a byte of the DEC group (decrement memory).
fn dec(value: u8) -> (instruction: Instruction)
    requires
        Instruction::spec_operation(value) matches Some((InstructionType::DEC, _)),
    ensures
        instruction == Instruction::decoded(value),
{
    let (addressing_mode, cycles, bytes): (AddressingMode, u8, u8) = match value {
        0xC6 => (AddressingMode::ZeroPage, 5, 2),
        0xD6 => (AddressingMode::ZeroPageX, 6, 2),
        0xCE => (AddressingMode::Absolute, 6, 3),
        // The one byte of the group that is left: 0xDE.
        _ => (AddressingMode::AbsoluteX, 7, 3),
    };
    Instruction { value, itype: InstructionType::DEC, addressing_mode, cycles, bytes }
}

/// Decodes a byte of the ASL group (shift left).
fn asl(value: u8) -> (instruction: Instruction)
    requires
        Instruction::spec_operation(value) matches Some((InstructionType::ASL, _)),
    ensures
        instruction == Instruction::decoded(value),
{
    let (addressing_mode, cycles, bytes): (AddressingMode, u8, u8) = match value {
        0x0A => (AddressingMode::Accumulator, 2, 1),
        0x06 => (AddressingMode::ZeroPage, 5, 2),
        0x16 => (AddressingMode::ZeroPageX, 6, 2),
        0x0E => (AddressingMode::Absolute, 6, 3),
        // The one byte of the group that is left: 0x1E.
        _ => (AddressingMode::AbsoluteX, 7, 3),
    };
    Instruction { value, itype: InstructionType::ASL, addressing_mode, cycles, bytes }
}

/// Decodes a byte of the LSR group (shift right).
fn lsr(value: u8) -> (instruction: Instruction)
    requires
        Instruction::spec_operation(value) matches Some((InstructionType::LSR, _)),
    ensures
        instruction == Instruction::decoded(value),
{
    let (addressing_mode, cycles, bytes): (AddressingMode, u8, u8) = match value {
        0x4A => (AddressingMode::Accumulator, 2, 1),
        0x46 => (AddressingMode::ZeroPage, 5, 2),
        0x56 => (AddressingMode::ZeroPageX, 6, 2),
        0x4E => (AddressingMode::Absolute, 6, 3),
        // The one byte of the group that is left: 0x5E.
        _ => (AddressingMode::AbsoluteX, 7, 3),
    };
    Instruction { value, itype: InstructionType::LSR, addressing_mode, cycles, bytes }
}

/// Decodes a byte of the ROL group (rotate left).
fn rol(value: u8) -> (instruction: Instruction)
    requires
        Instruction::spec_operation(value) matches Some((InstructionType::ROL, _)),
    ensures
        instruction == Instruction::decoded(value),
{
    let (addressing_mode, cycles, bytes): (AddressingMode, u8, u8) = match value {
        0x2A => (AddressingMode::Accumulator, 2, 1),
        0x26 => (AddressingMode::ZeroPage, 5, 2),
        0x36 => (AddressingMode::ZeroPageX, 6, 2),
        0x2E => (AddressingMode::Absolute, 6, 3),
        // The one byte of the group that is left: 0x3E.
        _ => (AddressingMode::AbsoluteX, 7, 3),
    };
    Instruction { value, itype: InstructionType::ROL, addressing_mode, cycles, bytes }
}

/// Decodes a byte of the ROR group (rotate right).
fn ror(value: u8) -> (instruction: Instruction)
    requires
        Instruction::spec_operation(value) matches Some((InstructionType::ROR, _)),
    ensures
        instruction == Instruction::decoded(value),
{
    let (addressing_mode, cycles, bytes): (AddressingMode, u8, u8) = match value {
        0x6A => (AddressingMode::Accumulator, 2, 1),
        0x66 => (AddressingMode::ZeroPage, 5, 2),
        0x76 => (AddressingMode::ZeroPageX, 6, 2),
        0x6E => (AddressingMode::Absolute, 6, 3),
        // The one byte of the group that is left: 0x7E.
        _ => (AddressingMode::AbsoluteX, 7, 3),
    };
    Instruction { value, itype: InstructionType::ROR, addressing_mode, cycles, bytes }
}

/// Decodes a byte of the BIT group (bit test).
fn bit(value: u8) -> (instruction: Instruction)
    requires
        Instruction::spec_operation(value) matches Some((InstructionType::BIT, _)),
    ensures
        instruction == Instruction::decoded(value),
{
    let (addressing_mode, cycles, bytes): (AddressingMode, u8, u8) = match value {
        0x24 => (AddressingMode::ZeroPage, 3, 2),
        // The one byte of the group that is left: 0x2C.
        _ => (AddressingMode::Absolute, 4, 3),
    };
    Instruction { value, itype: InstructionType::BIT, addressing_mode, cycles, bytes }
}

/// Decodes a byte of the JMP group (jump).
fn jmp(value: u8) -> (instruction: Instruction)
    requires
        Instruction::spec_operation(value) matches Some((InstructionType::JMP, _)),
    ensures
        instruction == Instruction::decoded(value),
{
    let (addressing_mode, cycles, bytes): (AddressingMode, u8, u8) = match value {
        0x4C => (AddressingMode::Absolute, 3, 3),
        // The one byte of the group that is left: 0x6C.
        _ => (AddressingMode::Indirect, 5, 3),
    };
    Instruction { value, itype: InstructionType::JMP, addressing_mode, cycles, bytes }
}

} // verus!
