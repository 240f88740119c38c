//! The instruction set: operations, addressing modes and the decode table.

use vstd::prelude::*;

verus! {

/// What an instruction does once its operand is known.
#[derive(Clone, Copy, Debug, PartialEq, Eq, Structural)]
pub enum Operation {
    ADC,
    AND,
    ASL,
    BCC,
    BCS,
    BEQ,
    BIT,
    BMI,
    BNE,
    BPL,
    BRK,
    BVC,
    BVS,
    CLC,
    CLD,
    CLI,
    CLV,
    CMP,
    CPX,
    CPY,
    DEC,
    DEX,
    DEY,
    EOR,
    INC,
    INX,
    INY,
    JMP,
    JSR,
    LDA,
    LDX,
    LDY,
    LSR,
    NOP,
    ORA,
    PHA,
    PHP,
    PLA,
    PLP,
    ROL,
    ROR,
    RTI,
    RTS,
    SBC,
    SEC,
    SED,
    SEI,
    STA,
    STX,
    STY,
    TAX,
    TAY,
    TSX,
    TXA,
    TXS,
    TYA,
}

/// How an instruction finds its operand.
#[derive(Clone, Copy, Debug, PartialEq, Eq, Structural)]
pub enum AddressingMode {
    Absolute,
    AbsoluteXIndexed,
    AbsoluteYIndexed,
    Accumulator,
    Immediate,
    Implied,
    Indirect,
    IndirectXIndexed,
    IndirectYIndexed,
    Relative,
    ZeroPage,
    ZeroPageXIndexed,
    ZeroPageYIndexed,
}

/// How an instruction uses the bus once its address is known. This, not the
/// operation, decides how many accesses an addressing mode makes.
#[derive(Clone, Copy, Debug, PartialEq, Eq, Structural)]
pub enum InstructionType {
    /// Reads the operand and changes registers only.
    Read,
    /// Writes a register to the effective address without reading it.
    Write,
    /// Reads the operand, writes it back unchanged, then writes the result.
    ReadModifyWrite,
    /// Loads the program counter with the effective address.
    Jump,
    /// Pushes to or pulls from the stack.
    Stack,
    /// Adds a signed offset to the program counter if a flag test succeeds.
    Branch,
    /// Works on registers alone.
    Implied,
}

impl Operation {
    /// The bus behaviour of this operation.
    pub open spec fn category(self) -> InstructionType {
        match self {
            Operation::ADC
            | Operation::AND
            | Operation::BIT
            | Operation::CMP
            | Operation::CPX
            | Operation::CPY
            | Operation::EOR
            | Operation::LDA
            | Operation::LDX
            | Operation::LDY
            | Operation::ORA
            | Operation::SBC => InstructionType::Read,
            Operation::STA | Operation::STX | Operation::STY => InstructionType::Write,
            Operation::ASL
            | Operation::DEC
            | Operation::INC
            | Operation::LSR
            | Operation::ROL
            | Operation::ROR => InstructionType::ReadModifyWrite,
            Operation::JMP | Operation::JSR => InstructionType::Jump,
            Operation::BRK
            | Operation::PHA
            | Operation::PHP
            | Operation::PLA
            | Operation::PLP
            | Operation::RTI
            | Operation::RTS => InstructionType::Stack,
            Operation::BCC
            | Operation::BCS
            | Operation::BEQ
            | Operation::BMI
            | Operation::BNE
            | Operation::BPL
            | Operation::BVC
            | Operation::BVS => InstructionType::Branch,
            Operation::CLC
            | Operation::CLD
            | Operation::CLI
            | Operation::CLV
            | Operation::DEX
            | Operation::DEY
            | Operation::INX
            | Operation::INY
            | Operation::NOP
            | Operation::SEC
            | Operation::SED
            | Operation::SEI
            | Operation::TAX
            | Operation::TAY
            | Operation::TSX
            | Operation::TXA
            | Operation::TXS
            | Operation::TYA => InstructionType::Implied,
        }
    }

    /// The bus behaviour of this operation.
    #[verifier::when_used_as_spec(category)]
    pub fn instruction_type(self) -> (category: InstructionType)
        ensures
            category == self.category(),
    {
        match self {
            Operation::ADC
            | Operation::AND
            | Operation::BIT
            | Operation::CMP
            | Operation::CPX
            | Operation::CPY
            | Operation::EOR
            | Operation::LDA
            | Operation::LDX
            | Operation::LDY
            | Operation::ORA
            | Operation::SBC => InstructionType::Read,
            Operation::STA | Operation::STX | Operation::STY => InstructionType::Write,
            Operation::ASL
            | Operation::DEC
            | Operation::INC
            | Operation::LSR
            | Operation::ROL
            | Operation::ROR => InstructionType::ReadModifyWrite,
            Operation::JMP | Operation::JSR => InstructionType::Jump,
            Operation::BRK
            | Operation::PHA
            | Operation::PHP
            | Operation::PLA
            | Operation::PLP
            | Operation::RTI
            | Operation::RTS => InstructionType::Stack,
            Operation::BCC
            | Operation::BCS
            | Operation::BEQ
            | Operation::BMI
            | Operation::BNE
            | Operation::BPL
            | Operation::BVC
            | Operation::BVS => InstructionType::Branch,
            _ => InstructionType::Implied,
        }
    }
}

impl AddressingMode {
    /// Whether the mode names a place in memory (everything but `Implied`,
    /// `Accumulator`, `Immediate`, `Relative` and `Indirect`).
    pub open spec fn addresses_memory(self) -> bool {
        match self {
            AddressingMode::Absolute
            | AddressingMode::AbsoluteXIndexed
            | AddressingMode::AbsoluteYIndexed
            | AddressingMode::IndirectXIndexed
            | AddressingMode::IndirectYIndexed
            | AddressingMode::ZeroPage
            | AddressingMode::ZeroPageXIndexed
            | AddressingMode::ZeroPageYIndexed => true,
            _ => false,
        }
    }

    /// Whether the instruction has no operand bytes.
    pub open spec fn is_implicit(self) -> bool {
        self == AddressingMode::Implied || self == AddressingMode::Accumulator
    }
}

impl AddressingMode {
    /// Whether the mode names a place in memory.
    pub fn names_memory(self) -> (memory: bool)
        ensures
            memory == self.addresses_memory(),
    {
        match self {
            AddressingMode::Absolute
            | AddressingMode::AbsoluteXIndexed
            | AddressingMode::AbsoluteYIndexed
            | AddressingMode::IndirectXIndexed
            | AddressingMode::IndirectYIndexed
            | AddressingMode::ZeroPage
            | AddressingMode::ZeroPageXIndexed
            | AddressingMode::ZeroPageYIndexed => true,
            _ => false,
        }
    }

    /// Whether the instruction has no operand bytes.
    pub fn has_no_operand(self) -> (implicit: bool)
        ensures
            implicit == self.is_implicit(),
    {
        match self {
            AddressingMode::Implied | AddressingMode::Accumulator => true,
            _ => false,
        }
    }
}

/// One entry of the decode table.
#[derive(Clone, Copy, Debug, PartialEq, Eq, Structural)]
pub struct Opcode {
    pub operation: Operation,
    pub address_mode: AddressingMode,
}

impl Opcode {
    /// The instruction with the given operation and addressing mode.
    pub open spec fn spec_new(operation: Operation, address_mode: AddressingMode) -> Opcode {
        Opcode { operation, address_mode }
    }

    /// The instruction with the given operation and addressing mode.
    #[verifier::when_used_as_spec(spec_new)]
    pub fn new(operation: Operation, address_mode: AddressingMode) -> (opcode: Opcode)
        ensures
            opcode == Opcode::spec_new(operation, address_mode),
    {
        Opcode { operation, address_mode }
    }

    /// Whether the addressing mode is one that the operation's bus behaviour
    /// allows. Every table entry is valid, and the pipeline only ever holds
    /// valid opcodes.
    pub open spec fn valid(self) -> bool {
        match self.operation.category() {
            InstructionType::Read => self.address_mode.addresses_memory() || self.address_mode
                == AddressingMode::Immediate,
            InstructionType::Write => self.address_mode.addresses_memory(),
            InstructionType::ReadModifyWrite => self.address_mode.addresses_memory()
                || self.address_mode == AddressingMode::Accumulator,
            InstructionType::Jump => self.address_mode == AddressingMode::Absolute || (
            self.operation == Operation::JMP && self.address_mode == AddressingMode::Indirect),
            InstructionType::Stack | InstructionType::Implied => self.address_mode
                == AddressingMode::Implied,
            InstructionType::Branch => self.address_mode == AddressingMode::Relative,
        }
    }

    /// Whether the addressing mode is one that the operation allows.
    pub fn is_valid(&self) -> (valid: bool)
        ensures
            valid == self.valid(),
    {
        let mode = self.address_mode;
        match self.operation.instruction_type() {
            InstructionType::Read => mode.names_memory() || mode == AddressingMode::Immediate,
            InstructionType::Write => mode.names_memory(),
            InstructionType::ReadModifyWrite => mode.names_memory() || mode
                == AddressingMode::Accumulator,
            InstructionType::Jump => mode == AddressingMode::Absolute || (self.operation
                == Operation::JMP && mode == AddressingMode::Indirect),
            InstructionType::Stack | InstructionType::Implied => mode == AddressingMode::Implied,
            InstructionType::Branch => mode == AddressingMode::Relative,
        }
    }

    /// The decode table: the instruction that `byte` encodes. The 151
    /// documented encodings decode to their instruction; every other byte is
    /// a one-byte, two-cycle `NOP`.
    #[verifier::opaque]
    pub open spec fn of_byte(byte: u8) -> Opcode {
        match byte {
            0x00 => Opcode::new(Operation::BRK, AddressingMode::Implied),
            0x01 => Opcode::new(Operation::ORA, AddressingMode::IndirectXIndexed),
            0x05 => Opcode::new(Operation::ORA, AddressingMode::ZeroPage),
            0x06 => Opcode::new(Operation::ASL, AddressingMode::ZeroPage),
            0x08 => Opcode::new(Operation::PHP, AddressingMode::Implied),
            0x09 => Opcode::new(Operation::ORA, AddressingMode::Immediate),
            0x0A => Opcode::new(Operation::ASL, AddressingMode::Accumulator),
            0x0D => Opcode::new(Operation::ORA, AddressingMode::Absolute),
            0x0E => Opcode::new(Operation::ASL, AddressingMode::Absolute),
            0x10 => Opcode::new(Operation::BPL, AddressingMode::Relative),
            0x11 => Opcode::new(Operation::ORA, AddressingMode::IndirectYIndexed),
            0x15 => Opcode::new(Operation::ORA, AddressingMode::ZeroPageXIndexed),
            0x16 => Opcode::new(Operation::ASL, AddressingMode::ZeroPageXIndexed),
            0x18 => Opcode::new(Operation::CLC, AddressingMode::Implied),
            0x19 => Opcode::new(Operation::ORA, AddressingMode::AbsoluteYIndexed),
            0x1D => Opcode::new(Operation::ORA, AddressingMode::AbsoluteXIndexed),
            0x1E => Opcode::new(Operation::ASL, AddressingMode::AbsoluteXIndexed),
            0x20 => Opcode::new(Operation::JSR, AddressingMode::Absolute),
            0x21 => Opcode::new(Operation::AND, AddressingMode::IndirectXIndexed),
            0x24 => Opcode::new(Operation::BIT, AddressingMode::ZeroPage),
            0x25 => Opcode::new(Operation::AND, AddressingMode::ZeroPage),
            0x26 => Opcode::new(Operation::ROL, AddressingMode::ZeroPage),
            0x28 => Opcode::new(Operation::PLP, AddressingMode::Implied),
            0x29 => Opcode::new(Operation::AND, AddressingMode::Immediate),
            0x2A => Opcode::new(Operation::ROL, AddressingMode::Accumulator),
            0x2C => Opcode::new(Operation::BIT, AddressingMode::Absolute),
            0x2D => Opcode::new(Operation::AND, AddressingMode::Absolute),
            0x2E => Opcode::new(Operation::ROL, AddressingMode::Absolute),
            0x30 => Opcode::new(Operation::BMI, AddressingMode::Relative),
            0x31 => Opcode::new(Operation::AND, AddressingMode::IndirectYIndexed),
            0x35 => Opcode::new(Operation::AND, AddressingMode::ZeroPageXIndexed),
            0x36 => Opcode::new(Operation::ROL, AddressingMode::ZeroPageXIndexed),
            0x38 => Opcode::new(Operation::SEC, AddressingMode::Implied),
            0x39 => Opcode::new(Operation::AND, AddressingMode::AbsoluteYIndexed),
            0x3D => Opcode::new(Operation::AND, AddressingMode::AbsoluteXIndexed),
            0x3E => Opcode::new(Operation::ROL, AddressingMode::AbsoluteXIndexed),
            0x40 => Opcode::new(Operation::RTI, AddressingMode::Implied),
            0x41 => Opcode::new(Operation::EOR, AddressingMode::IndirectXIndexed),
            0x45 => Opcode::new(Operation::EOR, AddressingMode::ZeroPage),
            0x46 => Opcode::new(Operation::LSR, AddressingMode::ZeroPage),
            0x48 => Opcode::new(Operation::PHA, AddressingMode::Implied),
            0x49 => Opcode::new(Operation::EOR, AddressingMode::Immediate),
            0x4A => Opcode::new(Operation::LSR, AddressingMode::Accumulator),
            0x4C => Opcode::new(Operation::JMP, AddressingMode::Absolute),
            0x4D => Opcode::new(Operation::EOR, AddressingMode::Absolute),
            0x4E => Opcode::new(Operation::LSR, AddressingMode::Absolute),
            0x50 => Opcode::new(Operation::BVC, AddressingMode::Relative),
            0x51 => Opcode::new(Operation::EOR, AddressingMode::IndirectYIndexed),
            0x55 => Opcode::new(Operation::EOR, AddressingMode::ZeroPageXIndexed),
            0x56 => Opcode::new(Operation::LSR, AddressingMode::ZeroPageXIndexed),
            0x58 => Opcode::new(Operation::CLI, AddressingMode::Implied),
            0x59 => Opcode::new(Operation::EOR, AddressingMode::AbsoluteYIndexed),
            0x5D => Opcode::new(Operation::EOR, AddressingMode::AbsoluteXIndexed),
            0x5E => Opcode::new(Operation::LSR, AddressingMode::AbsoluteXIndexed),
            0x60 => Opcode::new(Operation::RTS, AddressingMode::Implied),
            0x61 => Opcode::new(Operation::ADC, AddressingMode::IndirectXIndexed),
            0x65 => Opcode::new(Operation::ADC, AddressingMode::ZeroPage),
            0x66 => Opcode::new(Operation::ROR, AddressingMode::ZeroPage),
            0x68 => Opcode::new(Operation::PLA, AddressingMode::Implied),
            0x69 => Opcode::new(Operation::ADC, AddressingMode::Immediate),
            0x6A => Opcode::new(Operation::ROR, AddressingMode::Accumulator),
            0x6C => Opcode::new(Operation::JMP, AddressingMode::Indirect),
            0x6D => Opcode::new(Operation::ADC, AddressingMode::Absolute),
            0x6E => Opcode::new(Operation::ROR, AddressingMode::Absolute),
            0x70 => Opcode::new(Operation::BVS, AddressingMode::Relative),
            0x71 => Opcode::new(Operation::ADC, AddressingMode::IndirectYIndexed),
            0x75 => Opcode::new(Operation::ADC, AddressingMode::ZeroPageXIndexed),
            0x76 => Opcode::new(Operation::ROR, AddressingMode::ZeroPageXIndexed),
            0x78 => Opcode::new(Operation::SEI, AddressingMode::Implied),
            0x79 => Opcode::new(Operation::ADC, AddressingMode::AbsoluteYIndexed),
            0x7D => Opcode::new(Operation::ADC, AddressingMode::AbsoluteXIndexed),
            0x7E => Opcode::new(Operation::ROR, AddressingMode::AbsoluteXIndexed),
            0x81 => Opcode::new(Operation::STA, AddressingMode::IndirectXIndexed),
            0x84 => Opcode::new(Operation::STY, AddressingMode::ZeroPage),
            0x85 => Opcode::new(Operation::STA, AddressingMode::ZeroPage),
            0x86 => Opcode::new(Operation::STX, AddressingMode::ZeroPage),
            0x88 => Opcode::new(Operation::DEY, AddressingMode::Implied),
            0x8A => Opcode::new(Operation::TXA, AddressingMode::Implied),
            0x8C => Opcode::new(Operation::STY, AddressingMode::Absolute),
            0x8D => Opcode::new(Operation::STA, AddressingMode::Absolute),
            0x8E => Opcode::new(Operation::STX, AddressingMode::Absolute),
            0x90 => Opcode::new(Operation::BCC, AddressingMode::Relative),
            0x91 => Opcode::new(Operation::STA, AddressingMode::IndirectYIndexed),
            0x94 => Opcode::new(Operation::STY, AddressingMode::ZeroPageXIndexed),
            0x95 => Opcode::new(Operation::STA, AddressingMode::ZeroPageXIndexed),
            0x96 => Opcode::new(Operation::STX, AddressingMode::ZeroPageYIndexed),
            0x98 => Opcode::new(Operation::TYA, AddressingMode::Implied),
            0x99 => Opcode::new(Operation::STA, AddressingMode::AbsoluteYIndexed),
            0x9A => Opcode::new(Operation::TXS, AddressingMode::Implied),
            0x9D => Opcode::new(Operation::STA, AddressingMode::AbsoluteXIndexed),
            0xA0 => Opcode::new(Operation::LDY, AddressingMode::Immediate),
            0xA1 => Opcode::new(Operation::LDA, AddressingMode::IndirectXIndexed),
            0xA2 => Opcode::new(Operation::LDX, AddressingMode::Immediate),
            0xA4 => Opcode::new(Operation::LDY, AddressingMode::ZeroPage),
            0xA5 => Opcode::new(Operation::LDA, AddressingMode::ZeroPage),
            0xA6 => Opcode::new(Operation::LDX, AddressingMode::ZeroPage),
            0xA8 => Opcode::new(Operation::TAY, AddressingMode::Implied),
            0xA9 => Opcode::new(Operation::LDA, AddressingMode::Immediate),
            0xAA => Opcode::new(Operation::TAX, AddressingMode::Implied),
            0xAC => Opcode::new(Operation::LDY, AddressingMode::Absolute),
            0xAD => Opcode::new(Operation::LDA, AddressingMode::Absolute),
            0xAE => Opcode::new(Operation::LDX, AddressingMode::Absolute),
            0xB0 => Opcode::new(Operation::BCS, AddressingMode::Relative),
            0xB1 => Opcode::new(Operation::LDA, AddressingMode::IndirectYIndexed),
            0xB4 => Opcode::new(Operation::LDY, AddressingMode::ZeroPageXIndexed),
            0xB5 => Opcode::new(Operation::LDA, AddressingMode::ZeroPageXIndexed),
            0xB6 => Opcode::new(Operation::LDX, AddressingMode::ZeroPageYIndexed),
            0xB8 => Opcode::new(Operation::CLV, AddressingMode::Implied),
            0xB9 => Opcode::new(Operation::LDA, AddressingMode::AbsoluteYIndexed),
            0xBA => Opcode::new(Operation::TSX, AddressingMode::Implied),
            0xBC => Opcode::new(Operation::LDY, AddressingMode::AbsoluteXIndexed),
            0xBD => Opcode::new(Operation::LDA, AddressingMode::AbsoluteXIndexed),
            0xBE => Opcode::new(Operation::LDX, AddressingMode::AbsoluteYIndexed),
            0xC0 => Opcode::new(Operation::CPY, AddressingMode::Immediate),
            0xC1 => Opcode::new(Operation::CMP, AddressingMode::IndirectXIndexed),
            0xC4 => Opcode::new(Operation::CPY, AddressingMode::ZeroPage),
            0xC5 => Opcode::new(Operation::CMP, AddressingMode::ZeroPage),
            0xC6 => Opcode::new(Operation::DEC, AddressingMode::ZeroPage),
            0xC8 => Opcode::new(Operation::INY, AddressingMode::Implied),
            0xC9 => Opcode::new(Operation::CMP, AddressingMode::Immediate),
            0xCA => Opcode::new(Operation::DEX, AddressingMode::Implied),
            0xCC => Opcode::new(Operation::CPY, AddressingMode::Absolute),
            0xCD => Opcode::new(Operation::CMP, AddressingMode::Absolute),
            0xCE => Opcode::new(Operation::DEC, AddressingMode::Absolute),
            0xD0 => Opcode::new(Operation::BNE, AddressingMode::Relative),
            0xD1 => Opcode::new(Operation::CMP, AddressingMode::IndirectYIndexed),
            0xD5 => Opcode::new(Operation::CMP, AddressingMode::ZeroPageXIndexed),
            0xD6 => Opcode::new(Operation::DEC, AddressingMode::ZeroPageXIndexed),
            0xD8 => Opcode::new(Operation::CLD, AddressingMode::Implied),
            0xD9 => Opcode::new(Operation::CMP, AddressingMode::AbsoluteYIndexed),
            0xDD => Opcode::new(Operation::CMP, AddressingMode::AbsoluteXIndexed),
            0xDE => Opcode::new(Operation::DEC, AddressingMode::AbsoluteXIndexed),
            0xE0 => Opcode::new(Operation::CPX, AddressingMode::Immediate),
            0xE1 => Opcode::new(Operation::SBC, AddressingMode::IndirectXIndexed),
            0xE4 => Opcode::new(Operation::CPX, AddressingMode::ZeroPage),
            0xE5 => Opcode::new(Operation::SBC, AddressingMode::ZeroPage),
            0xE6 => Opcode::new(Operation::INC, AddressingMode::ZeroPage),
            0xE8 => Opcode::new(Operation::INX, AddressingMode::Implied),
            0xE9 => Opcode::new(Operation::SBC, AddressingMode::Immediate),
            0xEA => Opcode::new(Operation::NOP, AddressingMode::Implied),
            0xEC => Opcode::new(Operation::CPX, AddressingMode::Absolute),
            0xED => Opcode::new(Operation::SBC, AddressingMode::Absolute),
            0xEE => Opcode::new(Operation::INC, AddressingMode::Absolute),
            0xF0 => Opcode::new(Operation::BEQ, AddressingMode::Relative),
            0xF1 => Opcode::new(Operation::SBC, AddressingMode::IndirectYIndexed),
            0xF5 => Opcode::new(Operation::SBC, AddressingMode::ZeroPageXIndexed),
            0xF6 => Opcode::new(Operation::INC, AddressingMode::ZeroPageXIndexed),
            0xF8 => Opcode::new(Operation::SED, AddressingMode::Implied),
            0xF9 => Opcode::new(Operation::SBC, AddressingMode::AbsoluteYIndexed),
            0xFD => Opcode::new(Operation::SBC, AddressingMode::AbsoluteXIndexed),
            0xFE => Opcode::new(Operation::INC, AddressingMode::AbsoluteXIndexed),
            _ => Opcode::new(Operation::NOP, AddressingMode::Implied),
        }
    }

    /// Looks `byte` up in the decode table.
    pub fn decode(byte: u8) -> (opcode: Opcode)
        ensures
            opcode == Opcode::of_byte(byte),
            opcode.valid(),
    {
        proof {
            reveal(Opcode::of_byte);
        }
        match byte {
            0x00 => Opcode::new(Operation::BRK, AddressingMode::Implied),
            0x01 => Opcode::new(Operation::ORA, AddressingMode::IndirectXIndexed),
            0x05 => Opcode::new(Operation::ORA, AddressingMode::ZeroPage),
            0x06 => Opcode::new(Operation::ASL, AddressingMode::ZeroPage),
            0x08 => Opcode::new(Operation::PHP, AddressingMode::Implied),
            0x09 => Opcode::new(Operation::ORA, AddressingMode::Immediate),
            0x0A => Opcode::new(Operation::ASL, AddressingMode::Accumulator),
            0x0D => Opcode::new(Operation::ORA, AddressingMode::Absolute),
            0x0E => Opcode::new(Operation::ASL, AddressingMode::Absolute),
            0x10 => Opcode::new(Operation::BPL, AddressingMode::Relative),
            0x11 => Opcode::new(Operation::ORA, AddressingMode::IndirectYIndexed),
            0x15 => Opcode::new(Operation::ORA, AddressingMode::ZeroPageXIndexed),
            0x16 => Opcode::new(Operation::ASL, AddressingMode::ZeroPageXIndexed),
            0x18 => Opcode::new(Operation::CLC, AddressingMode::Implied),
            0x19 => Opcode::new(Operation::ORA, AddressingMode::AbsoluteYIndexed),
            0x1D => Opcode::new(Operation::ORA, AddressingMode::AbsoluteXIndexed),
            0x1E => Opcode::new(Operation::ASL, AddressingMode::AbsoluteXIndexed),
            0x20 => Opcode::new(Operation::JSR, AddressingMode::Absolute),
            0x21 => Opcode::new(Operation::AND, AddressingMode::IndirectXIndexed),
            0x24 => Opcode::new(Operation::BIT, AddressingMode::ZeroPage),
            0x25 => Opcode::new(Operation::AND, AddressingMode::ZeroPage),
            0x26 => Opcode::new(Operation::ROL, AddressingMode::ZeroPage),
            0x28 => Opcode::new(Operation::PLP, AddressingMode::Implied),
            0x29 => Opcode::new(Operation::AND, AddressingMode::Immediate),
            0x2A => Opcode::new(Operation::ROL, AddressingMode::Accumulator),
            0x2C => Opcode::new(Operation::BIT, AddressingMode::Absolute),
            0x2D => Opcode::new(Operation::AND, AddressingMode::Absolute),
            0x2E => Opcode::new(Operation::ROL, AddressingMode::Absolute),
            0x30 => Opcode::new(Operation::BMI, AddressingMode::Relative),
            0x31 => Opcode::new(Operation::AND, AddressingMode::IndirectYIndexed),
            0x35 => Opcode::new(Operation::AND, AddressingMode::ZeroPageXIndexed),
            0x36 => Opcode::new(Operation::ROL, AddressingMode::ZeroPageXIndexed),
            0x38 => Opcode::new(Operation::SEC, AddressingMode::Implied),
            0x39 => Opcode::new(Operation::AND, AddressingMode::AbsoluteYIndexed),
            0x3D => Opcode::new(Operation::AND, AddressingMode::AbsoluteXIndexed),
            0x3E => Opcode::new(Operation::ROL, AddressingMode::AbsoluteXIndexed),
            0x40 => Opcode::new(Operation::RTI, AddressingMode::Implied),
            0x41 => Opcode::new(Operation::EOR, AddressingMode::IndirectXIndexed),
            0x45 => Opcode::new(Operation::EOR, AddressingMode::ZeroPage),
            0x46 => Opcode::new(Operation::LSR, AddressingMode::ZeroPage),
            0x48 => Opcode::new(Operation::PHA, AddressingMode::Implied),
            0x49 => Opcode::new(Operation::EOR, AddressingMode::Immediate),
            0x4A => Opcode::new(Operation::LSR, AddressingMode::Accumulator),
            0x4C => Opcode::new(Operation::JMP, AddressingMode::Absolute),
            0x4D => Opcode::new(Operation::EOR, AddressingMode::Absolute),
            0x4E => Opcode::new(Operation::LSR, AddressingMode::Absolute),
            0x50 => Opcode::new(Operation::BVC, AddressingMode::Relative),
            0x51 => Opcode::new(Operation::EOR, AddressingMode::IndirectYIndexed),
            0x55 => Opcode::new(Operation::EOR, AddressingMode::ZeroPageXIndexed),
            0x56 => Opcode::new(Operation::LSR, AddressingMode::ZeroPageXIndexed),
            0x58 => Opcode::new(Operation::CLI, AddressingMode::Implied),
            0x59 => Opcode::new(Operation::EOR, AddressingMode::AbsoluteYIndexed),
            0x5D => Opcode::new(Operation::EOR, AddressingMode::AbsoluteXIndexed),
            0x5E => Opcode::new(Operation::LSR, AddressingMode::AbsoluteXIndexed),
            0x60 => Opcode::new(Operation::RTS, AddressingMode::Implied),
            0x61 => Opcode::new(Operation::ADC, AddressingMode::IndirectXIndexed),
            0x65 => Opcode::new(Operation::ADC, AddressingMode::ZeroPage),
            0x66 => Opcode::new(Operation::ROR, AddressingMode::ZeroPage),
            0x68 => Opcode::new(Operation::PLA, AddressingMode::Implied),
            0x69 => Opcode::new(Operation::ADC, AddressingMode::Immediate),
            0x6A => Opcode::new(Operation::ROR, AddressingMode::Accumulator),
            0x6C => Opcode::new(Operation::JMP, AddressingMode::Indirect),
            0x6D => Opcode::new(Operation::ADC, AddressingMode::Absolute),
            0x6E => Opcode::new(Operation::ROR, AddressingMode::Absolute),
            0x70 => Opcode::new(Operation::BVS, AddressingMode::Relative),
            0x71 => Opcode::new(Operation::ADC, AddressingMode::IndirectYIndexed),
            0x75 => Opcode::new(Operation::ADC, AddressingMode::ZeroPageXIndexed),
            0x76 => Opcode::new(Operation::ROR, AddressingMode::ZeroPageXIndexed),
            0x78 => Opcode::new(Operation::SEI, AddressingMode::Implied),
            0x79 => Opcode::new(Operation::ADC, AddressingMode::AbsoluteYIndexed),
            0x7D => Opcode::new(Operation::ADC, AddressingMode::AbsoluteXIndexed),
            0x7E => Opcode::new(Operation::ROR, AddressingMode::AbsoluteXIndexed),
            0x81 => Opcode::new(Operation::STA, AddressingMode::IndirectXIndexed),
            0x84 => Opcode::new(Operation::STY, AddressingMode::ZeroPage),
            0x85 => Opcode::new(Operation::STA, AddressingMode::ZeroPage),
            0x86 => Opcode::new(Operation::STX, AddressingMode::ZeroPage),
            0x88 => Opcode::new(Operation::DEY, AddressingMode::Implied),
            0x8A => Opcode::new(Operation::TXA, AddressingMode::Implied),
            0x8C => Opcode::new(Operation::STY, AddressingMode::Absolute),
            0x8D => Opcode::new(Operation::STA, AddressingMode::Absolute),
            0x8E => Opcode::new(Operation::STX, AddressingMode::Absolute),
            0x90 => Opcode::new(Operation::BCC, AddressingMode::Relative),
            0x91 => Opcode::new(Operation::STA, AddressingMode::IndirectYIndexed),
            0x94 => Opcode::new(Operation::STY, AddressingMode::ZeroPageXIndexed),
            0x95 => Opcode::new(Operation::STA, AddressingMode::ZeroPageXIndexed),
            0x96 => Opcode::new(Operation::STX, AddressingMode::ZeroPageYIndexed),
            0x98 => Opcode::new(Operation::TYA, AddressingMode::Implied),
            0x99 => Opcode::new(Operation::STA, AddressingMode::AbsoluteYIndexed),
            0x9A => Opcode::new(Operation::TXS, AddressingMode::Implied),
            0x9D => Opcode::new(Operation::STA, AddressingMode::AbsoluteXIndexed),
            0xA0 => Opcode::new(Operation::LDY, AddressingMode::Immediate),
            0xA1 => Opcode::new(Operation::LDA, AddressingMode::IndirectXIndexed),
            0xA2 => Opcode::new(Operation::LDX, AddressingMode::Immediate),
            0xA4 => Opcode::new(Operation::LDY, AddressingMode::ZeroPage),
            0xA5 => Opcode::new(Operation::LDA, AddressingMode::ZeroPage),
            0xA6 => Opcode::new(Operation::LDX, AddressingMode::ZeroPage),
            0xA8 => Opcode::new(Operation::TAY, AddressingMode::Implied),
            0xA9 => Opcode::new(Operation::LDA, AddressingMode::Immediate),
            0xAA => Opcode::new(Operation::TAX, AddressingMode::Implied),
            0xAC => Opcode::new(Operation::LDY, AddressingMode::Absolute),
            0xAD => Opcode::new(Operation::LDA, AddressingMode::Absolute),
            0xAE => Opcode::new(Operation::LDX, AddressingMode::Absolute),
            0xB0 => Opcode::new(Operation::BCS, AddressingMode::Relative),
            0xB1 => Opcode::new(Operation::LDA, AddressingMode::IndirectYIndexed),
            0xB4 => Opcode::new(Operation::LDY, AddressingMode::ZeroPageXIndexed),
            0xB5 => Opcode::new(Operation::LDA, AddressingMode::ZeroPageXIndexed),
            0xB6 => Opcode::new(Operation::LDX, AddressingMode::ZeroPageYIndexed),
            0xB8 => Opcode::new(Operation::CLV, AddressingMode::Implied),
            0xB9 => Opcode::new(Operation::LDA, AddressingMode::AbsoluteYIndexed),
            0xBA => Opcode::new(Operation::TSX, AddressingMode::Implied),
            0xBC => Opcode::new(Operation::LDY, AddressingMode::AbsoluteXIndexed),
            0xBD => Opcode::new(Operation::LDA, AddressingMode::AbsoluteXIndexed),
            0xBE => Opcode::new(Operation::LDX, AddressingMode::AbsoluteYIndexed),
            0xC0 => Opcode::new(Operation::CPY, AddressingMode::Immediate),
            0xC1 => Opcode::new(Operation::CMP, AddressingMode::IndirectXIndexed),
            0xC4 => Opcode::new(Operation::CPY, AddressingMode::ZeroPage),
            0xC5 => Opcode::new(Operation::CMP, AddressingMode::ZeroPage),
            0xC6 => Opcode::new(Operation::DEC, AddressingMode::ZeroPage),
            0xC8 => Opcode::new(Operation::INY, AddressingMode::Implied),
            0xC9 => Opcode::new(Operation::CMP, AddressingMode::Immediate),
            0xCA => Opcode::new(Operation::DEX, AddressingMode::Implied),
            0xCC => Opcode::new(Operation::CPY, AddressingMode::Absolute),
            0xCD => Opcode::new(Operation::CMP, AddressingMode::Absolute),
            0xCE => Opcode::new(Operation::DEC, AddressingMode::Absolute),
            0xD0 => Opcode::new(Operation::BNE, AddressingMode::Relative),
            0xD1 => Opcode::new(Operation::CMP, AddressingMode::IndirectYIndexed),
            0xD5 => Opcode::new(Operation::CMP, AddressingMode::ZeroPageXIndexed),
            0xD6 => Opcode::new(Operation::DEC, AddressingMode::ZeroPageXIndexed),
            0xD8 => Opcode::new(Operation::CLD, AddressingMode::Implied),
            0xD9 => Opcode::new(Operation::CMP, AddressingMode::AbsoluteYIndexed),
            0xDD => Opcode::new(Operation::CMP, AddressingMode::AbsoluteXIndexed),
            0xDE => Opcode::new(Operation::DEC, AddressingMode::AbsoluteXIndexed),
            0xE0 => Opcode::new(Operation::CPX, AddressingMode::Immediate),
            0xE1 => Opcode::new(Operation::SBC, AddressingMode::IndirectXIndexed),
            0xE4 => Opcode::new(Operation::CPX, AddressingMode::ZeroPage),
            0xE5 => Opcode::new(Operation::SBC, AddressingMode::ZeroPage),
            0xE6 => Opcode::new(Operation::INC, AddressingMode::ZeroPage),
            0xE8 => Opcode::new(Operation::INX, AddressingMode::Implied),
            0xE9 => Opcode::new(Operation::SBC, AddressingMode::Immediate),
            0xEA => Opcode::new(Operation::NOP, AddressingMode::Implied),
            0xEC => Opcode::new(Operation::CPX, AddressingMode::Absolute),
            0xED => Opcode::new(Operation::SBC, AddressingMode::Absolute),
            0xEE => Opcode::new(Operation::INC, AddressingMode::Absolute),
            0xF0 => Opcode::new(Operation::BEQ, AddressingMode::Relative),
            0xF1 => Opcode::new(Operation::SBC, AddressingMode::IndirectYIndexed),
            0xF5 => Opcode::new(Operation::SBC, AddressingMode::ZeroPageXIndexed),
            0xF6 => Opcode::new(Operation::INC, AddressingMode::ZeroPageXIndexed),
            0xF8 => Opcode::new(Operation::SED, AddressingMode::Implied),
            0xF9 => Opcode::new(Operation::SBC, AddressingMode::AbsoluteYIndexed),
            0xFD => Opcode::new(Operation::SBC, AddressingMode::AbsoluteXIndexed),
            0xFE => Opcode::new(Operation::INC, AddressingMode::AbsoluteXIndexed),
            _ => Opcode::new(Operation::NOP, AddressingMode::Implied),
        }
    }
}

impl Opcode {
    /// The byte that encodes this instruction, operation by operation as
    /// the data sheet lists them; `None` where the operation does not have
    /// the addressing mode.
    pub open spec fn encoding(self) -> Option<u8> {
        match self.operation {
            Operation::ADC => match self.address_mode {
                AddressingMode::Immediate => Some(0x69),
                AddressingMode::ZeroPage => Some(0x65),
                AddressingMode::ZeroPageXIndexed => Some(0x75),
                AddressingMode::Absolute => Some(0x6D),
                AddressingMode::AbsoluteXIndexed => Some(0x7D),
                AddressingMode::AbsoluteYIndexed => Some(0x79),
                AddressingMode::IndirectXIndexed => Some(0x61),
                AddressingMode::IndirectYIndexed => Some(0x71),
                _ => None,
            },
            Operation::AND => match self.address_mode {
                AddressingMode::Immediate => Some(0x29),
                AddressingMode::ZeroPage => Some(0x25),
                AddressingMode::ZeroPageXIndexed => Some(0x35),
                AddressingMode::Absolute => Some(0x2D),
                AddressingMode::AbsoluteXIndexed => Some(0x3D),
                AddressingMode::AbsoluteYIndexed => Some(0x39),
                AddressingMode::IndirectXIndexed => Some(0x21),
                AddressingMode::IndirectYIndexed => Some(0x31),
                _ => None,
            },
            Operation::ASL => match self.address_mode {
                AddressingMode::Accumulator => Some(0x0A),
                AddressingMode::ZeroPage => Some(0x06),
                AddressingMode::ZeroPageXIndexed => Some(0x16),
                AddressingMode::Absolute => Some(0x0E),
                AddressingMode::AbsoluteXIndexed => Some(0x1E),
                _ => None,
            },
            Operation::BCC => if self.address_mode == AddressingMode::Relative {
                Some(0x90)
            } else {
                None
            },
            Operation::BCS => if self.address_mode == AddressingMode::Relative {
                Some(0xB0)
            } else {
                None
            },
            Operation::BEQ => if self.address_mode == AddressingMode::Relative {
                Some(0xF0)
            } else {
                None
            },
            Operation::BIT => match self.address_mode {
                AddressingMode::ZeroPage => Some(0x24),
                AddressingMode::Absolute => Some(0x2C),
                _ => None,
            },
            Operation::BMI => if self.address_mode == AddressingMode::Relative {
                Some(0x30)
            } else {
                None
            },
            Operation::BNE => if self.address_mode == AddressingMode::Relative {
                Some(0xD0)
            } else {
                None
            },
            Operation::BPL => if self.address_mode == AddressingMode::Relative {
                Some(0x10)
            } else {
                None
            },
            Operation::BRK => if self.address_mode == AddressingMode::Implied {
                Some(0x00)
            } else {
                None
            },
            Operation::BVC => if self.address_mode == AddressingMode::Relative {
                Some(0x50)
            } else {
                None
            },
            Operation::BVS => if self.address_mode == AddressingMode::Relative {
                Some(0x70)
            } else {
                None
            },
            Operation::CLC => if self.address_mode == AddressingMode::Implied {
                Some(0x18)
            } else {
                None
            },
            Operation::CLD => if self.address_mode == AddressingMode::Implied {
                Some(0xD8)
            } else {
                None
            },
            Operation::CLI => if self.address_mode == AddressingMode::Implied {
                Some(0x58)
            } else {
                None
            },
            Operation::CLV => if self.address_mode == AddressingMode::Implied {
                Some(0xB8)
            } else {
                None
            },
            Operation::CMP => match self.address_mode {
                AddressingMode::Immediate => Some(0xC9),
                AddressingMode::ZeroPage => Some(0xC5),
                AddressingMode::ZeroPageXIndexed => Some(0xD5),
                AddressingMode::Absolute => Some(0xCD),
                AddressingMode::AbsoluteXIndexed => Some(0xDD),
                AddressingMode::AbsoluteYIndexed => Some(0xD9),
                AddressingMode::IndirectXIndexed => Some(0xC1),
                AddressingMode::IndirectYIndexed => Some(0xD1),
                _ => None,
            },
            Operation::CPX => match self.address_mode {
                AddressingMode::Immediate => Some(0xE0),
                AddressingMode::ZeroPage => Some(0xE4),
                AddressingMode::Absolute => Some(0xEC),
                _ => None,
            },
            Operation::CPY => match self.address_mode {
                AddressingMode::Immediate => Some(0xC0),
                AddressingMode::ZeroPage => Some(0xC4),
                AddressingMode::Absolute => Some(0xCC),
                _ => None,
            },
            Operation::DEC => match self.address_mode {
                AddressingMode::ZeroPage => Some(0xC6),
                AddressingMode::ZeroPageXIndexed => Some(0xD6),
                AddressingMode::Absolute => Some(0xCE),
                AddressingMode::AbsoluteXIndexed => Some(0xDE),
                _ => None,
            },
            Operation::DEX => if self.address_mode == AddressingMode::Implied {
                Some(0xCA)
            } else {
                None
            },
            Operation::DEY => if self.address_mode == AddressingMode::Implied {
                Some(0x88)
            } else {
                None
            },
            Operation::EOR => match self.address_mode {
                AddressingMode::Immediate => Some(0x49),
                AddressingMode::ZeroPage => Some(0x45),
                AddressingMode::ZeroPageXIndexed => Some(0x55),
                AddressingMode::Absolute => Some(0x4D),
                AddressingMode::AbsoluteXIndexed => Some(0x5D),
                AddressingMode::AbsoluteYIndexed => Some(0x59),
                AddressingMode::IndirectXIndexed => Some(0x41),
                AddressingMode::IndirectYIndexed => Some(0x51),
                _ => None,
            },
            Operation::INC => match self.address_mode {
                AddressingMode::ZeroPage => Some(0xE6),
                AddressingMode::ZeroPageXIndexed => Some(0xF6),
                AddressingMode::Absolute => Some(0xEE),
                AddressingMode::AbsoluteXIndexed => Some(0xFE),
                _ => None,
            },
            Operation::INX => if self.address_mode == AddressingMode::Implied {
                Some(0xE8)
            } else {
                None
            },
            Operation::INY => if self.address_mode == AddressingMode::Implied {
                Some(0xC8)
            } else {
                None
            },
            Operation::JMP => match self.address_mode {
                AddressingMode::Absolute => Some(0x4C),
                AddressingMode::Indirect => Some(0x6C),
                _ => None,
            },
            Operation::JSR => if self.address_mode == AddressingMode::Absolute {
                Some(0x20)
            } else {
                None
            },
            Operation::LDA => match self.address_mode {
                AddressingMode::Immediate => Some(0xA9),
                AddressingMode::ZeroPage => Some(0xA5),
                AddressingMode::ZeroPageXIndexed => Some(0xB5),
                AddressingMode::Absolute => Some(0xAD),
                AddressingMode::AbsoluteXIndexed => Some(0xBD),
                AddressingMode::AbsoluteYIndexed => Some(0xB9),
                AddressingMode::IndirectXIndexed => Some(0xA1),
                AddressingMode::IndirectYIndexed => Some(0xB1),
                _ => None,
            },
            Operation::LDX => match self.address_mode {
                AddressingMode::Immediate => Some(0xA2),
                AddressingMode::ZeroPage => Some(0xA6),
                AddressingMode::ZeroPageYIndexed => Some(0xB6),
                AddressingMode::Absolute => Some(0xAE),
                AddressingMode::AbsoluteYIndexed => Some(0xBE),
                _ => None,
            },
            Operation::LDY => match self.address_mode {
                AddressingMode::Immediate => Some(0xA0),
                AddressingMode::ZeroPage => Some(0xA4),
                AddressingMode::ZeroPageXIndexed => Some(0xB4),
                AddressingMode::Absolute => Some(0xAC),
                AddressingMode::AbsoluteXIndexed => Some(0xBC),
                _ => None,
            },
            Operation::LSR => match self.address_mode {
                AddressingMode::Accumulator => Some(0x4A),
                AddressingMode::ZeroPage => Some(0x46),
                AddressingMode::ZeroPageXIndexed => Some(0x56),
                AddressingMode::Absolute => Some(0x4E),
                AddressingMode::AbsoluteXIndexed => Some(0x5E),
                _ => None,
            },
            Operation::NOP => if self.address_mode == AddressingMode::Implied {
                Some(0xEA)
            } else {
                None
            },
            Operation::ORA => match self.address_mode {
                AddressingMode::Immediate => Some(0x09),
                AddressingMode::ZeroPage => Some(0x05),
                AddressingMode::ZeroPageXIndexed => Some(0x15),
                AddressingMode::Absolute => Some(0x0D),
                AddressingMode::AbsoluteXIndexed => Some(0x1D),
                AddressingMode::AbsoluteYIndexed => Some(0x19),
                AddressingMode::IndirectXIndexed => Some(0x01),
                AddressingMode::IndirectYIndexed => Some(0x11),
                _ => None,
            },
            Operation::PHA => if self.address_mode == AddressingMode::Implied {
                Some(0x48)
            } else {
                None
            },
            Operation::PHP => if self.address_mode == AddressingMode::Implied {
                Some(0x08)
            } else {
                None
            },
            Operation::PLA => if self.address_mode == AddressingMode::Implied {
                Some(0x68)
            } else {
                None
            },
            Operation::PLP => if self.address_mode == AddressingMode::Implied {
                Some(0x28)
            } else {
                None
            },
            Operation::ROL => match self.address_mode {
                AddressingMode::Accumulator => Some(0x2A),
                AddressingMode::ZeroPage => Some(0x26),
                AddressingMode::ZeroPageXIndexed => Some(0x36),
                AddressingMode::Absolute => Some(0x2E),
                AddressingMode::AbsoluteXIndexed => Some(0x3E),
                _ => None,
            },
            Operation::ROR => match self.address_mode {
                AddressingMode::Accumulator => Some(0x6A),
                AddressingMode::ZeroPage => Some(0x66),
                AddressingMode::ZeroPageXIndexed => Some(0x76),
                AddressingMode::Absolute => Some(0x6E),
                AddressingMode::AbsoluteXIndexed => Some(0x7E),
                _ => None,
            },
            Operation::RTI => if self.address_mode == AddressingMode::Implied {
                Some(0x40)
            } else {
                None
            },
            Operation::RTS => if self.address_mode == AddressingMode::Implied {
                Some(0x60)
            } else {
                None
            },
            Operation::SBC => match self.address_mode {
                AddressingMode::Immediate => Some(0xE9),
                AddressingMode::ZeroPage => Some(0xE5),
                AddressingMode::ZeroPageXIndexed => Some(0xF5),
                AddressingMode::Absolute => Some(0xED),
                AddressingMode::AbsoluteXIndexed => Some(0xFD),
                AddressingMode::AbsoluteYIndexed => Some(0xF9),
                AddressingMode::IndirectXIndexed => Some(0xE1),
                AddressingMode::IndirectYIndexed => Some(0xF1),
                _ => None,
            },
            Operation::SEC => if self.address_mode == AddressingMode::Implied {
                Some(0x38)
            } else {
                None
            },
            Operation::SED => if self.address_mode == AddressingMode::Implied {
                Some(0xF8)
            } else {
                None
            },
            Operation::SEI => if self.address_mode == AddressingMode::Implied {
                Some(0x78)
            } else {
                None
            },
            Operation::STA => match self.address_mode {
                AddressingMode::ZeroPage => Some(0x85),
                AddressingMode::ZeroPageXIndexed => Some(0x95),
                AddressingMode::Absolute => Some(0x8D),
                AddressingMode::AbsoluteXIndexed => Some(0x9D),
                AddressingMode::AbsoluteYIndexed => Some(0x99),
                AddressingMode::IndirectXIndexed => Some(0x81),
                AddressingMode::IndirectYIndexed => Some(0x91),
                _ => None,
            },
            Operation::STX => match self.address_mode {
                AddressingMode::ZeroPage => Some(0x86),
                AddressingMode::ZeroPageYIndexed => Some(0x96),
                AddressingMode::Absolute => Some(0x8E),
                _ => None,
            },
            Operation::STY => match self.address_mode {
                AddressingMode::ZeroPage => Some(0x84),
                AddressingMode::ZeroPageXIndexed => Some(0x94),
                AddressingMode::Absolute => Some(0x8C),
                _ => None,
            },
            Operation::TAX => if self.address_mode == AddressingMode::Implied {
                Some(0xAA)
            } else {
                None
            },
            Operation::TAY => if self.address_mode == AddressingMode::Implied {
                Some(0xA8)
            } else {
                None
            },
            Operation::TSX => if self.address_mode == AddressingMode::Implied {
                Some(0xBA)
            } else {
                None
            },
            Operation::TXA => if self.address_mode == AddressingMode::Implied {
                Some(0x8A)
            } else {
                None
            },
            Operation::TXS => if self.address_mode == AddressingMode::Implied {
                Some(0x9A)
            } else {
                None
            },
            Operation::TYA => if self.address_mode == AddressingMode::Implied {
                Some(0x98)
            } else {
                None
            },
        }
    }
}

/// Decoding inverts encoding: the byte that encodes an instruction decodes
/// to that instruction.
pub proof fn lemma_decode_of_encoding(opcode: Opcode)
    requires
        opcode.encoding().is_some(),
    ensures
        Opcode::of_byte(opcode.encoding().unwrap()) == opcode,
        opcode.valid(),
{
    reveal(Opcode::of_byte);
}

/// Encoding inverts decoding, but for the bytes that encode no documented
/// instruction: those decode to the implied `NOP`, whose own encoding is
/// `0xEA`.
pub proof fn lemma_encoding_of_decode(byte: u8)
    ensures
        Opcode::of_byte(byte).encoding() == Some(byte) || (Opcode::of_byte(byte) == Opcode {
            operation: Operation::NOP,
            address_mode: AddressingMode::Implied,
        } && forall|opcode: Opcode| #[trigger] opcode.encoding() != Some(byte)),
{
    reveal(Opcode::of_byte);
    if Opcode::of_byte(byte).encoding() != Some(byte) {
        assert forall|opcode: Opcode| #[trigger] opcode.encoding() != Some(byte) by {
            if opcode.encoding() == Some(byte) {
                lemma_decode_of_encoding(opcode);
            }
        }
    }
}

/// Every entry of the decode table is valid.
pub proof fn lemma_table_valid(byte: u8)
    ensures
        Opcode::of_byte(byte).valid(),
{
    reveal(Opcode::of_byte);
}

} // verus!
