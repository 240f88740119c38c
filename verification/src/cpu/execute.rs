//! What each operation does to the registers once its operand is known.

use vstd::prelude::*;
use crate::cpu::alu::modified;
use crate::cpu::interrupts::Interrupt;
use crate::cpu::model::CpuView;
use crate::cpu::opcodes::{InstructionType, Opcode, Operation};
use crate::cpu::state::{CpuState, InterruptState, State};
use crate::cpu::status_flags::Flag;
use crate::cpu::Cpu;

verus! {

/// The overflow test on bits says that the operands have one sign and the
/// sum the other; masking with `0xFF` keeps the low byte.
proof fn lemma_add_bits(a: u8, operand: u8, carry: u16, result: u16)
    by (bit_vector)
    requires
        carry == 0 || carry == 1,
        result == carry + (a as u16) + (operand as u16),
    ensures
        (((a as u16) ^ result) & ((operand as u16) ^ result) & 0x80u16 != 0u16) == ((a < 128u8)
            == (operand < 128u8) && (a < 128u8) != (result % 256u16 < 128u16)),
        result & 0xFFu16 == result % 256u16,
{
}

/// Complement, sign, parity and halving of a byte, as bits and as
/// arithmetic.
proof fn lemma_byte_bits(operand: u8)
    by (bit_vector)
    ensures
        operand ^ 0xFFu8 == 255u8 - operand,
        (operand & 0x80u8 != 0u8) == (operand >= 128u8),
        (operand & 0x01u8 != 0u8) == (operand % 2u8 == 1u8),
        operand >> 1u8 == operand / 2u8,
{
}

/// Shifting and rotating a byte, as bits and as arithmetic.
proof fn lemma_shift_bits(operand: u8, carry: u8)
    by (bit_vector)
    requires
        carry == 0 || carry == 1,
    ensures
        operand < 128 ==> (operand << 1u8) == operand * 2 && ((operand << 1u8) | carry) == operand
            * 2 + carry,
        operand >= 128 ==> (operand << 1u8) == operand * 2 - 256 && ((operand << 1u8) | carry)
            == operand * 2 + carry - 256,
        ((operand >> 1u8) | (carry << 7u8)) == (operand >> 1u8) + 128 * carry,
{
}

/// The byte and the carry that a shift, rotate, increment or decrement makes
/// of `operand` and the carry flag.
pub fn shifted(operation: Operation, operand: u8, carry: bool) -> (result: (u8, bool))
    ensures
        result.0 == modified(operation, operand, carry).value,
        result.1 == modified(operation, operand, carry).carry,
{
    let carry_bit: u8 = if carry {
        1
    } else {
        0
    };
    proof {
        lemma_shift_bits(operand, carry_bit);
        lemma_byte_bits(operand);
    }
    match operation {
        Operation::ASL => (operand << 1, operand & 0b1000_0000 != 0),
        Operation::LSR => (operand >> 1, operand & 0b0000_0001 != 0),
        Operation::ROL => ((operand << 1) | carry_bit, operand & 0b1000_0000 != 0),
        Operation::ROR => ((operand >> 1) | (carry_bit << 7), operand & 0b0000_0001 != 0),
        Operation::INC => (operand.wrapping_add(1), carry),
        Operation::DEC => (operand.wrapping_sub(1), carry),
        _ => (operand, carry),
    }
}

impl Cpu {
    /// Sets `Zero` and `Negative` from `operand`.
    pub fn set_negative_zero_flags(&mut self, operand: u8)
        ensures
            final(self)@ == old(self)@.with_registers(old(self)@.registers.with_nz(operand)),
    {
        proof {
            lemma_byte_bits(operand);
        }
        self.registers.status_register.set(Flag::Zero, operand == 0);
        self.registers.status_register.set(Flag::Negative, operand & 0b1000_0000 != 0);
    }

    /// Adds `operand` and the carry to the accumulator.
    pub fn adc(&mut self, operand: u8)
        ensures
            final(self)@ == old(self)@.with_registers(old(self)@.registers.adc(operand)),
    {
        let a: u8 = self.registers.a;
        let carry: u16 = if self.registers.status_register.contains(Flag::Carry) {
            1
        } else {
            0
        };
        let result: u16 = carry + a as u16 + operand as u16;
        proof {
            lemma_add_bits(a, operand, carry, result);
            lemma_byte_bits((result % 256) as u8);
        }
        self.registers.status_register.set(
            Flag::Overflow,
            (a as u16 ^ result) & (operand as u16 ^ result) & 0x80 != 0,
        );
        self.registers.a = (result & 0xFF) as u8;
        self.registers.status_register.set(Flag::Zero, self.registers.a == 0);
        self.registers.status_register.set(Flag::Negative, self.registers.a & 0b1000_0000 != 0);
        self.registers.status_register.set(Flag::Carry, result > 0xFF);
    }

    /// Subtracts `operand` and the borrow from the accumulator: the addition
    /// of the operand's complement.
    pub fn sbc(&mut self, operand: u8)
        ensures
            final(self)@ == old(self)@.with_registers(old(self)@.registers.sbc(operand)),
    {
        proof {
            lemma_byte_bits(operand);
        }
        self.adc(operand ^ 0xFF);
    }

    /// Compares `register` with `operand`.
    pub fn compare(&mut self, operand: u8, register: u8)
        ensures
            final(self)@ == old(self)@.with_registers(
                old(self)@.registers.compare(operand, register),
            ),
    {
        let result: u8 = register.wrapping_sub(operand);
        self.registers.status_register.set(Flag::Carry, register >= operand);
        self.set_negative_zero_flags(result);
    }

    /// `value - 1`, with `Zero` and `Negative` set from it.
    pub fn decrement(&mut self, value: u8) -> (result: u8)
        ensures
            result == ((value + 255) % 256) as u8,
            final(self)@ == old(self)@.with_registers(old(self)@.registers.with_nz(result)),
    {
        let result: u8 = value.wrapping_sub(1);
        self.set_negative_zero_flags(result);
        result
    }

    /// `value + 1`, with `Zero` and `Negative` set from it.
    pub fn increment(&mut self, value: u8) -> (result: u8)
        ensures
            result == ((value + 1) % 256) as u8,
            final(self)@ == old(self)@.with_registers(old(self)@.registers.with_nz(result)),
    {
        let result: u8 = value.wrapping_add(1);
        self.set_negative_zero_flags(result);
        result
    }

    /// Carries out a shift, rotate, increment or decrement on `operand`:
    /// returns the result and sets the flags.
    pub fn modify(&mut self, operation: Operation, operand: u8) -> (result: u8)
        ensures
            result == modified(operation, operand, old(self)@.registers.status.carry).value,
            final(self)@ == old(self)@.with_registers(
                old(self)@.registers.after_modify(operation, operand),
            ),
    {
        let carry = self.registers.status_register.contains(Flag::Carry);
        let (result, carry) = shifted(operation, operand, carry);
        self.registers.status_register.set(Flag::Carry, carry);
        self.set_negative_zero_flags(result);
        result
    }

    /// Carries out an operation that reads `operand` and changes registers
    /// only.
    pub fn execute_read(&mut self, operation: Operation, operand: u8)
        ensures
            final(self)@ == old(self)@.with_registers(
                old(self)@.registers.after_read(operation, operand),
            ),
    {
        match operation {
            Operation::ADC => self.adc(operand),
            Operation::SBC => self.sbc(operand),
            Operation::AND => {
                self.registers.a = self.registers.a & operand;
                self.set_negative_zero_flags(self.registers.a);
            },
            Operation::ORA => {
                self.registers.a = self.registers.a | operand;
                self.set_negative_zero_flags(self.registers.a);
            },
            Operation::EOR => {
                self.registers.a = self.registers.a ^ operand;
                self.set_negative_zero_flags(self.registers.a);
            },
            Operation::BIT => {
                self.registers.status_register.set(Flag::Zero, self.registers.a & operand == 0);
                self.registers.status_register.set(
                    Flag::Negative,
                    operand & 0b1000_0000 != 0,
                );
                self.registers.status_register.set(
                    Flag::Overflow,
                    operand & 0b0100_0000 != 0,
                );
            },
            Operation::CMP => self.compare(operand, self.registers.a),
            Operation::CPX => self.compare(operand, self.registers.x),
            Operation::CPY => self.compare(operand, self.registers.y),
            Operation::LDA => {
                self.registers.a = operand;
                self.set_negative_zero_flags(operand);
            },
            Operation::LDX => {
                self.registers.x = operand;
                self.set_negative_zero_flags(operand);
            },
            Operation::LDY => {
                self.registers.y = operand;
                self.set_negative_zero_flags(operand);
            },
            _ => {},
        }
    }

    /// Carries out an operation that works on registers alone.
    pub fn execute_implied(&mut self, operation: Operation)
        ensures
            final(self)@ == old(self)@.with_registers(
                old(self)@.registers.after_implied(operation),
            ),
    {
        match operation {
            Operation::CLC => self.registers.status_register.remove(Flag::Carry),
            Operation::SEC => self.registers.status_register.insert(Flag::Carry),
            Operation::CLI => self.registers.status_register.remove(Flag::InterruptDisable),
            Operation::SEI => self.registers.status_register.insert(Flag::InterruptDisable),
            Operation::CLD => self.registers.status_register.remove(Flag::Decimal),
            Operation::SED => self.registers.status_register.insert(Flag::Decimal),
            Operation::CLV => self.registers.status_register.remove(Flag::Overflow),
            Operation::DEX => {
                self.registers.x = self.decrement(self.registers.x);
            },
            Operation::DEY => {
                self.registers.y = self.decrement(self.registers.y);
            },
            Operation::INX => {
                self.registers.x = self.increment(self.registers.x);
            },
            Operation::INY => {
                self.registers.y = self.increment(self.registers.y);
            },
            Operation::TAX => {
                self.registers.x = self.registers.a;
                self.set_negative_zero_flags(self.registers.x);
            },
            Operation::TAY => {
                self.registers.y = self.registers.a;
                self.set_negative_zero_flags(self.registers.y);
            },
            Operation::TSX => {
                self.registers.x = self.registers.stack_pointer;
                self.set_negative_zero_flags(self.registers.x);
            },
            Operation::TXA => {
                self.registers.a = self.registers.x;
                self.set_negative_zero_flags(self.registers.a);
            },
            Operation::TYA => {
                self.registers.a = self.registers.y;
                self.set_negative_zero_flags(self.registers.a);
            },
            Operation::TXS => {
                self.registers.stack_pointer = self.registers.x;
            },
            _ => {},
        }
    }

    /// The register that a store operation writes to memory.
    pub fn stored_register(&self, operation: Operation) -> (value: u8)
        ensures
            value == self@.registers.stored_register(operation),
    {
        match operation {
            Operation::STA => self.registers.a,
            Operation::STX => self.registers.x,
            Operation::STY => self.registers.y,
            _ => 0,
        }
    }

    /// Whether the branch `operation` is taken.
    pub fn branch_taken(&self, operation: Operation) -> (taken: bool)
        ensures
            taken == self@.registers.branch_taken(operation),
    {
        match operation {
            Operation::BCC => !self.registers.status_register.contains(Flag::Carry),
            Operation::BCS => self.registers.status_register.contains(Flag::Carry),
            Operation::BEQ => self.registers.status_register.contains(Flag::Zero),
            Operation::BMI => self.registers.status_register.contains(Flag::Negative),
            Operation::BNE => !self.registers.status_register.contains(Flag::Zero),
            Operation::BPL => !self.registers.status_register.contains(Flag::Negative),
            Operation::BVC => !self.registers.status_register.contains(Flag::Overflow),
            Operation::BVS => self.registers.status_register.contains(Flag::Overflow),
            _ => false,
        }
    }

    /// Carries out the operation of `opcode` with its resolved operand and
    /// address, and returns the pipeline state that follows. A store leaves
    /// the registers alone: its write is the bus access of the cycle.
    pub fn execute(&mut self, opcode: Opcode, operand: Option<u8>, address: Option<u16>) -> (next:
        State)
        requires
            opcode.operation.category() == InstructionType::Read || opcode.operation.category()
                == InstructionType::ReadModifyWrite ==> operand.is_some(),
            opcode.operation.category() == InstructionType::Jump || opcode.operation.category()
                == InstructionType::Branch ==> address.is_some(),
        ensures
            final(self)@.with_state(next) == old(self)@.execute(opcode, operand, address),
    {
        proof {
            reveal(CpuView::execute);
        }
        let operation = opcode.operation;
        match operation.instruction_type() {
            InstructionType::Read => {
                match operand {
                    Some(value) => self.execute_read(operation, value),
                    None => {},
                }
                State::Cpu(CpuState::FetchOpcode)
            },
            InstructionType::Write => State::Cpu(CpuState::FetchOpcode),
            InstructionType::ReadModifyWrite => {
                match operand {
                    Some(unmodified) => {
                        let value: u8 = self.modify(operation, unmodified);
                        match address {
                            None => {
                                self.registers.a = value;
                                State::Cpu(CpuState::FetchOpcode)
                            },
                            Some(address) => State::Cpu(
                                CpuState::WritingResult { address, value, unmodified, dummy: true },
                            ),
                        }
                    },
                    None => State::Cpu(CpuState::FetchOpcode),
                }
            },
            InstructionType::Jump => {
                match address {
                    Some(address) => {
                        if operation == Operation::JSR {
                            State::Cpu(CpuState::WritePCHToStack { address })
                        } else {
                            self.registers.program_counter = address;
                            State::Cpu(CpuState::FetchOpcode)
                        }
                    },
                    None => State::Cpu(CpuState::FetchOpcode),
                }
            },
            InstructionType::Branch => {
                match address {
                    Some(address) => State::Cpu(CpuState::SetProgramCounter { address }),
                    None => State::Cpu(CpuState::FetchOpcode),
                }
            },
            InstructionType::Stack => {
                match operation {
                    Operation::PHA => State::Cpu(
                        CpuState::PushRegisterOnStack { value: self.registers.a },
                    ),
                    Operation::PHP => State::Cpu(
                        CpuState::PushRegisterOnStack {
                            value: self.registers.status_register.pushed(true),
                        },
                    ),
                    Operation::BRK => State::Interrupt(
                        InterruptState::PushPCH(Interrupt::IRQ_BRK(self.cycles)),
                    ),
                    _ => State::Cpu(CpuState::PreIncrementStackPointer { operation }),
                }
            },
            InstructionType::Implied => {
                self.execute_implied(operation);
                State::Cpu(CpuState::FetchOpcode)
            },
        }
    }
}

} // verus!
