//! What the operations compute, as integer arithmetic on the register file.

use vstd::prelude::*;
use crate::cpu::address::stack_address_of;
use crate::cpu::opcodes::Operation;
use crate::cpu::registers::RegistersView;
use crate::cpu::status_flags::Flags;

verus! {

/// The byte `value` as the signed number it encodes in two's complement.
pub open spec fn signed(value: u8) -> int {
    if value < 128 {
        value as int
    } else {
        value - 256
    }
}

/// One if the carry is set, else zero.
pub open spec fn carry_in(carry: bool) -> int {
    if carry {
        1
    } else {
        0
    }
}

/// The result of a shift, rotate, increment or decrement: the byte and the
/// carry that leaves the operation.
pub struct Modified {
    pub value: u8,
    pub carry: bool,
}

/// The byte and carry that a read-modify-write operation makes of `operand`;
/// `carry` is the carry flag before the operation. `INC` and `DEC` leave the
/// carry as it was.
pub open spec fn modified(operation: Operation, operand: u8, carry: bool) -> Modified {
    match operation {
        Operation::ASL => Modified { value: ((operand * 2) % 256) as u8, carry: operand >= 128 },
        Operation::LSR => Modified { value: (operand / 2) as u8, carry: operand % 2 == 1 },
        Operation::ROL => Modified {
            value: ((operand * 2 + carry_in(carry)) % 256) as u8,
            carry: operand >= 128,
        },
        Operation::ROR => Modified {
            value: (operand / 2 + 128 * carry_in(carry)) as u8,
            carry: operand % 2 == 1,
        },
        Operation::INC => Modified { value: ((operand + 1) % 256) as u8, carry },
        Operation::DEC => Modified { value: ((operand + 255) % 256) as u8, carry },
        _ => Modified { value: operand, carry },
    }
}

/// Rotating right and then left, or left and then right, with the carry
/// handed from the first rotation to the second, gives back the byte and
/// the carry that went in.
pub proof fn lemma_rotations_cancel(value: u8, carry: bool)
    ensures
        ({
            let right = modified(Operation::ROR, value, carry);
            modified(Operation::ROL, right.value, right.carry) == Modified { value, carry }
        }),
        ({
            let left = modified(Operation::ROL, value, carry);
            modified(Operation::ROR, left.value, left.carry) == Modified { value, carry }
        }),
{
}

impl RegistersView {
    /// The registers with `Zero` and `Negative` set from `value`.
    pub open spec fn with_nz(self, value: u8) -> RegistersView {
        RegistersView {
            status: Flags { zero: value == 0, negative: value >= 128, ..self.status },
            ..self
        }
    }

    /// Add with carry: `A + operand + C`. The low eight bits go to `A`,
    /// `Carry` is the unsigned overflow, `Overflow` the signed one.
    pub open spec fn adc(self, operand: u8) -> RegistersView {
        let sum = self.a + operand + carry_in(self.status.carry);
        let signed_sum = signed(self.a) + signed(operand) + carry_in(self.status.carry);
        let result = (sum % 256) as u8;
        RegistersView {
            a: result,
            status: Flags {
                carry: sum > 255,
                overflow: signed_sum < -128 || signed_sum > 127,
                zero: result == 0,
                negative: result >= 128,
                ..self.status
            },
            ..self
        }
    }

    /// Subtract with borrow: `A - operand - (1 - C)`. `Carry` is set when
    /// no borrow was needed, `Overflow` when the signed difference does not
    /// fit a byte.
    pub open spec fn sbc(self, operand: u8) -> RegistersView {
        let borrow = 1 - carry_in(self.status.carry);
        let difference = self.a - operand - borrow;
        let signed_difference = signed(self.a) - signed(operand) - borrow;
        let result = ((difference + 256) % 256) as u8;
        RegistersView {
            a: result,
            status: Flags {
                carry: difference >= 0,
                overflow: signed_difference < -128 || signed_difference > 127,
                zero: result == 0,
                negative: result >= 128,
                ..self.status
            },
            ..self
        }
    }

    /// Compare `register` with `operand`: `Carry` when `register` is not
    /// below, `Zero` and `Negative` from the difference.
    pub open spec fn compare(self, operand: u8, register: u8) -> RegistersView {
        let difference = ((register - operand + 256) % 256) as u8;
        RegistersView {
            status: Flags {
                carry: register >= operand,
                zero: register == operand,
                negative: difference >= 128,
                ..self.status
            },
            ..self
        }
    }

    /// `BIT`: `Zero` from `A & operand`, `Negative` and `Overflow` are bits
    /// seven and six of the operand.
    pub open spec fn bit_test(self, operand: u8) -> RegistersView {
        RegistersView {
            status: Flags {
                zero: self.a & operand == 0,
                negative: Flags::from_bits(operand).negative,
                overflow: Flags::from_bits(operand).overflow,
                ..self.status
            },
            ..self
        }
    }

    /// The registers after a read-modify-write operation on `operand`: the
    /// carry that the operation leaves, `Zero` and `Negative` from the result.
    pub open spec fn after_modify(self, operation: Operation, operand: u8) -> RegistersView {
        let m = modified(operation, operand, self.status.carry);
        (RegistersView { status: Flags { carry: m.carry, ..self.status }, ..self }).with_nz(
            m.value,
        )
    }

    /// The registers after an operation that reads `operand` and changes
    /// registers only.
    pub open spec fn after_read(self, operation: Operation, operand: u8) -> RegistersView {
        match operation {
            Operation::ADC => self.adc(operand),
            Operation::SBC => self.sbc(operand),
            Operation::AND => (RegistersView { a: self.a & operand, ..self }).with_nz(
                self.a & operand,
            ),
            Operation::ORA => (RegistersView { a: self.a | operand, ..self }).with_nz(
                self.a | operand,
            ),
            Operation::EOR => (RegistersView { a: self.a ^ operand, ..self }).with_nz(
                self.a ^ operand,
            ),
            Operation::BIT => self.bit_test(operand),
            Operation::CMP => self.compare(operand, self.a),
            Operation::CPX => self.compare(operand, self.x),
            Operation::CPY => self.compare(operand, self.y),
            Operation::LDA => (RegistersView { a: operand, ..self }).with_nz(operand),
            Operation::LDX => (RegistersView { x: operand, ..self }).with_nz(operand),
            Operation::LDY => (RegistersView { y: operand, ..self }).with_nz(operand),
            _ => self,
        }
    }

    /// The registers after an operation that works on registers alone.
    pub open spec fn after_implied(self, operation: Operation) -> RegistersView {
        match operation {
            Operation::CLC => RegistersView {
                status: Flags { carry: false, ..self.status },
                ..self
            },
            Operation::SEC => RegistersView {
                status: Flags { carry: true, ..self.status },
                ..self
            },
            Operation::CLI => RegistersView {
                status: Flags { interrupt_disable: false, ..self.status },
                ..self
            },
            Operation::SEI => RegistersView {
                status: Flags { interrupt_disable: true, ..self.status },
                ..self
            },
            Operation::CLD => RegistersView {
                status: Flags { decimal: false, ..self.status },
                ..self
            },
            Operation::SED => RegistersView {
                status: Flags { decimal: true, ..self.status },
                ..self
            },
            Operation::CLV => RegistersView {
                status: Flags { overflow: false, ..self.status },
                ..self
            },
            Operation::DEX => (RegistersView { x: ((self.x + 255) % 256) as u8, ..self }).with_nz(
                ((self.x + 255) % 256) as u8,
            ),
            Operation::DEY => (RegistersView { y: ((self.y + 255) % 256) as u8, ..self }).with_nz(
                ((self.y + 255) % 256) as u8,
            ),
            Operation::INX => (RegistersView { x: ((self.x + 1) % 256) as u8, ..self }).with_nz(
                ((self.x + 1) % 256) as u8,
            ),
            Operation::INY => (RegistersView { y: ((self.y + 1) % 256) as u8, ..self }).with_nz(
                ((self.y + 1) % 256) as u8,
            ),
            Operation::TAX => (RegistersView { x: self.a, ..self }).with_nz(self.a),
            Operation::TAY => (RegistersView { y: self.a, ..self }).with_nz(self.a),
            Operation::TSX => (RegistersView { x: self.stack_pointer, ..self }).with_nz(
                self.stack_pointer,
            ),
            Operation::TXA => (RegistersView { a: self.x, ..self }).with_nz(self.x),
            Operation::TYA => (RegistersView { a: self.y, ..self }).with_nz(self.y),
            Operation::TXS => RegistersView { stack_pointer: self.x, ..self },
            _ => self,
        }
    }

    /// The register that a store operation writes to memory.
    pub open spec fn stored_register(self, operation: Operation) -> u8 {
        match operation {
            Operation::STA => self.a,
            Operation::STX => self.x,
            Operation::STY => self.y,
            _ => 0,
        }
    }

    /// Whether the branch `operation` is taken: each branch tests one flag
    /// for one value.
    pub open spec fn branch_taken(self, operation: Operation) -> bool {
        match operation {
            Operation::BCC => !self.status.carry,
            Operation::BCS => self.status.carry,
            Operation::BNE => !self.status.zero,
            Operation::BEQ => self.status.zero,
            Operation::BPL => !self.status.negative,
            Operation::BMI => self.status.negative,
            Operation::BVC => !self.status.overflow,
            Operation::BVS => self.status.overflow,
            _ => false,
        }
    }

    /// The registers with the stack pointer one slot lower, as after a push.
    /// Below slot zero comes slot `0xFF`.
    pub open spec fn pushed(self) -> RegistersView {
        RegistersView {
            stack_pointer: if self.stack_pointer == 0 {
                0xFF
            } else {
                (self.stack_pointer - 1) as u8
            },
            ..self
        }
    }

    /// The registers with the stack pointer one slot higher, as for a pull.
    /// Above slot `0xFF` comes slot zero.
    pub open spec fn pulled(self) -> RegistersView {
        RegistersView {
            stack_pointer: if self.stack_pointer == 0xFF {
                0
            } else {
                (self.stack_pointer + 1) as u8
            },
            ..self
        }
    }

    /// The registers with the program counter at the next byte. After
    /// `0xFFFF` comes address zero.
    pub open spec fn advanced(self) -> RegistersView {
        RegistersView {
            program_counter: if self.program_counter == 0xFFFF {
                0
            } else {
                (self.program_counter + 1) as u16
            },
            ..self
        }
    }

    /// The bus address of the stack slot that the next push writes.
    pub open spec fn push_address(self) -> u16 {
        stack_address_of(self.stack_pointer)
    }

    /// The bus address of the stack slot that the next pull reads: the one
    /// above the stack pointer.
    pub open spec fn pull_address(self) -> u16 {
        stack_address_of(self.pulled().stack_pointer)
    }

    /// The address that `JSR` pushes: that of the last byte of the
    /// instruction, one below the program counter.
    pub open spec fn return_address(self) -> u16 {
        if self.program_counter == 0 {
            0xFFFF
        } else {
            (self.program_counter - 1) as u16
        }
    }

    /// The registers with the program counter at `address`.
    pub open spec fn at(self, address: u16) -> RegistersView {
        RegistersView { program_counter: address, ..self }
    }
}

} // verus!
