//! The addressing-mode walker: one function per mode, each of which takes
//! the walker's fields and the byte that the cycle's read returned, updates
//! the registers and returns the pipeline state that follows.

use vstd::prelude::*;
use crate::cpu::address::{
    add_bytes,
    branch_target,
    in_same_page,
    indexed,
    indexed_in_page,
    make_address,
    zero_page_indexed,
};
use crate::cpu::model::{final_access, index_of, walking};
use crate::cpu::opcodes::{AddressingMode, InstructionType, Opcode};
use crate::cpu::state::{BusAccess, CpuState, State};
use crate::cpu::Cpu;

verus! {

/// A state of the addressing-mode walker.
pub fn reading_operand(
    opcode: Opcode,
    address_low_byte: Option<u8>,
    address_high_byte: Option<u8>,
    pointer: Option<u8>,
    indirect_address_low_byte: Option<u8>,
    indirect_address_high_byte: Option<u8>,
    checked_page_boundary: bool,
) -> (state: State)
    ensures
        state == walking(
            opcode,
            address_low_byte,
            address_high_byte,
            pointer,
            indirect_address_low_byte,
            indirect_address_high_byte,
            checked_page_boundary,
        ),
{
    State::Cpu(
        CpuState::ReadingOperand {
            opcode,
            address_low_byte,
            address_high_byte,
            pointer,
            indirect_address_low_byte,
            indirect_address_high_byte,
            checked_page_boundary,
        },
    )
}

impl Cpu {
    /// Takes the byte `data` that was read at the program counter and moves
    /// the program counter to the next byte.
    pub fn read_and_inc_program_counter(&mut self, data: u8) -> (value: u8)
        ensures
            value == data,
            final(self)@ == old(self)@.fetched(),
    {
        self.registers.program_counter = self.registers.program_counter.wrapping_add(1);
        data
    }

    /// The index register that `mode` adds to its base address.
    pub fn index_register(&self, mode: AddressingMode) -> (index: u8)
        ensures
            index == index_of(mode, self@.registers),
    {
        match mode {
            AddressingMode::AbsoluteXIndexed
            | AddressingMode::ZeroPageXIndexed
            | AddressingMode::IndirectXIndexed => self.registers.x,
            AddressingMode::AbsoluteYIndexed
            | AddressingMode::ZeroPageYIndexed
            | AddressingMode::IndirectYIndexed => self.registers.y,
            _ => 0,
        }
    }

    /// The access that ends an addressing mode at `address`.
    pub fn final_access(&self, opcode: Opcode, address: u16) -> (access: BusAccess)
        ensures
            access == final_access(opcode, address, self@.registers),
    {
        match opcode.operation.instruction_type() {
            InstructionType::Write => BusAccess::Write {
                address,
                value: self.stored_register(opcode.operation),
            },
            _ => BusAccess::Read { address },
        }
    }

    /// Ends an addressing mode at `address`, where the access returned
    /// `data`.
    pub fn resolve(&mut self, opcode: Opcode, address: u16, data: u8) -> (next: State)
        ensures
            final(self)@.with_state(next) == old(self)@.resolve(opcode, address, data),
    {
        match opcode.operation.instruction_type() {
            InstructionType::Write => self.execute(opcode, None, Some(address)),
            _ => self.execute(opcode, Some(data), Some(address)),
        }
    }

    /// One cycle of the immediate mode.
    pub fn next_immediate_mode_state(&mut self, opcode: Opcode, data: u8) -> (next: State)
        ensures
            final(self)@.with_state(next) == old(self)@.step_immediate(opcode, data),
    {
        let address: u16 = self.registers.program_counter;
        let operand = Some(self.read_and_inc_program_counter(data));
        self.execute(opcode, operand, Some(address))
    }

    /// One cycle of the relative mode.
    pub fn next_relative_mode_state(&mut self, opcode: Opcode, data: u8) -> (next: State)
        ensures
            final(self)@.with_state(next) == old(self)@.step_relative(opcode, data),
    {
        let relative_operand: u8 = self.read_and_inc_program_counter(data);
        if !self.branch_taken(opcode.operation) {
            State::Cpu(CpuState::FetchOpcode)
        } else {
            let address: u16 = branch_target(self.registers.program_counter, relative_operand);
            if !in_same_page(address, self.registers.program_counter) {
                State::Cpu(
                    CpuState::BranchCrossesPageBoundary {
                        opcode,
                        address,
                        operand: relative_operand,
                    },
                )
            } else {
                self.execute(opcode, Some(relative_operand), Some(address))
            }
        }
    }

    /// One cycle of the zero-page mode.
    pub fn next_zero_page_mode_state(
        &mut self,
        opcode: Opcode,
        address_low_byte: Option<u8>,
        data: u8,
    ) -> (next: State)
        ensures
            final(self)@.with_state(next) == old(self)@.step_zero_page(
                opcode,
                address_low_byte,
                data,
            ),
    {
        match address_low_byte {
            None => reading_operand(
                opcode,
                Some(self.read_and_inc_program_counter(data)),
                None,
                None,
                None,
                None,
                false,
            ),
            Some(low_byte) => self.resolve(opcode, low_byte as u16, data),
        }
    }

    /// One cycle of a zero-page indexed mode.
    pub fn next_zero_page_indexed_mode_state(
        &mut self,
        opcode: Opcode,
        address_low_byte: Option<u8>,
        address_high_byte: Option<u8>,
        index: u8,
        data: u8,
    ) -> (next: State)
        ensures
            final(self)@.with_state(next) == old(self)@.step_zero_page_indexed(
                opcode,
                address_low_byte,
                address_high_byte,
                index,
                data,
            ),
    {
        match (address_low_byte, address_high_byte) {
            (None, _) => reading_operand(
                opcode,
                Some(self.read_and_inc_program_counter(data)),
                None,
                None,
                None,
                None,
                false,
            ),
            (Some(_), None) => reading_operand(
                opcode,
                address_low_byte,
                Some(0x0),
                None,
                None,
                None,
                false,
            ),
            (Some(low_byte), Some(_)) => self.resolve(
                opcode,
                zero_page_indexed(low_byte, index),
                data,
            ),
        }
    }

    /// One cycle of the absolute mode.
    pub fn next_absolute_mode_state(
        &mut self,
        opcode: Opcode,
        address_low_byte: Option<u8>,
        address_high_byte: Option<u8>,
        data: u8,
    ) -> (next: State)
        ensures
            final(self)@.with_state(next) == old(self)@.step_absolute(
                opcode,
                address_low_byte,
                address_high_byte,
                data,
            ),
    {
        match (address_low_byte, address_high_byte) {
            (None, _) => reading_operand(
                opcode,
                Some(self.read_and_inc_program_counter(data)),
                None,
                None,
                None,
                None,
                false,
            ),
            (Some(low_byte), None) => {
                let high_byte: u8 = self.read_and_inc_program_counter(data);
                match opcode.operation.instruction_type() {
                    InstructionType::Jump => self.execute(
                        opcode,
                        None,
                        Some(make_address(low_byte, high_byte)),
                    ),
                    _ => reading_operand(
                        opcode,
                        address_low_byte,
                        Some(high_byte),
                        None,
                        None,
                        None,
                        false,
                    ),
                }
            },
            (Some(low_byte), Some(high_byte)) => self.resolve(
                opcode,
                make_address(low_byte, high_byte),
                data,
            ),
        }
    }

    /// One cycle of an absolute indexed mode.
    pub fn next_absolute_indexed_mode_state(
        &mut self,
        opcode: Opcode,
        address_low_byte: Option<u8>,
        address_high_byte: Option<u8>,
        checked_page_boundary: bool,
        index: u8,
        data: u8,
    ) -> (next: State)
        ensures
            final(self)@.with_state(next) == old(self)@.step_absolute_indexed(
                opcode,
                address_low_byte,
                address_high_byte,
                checked_page_boundary,
                index,
                data,
            ),
    {
        match (address_low_byte, address_high_byte) {
            (None, _) => reading_operand(
                opcode,
                Some(self.read_and_inc_program_counter(data)),
                None,
                None,
                None,
                None,
                false,
            ),
            (Some(_), None) => reading_operand(
                opcode,
                address_low_byte,
                Some(self.read_and_inc_program_counter(data)),
                None,
                None,
                None,
                false,
            ),
            (Some(low_byte), Some(high_byte)) => {
                let correct_address: u16 = indexed(low_byte, high_byte, index);
                if checked_page_boundary {
                    self.resolve(opcode, correct_address, data)
                } else {
                    let first_read_address: u16 = indexed_in_page(low_byte, high_byte, index);
                    match opcode.operation.instruction_type() {
                        InstructionType::Read => {
                            if correct_address == first_read_address {
                                self.execute(opcode, Some(data), Some(correct_address))
                            } else {
                                reading_operand(
                                    opcode,
                                    address_low_byte,
                                    address_high_byte,
                                    None,
                                    None,
                                    None,
                                    true,
                                )
                            }
                        },
                        _ => reading_operand(
                            opcode,
                            address_low_byte,
                            address_high_byte,
                            None,
                            None,
                            None,
                            true,
                        ),
                    }
                }
            },
        }
    }

    /// One cycle of the indirect mode.
    pub fn next_indirect_mode_state(
        &mut self,
        opcode: Opcode,
        indirect_address_low_byte: Option<u8>,
        indirect_address_high_byte: Option<u8>,
        address_low_byte: Option<u8>,
        data: u8,
    ) -> (next: State)
        requires
            opcode.operation.category() != InstructionType::Read,
            opcode.operation.category() != InstructionType::ReadModifyWrite,
        ensures
            final(self)@.with_state(next) == old(self)@.step_indirect(
                opcode,
                indirect_address_low_byte,
                indirect_address_high_byte,
                address_low_byte,
                data,
            ),
    {
        match (indirect_address_low_byte, indirect_address_high_byte, address_low_byte) {
            (None, _, _) => reading_operand(
                opcode,
                None,
                None,
                None,
                Some(self.read_and_inc_program_counter(data)),
                None,
                false,
            ),
            (Some(_), None, _) => reading_operand(
                opcode,
                None,
                None,
                None,
                indirect_address_low_byte,
                Some(self.read_and_inc_program_counter(data)),
                false,
            ),
            (Some(_), Some(_), None) => reading_operand(
                opcode,
                Some(data),
                None,
                None,
                indirect_address_low_byte,
                indirect_address_high_byte,
                false,
            ),
            (Some(_), Some(_), Some(low_byte)) => self.execute(
                opcode,
                None,
                Some(make_address(low_byte, data)),
            ),
        }
    }

    /// One cycle of the indexed indirect mode, `(zp,X)`.
    pub fn next_indirect_x_mode_state(
        &mut self,
        opcode: Opcode,
        indirect_address_low_byte: Option<u8>,
        pointer: Option<u8>,
        address_low_byte: Option<u8>,
        address_high_byte: Option<u8>,
        data: u8,
    ) -> (next: State)
        ensures
            final(self)@.with_state(next) == old(self)@.step_indirect_x(
                opcode,
                indirect_address_low_byte,
                pointer,
                address_low_byte,
                address_high_byte,
                data,
            ),
    {
        match (indirect_address_low_byte, pointer, address_low_byte, address_high_byte) {
            (None, _, _, _) => reading_operand(
                opcode,
                None,
                None,
                None,
                Some(self.read_and_inc_program_counter(data)),
                None,
                false,
            ),
            (Some(_), None, _, _) => reading_operand(
                opcode,
                None,
                None,
                indirect_address_low_byte,
                indirect_address_low_byte,
                None,
                false,
            ),
            (Some(_), Some(_), None, _) => reading_operand(
                opcode,
                Some(data),
                None,
                pointer,
                indirect_address_low_byte,
                None,
                false,
            ),
            (Some(indirect_low_byte), Some(_), Some(_), None) => reading_operand(
                opcode,
                address_low_byte,
                Some(data),
                pointer,
                indirect_address_low_byte,
                Some(add_bytes(add_bytes(indirect_low_byte, self.registers.x), 1)),
                false,
            ),
            (Some(_), Some(_), Some(low_byte), Some(high_byte)) => self.resolve(
                opcode,
                make_address(low_byte, high_byte),
                data,
            ),
        }
    }

    /// One cycle of the indirect indexed mode, `(zp),Y`.
    pub fn next_indirect_y_mode_state(
        &mut self,
        opcode: Opcode,
        indirect_address_low_byte: Option<u8>,
        address_low_byte: Option<u8>,
        address_high_byte: Option<u8>,
        checked_page_boundary: bool,
        data: u8,
    ) -> (next: State)
        ensures
            final(self)@.with_state(next) == old(self)@.step_indirect_y(
                opcode,
                indirect_address_low_byte,
                address_low_byte,
                address_high_byte,
                checked_page_boundary,
                data,
            ),
    {
        match (indirect_address_low_byte, address_low_byte, address_high_byte) {
            (None, _, _) => reading_operand(
                opcode,
                None,
                None,
                None,
                Some(self.read_and_inc_program_counter(data)),
                None,
                false,
            ),
            (Some(_), None, _) => reading_operand(
                opcode,
                Some(data),
                None,
                None,
                indirect_address_low_byte,
                None,
                false,
            ),
            (Some(_), Some(_), None) => reading_operand(
                opcode,
                address_low_byte,
                Some(data),
                indirect_address_low_byte,
                indirect_address_low_byte,
                None,
                false,
            ),
            (Some(_), Some(low_byte), Some(high_byte)) => {
                let address: u16 = indexed(low_byte, high_byte, self.registers.y);
                if checked_page_boundary {
                    self.resolve(opcode, address, data)
                } else {
                    let dummy_read_address: u16 = indexed_in_page(
                        low_byte,
                        high_byte,
                        self.registers.y,
                    );
                    match opcode.operation.instruction_type() {
                        InstructionType::Read => {
                            if dummy_read_address == address {
                                self.execute(opcode, Some(data), Some(address))
                            } else {
                                reading_operand(
                                    opcode,
                                    address_low_byte,
                                    address_high_byte,
                                    None,
                                    indirect_address_low_byte,
                                    None,
                                    true,
                                )
                            }
                        },
                        _ => reading_operand(
                            opcode,
                            address_low_byte,
                            address_high_byte,
                            None,
                            indirect_address_low_byte,
                            None,
                            true,
                        ),
                    }
                }
            },
        }
    }
}

} // verus!
