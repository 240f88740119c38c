//! What the processor asks of the bus in the coming cycle.

use vstd::prelude::*;
use crate::cpu::address::{
    add_bytes,
    high_byte,
    indexed,
    indexed_in_page,
    low_byte,
    make_address,
    stack_address,
    zero_page_indexed,
};
use crate::cpu::model::CpuView;
use crate::cpu::opcodes::{AddressingMode, Opcode, Operation};
use crate::cpu::state::{BusAccess, CpuState, InterruptState, State};
use crate::cpu::Cpu;

verus! {

impl Cpu {
    /// The write that pushes `value` to the stack.
    pub fn push_access(&self, value: u8) -> (access: BusAccess)
        ensures
            access == crate::cpu::model::push_access(self@.registers, value),
    {
        BusAccess::Write { address: stack_address(self.registers.stack_pointer), value }
    }

    /// The read that pulls a byte from the stack.
    pub fn pull_access(&self) -> (access: BusAccess)
        ensures
            access == (BusAccess::Read { address: self@.registers.pull_address() }),
    {
        BusAccess::Read { address: stack_address(self.registers.stack_pointer.wrapping_add(1)) }
    }

    /// The access of one cycle of the addressing-mode walker.
    pub fn operand_access(
        &self,
        opcode: Opcode,
        address_low_byte: Option<u8>,
        address_high_byte: Option<u8>,
        pointer: Option<u8>,
        indirect_address_low_byte: Option<u8>,
        indirect_address_high_byte: Option<u8>,
        checked_page_boundary: bool,
    ) -> (access: BusAccess)
        ensures
            access == self@.operand_access(
                opcode,
                address_low_byte,
                address_high_byte,
                pointer,
                indirect_address_low_byte,
                indirect_address_high_byte,
                checked_page_boundary,
            ),
    {
        proof {
            reveal(CpuView::operand_access);
        }
        let at_pc = BusAccess::Read { address: self.registers.program_counter };
        let index: u8 = self.index_register(opcode.address_mode);
        match opcode.address_mode {
            AddressingMode::ZeroPage => match address_low_byte {
                None => at_pc,
                Some(low) => self.final_access(opcode, low as u16),
            },
            AddressingMode::ZeroPageXIndexed | AddressingMode::ZeroPageYIndexed => match (
                address_low_byte,
                address_high_byte,
            ) {
                (None, _) => at_pc,
                (Some(low), None) => BusAccess::Read { address: low as u16 },
                (Some(low), Some(_)) => self.final_access(opcode, zero_page_indexed(low, index)),
            },
            AddressingMode::Absolute => match (address_low_byte, address_high_byte) {
                (Some(low), Some(high)) => self.final_access(opcode, make_address(low, high)),
                _ => at_pc,
            },
            AddressingMode::AbsoluteXIndexed | AddressingMode::AbsoluteYIndexed => match (
                address_low_byte,
                address_high_byte,
            ) {
                (Some(low), Some(high)) => if checked_page_boundary {
                    self.final_access(opcode, indexed(low, high, index))
                } else {
                    BusAccess::Read { address: indexed_in_page(low, high, index) }
                },
                _ => at_pc,
            },
            AddressingMode::Indirect => match (
                indirect_address_low_byte,
                indirect_address_high_byte,
                address_low_byte,
            ) {
                (Some(low), Some(high), None) => BusAccess::Read {
                    address: make_address(low, high),
                },
                (Some(low), Some(high), Some(_)) => BusAccess::Read {
                    address: make_address(add_bytes(low, 1), high),
                },
                _ => at_pc,
            },
            AddressingMode::IndirectXIndexed => match (
                indirect_address_low_byte,
                pointer,
                address_low_byte,
                address_high_byte,
            ) {
                (None, _, _, _) => at_pc,
                (Some(zp), None, _, _) => BusAccess::Read { address: zp as u16 },
                (Some(zp), Some(_), None, _) => BusAccess::Read {
                    address: zero_page_indexed(zp, self.registers.x),
                },
                (Some(zp), Some(_), Some(_), None) => BusAccess::Read {
                    address: zero_page_indexed(add_bytes(zp, self.registers.x), 1),
                },
                (Some(_), Some(_), Some(low), Some(high)) => self.final_access(
                    opcode,
                    make_address(low, high),
                ),
            },
            AddressingMode::IndirectYIndexed => match (
                indirect_address_low_byte,
                address_low_byte,
                address_high_byte,
            ) {
                (None, _, _) => at_pc,
                (Some(zp), None, _) => BusAccess::Read { address: zp as u16 },
                (Some(zp), Some(_), None) => BusAccess::Read {
                    address: zero_page_indexed(zp, 1),
                },
                (Some(_), Some(low), Some(high)) => if checked_page_boundary {
                    self.final_access(opcode, indexed(low, high, self.registers.y))
                } else {
                    BusAccess::Read { address: indexed_in_page(low, high, self.registers.y) }
                },
            },
            _ => at_pc,
        }
    }

    /// The one access that the coming cycle makes on the bus. The host
    /// carries it out and hands the byte it read to `clock`.
    ///
    /// In the cycle that pushes the status byte of an interrupt entry the
    /// byte depends on the pending interrupt: the host samples the
    /// interrupt lines (see `poll_point`) before it asks for the access.
    pub fn bus_access(&self) -> (access: BusAccess)
        ensures
            access == self@.bus_access(),
    {
        let at_pc = BusAccess::Read { address: self.registers.program_counter };
        match self.state {
            State::Interrupt(InterruptState::InternalOps1(_)) => at_pc,
            State::Interrupt(InterruptState::InternalOps2(_)) => at_pc,
            State::Interrupt(InterruptState::PushPCH(_)) => self.push_access(
                high_byte(self.registers.program_counter),
            ),
            State::Interrupt(InterruptState::PushPCL(_)) => self.push_access(
                low_byte(self.registers.program_counter),
            ),
            State::Interrupt(InterruptState::PushStatusRegister(i)) => {
                let served = i.hijack(self.polled_interrupt);
                self.push_access(self.registers.status_register.pushed(served.is_brk()))
            },
            State::Interrupt(InterruptState::PullVectorLow(i)) => BusAccess::Read {
                address: i.offset(),
            },
            State::Interrupt(InterruptState::PullVectorHigh(i)) => BusAccess::Read {
                address: i.offset() + 1,
            },
            State::Cpu(CpuState::FetchOpcode) => at_pc,
            State::Cpu(CpuState::ThrowawayRead { .. }) => at_pc,
            State::Cpu(
                CpuState::ReadingOperand {
                    opcode,
                    address_low_byte,
                    address_high_byte,
                    pointer,
                    indirect_address_low_byte,
                    indirect_address_high_byte,
                    checked_page_boundary,
                },
            ) => self.operand_access(
                opcode,
                address_low_byte,
                address_high_byte,
                pointer,
                indirect_address_low_byte,
                indirect_address_high_byte,
                checked_page_boundary,
            ),
            State::Cpu(CpuState::BranchCrossesPageBoundary { .. }) => at_pc,
            State::Cpu(CpuState::PushRegisterOnStack { value }) => self.push_access(value),
            State::Cpu(CpuState::PreIncrementStackPointer { .. }) => BusAccess::Read {
                address: stack_address(self.registers.stack_pointer),
            },
            State::Cpu(CpuState::PullRegisterFromStack { .. }) => self.pull_access(),
            State::Cpu(CpuState::PullPCLFromStack { .. }) => self.pull_access(),
            State::Cpu(CpuState::PullPCHFromStack { .. }) => self.pull_access(),
            State::Cpu(CpuState::IncrementProgramCounter) => at_pc,
            State::Cpu(CpuState::WritePCHToStack { .. }) => self.push_access(
                high_byte(self.registers.program_counter.wrapping_sub(1)),
            ),
            State::Cpu(CpuState::WritePCLToStack { .. }) => self.push_access(
                low_byte(self.registers.program_counter.wrapping_sub(1)),
            ),
            State::Cpu(CpuState::SetProgramCounter { .. }) => at_pc,
            State::Cpu(CpuState::WritingResult { address, value, unmodified, dummy }) => {
                BusAccess::Write { address, value: if dummy { unmodified } else { value } }
            },
        }
    }

    /// Whether the host samples the interrupt lines before the coming
    /// cycle's bus access: `Some(clear_lines)` if it does. Whatever the host
    /// finds it hands over with `raise_interrupt`.
    pub fn poll_point(&self) -> (poll: Option<bool>)
        ensures
            poll == self@.poll_point(),
    {
        match self.state {
            State::Interrupt(InterruptState::PushStatusRegister(_)) => Some(false),
            State::Cpu(CpuState::PullRegisterFromStack { operation }) => match operation {
                Operation::RTI => None,
                _ => Some(true),
            },
            State::Cpu(CpuState::PullPCHFromStack { operation, .. }) => match operation {
                Operation::RTI => Some(true),
                _ => None,
            },
            State::Cpu(CpuState::IncrementProgramCounter) => Some(true),
            State::Cpu(CpuState::SetProgramCounter { .. }) => Some(true),
            State::Cpu(CpuState::WritingResult { dummy, .. }) => if dummy {
                None
            } else {
                Some(true)
            },
            _ => None,
        }
    }
}

} // verus!
