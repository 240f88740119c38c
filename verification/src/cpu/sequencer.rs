//! The stack, the seven-cycle interrupt entry and the cycles of an
//! instruction.

use vstd::prelude::*;
use crate::cpu::address::{low_byte, make_address};
use crate::cpu::model::CpuView;
use crate::cpu::opcodes::{AddressingMode, Opcode, Operation};
use crate::cpu::state::{CpuState, InterruptState, State};
use crate::cpu::status_flags::{Flag, StatusFlags};
use crate::cpu::walker::reading_operand;
use crate::cpu::Cpu;

verus! {

impl Cpu {
    /// Moves the stack pointer down after a byte was written to the stack.
    pub fn push_to_stack(&mut self)
        ensures
            final(self)@ == old(self)@.with_registers(old(self)@.registers.pushed()),
    {
        self.registers.stack_pointer = self.registers.stack_pointer.wrapping_sub(1);
    }

    /// Moves the stack pointer up to the slot that `data` was read from, and
    /// returns `data`.
    pub fn pop_from_stack(&mut self, data: u8) -> (value: u8)
        ensures
            value == data,
            final(self)@ == old(self)@.with_registers(old(self)@.registers.pulled()),
    {
        self.registers.stack_pointer = self.registers.stack_pointer.wrapping_add(1);
        data
    }

    /// One cycle of the interrupt entry; `data` is the byte that the cycle
    /// read. Returns the pipeline state that follows.
    pub fn step_interrupt_handler(&mut self, state: InterruptState, data: u8) -> (next: State)
        ensures
            final(self)@.with_state(next) == old(self)@.step_interrupt(state, data),
    {
        match state {
            InterruptState::InternalOps1(i) => State::Interrupt(InterruptState::InternalOps2(i)),
            InterruptState::InternalOps2(i) => State::Interrupt(InterruptState::PushPCH(i)),
            InterruptState::PushPCH(i) => {
                self.push_to_stack();
                State::Interrupt(InterruptState::PushPCL(i))
            },
            InterruptState::PushPCL(i) => {
                self.push_to_stack();
                State::Interrupt(InterruptState::PushStatusRegister(i))
            },
            InterruptState::PushStatusRegister(i) => {
                let i = i.hijack(self.polled_interrupt);
                self.polled_interrupt = None;
                self.push_to_stack();
                self.registers.status_register.insert(Flag::InterruptDisable);
                State::Interrupt(InterruptState::PullVectorLow(i))
            },
            InterruptState::PullVectorLow(i) => {
                self.registers.program_counter = data as u16;
                State::Interrupt(InterruptState::PullVectorHigh(i))
            },
            InterruptState::PullVectorHigh(_) => {
                self.registers.program_counter = make_address(
                    low_byte(self.registers.program_counter),
                    data,
                );
                State::Cpu(CpuState::FetchOpcode)
            },
        }
    }

    /// The first cycle of an instruction: `data` is the opcode byte.
    pub fn fetch_opcode(&mut self, data: u8) -> (next: State)
        ensures
            final(self)@.with_state(next) == old(self)@.step_cpu(CpuState::FetchOpcode, data),
            next.wf(),
    {
        let opcode = Opcode::decode(self.read_and_inc_program_counter(data));
        match opcode.address_mode {
            AddressingMode::Accumulator => State::Cpu(
                CpuState::ThrowawayRead { opcode, operand: Some(self.registers.a) },
            ),
            AddressingMode::Implied => State::Cpu(
                CpuState::ThrowawayRead { opcode, operand: None },
            ),
            _ => reading_operand(opcode, None, None, None, None, None, false),
        }
    }

    /// One cycle of the addressing-mode walker, whichever the mode.
    pub fn read_operand(
        &mut self,
        opcode: Opcode,
        address_low_byte: Option<u8>,
        address_high_byte: Option<u8>,
        pointer: Option<u8>,
        indirect_address_low_byte: Option<u8>,
        indirect_address_high_byte: Option<u8>,
        checked_page_boundary: bool,
        data: u8,
    ) -> (next: State)
        requires
            opcode.valid(),
            !opcode.address_mode.is_implicit(),
        ensures
            final(self)@.with_state(next) == old(self)@.step_operand(
                opcode,
                address_low_byte,
                address_high_byte,
                pointer,
                indirect_address_low_byte,
                indirect_address_high_byte,
                checked_page_boundary,
                data,
            ),
    {
        proof {
            reveal(CpuView::step_operand);
        }
        let index: u8 = self.index_register(opcode.address_mode);
        match opcode.address_mode {
            AddressingMode::Absolute => self.next_absolute_mode_state(
                opcode,
                address_low_byte,
                address_high_byte,
                data,
            ),
            AddressingMode::AbsoluteXIndexed
            | AddressingMode::AbsoluteYIndexed => self.next_absolute_indexed_mode_state(
                opcode,
                address_low_byte,
                address_high_byte,
                checked_page_boundary,
                index,
                data,
            ),
            AddressingMode::Immediate => self.next_immediate_mode_state(opcode, data),
            AddressingMode::Indirect => self.next_indirect_mode_state(
                opcode,
                indirect_address_low_byte,
                indirect_address_high_byte,
                address_low_byte,
                data,
            ),
            AddressingMode::IndirectXIndexed => self.next_indirect_x_mode_state(
                opcode,
                indirect_address_low_byte,
                pointer,
                address_low_byte,
                address_high_byte,
                data,
            ),
            AddressingMode::IndirectYIndexed => self.next_indirect_y_mode_state(
                opcode,
                indirect_address_low_byte,
                address_low_byte,
                address_high_byte,
                checked_page_boundary,
                data,
            ),
            AddressingMode::Relative => self.next_relative_mode_state(opcode, data),
            AddressingMode::ZeroPage => self.next_zero_page_mode_state(
                opcode,
                address_low_byte,
                data,
            ),
            _ => self.next_zero_page_indexed_mode_state(
                opcode,
                address_low_byte,
                address_high_byte,
                index,
                data,
            ),
        }
    }

    /// The second cycle of an instruction without operand bytes. `BRK`
    /// alone steps over the byte that the cycle read.
    pub fn throwaway_read(&mut self, opcode: Opcode, operand: Option<u8>, data: u8) -> (next:
        State)
        requires
            State::Cpu(CpuState::ThrowawayRead { opcode, operand }).wf(),
        ensures
            final(self)@.with_state(next) == old(self)@.step_cpu(
                CpuState::ThrowawayRead { opcode, operand },
                data,
            ),
    {
        if opcode.operation == Operation::BRK {
            self.read_and_inc_program_counter(data);
        }
        self.execute(opcode, operand, None)
    }

    /// The cycle that pulls the accumulator or the status register;
    /// `data` is the byte read from the stack.
    pub fn pull_register(&mut self, operation: Operation, data: u8) -> (next: State)
        ensures
            final(self)@.with_state(next) == old(self)@.step_cpu(
                CpuState::PullRegisterFromStack { operation },
                data,
            ),
    {
        match operation {
            Operation::PLA => {
                self.registers.a = self.pop_from_stack(data);
                self.set_negative_zero_flags(self.registers.a);
                State::Cpu(CpuState::FetchOpcode)
            },
            Operation::PLP => {
                self.registers.status_register = StatusFlags::pulled(self.pop_from_stack(data));
                State::Cpu(CpuState::FetchOpcode)
            },
            _ => {
                self.registers.status_register = StatusFlags::pulled(self.pop_from_stack(data));
                State::Cpu(CpuState::PullPCLFromStack { operation })
            },
        }
    }

    /// One cycle inside an instruction; `data` is the byte that the cycle
    /// read. Returns the pipeline state that follows.
    pub fn step_cpu(&mut self, state: CpuState, data: u8) -> (next: State)
        requires
            State::Cpu(state).wf(),
        ensures
            final(self)@.with_state(next) == old(self)@.step_cpu(state, data),
    {
        match state {
            CpuState::FetchOpcode => self.fetch_opcode(data),
            CpuState::ReadingOperand {
                opcode,
                address_low_byte,
                address_high_byte,
                pointer,
                indirect_address_low_byte,
                indirect_address_high_byte,
                checked_page_boundary,
            } => self.read_operand(
                opcode,
                address_low_byte,
                address_high_byte,
                pointer,
                indirect_address_low_byte,
                indirect_address_high_byte,
                checked_page_boundary,
                data,
            ),
            CpuState::ThrowawayRead { opcode, operand } => self.throwaway_read(
                opcode,
                operand,
                data,
            ),
            CpuState::PushRegisterOnStack { value: _ } => {
                self.push_to_stack();
                State::Cpu(CpuState::FetchOpcode)
            },
            CpuState::PreIncrementStackPointer { operation } => match operation {
                Operation::RTS => State::Cpu(CpuState::PullPCLFromStack { operation }),
                _ => State::Cpu(CpuState::PullRegisterFromStack { operation }),
            },
            CpuState::PullRegisterFromStack { operation } => self.pull_register(
                operation,
                data,
            ),
            CpuState::PullPCLFromStack { operation } => State::Cpu(
                CpuState::PullPCHFromStack { operation, pcl: self.pop_from_stack(data) },
            ),
            CpuState::PullPCHFromStack { operation, pcl } => {
                let pch: u8 = self.pop_from_stack(data);
                self.registers.program_counter = make_address(pcl, pch);
                match operation {
                    Operation::RTS => State::Cpu(CpuState::IncrementProgramCounter),
                    _ => State::Cpu(CpuState::FetchOpcode),
                }
            },
            CpuState::IncrementProgramCounter => {
                self.registers.program_counter = self.registers.program_counter.wrapping_add(1);
                State::Cpu(CpuState::FetchOpcode)
            },
            CpuState::WritePCHToStack { address } => {
                self.push_to_stack();
                State::Cpu(CpuState::WritePCLToStack { address })
            },
            CpuState::WritePCLToStack { address } => {
                self.push_to_stack();
                State::Cpu(CpuState::SetProgramCounter { address })
            },
            CpuState::SetProgramCounter { address } => {
                self.registers.program_counter = address;
                State::Cpu(CpuState::FetchOpcode)
            },
            CpuState::BranchCrossesPageBoundary { opcode, operand, address } => self.execute(
                opcode,
                Some(operand),
                Some(address),
            ),
            CpuState::WritingResult { value, address, unmodified, dummy: true } => State::Cpu(
                CpuState::WritingResult { value, address, unmodified, dummy: false },
            ),
            CpuState::WritingResult { value: _, address: _, unmodified: _, dummy: false } => {
                State::Cpu(CpuState::FetchOpcode)
            },
        }
    }
}

} // verus!
