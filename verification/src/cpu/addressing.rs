//! The addressing-mode walker as a state machine: for each mode, which
//! access each of its cycles makes and what the cycle leaves behind.
//!
//! A mode's functions take only the fields of the walker's state that the
//! mode uses. `low` and `high` are the bytes of the address as far as they
//! have arrived, `data` is the byte that the cycle's read returned.

use vstd::prelude::*;
use crate::cpu::address::{
    address_of,
    branch_target_of,
    byte_sum,
    crosses_page,
    indexed_in_page_of,
    indexed_of,
    same_page,
    zero_page_indexed_of,
};
use crate::cpu::model::{fetch, final_access, index_of, walking, CpuView};
use crate::cpu::opcodes::{AddressingMode, InstructionType, Opcode};
use crate::cpu::state::{BusAccess, CpuState, State};

verus! {

impl CpuView {
    /// The read at the program counter, with which every mode begins.
    pub open spec fn read_at_pc(self) -> BusAccess {
        BusAccess::Read { address: self.registers.program_counter }
    }

    /// The state after a byte was read at the program counter.
    pub open spec fn fetched(self) -> CpuView {
        self.with_registers(self.registers.advanced())
    }

    /// Immediate: the operand is the byte after the opcode.
    pub open spec fn step_immediate(self, opcode: Opcode, data: u8) -> CpuView {
        self.fetched().execute(opcode, Some(data), Some(self.registers.program_counter))
    }

    /// Relative: the byte after the opcode is a signed offset. A branch that
    /// is not taken ends here; a taken one loads the program counter in the
    /// next cycle, after one more cycle if the target is in another page.
    pub open spec fn step_relative(self, opcode: Opcode, data: u8) -> CpuView {
        let after = self.fetched();
        let target = branch_target_of(after.registers.program_counter, data);
        if !self.registers.branch_taken(opcode.operation) {
            after.with_state(fetch())
        } else if !same_page(target, after.registers.program_counter) {
            after.with_state(
                State::Cpu(
                    CpuState::BranchCrossesPageBoundary { opcode, address: target, operand: data },
                ),
            )
        } else {
            after.execute(opcode, Some(data), Some(target))
        }
    }

    /// Zero page: the address byte, then the access at that address.
    pub open spec fn access_zero_page(self, opcode: Opcode, low: Option<u8>) -> BusAccess {
        match low {
            None => self.read_at_pc(),
            Some(l) => final_access(opcode, l as u16, self.registers),
        }
    }

    /// The state after one cycle of the zero-page mode, in which the bus answered with
    /// `data`.
    pub open spec fn step_zero_page(self, opcode: Opcode, low: Option<u8>, data: u8) -> CpuView {
        match low {
            None => self.fetched().with_state(
                walking(opcode, Some(data), None, None, None, None, false),
            ),
            Some(l) => self.resolve(opcode, l as u16, data),
        }
    }

    /// Zero page indexed: the base byte, a read at the base whose value is
    /// discarded, then the access at `base + index` inside the zero page.
    pub open spec fn access_zero_page_indexed(
        self,
        opcode: Opcode,
        low: Option<u8>,
        high: Option<u8>,
        index: u8,
    ) -> BusAccess {
        match (low, high) {
            (None, _) => self.read_at_pc(),
            (Some(l), None) => BusAccess::Read { address: l as u16 },
            (Some(l), Some(_)) => final_access(
                opcode,
                zero_page_indexed_of(l, index),
                self.registers,
            ),
        }
    }

    /// The state after one cycle of a zero-page indexed mode, in which the bus answered with
    /// `data`.
    pub open spec fn step_zero_page_indexed(
        self,
        opcode: Opcode,
        low: Option<u8>,
        high: Option<u8>,
        index: u8,
        data: u8,
    ) -> CpuView {
        match (low, high) {
            (None, _) => self.fetched().with_state(
                walking(opcode, Some(data), None, None, None, None, false),
            ),
            (Some(l), None) => self.with_state(
                walking(opcode, Some(l), Some(0), None, None, None, false),
            ),
            (Some(l), Some(_)) => self.resolve(opcode, zero_page_indexed_of(l, index), data),
        }
    }

    /// Absolute: low byte, high byte, then the access at `high:low`. A jump
    /// is carried out in the cycle that reads the high byte.
    pub open spec fn access_absolute(
        self,
        opcode: Opcode,
        low: Option<u8>,
        high: Option<u8>,
    ) -> BusAccess {
        match (low, high) {
            (Some(l), Some(h)) => final_access(opcode, address_of(l, h), self.registers),
            _ => self.read_at_pc(),
        }
    }

    /// The state after one cycle of the absolute mode, in which the bus answered with
    /// `data`.
    pub open spec fn step_absolute(
        self,
        opcode: Opcode,
        low: Option<u8>,
        high: Option<u8>,
        data: u8,
    ) -> CpuView {
        match (low, high) {
            (None, _) => self.fetched().with_state(
                walking(opcode, Some(data), None, None, None, None, false),
            ),
            (Some(l), None) => if opcode.operation.category() == InstructionType::Jump {
                self.fetched().execute(opcode, None, Some(address_of(l, data)))
            } else {
                self.fetched().with_state(
                    walking(opcode, Some(l), Some(data), None, None, None, false),
                )
            },
            (Some(l), Some(h)) => self.resolve(opcode, address_of(l, h), data),
        }
    }

    /// Absolute indexed: low byte, high byte, then a read at
    /// `high:(low + index)` without the carry. An instruction that only
    /// reads is done if there was no carry; every other case takes one more
    /// cycle for the access at the true address.
    pub open spec fn access_absolute_indexed(
        self,
        opcode: Opcode,
        low: Option<u8>,
        high: Option<u8>,
        checked: bool,
        index: u8,
    ) -> BusAccess {
        match (low, high) {
            (Some(l), Some(h)) => if checked {
                final_access(opcode, indexed_of(l, h, index), self.registers)
            } else {
                BusAccess::Read { address: indexed_in_page_of(l, h, index) }
            },
            _ => self.read_at_pc(),
        }
    }

    /// The state after one cycle of an absolute indexed mode, in which the bus answered with
    /// `data`.
    pub open spec fn step_absolute_indexed(
        self,
        opcode: Opcode,
        low: Option<u8>,
        high: Option<u8>,
        checked: bool,
        index: u8,
        data: u8,
    ) -> CpuView {
        match (low, high) {
            (None, _) => self.fetched().with_state(
                walking(opcode, Some(data), None, None, None, None, false),
            ),
            (Some(l), None) => self.fetched().with_state(
                walking(opcode, Some(l), Some(data), None, None, None, false),
            ),
            (Some(l), Some(h)) => if checked {
                self.resolve(opcode, indexed_of(l, h, index), data)
            } else if opcode.operation.category() == InstructionType::Read && !crosses_page(
                l,
                index,
            ) {
                self.execute(opcode, Some(data), Some(indexed_of(l, h, index)))
            } else {
                self.with_state(walking(opcode, Some(l), Some(h), None, None, None, true))
            },
        }
    }

    /// Indirect: the two bytes of a pointer, then the low byte of the target
    /// at the pointer and the high byte at the next address in the pointer's
    /// own page: the pointer's high byte is never incremented.
    pub open spec fn access_indirect(
        self,
        indirect_low: Option<u8>,
        indirect_high: Option<u8>,
        low: Option<u8>,
    ) -> BusAccess {
        match (indirect_low, indirect_high, low) {
            (Some(il), Some(ih), None) => BusAccess::Read { address: address_of(il, ih) },
            (Some(il), Some(ih), Some(_)) => BusAccess::Read {
                address: address_of(byte_sum(il, 1), ih),
            },
            _ => self.read_at_pc(),
        }
    }

    /// The state after one cycle of the indirect mode, in which the bus answered with
    /// `data`.
    pub open spec fn step_indirect(
        self,
        opcode: Opcode,
        indirect_low: Option<u8>,
        indirect_high: Option<u8>,
        low: Option<u8>,
        data: u8,
    ) -> CpuView {
        match (indirect_low, indirect_high, low) {
            (None, _, _) => self.fetched().with_state(
                walking(opcode, None, None, None, Some(data), None, false),
            ),
            (Some(il), None, _) => self.fetched().with_state(
                walking(opcode, None, None, None, Some(il), Some(data), false),
            ),
            (Some(il), Some(ih), None) => self.with_state(
                walking(opcode, Some(data), None, None, Some(il), Some(ih), false),
            ),
            (Some(_), Some(_), Some(l)) => self.execute(opcode, None, Some(address_of(l, data))),
        }
    }

    /// Indexed indirect, `(zp,X)`: the zero-page byte, a read there whose
    /// value is discarded, the low and high byte of the address at
    /// `zp + X` and `zp + X + 1` inside the zero page, then the access.
    pub open spec fn access_indirect_x(
        self,
        opcode: Opcode,
        indirect_low: Option<u8>,
        pointer: Option<u8>,
        low: Option<u8>,
        high: Option<u8>,
    ) -> BusAccess {
        let x = self.registers.x;
        match (indirect_low, pointer, low, high) {
            (None, _, _, _) => self.read_at_pc(),
            (Some(il), None, _, _) => BusAccess::Read { address: il as u16 },
            (Some(il), Some(_), None, _) => BusAccess::Read {
                address: zero_page_indexed_of(il, x),
            },
            (Some(il), Some(_), Some(_), None) => BusAccess::Read {
                address: zero_page_indexed_of(byte_sum(il, x), 1),
            },
            (Some(_), Some(_), Some(l), Some(h)) => final_access(
                opcode,
                address_of(l, h),
                self.registers,
            ),
        }
    }

    /// The state after one cycle of the indexed indirect mode, in which the bus answered with
    /// `data`.
    pub open spec fn step_indirect_x(
        self,
        opcode: Opcode,
        indirect_low: Option<u8>,
        pointer: Option<u8>,
        low: Option<u8>,
        high: Option<u8>,
        data: u8,
    ) -> CpuView {
        let x = self.registers.x;
        match (indirect_low, pointer, low, high) {
            (None, _, _, _) => self.fetched().with_state(
                walking(opcode, None, None, None, Some(data), None, false),
            ),
            (Some(il), None, _, _) => self.with_state(
                walking(opcode, None, None, Some(il), Some(il), None, false),
            ),
            (Some(il), Some(p), None, _) => self.with_state(
                walking(opcode, Some(data), None, Some(p), Some(il), None, false),
            ),
            (Some(il), Some(p), Some(l), None) => self.with_state(
                walking(
                    opcode,
                    Some(l),
                    Some(data),
                    Some(p),
                    Some(il),
                    Some(byte_sum(byte_sum(il, x), 1)),
                    false,
                ),
            ),
            (Some(_), Some(_), Some(l), Some(h)) => self.resolve(opcode, address_of(l, h), data),
        }
    }

    /// Indirect indexed, `(zp),Y`: the zero-page byte, the low and high
    /// byte of the base at `zp` and `zp + 1` inside the zero page, then as
    /// for absolute indexed with `Y`.
    pub open spec fn access_indirect_y(
        self,
        opcode: Opcode,
        indirect_low: Option<u8>,
        low: Option<u8>,
        high: Option<u8>,
        checked: bool,
    ) -> BusAccess {
        let y = self.registers.y;
        match (indirect_low, low, high) {
            (None, _, _) => self.read_at_pc(),
            (Some(il), None, _) => BusAccess::Read { address: il as u16 },
            (Some(il), Some(_), None) => BusAccess::Read { address: zero_page_indexed_of(il, 1) },
            (Some(_), Some(l), Some(h)) => if checked {
                final_access(opcode, indexed_of(l, h, y), self.registers)
            } else {
                BusAccess::Read { address: indexed_in_page_of(l, h, y) }
            },
        }
    }

    /// The state after one cycle of the indirect indexed mode, in which the bus answered with
    /// `data`.
    pub open spec fn step_indirect_y(
        self,
        opcode: Opcode,
        indirect_low: Option<u8>,
        low: Option<u8>,
        high: Option<u8>,
        checked: bool,
        data: u8,
    ) -> CpuView {
        let y = self.registers.y;
        match (indirect_low, low, high) {
            (None, _, _) => self.fetched().with_state(
                walking(opcode, None, None, None, Some(data), None, false),
            ),
            (Some(il), None, _) => self.with_state(
                walking(opcode, Some(data), None, None, Some(il), None, false),
            ),
            (Some(il), Some(l), None) => self.with_state(
                walking(opcode, Some(l), Some(data), Some(il), Some(il), None, false),
            ),
            (Some(il), Some(l), Some(h)) => if checked {
                self.resolve(opcode, indexed_of(l, h, y), data)
            } else if opcode.operation.category() == InstructionType::Read && !crosses_page(l, y) {
                self.execute(opcode, Some(data), Some(indexed_of(l, h, y)))
            } else {
                self.with_state(walking(opcode, Some(l), Some(h), None, Some(il), None, true))
            },
        }
    }

    /// The access of one cycle of the addressing-mode walker.
    #[verifier::opaque]
    pub open spec fn operand_access(
        self,
        opcode: Opcode,
        low: Option<u8>,
        high: Option<u8>,
        pointer: Option<u8>,
        indirect_low: Option<u8>,
        indirect_high: Option<u8>,
        checked: bool,
    ) -> BusAccess {
        let index = index_of(opcode.address_mode, self.registers);
        match opcode.address_mode {
            AddressingMode::ZeroPage => self.access_zero_page(opcode, low),
            AddressingMode::ZeroPageXIndexed
            | AddressingMode::ZeroPageYIndexed => self.access_zero_page_indexed(
                opcode,
                low,
                high,
                index,
            ),
            AddressingMode::Absolute => self.access_absolute(opcode, low, high),
            AddressingMode::AbsoluteXIndexed
            | AddressingMode::AbsoluteYIndexed => self.access_absolute_indexed(
                opcode,
                low,
                high,
                checked,
                index,
            ),
            AddressingMode::Indirect => self.access_indirect(indirect_low, indirect_high, low),
            AddressingMode::IndirectXIndexed => self.access_indirect_x(
                opcode,
                indirect_low,
                pointer,
                low,
                high,
            ),
            AddressingMode::IndirectYIndexed => self.access_indirect_y(
                opcode,
                indirect_low,
                low,
                high,
                checked,
            ),
            _ => self.read_at_pc(),
        }
    }

    /// One cycle of the addressing-mode walker.
    #[verifier::opaque]
    pub open spec fn step_operand(
        self,
        opcode: Opcode,
        low: Option<u8>,
        high: Option<u8>,
        pointer: Option<u8>,
        indirect_low: Option<u8>,
        indirect_high: Option<u8>,
        checked: bool,
        data: u8,
    ) -> CpuView {
        let index = index_of(opcode.address_mode, self.registers);
        match opcode.address_mode {
            AddressingMode::Immediate => self.step_immediate(opcode, data),
            AddressingMode::Relative => self.step_relative(opcode, data),
            AddressingMode::ZeroPage => self.step_zero_page(opcode, low, data),
            AddressingMode::ZeroPageXIndexed
            | AddressingMode::ZeroPageYIndexed => self.step_zero_page_indexed(
                opcode,
                low,
                high,
                index,
                data,
            ),
            AddressingMode::Absolute => self.step_absolute(opcode, low, high, data),
            AddressingMode::AbsoluteXIndexed
            | AddressingMode::AbsoluteYIndexed => self.step_absolute_indexed(
                opcode,
                low,
                high,
                checked,
                index,
                data,
            ),
            AddressingMode::Indirect => self.step_indirect(
                opcode,
                indirect_low,
                indirect_high,
                low,
                data,
            ),
            AddressingMode::IndirectXIndexed => self.step_indirect_x(
                opcode,
                indirect_low,
                pointer,
                low,
                high,
                data,
            ),
            AddressingMode::IndirectYIndexed => self.step_indirect_y(
                opcode,
                indirect_low,
                low,
                high,
                checked,
                data,
            ),
            _ => self,
        }
    }
}

} // verus!
