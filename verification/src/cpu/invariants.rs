//! What holds of the processor's state between any two cycles.

use vstd::prelude::*;
use crate::cpu::interrupts::Interrupt;
use crate::cpu::model::CpuView;
use crate::cpu::opcodes::{lemma_table_valid, Opcode};
use crate::cpu::state::{CpuState, State};

verus! {

/// An operation leaves `Break` and `Unused` out of the status register and
/// a state that can be stepped.
pub proof fn lemma_execute_wf(
    cpu: CpuView,
    opcode: Opcode,
    operand: Option<u8>,
    address: Option<u16>,
)
    requires
        cpu.registers.status.storable(),
    ensures
        cpu.execute(opcode, operand, address).wf(),
        cpu.execute(opcode, operand, address).cycles == cpu.cycles,
        cpu.execute(opcode, operand, address).polled_interrupt == cpu.polled_interrupt,
{
    reveal(CpuView::execute);
}

/// One cycle of the addressing-mode walker keeps the state well formed.
pub proof fn lemma_step_operand_wf(
    cpu: CpuView,
    opcode: Opcode,
    low: Option<u8>,
    high: Option<u8>,
    pointer: Option<u8>,
    indirect_low: Option<u8>,
    indirect_high: Option<u8>,
    checked: bool,
    data: u8,
)
    requires
        cpu.wf(),
        cpu.state == (State::Cpu(
            CpuState::ReadingOperand {
                opcode,
                address_low_byte: low,
                address_high_byte: high,
                pointer,
                indirect_address_low_byte: indirect_low,
                indirect_address_high_byte: indirect_high,
                checked_page_boundary: checked,
            },
        )),
    ensures
        cpu.step(data).wf(),
        cpu.step(data).cycles == cpu.cycles,
        cpu.step(data).polled_interrupt == cpu.polled_interrupt,
{
    reveal(CpuView::step_operand);
    assert forall|c: CpuView, operand: Option<u8>, address: Option<u16>|
        c.registers.status.storable() implies (#[trigger] c.execute(opcode, operand, address)).wf()
        && c.execute(opcode, operand, address).cycles == c.cycles && c.execute(
        opcode,
        operand,
        address,
    ).polled_interrupt == c.polled_interrupt by {
        lemma_execute_wf(c, opcode, operand, address);
    }
}

/// The micro-step of a cycle keeps the state well formed, leaves the cycle
/// counter alone and empties the pending slot at most.
pub proof fn lemma_step_wf(cpu: CpuView, data: u8)
    requires
        cpu.wf(),
    ensures
        cpu.step(data).wf(),
        cpu.step(data).cycles == cpu.cycles,
        cpu.step(data).polled_interrupt == cpu.polled_interrupt || cpu.step(
            data,
        ).polled_interrupt.is_none(),
{
    match cpu.state {
        State::Interrupt(_) => {},
        State::Cpu(CpuState::FetchOpcode) => {
            lemma_table_valid(data);
        },
        State::Cpu(CpuState::ThrowawayRead { opcode, operand }) => {
            lemma_execute_wf(cpu, opcode, operand, None);
            lemma_execute_wf(cpu.fetched(), opcode, operand, None);
        },
        State::Cpu(
            CpuState::ReadingOperand {
                opcode,
                address_low_byte,
                address_high_byte,
                pointer,
                indirect_address_low_byte,
                indirect_address_high_byte,
                checked_page_boundary,
            },
        ) => {
            lemma_step_operand_wf(
                cpu,
                opcode,
                address_low_byte,
                address_high_byte,
                pointer,
                indirect_address_low_byte,
                indirect_address_high_byte,
                checked_page_boundary,
                data,
            );
        },
        State::Cpu(CpuState::BranchCrossesPageBoundary { opcode, address, operand }) => {
            lemma_execute_wf(cpu, opcode, Some(operand), Some(address));
        },
        State::Cpu(_) => {},
    }
}

/// Between any two cycles the state can be stepped, and the status register
/// holds neither `Break` nor `Unused`: one cycle keeps both.
pub proof fn lemma_next_wf(cpu: CpuView, data: u8)
    requires
        cpu.wf(),
    ensures
        cpu.next(data).wf(),
        cpu.next(data).registers.status.storable(),
{
    lemma_step_wf(cpu, data);
}

/// Raising an interrupt changes the pending slot and nothing else: what
/// holds between two cycles also holds where the host raises interrupts
/// between them.
pub proof fn lemma_raise_changes_slot_only(cpu: CpuView, interrupt: Interrupt)
    ensures
        cpu.raise(interrupt).registers == cpu.registers,
        cpu.raise(interrupt).state == cpu.state,
        cpu.raise(interrupt).cycles == cpu.cycles,
        cpu.raise(interrupt).polled_interrupt.is_some(),
        cpu.wf() ==> cpu.raise(interrupt).wf(),
{
}

} // verus!
