//! The processor: its state, and the functions that advance it by one cycle.
//!
//! The types: [`status_flags`], [`registers`], [`interrupts`], [`opcodes`]
//! and [`state`]. The arithmetic on bytes and addresses: [`address`].
//!
//! The processor as mathematics: [`alu`] says what each operation computes,
//! [`addressing`] how each addressing mode walks, [`model`] what one cycle
//! does, and [`run`] what a sequence of cycles does.
//!
//! The processor as code, proved to do what the mathematics says:
//! [`execute`], [`walker`], [`sequencer`] and [`bus`], with `clock`,
//! `new_cpu` and `raise_interrupt` in this module.
//!
//! What follows from the mathematics: [`invariants`] (what always holds),
//! [`timing`] (how many cycles an instruction takes), [`stack`] (what is
//! pushed is what is pulled) and [`operands`] (where operands are read).

pub mod address;
pub mod addressing;
pub mod alu;
pub mod bus;
pub mod execute;
pub mod interrupts;
pub mod invariants;
pub mod model;
pub mod opcodes;
pub mod operands;
pub mod registers;
pub mod run;
pub mod sequencer;
pub mod stack;
pub mod state;
pub mod status_flags;
pub mod timing;
pub mod walker;

use vstd::prelude::*;
use crate::cpu::address::make_address;
use crate::cpu::interrupts::Interrupt;
use crate::cpu::invariants::lemma_next_wf;
use crate::cpu::model::CpuView;
use crate::cpu::opcodes::{AddressingMode, Operation};
use crate::cpu::registers::Registers;
use crate::cpu::state::{CpuState, InterruptState, State};
use crate::cpu::status_flags::Flag;

verus! {

/// The processor between two cycles.
#[derive(Debug, Copy, Clone, PartialEq, Eq, Structural)]
pub struct Cpu {
    /// Where in an instruction or interrupt entry the processor stands.
    pub state: State,
    /// The register file.
    pub registers: Registers,
    /// The number of cycles run so far; wraps at 2^32.
    pub cycles: u32,
    /// The interrupt that waits for the end of the current instruction.
    pub polled_interrupt: Option<Interrupt>,
}

impl View for Cpu {
    type V = CpuView;

    open spec fn view(&self) -> CpuView {
        CpuView {
            state: self.state,
            registers: self.registers@,
            cycles: self.cycles,
            polled_interrupt: self.polled_interrupt,
        }
    }
}

impl State {
    /// Whether the state can be stepped.
    pub fn is_valid(&self) -> (valid: bool)
        ensures
            valid == self.wf(),
    {
        match self {
            State::Interrupt(_) => true,
            State::Cpu(CpuState::ThrowawayRead { opcode, operand }) => {
                opcode.is_valid() && opcode.address_mode.has_no_operand() && (opcode.address_mode
                    == AddressingMode::Accumulator) == operand.is_some()
            },
            State::Cpu(CpuState::ReadingOperand { opcode, .. }) => {
                opcode.is_valid() && !opcode.address_mode.has_no_operand()
            },
            State::Cpu(CpuState::BranchCrossesPageBoundary { opcode, .. }) => {
                opcode.is_valid() && opcode.address_mode == AddressingMode::Relative
            },
            State::Cpu(CpuState::PreIncrementStackPointer { operation }) => match operation {
                Operation::PLA | Operation::PLP | Operation::RTI | Operation::RTS => true,
                _ => false,
            },
            State::Cpu(CpuState::PullRegisterFromStack { operation }) => match operation {
                Operation::PLA | Operation::PLP | Operation::RTI => true,
                _ => false,
            },
            State::Cpu(CpuState::PullPCLFromStack { operation }) => match operation {
                Operation::RTI | Operation::RTS => true,
                _ => false,
            },
            State::Cpu(CpuState::PullPCHFromStack { operation, .. }) => match operation {
                Operation::RTI | Operation::RTS => true,
                _ => false,
            },
            State::Cpu(_) => true,
        }
    }
}

impl Cpu {
    /// Whether the processor can be clocked: its pipeline state can be
    /// stepped, and the status register holds neither `Break` nor `Unused`.
    pub open spec fn wf(&self) -> bool {
        self@.wf()
    }

    /// Whether the processor can be clocked. A processor made by `new_cpu`
    /// and changed only by `clock` and `raise_interrupt` always can.
    pub fn is_valid(&self) -> (valid: bool)
        ensures
            valid == self.wf(),
    {
        self.state.is_valid() && !self.registers.status_register.contains(Flag::Break)
            && !self.registers.status_register.contains(Flag::Unused)
    }
}

/// The view leaves nothing out: two processors with the same view are the
/// same processor.
pub proof fn lemma_view_determines_cpu(a: Cpu, b: Cpu)
    requires
        a@ == b@,
    ensures
        a == b,
{
    crate::cpu::status_flags::lemma_view_injective(
        a.registers.status_register,
        b.registers.status_register,
    );
}

/// A processor that was just switched on. `reset_vector_low` and
/// `reset_vector_high` are the bytes at `0xFFFC` and `0xFFFD`: execution
/// starts at the address they hold. The cycle counter starts at
/// `initial_cycles`.
pub fn new_cpu(initial_cycles: u32, reset_vector_low: u8, reset_vector_high: u8) -> (cpu: Cpu)
    ensures
        cpu@ == CpuView::power_on(initial_cycles, reset_vector_low, reset_vector_high),
        cpu.wf(),
{
    let pc: u16 = make_address(reset_vector_low, reset_vector_high);
    Cpu {
        state: State::Cpu(CpuState::FetchOpcode),
        registers: Registers::new(pc),
        cycles: initial_cycles,
        polled_interrupt: None,
    }
}

/// Moves the processor on by one cycle. `data` is the byte that the cycle's
/// bus access (see `Cpu::bus_access`) read; after a write it has no
/// influence.
///
/// `CpuView::next` is built from the decode table `Opcode::of_byte`, the
/// walker `CpuView::step_operand` and the operations `CpuView::execute`,
/// which are opaque to the solver: a proof that needs the state after a
/// given byte reveals them.
pub fn clock(cpu: &mut Cpu, data: u8)
    requires
        old(cpu).wf(),
    ensures
        final(cpu)@ == old(cpu)@.next(data),
        final(cpu).wf(),
{
    proof {
        lemma_next_wf(cpu@, data);
    }
    cpu.state = match cpu.state {
        State::Cpu(state) => cpu.step_cpu(state, data),
        State::Interrupt(state) => cpu.step_interrupt_handler(state, data),
    };
    assert(cpu@ == old(cpu)@.step(data));
    match (cpu.state, cpu.polled_interrupt) {
        (State::Cpu(CpuState::FetchOpcode), Some(interrupt)) => {
            cpu.polled_interrupt = None;
            cpu.state = State::Interrupt(InterruptState::InternalOps1(interrupt));
        },
        _ => {},
    }
    assert(cpu@ == old(cpu)@.step(data).hand_off());
    assert(cpu.cycles == old(cpu).cycles) by {
        crate::cpu::invariants::lemma_step_wf(old(cpu)@, data);
    }
    cpu.cycles = cpu.cycles.wrapping_add(1);
}

/// Hands an interrupt to the processor. It waits in the pending slot until
/// the current instruction ends. The slot holds one interrupt: the new one
/// takes it if the slot is empty or holds an interrupt of lower rank.
pub fn raise_interrupt(cpu: &mut Cpu, interrupt: Interrupt)
    ensures
        final(cpu)@ == old(cpu)@.raise(interrupt),
        old(cpu).wf() ==> final(cpu).wf(),
{
    match cpu.polled_interrupt {
        Some(pending) => {
            if interrupt.outranks(&pending) {
                cpu.polled_interrupt = Some(interrupt);
            }
        },
        None => {
            cpu.polled_interrupt = Some(interrupt);
        },
    }
}

} // verus!
