//! The pipeline state: where inside an instruction or an interrupt entry the
//! processor stands between two cycles.

use vstd::prelude::*;
use crate::cpu::interrupts::Interrupt;
use crate::cpu::opcodes::{Opcode, Operation};

verus! {

/// The pipeline state.
#[derive(Debug, Copy, Clone, PartialEq, Eq, Structural)]
pub enum State {
    /// Inside the seven-cycle interrupt entry.
    Interrupt(InterruptState),
    /// Inside (or between) instructions.
    Cpu(CpuState),
}

/// The cycles of an interrupt entry, named by what the cycle about to run does.
#[derive(Debug, Copy, Clone, PartialEq, Eq, Structural)]
pub enum InterruptState {
    /// First internal cycle: a read whose value is discarded.
    InternalOps1(Interrupt),
    /// Second internal cycle: a read whose value is discarded.
    InternalOps2(Interrupt),
    /// Push the high byte of the program counter.
    PushPCH(Interrupt),
    /// Push the low byte of the program counter.
    PushPCL(Interrupt),
    /// Decide which interrupt is served, push the status byte and disable
    /// interrupts.
    PushStatusRegister(Interrupt),
    /// Read the low byte of the vector into the program counter.
    PullVectorLow(Interrupt),
    /// Read the high byte of the vector into the program counter.
    PullVectorHigh(Interrupt),
}

/// The cycles of an instruction, named by what the cycle about to run does.
#[allow(inconsistent_fields)]
#[derive(Debug, Copy, Clone, PartialEq, Eq, Structural)]
pub enum CpuState {
    /// Read the opcode at the program counter and decode it.
    FetchOpcode,
    /// Second cycle of an instruction without operand bytes: read the byte
    /// after the opcode and discard it. `operand` is the accumulator for the
    /// accumulator mode.
    ThrowawayRead { opcode: Opcode, operand: Option<u8> },
    /// Walking through an addressing mode; the fields are filled in as the
    /// bytes arrive.
    ReadingOperand {
        opcode: Opcode,
        address_low_byte: Option<u8>,
        address_high_byte: Option<u8>,
        pointer: Option<u8>,
        indirect_address_low_byte: Option<u8>,
        indirect_address_high_byte: Option<u8>,
        checked_page_boundary: bool,
    },
    /// The extra cycle of a taken branch whose target lies in another page.
    BranchCrossesPageBoundary { opcode: Opcode, address: u16, operand: u8 },
    /// Write `value` to the stack.
    PushRegisterOnStack { value: u8 },
    /// The internal cycle before a pull: a read of the stack whose value is
    /// discarded.
    PreIncrementStackPointer { operation: Operation },
    /// Pull the accumulator or the status register.
    PullRegisterFromStack { operation: Operation },
    /// Pull the low byte of the program counter.
    PullPCLFromStack { operation: Operation },
    /// Pull the high byte of the program counter.
    PullPCHFromStack { operation: Operation, pcl: u8 },
    /// The last cycle of `RTS`: step past the last byte of the `JSR`.
    IncrementProgramCounter,
    /// `JSR`: push the high byte of the return address.
    WritePCHToStack { address: u16 },
    /// `JSR`: push the low byte of the return address.
    WritePCLToStack { address: u16 },
    /// Last cycle of `JSR` and of a taken branch: load the program counter.
    SetProgramCounter { address: u16 },
    /// The two write cycles that end a read-modify-write instruction: while
    /// `dummy` holds, `unmodified` is written back; then `value` is written.
    WritingResult { address: u16, value: u8, unmodified: u8, dummy: bool },
}

/// The one bus access that a cycle performs.
#[derive(Debug, Copy, Clone, PartialEq, Eq, Structural)]
pub enum BusAccess {
    /// Read the byte at `address`; the byte goes to the processor.
    Read { address: u16 },
    /// Write `value` to `address`.
    Write { address: u16, value: u8 },
}

} // verus!
