//! The register file.

use vstd::prelude::*;
use crate::cpu::status_flags::{Flags, StatusFlags, Flag};

verus! {

/// The registers of the processor.
#[derive(Clone, Copy, Debug, PartialEq, Eq, Structural)]
pub struct Registers {
    /// The accumulator `A`.
    pub a: u8,
    /// The index register `X`.
    pub x: u8,
    /// The index register `Y`.
    pub y: u8,
    /// The stack pointer `S`, which names the address `0x0100 + S`.
    pub stack_pointer: u8,
    /// The program counter `PC`.
    pub program_counter: u16,
    /// The status register `P`.
    pub status_register: StatusFlags,
}

/// The register file with the status register as named flags.
pub struct RegistersView {
    pub a: u8,
    pub x: u8,
    pub y: u8,
    pub stack_pointer: u8,
    pub program_counter: u16,
    pub status: Flags,
}

impl View for Registers {
    type V = RegistersView;

    open spec fn view(&self) -> RegistersView {
        RegistersView {
            a: self.a,
            x: self.x,
            y: self.y,
            stack_pointer: self.stack_pointer,
            program_counter: self.program_counter,
            status: self.status_register@,
        }
    }
}

impl RegistersView {
    /// The registers after power-on: `A`, `X` and `Y` are zero, the stack
    /// pointer is `0xFD`, interrupts are disabled and execution starts at
    /// `program_counter`.
    pub open spec fn power_on(program_counter: u16) -> RegistersView {
        RegistersView {
            a: 0,
            x: 0,
            y: 0,
            stack_pointer: 0xFD,
            program_counter,
            status: Flags { interrupt_disable: true, ..Flags::empty() },
        }
    }
}

impl Registers {
    /// The registers after power-on, with execution starting at
    /// `program_counter`.
    pub fn new(program_counter: u16) -> (registers: Registers)
        ensures
            registers@ == RegistersView::power_on(program_counter),
    {
        let mut status_register = StatusFlags::empty();
        status_register.insert(Flag::InterruptDisable);
        Registers { a: 0, x: 0, y: 0, stack_pointer: 0xFD, program_counter, status_register }
    }
}

} // verus!
