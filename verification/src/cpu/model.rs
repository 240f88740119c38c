//! The processor as a state machine over mathematical values.
//!
//! [`CpuView`] is the whole state of the processor between two cycles. For
//! each state, [`CpuView::bus_access`] is the one access that the coming cycle
//! makes on the bus, [`CpuView::poll_point`] says whether the interrupt lines
//! are sampled first, and [`CpuView::next`] is the state after the cycle,
//! given the byte that the bus answered with.

use vstd::prelude::*;
use crate::cpu::address::{address_of, high_byte_of, low_byte_of};
use crate::cpu::alu::modified;
use crate::cpu::interrupts::Interrupt;
use crate::cpu::opcodes::{AddressingMode, InstructionType, Opcode, Operation};
use crate::cpu::registers::RegistersView;
use crate::cpu::state::{BusAccess, CpuState, InterruptState, State};
use crate::cpu::status_flags::Flags;

verus! {

/// The state of the processor between two cycles.
pub struct CpuView {
    /// Where in an instruction or interrupt entry the processor stands.
    pub state: State,
    /// The register file.
    pub registers: RegistersView,
    /// The number of cycles run so far, modulo 2^32.
    pub cycles: u32,
    /// The interrupt that waits for the end of the current instruction.
    pub polled_interrupt: Option<Interrupt>,
}

/// The state in which the next cycle fetches an opcode.
pub open spec fn fetch() -> State {
    State::Cpu(CpuState::FetchOpcode)
}

/// The write that pushes `value` to the stack.
pub open spec fn push_access(registers: RegistersView, value: u8) -> BusAccess {
    BusAccess::Write { address: registers.push_address(), value }
}

/// A state of the addressing-mode walker.
pub open spec fn walking(
    opcode: Opcode,
    low: Option<u8>,
    high: Option<u8>,
    pointer: Option<u8>,
    indirect_low: Option<u8>,
    indirect_high: Option<u8>,
    checked: bool,
) -> State {
    State::Cpu(
        CpuState::ReadingOperand {
            opcode,
            address_low_byte: low,
            address_high_byte: high,
            pointer,
            indirect_address_low_byte: indirect_low,
            indirect_address_high_byte: indirect_high,
            checked_page_boundary: checked,
        },
    )
}

/// The state of the addressing-mode walker before any operand byte arrived.
pub open spec fn operand_start(opcode: Opcode) -> State {
    walking(opcode, None, None, None, None, None, false)
}

/// The state after the opcode byte was decoded to `opcode`, with `a` in the
/// accumulator.
pub open spec fn decoded(opcode: Opcode, a: u8) -> State {
    match opcode.address_mode {
        AddressingMode::Accumulator => State::Cpu(
            CpuState::ThrowawayRead { opcode, operand: Some(a) },
        ),
        AddressingMode::Implied => State::Cpu(CpuState::ThrowawayRead { opcode, operand: None }),
        _ => operand_start(opcode),
    }
}

/// The index register that `mode` adds to its base address.
pub open spec fn index_of(mode: AddressingMode, registers: RegistersView) -> u8 {
    match mode {
        AddressingMode::AbsoluteXIndexed
        | AddressingMode::ZeroPageXIndexed
        | AddressingMode::IndirectXIndexed => registers.x,
        AddressingMode::AbsoluteYIndexed
        | AddressingMode::ZeroPageYIndexed
        | AddressingMode::IndirectYIndexed => registers.y,
        _ => 0,
    }
}

/// The operations that the pull states serve.
pub open spec fn pulls_register(operation: Operation) -> bool {
    operation == Operation::PLA || operation == Operation::PLP || operation == Operation::RTI
}

/// The operations that pull a return address.
pub open spec fn pulls_program_counter(operation: Operation) -> bool {
    operation == Operation::RTS || operation == Operation::RTI
}

impl State {
    /// Whether the state can be stepped: it holds a valid opcode in a state
    /// that the opcode's addressing mode can reach, and a stack state holds
    /// an operation that uses it.
    pub open spec fn wf(self) -> bool {
        match self {
            State::Interrupt(_) => true,
            State::Cpu(CpuState::ThrowawayRead { opcode, operand }) => {
                &&& opcode.valid()
                &&& opcode.address_mode.is_implicit()
                &&& (opcode.address_mode == AddressingMode::Accumulator) == operand.is_some()
            },
            State::Cpu(CpuState::ReadingOperand { opcode, .. }) => {
                &&& opcode.valid()
                &&& !opcode.address_mode.is_implicit()
            },
            State::Cpu(CpuState::BranchCrossesPageBoundary { opcode, .. }) => {
                &&& opcode.valid()
                &&& opcode.address_mode == AddressingMode::Relative
            },
            State::Cpu(CpuState::PreIncrementStackPointer { operation }) => pulls_register(
                operation,
            ) || operation == Operation::RTS,
            State::Cpu(CpuState::PullRegisterFromStack { operation }) => pulls_register(operation),
            State::Cpu(CpuState::PullPCLFromStack { operation }) => pulls_program_counter(
                operation,
            ),
            State::Cpu(CpuState::PullPCHFromStack { operation, .. }) => pulls_program_counter(
                operation,
            ),
            State::Cpu(_) => true,
        }
    }

    /// Whether the processor stands between two instructions: it is about to
    /// fetch an opcode or to begin an interrupt entry.
    pub open spec fn at_boundary(self) -> bool {
        self == fetch() || self matches State::Interrupt(InterruptState::InternalOps1(_))
    }
}

/// The access that ends an addressing mode at `address`: a store writes its
/// register, every other instruction reads its operand.
pub open spec fn final_access(opcode: Opcode, address: u16, registers: RegistersView) -> BusAccess {
    if opcode.operation.category() == InstructionType::Write {
        BusAccess::Write { address, value: registers.stored_register(opcode.operation) }
    } else {
        BusAccess::Read { address }
    }
}

impl CpuView {
    /// The state with other registers.
    pub open spec fn with_registers(self, registers: RegistersView) -> CpuView {
        CpuView { registers, ..self }
    }

    /// The state with another pipeline state.
    pub open spec fn with_state(self, state: State) -> CpuView {
        CpuView { state, ..self }
    }

    /// A processor that was just switched on, with the two bytes of the
    /// reset vector as read from `0xFFFC` and `0xFFFD`.
    pub open spec fn power_on(initial_cycles: u32, vector_low: u8, vector_high: u8) -> CpuView {
        CpuView {
            state: fetch(),
            registers: RegistersView::power_on(address_of(vector_low, vector_high)),
            cycles: initial_cycles,
            polled_interrupt: None,
        }
    }

    /// Whether the state can be stepped, and `Break` and `Unused` are not
    /// stored in the status register.
    pub open spec fn wf(self) -> bool {
        &&& self.state.wf()
        &&& self.registers.status.storable()
    }

    /// The state after `interrupt` was raised: it takes the pending slot if
    /// the slot is empty or holds an interrupt of lower rank.
    pub open spec fn raise(self, interrupt: Interrupt) -> CpuView {
        match self.polled_interrupt {
            Some(pending) if pending.rank() >= interrupt.rank() => self,
            _ => CpuView { polled_interrupt: Some(interrupt), ..self },
        }
    }

    /// The state after an operation was carried out with its resolved
    /// operand and address: the registers as the operation leaves them, and
    /// the state that follows. A store changes nothing here: its write is
    /// the bus access of the cycle. An accumulator operation has no address
    /// and puts its result into `A`; with an address the result waits in
    /// the state for the two write cycles. `BRK` enters the interrupt
    /// sequence behind its two internal cycles, which the fetch and the
    /// discarded read have stood for.
    #[verifier::opaque]
    pub open spec fn execute(
        self,
        opcode: Opcode,
        operand: Option<u8>,
        address: Option<u16>,
    ) -> CpuView {
        let operation = opcode.operation;
        let r = self.registers;
        match operation.category() {
            InstructionType::Read => CpuView {
                state: fetch(),
                registers: r.after_read(operation, operand.unwrap()),
                ..self
            },
            InstructionType::Write => CpuView { state: fetch(), ..self },
            InstructionType::ReadModifyWrite => {
                let value = modified(operation, operand.unwrap(), r.status.carry).value;
                let after = r.after_modify(operation, operand.unwrap());
                match address {
                    None => CpuView {
                        state: fetch(),
                        registers: RegistersView { a: value, ..after },
                        ..self
                    },
                    Some(address) => CpuView {
                        state: State::Cpu(
                            CpuState::WritingResult {
                                address,
                                value,
                                unmodified: operand.unwrap(),
                                dummy: true,
                            },
                        ),
                        registers: after,
                        ..self
                    },
                }
            },
            InstructionType::Jump => if operation == Operation::JSR {
                CpuView {
                    state: State::Cpu(CpuState::WritePCHToStack { address: address.unwrap() }),
                    ..self
                }
            } else {
                CpuView { state: fetch(), registers: r.at(address.unwrap()), ..self }
            },
            InstructionType::Branch => CpuView {
                state: State::Cpu(CpuState::SetProgramCounter { address: address.unwrap() }),
                ..self
            },
            InstructionType::Stack => match operation {
                Operation::PHA => CpuView {
                    state: State::Cpu(CpuState::PushRegisterOnStack { value: r.a }),
                    ..self
                },
                Operation::PHP => CpuView {
                    state: State::Cpu(
                        CpuState::PushRegisterOnStack { value: r.status.pushed(true) },
                    ),
                    ..self
                },
                Operation::BRK => CpuView {
                    state: State::Interrupt(
                        InterruptState::PushPCH(Interrupt::IRQ_BRK(self.cycles)),
                    ),
                    ..self
                },
                _ => CpuView {
                    state: State::Cpu(CpuState::PreIncrementStackPointer { operation }),
                    ..self
                },
            },
            InstructionType::Implied => CpuView {
                state: fetch(),
                registers: r.after_implied(operation),
                ..self
            },
        }
    }

    /// The state after the access that ends an addressing mode at `address`
    /// answered with `data`.
    pub open spec fn resolve(self, opcode: Opcode, address: u16, data: u8) -> CpuView {
        if opcode.operation.category() == InstructionType::Write {
            self.execute(opcode, None, Some(address))
        } else {
            self.execute(opcode, Some(data), Some(address))
        }
    }

    /// The access that the coming cycle makes on the bus.
    pub open spec fn bus_access(self) -> BusAccess {
        let r = self.registers;
        let at_pc = BusAccess::Read { address: r.program_counter };
        let pull = BusAccess::Read { address: r.pull_address() };
        let return_address = r.return_address();
        match self.state {
            State::Interrupt(InterruptState::InternalOps1(_)) => at_pc,
            State::Interrupt(InterruptState::InternalOps2(_)) => at_pc,
            State::Interrupt(InterruptState::PushPCH(_)) => push_access(
                r,
                high_byte_of(r.program_counter),
            ),
            State::Interrupt(InterruptState::PushPCL(_)) => push_access(
                r,
                low_byte_of(r.program_counter),
            ),
            State::Interrupt(InterruptState::PushStatusRegister(i)) => push_access(
                r,
                r.status.pushed(i.hijacked_by(self.polled_interrupt).is_break()),
            ),
            State::Interrupt(InterruptState::PullVectorLow(i)) => BusAccess::Read {
                address: i.vector(),
            },
            State::Interrupt(InterruptState::PullVectorHigh(i)) => BusAccess::Read {
                address: (i.vector() + 1) as u16,
            },
            State::Cpu(CpuState::FetchOpcode) => at_pc,
            State::Cpu(CpuState::ThrowawayRead { .. }) => at_pc,
            State::Cpu(
                CpuState::ReadingOperand {
                    opcode,
                    address_low_byte,
                    address_high_byte,
                    pointer,
                    indirect_address_low_byte,
                    indirect_address_high_byte,
                    checked_page_boundary,
                },
            ) => self.operand_access(
                opcode,
                address_low_byte,
                address_high_byte,
                pointer,
                indirect_address_low_byte,
                indirect_address_high_byte,
                checked_page_boundary,
            ),
            State::Cpu(CpuState::BranchCrossesPageBoundary { .. }) => at_pc,
            State::Cpu(CpuState::PushRegisterOnStack { value }) => push_access(r, value),
            State::Cpu(CpuState::PreIncrementStackPointer { .. }) => BusAccess::Read {
                address: r.push_address(),
            },
            State::Cpu(CpuState::PullRegisterFromStack { .. }) => pull,
            State::Cpu(CpuState::PullPCLFromStack { .. }) => pull,
            State::Cpu(CpuState::PullPCHFromStack { .. }) => pull,
            State::Cpu(CpuState::IncrementProgramCounter) => at_pc,
            State::Cpu(CpuState::WritePCHToStack { .. }) => push_access(
                r,
                high_byte_of(return_address),
            ),
            State::Cpu(CpuState::WritePCLToStack { .. }) => push_access(
                r,
                low_byte_of(return_address),
            ),
            State::Cpu(CpuState::SetProgramCounter { .. }) => at_pc,
            State::Cpu(CpuState::WritingResult { address, value, unmodified, dummy }) => {
                BusAccess::Write { address, value: if dummy { unmodified } else { value } }
            },
        }
    }

    /// Whether the host samples the interrupt lines before the coming
    /// cycle's bus access, and if so, whether it clears them.
    pub open spec fn poll_point(self) -> Option<bool> {
        match self.state {
            State::Interrupt(InterruptState::PushStatusRegister(_)) => Some(false),
            State::Cpu(CpuState::PullRegisterFromStack { operation }) => if operation
                == Operation::RTI {
                None
            } else {
                Some(true)
            },
            State::Cpu(CpuState::PullPCHFromStack { operation, .. }) => if operation
                == Operation::RTI {
                Some(true)
            } else {
                None
            },
            State::Cpu(CpuState::IncrementProgramCounter) => Some(true),
            State::Cpu(CpuState::SetProgramCounter { .. }) => Some(true),
            State::Cpu(CpuState::WritingResult { dummy, .. }) => if dummy {
                None
            } else {
                Some(true)
            },
            _ => None,
        }
    }

    /// One cycle of the interrupt entry.
    pub open spec fn step_interrupt(self, state: InterruptState, data: u8) -> CpuView {
        let r = self.registers;
        match state {
            InterruptState::InternalOps1(i) => self.with_state(
                State::Interrupt(InterruptState::InternalOps2(i)),
            ),
            InterruptState::InternalOps2(i) => self.with_state(
                State::Interrupt(InterruptState::PushPCH(i)),
            ),
            InterruptState::PushPCH(i) => CpuView {
                state: State::Interrupt(InterruptState::PushPCL(i)),
                registers: r.pushed(),
                ..self
            },
            InterruptState::PushPCL(i) => CpuView {
                state: State::Interrupt(InterruptState::PushStatusRegister(i)),
                registers: r.pushed(),
                ..self
            },
            InterruptState::PushStatusRegister(i) => CpuView {
                state: State::Interrupt(
                    InterruptState::PullVectorLow(i.hijacked_by(self.polled_interrupt)),
                ),
                registers: RegistersView {
                    status: Flags { interrupt_disable: true, ..r.status },
                    ..r.pushed()
                },
                polled_interrupt: None,
                ..self
            },
            InterruptState::PullVectorLow(i) => CpuView {
                state: State::Interrupt(InterruptState::PullVectorHigh(i)),
                registers: r.at(data as u16),
                ..self
            },
            InterruptState::PullVectorHigh(i) => CpuView {
                state: fetch(),
                registers: r.at(address_of(low_byte_of(r.program_counter), data)),
                ..self
            },
        }
    }

    /// One cycle inside an instruction.
    pub open spec fn step_cpu(self, state: CpuState, data: u8) -> CpuView {
        let r = self.registers;
        match state {
            CpuState::FetchOpcode => CpuView {
                state: decoded(Opcode::of_byte(data), r.a),
                registers: r.advanced(),
                ..self
            },
            CpuState::ThrowawayRead { opcode, operand } => if opcode.operation == Operation::BRK {
                self.with_registers(r.advanced()).execute(opcode, operand, None)
            } else {
                self.execute(opcode, operand, None)
            },
            CpuState::ReadingOperand {
                opcode,
                address_low_byte,
                address_high_byte,
                pointer,
                indirect_address_low_byte,
                indirect_address_high_byte,
                checked_page_boundary,
            } => self.step_operand(
                opcode,
                address_low_byte,
                address_high_byte,
                pointer,
                indirect_address_low_byte,
                indirect_address_high_byte,
                checked_page_boundary,
                data,
            ),
            CpuState::BranchCrossesPageBoundary { opcode, address, operand } => self.execute(
                opcode,
                Some(operand),
                Some(address),
            ),
            CpuState::PushRegisterOnStack { .. } => CpuView {
                state: fetch(),
                registers: r.pushed(),
                ..self
            },
            CpuState::PreIncrementStackPointer { operation } => self.with_state(
                if operation == Operation::RTS {
                    State::Cpu(CpuState::PullPCLFromStack { operation })
                } else {
                    State::Cpu(CpuState::PullRegisterFromStack { operation })
                },
            ),
            CpuState::PullRegisterFromStack { operation } => match operation {
                Operation::PLA => CpuView {
                    state: fetch(),
                    registers: (RegistersView { a: data, ..r.pulled() }).with_nz(data),
                    ..self
                },
                Operation::PLP => CpuView {
                    state: fetch(),
                    registers: RegistersView {
                        status: Flags::from_bits(data).stored(),
                        ..r.pulled()
                    },
                    ..self
                },
                _ => CpuView {
                    state: State::Cpu(CpuState::PullPCLFromStack { operation }),
                    registers: RegistersView {
                        status: Flags::from_bits(data).stored(),
                        ..r.pulled()
                    },
                    ..self
                },
            },
            CpuState::PullPCLFromStack { operation } => CpuView {
                state: State::Cpu(CpuState::PullPCHFromStack { operation, pcl: data }),
                registers: r.pulled(),
                ..self
            },
            CpuState::PullPCHFromStack { operation, pcl } => CpuView {
                state: if operation == Operation::RTS {
                    State::Cpu(CpuState::IncrementProgramCounter)
                } else {
                    fetch()
                },
                registers: r.pulled().at(address_of(pcl, data)),
                ..self
            },
            CpuState::IncrementProgramCounter => CpuView {
                state: fetch(),
                registers: r.advanced(),
                ..self
            },
            CpuState::WritePCHToStack { address } => CpuView {
                state: State::Cpu(CpuState::WritePCLToStack { address }),
                registers: r.pushed(),
                ..self
            },
            CpuState::WritePCLToStack { address } => CpuView {
                state: State::Cpu(CpuState::SetProgramCounter { address }),
                registers: r.pushed(),
                ..self
            },
            CpuState::SetProgramCounter { address } => CpuView {
                state: fetch(),
                registers: r.at(address),
                ..self
            },
            CpuState::WritingResult { address, value, unmodified, dummy } => if dummy {
                self.with_state(
                    State::Cpu(
                        CpuState::WritingResult { address, value, unmodified, dummy: false },
                    ),
                )
            } else {
                self.with_state(fetch())
            },
        }
    }

    /// The micro-step of the coming cycle, before the pending interrupt is
    /// looked at and the cycle is counted.
    pub open spec fn step(self, data: u8) -> CpuView {
        match self.state {
            State::Interrupt(state) => self.step_interrupt(state, data),
            State::Cpu(state) => self.step_cpu(state, data),
        }
    }

    /// If an instruction just ended and an interrupt is pending, the
    /// interrupt entry begins in place of the next fetch.
    pub open spec fn hand_off(self) -> CpuView {
        match self.polled_interrupt {
            Some(interrupt) if self.state == fetch() => CpuView {
                state: State::Interrupt(InterruptState::InternalOps1(interrupt)),
                polled_interrupt: None,
                ..self
            },
            _ => self,
        }
    }

    /// The state after one cycle in which the bus answered with `data` (the
    /// byte read; for a write cycle `data` has no influence).
    pub open spec fn next(self, data: u8) -> CpuView {
        let stepped = self.step(data).hand_off();
        CpuView {
            cycles: if self.cycles == 0xFFFF_FFFF {
                0
            } else {
                (self.cycles + 1) as u32
            },
            ..stepped
        }
    }
}

} // verus!
