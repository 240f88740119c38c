//! How many cycles an instruction takes.
//!
//! Every cycle makes exactly one access on the bus, so the number of cycles
//! of an instruction is also the number of its bus accesses, discarded
//! reads and repeated writes included.

use vstd::prelude::*;
use crate::cpu::address::{branch_target_of, crosses_page, same_page};
use crate::cpu::invariants::lemma_next_wf;
use crate::cpu::model::{decoded, fetch, index_of, CpuView};
use crate::cpu::opcodes::{AddressingMode, InstructionType, Opcode, Operation};
use crate::cpu::registers::RegistersView;
use crate::cpu::run::lemma_after_next;
use crate::cpu::state::{CpuState, InterruptState, State};

verus! {

/// The cycle count of an instruction as the data sheet gives it.
/// `page_crossed` says, for an indexed mode, that adding the index carried
/// into the next page, and for a branch, that the target lies in another
/// page; `branch_taken` says that a branch was taken.
pub open spec fn canonical_cycles(opcode: Opcode, page_crossed: bool, branch_taken: bool) -> nat {
    let category = opcode.operation.category();
    let rmw = category == InstructionType::ReadModifyWrite;
    let read = category == InstructionType::Read;
    let penalty: nat = if page_crossed {
        1
    } else {
        0
    };
    match opcode.address_mode {
        AddressingMode::Implied => match opcode.operation {
            Operation::BRK => 7,
            Operation::RTI | Operation::RTS => 6,
            Operation::PLA | Operation::PLP => 4,
            Operation::PHA | Operation::PHP => 3,
            _ => 2,
        },
        AddressingMode::Accumulator | AddressingMode::Immediate => 2,
        AddressingMode::ZeroPage => if rmw {
            5
        } else {
            3
        },
        AddressingMode::ZeroPageXIndexed | AddressingMode::ZeroPageYIndexed => if rmw {
            6
        } else {
            4
        },
        AddressingMode::Absolute => if opcode.operation == Operation::JMP {
            3
        } else if rmw || opcode.operation == Operation::JSR {
            6
        } else {
            4
        },
        AddressingMode::AbsoluteXIndexed | AddressingMode::AbsoluteYIndexed => if rmw {
            7
        } else if read {
            4 + penalty
        } else {
            5
        },
        AddressingMode::Indirect => 5,
        AddressingMode::IndirectXIndexed => if rmw {
            8
        } else {
            6
        },
        AddressingMode::IndirectYIndexed => if rmw {
            8
        } else if read {
            5 + penalty
        } else {
            6
        },
        AddressingMode::Relative => if !branch_taken {
            2
        } else {
            3 + penalty
        },
    }
}

/// Whether the instruction that `cpu` is about to fetch crosses a page, as
/// `canonical_cycles` means it. `data` holds the bytes that the bus answers
/// with, the opcode first.
pub open spec fn instruction_crosses_page(cpu: CpuView, data: Seq<u8>) -> bool {
    let r = cpu.registers;
    let after_operand = r.advanced().advanced().program_counter;
    match Opcode::of_byte(data[0]).address_mode {
        AddressingMode::AbsoluteXIndexed => crosses_page(data[1], r.x),
        AddressingMode::AbsoluteYIndexed => crosses_page(data[1], r.y),
        AddressingMode::IndirectYIndexed => crosses_page(data[2], r.y),
        AddressingMode::Relative => !same_page(
            branch_target_of(after_operand, data[1]),
            after_operand,
        ),
        _ => false,
    }
}

/// The number of cycles of the instruction that `cpu` is about to fetch,
/// when the bus answers with `data`.
pub open spec fn instruction_cycles(cpu: CpuView, data: Seq<u8>) -> nat {
    let opcode = Opcode::of_byte(data[0]);
    canonical_cycles(
        opcode,
        instruction_crosses_page(cpu, data),
        cpu.registers.branch_taken(opcode.operation),
    )
}

/// The cycles that follow the cycle in which an operation is carried out.
pub open spec fn cycles_after_execute(opcode: Opcode, has_address: bool) -> nat {
    match opcode.operation.category() {
        InstructionType::ReadModifyWrite => if has_address {
            2
        } else {
            0
        },
        InstructionType::Jump => if opcode.operation == Operation::JSR {
            3
        } else {
            0
        },
        InstructionType::Branch => 1,
        InstructionType::Stack => match opcode.operation {
            Operation::PHA | Operation::PHP => 1,
            Operation::PLA | Operation::PLP => 2,
            Operation::BRK => 5,
            _ => 4,
        },
        _ => 0,
    }
}

/// The cycles from the last access of an addressing mode to the end of the
/// instruction, that access included.
pub open spec fn cycles_from_access(opcode: Opcode) -> nat {
    1 + cycles_after_execute(opcode, true)
}

/// The cycles from the first access of an indexed mode to the end of the
/// instruction, where the low byte of the base is `low`.
pub open spec fn cycles_from_indexing(opcode: Opcode, low: u8, index: u8) -> nat {
    if opcode.operation.category() == InstructionType::Read && !crosses_page(low, index) {
        1
    } else {
        1 + cycles_from_access(opcode)
    }
}

/// The cycles left in the addressing-mode walker; `data[at]` answers the
/// coming cycle.
pub open spec fn walker_cycles_left(
    registers: RegistersView,
    opcode: Opcode,
    low: Option<u8>,
    high: Option<u8>,
    pointer: Option<u8>,
    indirect_low: Option<u8>,
    indirect_high: Option<u8>,
    checked: bool,
    data: Seq<u8>,
    at: int,
) -> nat {
    let index = index_of(opcode.address_mode, registers);
    let last = cycles_from_access(opcode);
    let jump = opcode.operation.category() == InstructionType::Jump;
    let after_jump = cycles_after_execute(opcode, true);
    let after_operand = registers.advanced().program_counter;
    match opcode.address_mode {
        AddressingMode::Immediate => last,
        AddressingMode::Relative => if !registers.branch_taken(opcode.operation) {
            1
        } else if !same_page(branch_target_of(after_operand, data[at]), after_operand) {
            3
        } else {
            2
        },
        AddressingMode::ZeroPage => match low {
            None => 1 + last,
            Some(_) => last,
        },
        AddressingMode::ZeroPageXIndexed | AddressingMode::ZeroPageYIndexed => match (
            low,
            high,
        ) {
            (None, _) => 2 + last,
            (Some(_), None) => 1 + last,
            (Some(_), Some(_)) => last,
        },
        AddressingMode::Absolute => match (low, high) {
            (None, _) => if jump {
                2 + after_jump
            } else {
                2 + last
            },
            (Some(_), None) => if jump {
                1 + after_jump
            } else {
                1 + last
            },
            (Some(_), Some(_)) => last,
        },
        AddressingMode::AbsoluteXIndexed | AddressingMode::AbsoluteYIndexed => match (
            low,
            high,
        ) {
            (None, _) => 2 + cycles_from_indexing(opcode, data[at], index),
            (Some(l), None) => 1 + cycles_from_indexing(opcode, l, index),
            (Some(l), Some(_)) => if checked {
                last
            } else {
                cycles_from_indexing(opcode, l, index)
            },
        },
        AddressingMode::Indirect => match (indirect_low, indirect_high, low) {
            (None, _, _) => 4 + after_jump,
            (Some(_), None, _) => 3 + after_jump,
            (Some(_), Some(_), None) => 2 + after_jump,
            (Some(_), Some(_), Some(_)) => 1 + after_jump,
        },
        AddressingMode::IndirectXIndexed => match (indirect_low, pointer, low, high) {
            (None, _, _, _) => 4 + last,
            (Some(_), None, _, _) => 3 + last,
            (Some(_), Some(_), None, _) => 2 + last,
            (Some(_), Some(_), Some(_), None) => 1 + last,
            (Some(_), Some(_), Some(_), Some(_)) => last,
        },
        AddressingMode::IndirectYIndexed => match (indirect_low, low, high) {
            (None, _, _) => 3 + cycles_from_indexing(opcode, data[at + 1], registers.y),
            (Some(_), None, _) => 2 + cycles_from_indexing(opcode, data[at], registers.y),
            (Some(_), Some(l), None) => 1 + cycles_from_indexing(opcode, l, registers.y),
            (Some(_), Some(l), Some(_)) => if checked {
                last
            } else {
                cycles_from_indexing(opcode, l, registers.y)
            },
        },
        _ => 1,
    }
}

/// The cycles left in the instruction or interrupt entry in `state`, other
/// than at the fetch of an opcode; `data[at]` answers the coming cycle.
pub open spec fn state_cycles_left(
    state: State,
    registers: RegistersView,
    data: Seq<u8>,
    at: int,
) -> nat {
    match state {
        State::Interrupt(InterruptState::InternalOps1(_)) => 7,
        State::Interrupt(InterruptState::InternalOps2(_)) => 6,
        State::Interrupt(InterruptState::PushPCH(_)) => 5,
        State::Interrupt(InterruptState::PushPCL(_)) => 4,
        State::Interrupt(InterruptState::PushStatusRegister(_)) => 3,
        State::Interrupt(InterruptState::PullVectorLow(_)) => 2,
        State::Interrupt(InterruptState::PullVectorHigh(_)) => 1,
        State::Cpu(CpuState::FetchOpcode) => 0,
        State::Cpu(CpuState::ThrowawayRead { opcode, .. }) => 1 + cycles_after_execute(
            opcode,
            false,
        ),
        State::Cpu(
            CpuState::ReadingOperand {
                opcode,
                address_low_byte,
                address_high_byte,
                pointer,
                indirect_address_low_byte,
                indirect_address_high_byte,
                checked_page_boundary,
            },
        ) => walker_cycles_left(
            registers,
            opcode,
            address_low_byte,
            address_high_byte,
            pointer,
            indirect_address_low_byte,
            indirect_address_high_byte,
            checked_page_boundary,
            data,
            at,
        ),
        State::Cpu(CpuState::BranchCrossesPageBoundary { .. }) => 2,
        State::Cpu(CpuState::PushRegisterOnStack { .. }) => 1,
        State::Cpu(CpuState::PreIncrementStackPointer { operation }) => if operation
            == Operation::PLA || operation == Operation::PLP {
            2
        } else {
            4
        },
        State::Cpu(CpuState::PullRegisterFromStack { operation }) => if operation
            == Operation::RTI {
            3
        } else {
            1
        },
        State::Cpu(CpuState::PullPCLFromStack { operation }) => if operation == Operation::RTS {
            3
        } else {
            2
        },
        State::Cpu(CpuState::PullPCHFromStack { operation, .. }) => if operation
            == Operation::RTS {
            2
        } else {
            1
        },
        State::Cpu(CpuState::IncrementProgramCounter) => 1,
        State::Cpu(CpuState::WritePCHToStack { .. }) => 3,
        State::Cpu(CpuState::WritePCLToStack { .. }) => 2,
        State::Cpu(CpuState::SetProgramCounter { .. }) => 1,
        State::Cpu(CpuState::WritingResult { dummy, .. }) => if dummy {
            2
        } else {
            1
        },
    }
}

/// The cycles until the processor next stands between two instructions;
/// `data[at]` answers the coming cycle.
pub open spec fn cycles_left(cpu: CpuView, data: Seq<u8>, at: int) -> nat {
    if cpu.state == fetch() {
        1 + state_cycles_left(
            decoded(Opcode::of_byte(data[at]), cpu.registers.a),
            cpu.registers.advanced(),
            data,
            at + 1,
        )
    } else {
        state_cycles_left(cpu.state, cpu.registers, data, at)
    }
}

/// What an operation leaves behind, as far as timing goes: the state with
/// the cycles that `cycles_after_execute` counts, and the registers that
/// later cycles of the instruction depend on unchanged.
proof fn lemma_execute_timing(
    cpu: CpuView,
    opcode: Opcode,
    operand: Option<u8>,
    address: Option<u16>,
    data: Seq<u8>,
    at: int,
)
    requires
        opcode.valid(),
    ensures
        ({
            let after = cpu.execute(opcode, operand, address);
            let left = cycles_after_execute(opcode, address.is_some());
            &&& left == 0 ==> after.state == fetch()
            &&& left > 0 ==> !after.state.at_boundary() && state_cycles_left(
                after.state,
                after.registers,
                data,
                at,
            ) == left
            &&& after.polled_interrupt == cpu.polled_interrupt
        }),
{
    reveal(CpuView::execute);
}

/// Whether the cycle that led from `cpu`, with `left` cycles to go, to
/// `after` took one cycle off the count.
pub open spec fn counts_down(
    left: nat,
    cpu: CpuView,
    after: CpuView,
    data: Seq<u8>,
    at: int,
) -> bool {
    &&& left >= 1
    &&& left == 1 ==> after.state == fetch()
    &&& left > 1 ==> !after.state.at_boundary() && state_cycles_left(
        after.state,
        after.registers,
        data,
        at + 1,
    ) == left - 1
    &&& after.polled_interrupt == cpu.polled_interrupt
}

/// Carrying out an operation takes one cycle off the count.
proof fn lemma_execute_counts_down(opcode: Opcode, data: Seq<u8>, at: int)
    requires
        opcode.valid(),
    ensures
        forall|c: CpuView, operand: Option<u8>, address: Option<u16>|
            counts_down(
                1 + cycles_after_execute(opcode, address.is_some()),
                c,
                #[trigger] c.execute(opcode, operand, address),
                data,
                at,
            ),
{
    assert forall|c: CpuView, operand: Option<u8>, address: Option<u16>|
        counts_down(
            1 + cycles_after_execute(opcode, address.is_some()),
            c,
            #[trigger] c.execute(opcode, operand, address),
            data,
            at,
        ) by {
        lemma_execute_timing(c, opcode, operand, address, data, at + 1);
    }
}

/// One cycle of the immediate mode takes one cycle off the count.
proof fn lemma_immediate_cycle(
    cpu: CpuView,
    opcode: Opcode,
    low: Option<u8>,
    high: Option<u8>,
    pointer: Option<u8>,
    indirect_low: Option<u8>,
    indirect_high: Option<u8>,
    checked: bool,
    data: Seq<u8>,
    at: int,
)
    requires
        opcode.valid(),
        opcode.address_mode == AddressingMode::Immediate,
    ensures
        counts_down(
            walker_cycles_left(
                cpu.registers,
                opcode,
                low,
                high,
                pointer,
                indirect_low,
                indirect_high,
                checked,
                data,
                at,
            ),
            cpu,
            cpu.step_immediate(opcode, data[at]),
            data,
            at,
        ),
{
    lemma_execute_counts_down(opcode, data, at);
}

/// One cycle of the relative mode takes one cycle off the count.
proof fn lemma_relative_cycle(
    cpu: CpuView,
    opcode: Opcode,
    low: Option<u8>,
    high: Option<u8>,
    pointer: Option<u8>,
    indirect_low: Option<u8>,
    indirect_high: Option<u8>,
    checked: bool,
    data: Seq<u8>,
    at: int,
)
    requires
        opcode.valid(),
        opcode.address_mode == AddressingMode::Relative,
    ensures
        counts_down(
            walker_cycles_left(
                cpu.registers,
                opcode,
                low,
                high,
                pointer,
                indirect_low,
                indirect_high,
                checked,
                data,
                at,
            ),
            cpu,
            cpu.step_relative(opcode, data[at]),
            data,
            at,
        ),
{
    lemma_execute_counts_down(opcode, data, at);
}

/// One cycle of the zero-page mode takes one cycle off the count.
proof fn lemma_zero_page_cycle(
    cpu: CpuView,
    opcode: Opcode,
    low: Option<u8>,
    high: Option<u8>,
    pointer: Option<u8>,
    indirect_low: Option<u8>,
    indirect_high: Option<u8>,
    checked: bool,
    data: Seq<u8>,
    at: int,
)
    requires
        opcode.valid(),
        opcode.address_mode == AddressingMode::ZeroPage,
    ensures
        counts_down(
            walker_cycles_left(
                cpu.registers,
                opcode,
                low,
                high,
                pointer,
                indirect_low,
                indirect_high,
                checked,
                data,
                at,
            ),
            cpu,
            cpu.step_zero_page(opcode, low, data[at]),
            data,
            at,
        ),
{
    lemma_execute_counts_down(opcode, data, at);
}

/// One cycle of a zero-page indexed mode takes one cycle off the count.
proof fn lemma_zero_page_indexed_cycle(
    cpu: CpuView,
    opcode: Opcode,
    low: Option<u8>,
    high: Option<u8>,
    pointer: Option<u8>,
    indirect_low: Option<u8>,
    indirect_high: Option<u8>,
    checked: bool,
    data: Seq<u8>,
    at: int,
)
    requires
        opcode.valid(),
        opcode.address_mode == AddressingMode::ZeroPageXIndexed || opcode.address_mode
            == AddressingMode::ZeroPageYIndexed,
    ensures
        counts_down(
            walker_cycles_left(
                cpu.registers,
                opcode,
                low,
                high,
                pointer,
                indirect_low,
                indirect_high,
                checked,
                data,
                at,
            ),
            cpu,
            cpu.step_zero_page_indexed(
                opcode,
                low,
                high,
                index_of(opcode.address_mode, cpu.registers),
                data[at],
            ),
            data,
            at,
        ),
{
    lemma_execute_counts_down(opcode, data, at);
}

/// One cycle of the absolute mode takes one cycle off the count.
proof fn lemma_absolute_cycle(
    cpu: CpuView,
    opcode: Opcode,
    low: Option<u8>,
    high: Option<u8>,
    pointer: Option<u8>,
    indirect_low: Option<u8>,
    indirect_high: Option<u8>,
    checked: bool,
    data: Seq<u8>,
    at: int,
)
    requires
        opcode.valid(),
        opcode.address_mode == AddressingMode::Absolute,
    ensures
        counts_down(
            walker_cycles_left(
                cpu.registers,
                opcode,
                low,
                high,
                pointer,
                indirect_low,
                indirect_high,
                checked,
                data,
                at,
            ),
            cpu,
            cpu.step_absolute(opcode, low, high, data[at]),
            data,
            at,
        ),
{
    lemma_execute_counts_down(opcode, data, at);
}

/// One cycle of an absolute indexed mode takes one cycle off the count.
proof fn lemma_absolute_indexed_cycle(
    cpu: CpuView,
    opcode: Opcode,
    low: Option<u8>,
    high: Option<u8>,
    pointer: Option<u8>,
    indirect_low: Option<u8>,
    indirect_high: Option<u8>,
    checked: bool,
    data: Seq<u8>,
    at: int,
)
    requires
        opcode.valid(),
        opcode.address_mode == AddressingMode::AbsoluteXIndexed || opcode.address_mode
            == AddressingMode::AbsoluteYIndexed,
    ensures
        counts_down(
            walker_cycles_left(
                cpu.registers,
                opcode,
                low,
                high,
                pointer,
                indirect_low,
                indirect_high,
                checked,
                data,
                at,
            ),
            cpu,
            cpu.step_absolute_indexed(
                opcode,
                low,
                high,
                checked,
                index_of(opcode.address_mode, cpu.registers),
                data[at],
            ),
            data,
            at,
        ),
{
    lemma_execute_counts_down(opcode, data, at);
}

/// One cycle of the indirect mode takes one cycle off the count.
proof fn lemma_indirect_cycle(
    cpu: CpuView,
    opcode: Opcode,
    low: Option<u8>,
    high: Option<u8>,
    pointer: Option<u8>,
    indirect_low: Option<u8>,
    indirect_high: Option<u8>,
    checked: bool,
    data: Seq<u8>,
    at: int,
)
    requires
        opcode.valid(),
        opcode.address_mode == AddressingMode::Indirect,
    ensures
        counts_down(
            walker_cycles_left(
                cpu.registers,
                opcode,
                low,
                high,
                pointer,
                indirect_low,
                indirect_high,
                checked,
                data,
                at,
            ),
            cpu,
            cpu.step_indirect(opcode, indirect_low, indirect_high, low, data[at]),
            data,
            at,
        ),
{
    lemma_execute_counts_down(opcode, data, at);
}

/// One cycle of the indexed indirect mode takes one cycle off the count.
proof fn lemma_indirect_x_cycle(
    cpu: CpuView,
    opcode: Opcode,
    low: Option<u8>,
    high: Option<u8>,
    pointer: Option<u8>,
    indirect_low: Option<u8>,
    indirect_high: Option<u8>,
    checked: bool,
    data: Seq<u8>,
    at: int,
)
    requires
        opcode.valid(),
        opcode.address_mode == AddressingMode::IndirectXIndexed,
    ensures
        counts_down(
            walker_cycles_left(
                cpu.registers,
                opcode,
                low,
                high,
                pointer,
                indirect_low,
                indirect_high,
                checked,
                data,
                at,
            ),
            cpu,
            cpu.step_indirect_x(opcode, indirect_low, pointer, low, high, data[at]),
            data,
            at,
        ),
{
    lemma_execute_counts_down(opcode, data, at);
}

/// One cycle of the indirect indexed mode takes one cycle off the count.
proof fn lemma_indirect_y_cycle(
    cpu: CpuView,
    opcode: Opcode,
    low: Option<u8>,
    high: Option<u8>,
    pointer: Option<u8>,
    indirect_low: Option<u8>,
    indirect_high: Option<u8>,
    checked: bool,
    data: Seq<u8>,
    at: int,
)
    requires
        opcode.valid(),
        opcode.address_mode == AddressingMode::IndirectYIndexed,
    ensures
        counts_down(
            walker_cycles_left(
                cpu.registers,
                opcode,
                low,
                high,
                pointer,
                indirect_low,
                indirect_high,
                checked,
                data,
                at,
            ),
            cpu,
            cpu.step_indirect_y(opcode, indirect_low, low, high, checked, data[at]),
            data,
            at,
        ),
{
    lemma_execute_counts_down(opcode, data, at);
}

/// One cycle of the addressing-mode walker takes one cycle off the count.
proof fn lemma_walker_cycle(
    cpu: CpuView,
    opcode: Opcode,
    low: Option<u8>,
    high: Option<u8>,
    pointer: Option<u8>,
    indirect_low: Option<u8>,
    indirect_high: Option<u8>,
    checked: bool,
    data: Seq<u8>,
    at: int,
)
    requires
        opcode.valid(),
        !opcode.address_mode.is_implicit(),
    ensures
        counts_down(
            walker_cycles_left(
                cpu.registers,
                opcode,
                low,
                high,
                pointer,
                indirect_low,
                indirect_high,
                checked,
                data,
                at,
            ),
            cpu,
            cpu.step_operand(
                opcode,
                low,
                high,
                pointer,
                indirect_low,
                indirect_high,
                checked,
                data[at],
            ),
            data,
            at,
        ),
{
    reveal(CpuView::step_operand);
    match opcode.address_mode {
        AddressingMode::Immediate => lemma_immediate_cycle(
            cpu,
            opcode,
            low,
            high,
            pointer,
            indirect_low,
            indirect_high,
            checked,
            data,
            at,
        ),
        AddressingMode::Relative => lemma_relative_cycle(
            cpu,
            opcode,
            low,
            high,
            pointer,
            indirect_low,
            indirect_high,
            checked,
            data,
            at,
        ),
        AddressingMode::ZeroPage => lemma_zero_page_cycle(
            cpu,
            opcode,
            low,
            high,
            pointer,
            indirect_low,
            indirect_high,
            checked,
            data,
            at,
        ),
        AddressingMode::ZeroPageXIndexed => lemma_zero_page_indexed_cycle(
            cpu,
            opcode,
            low,
            high,
            pointer,
            indirect_low,
            indirect_high,
            checked,
            data,
            at,
        ),
        AddressingMode::ZeroPageYIndexed => lemma_zero_page_indexed_cycle(
            cpu,
            opcode,
            low,
            high,
            pointer,
            indirect_low,
            indirect_high,
            checked,
            data,
            at,
        ),
        AddressingMode::Absolute => lemma_absolute_cycle(
            cpu,
            opcode,
            low,
            high,
            pointer,
            indirect_low,
            indirect_high,
            checked,
            data,
            at,
        ),
        AddressingMode::AbsoluteXIndexed => lemma_absolute_indexed_cycle(
            cpu,
            opcode,
            low,
            high,
            pointer,
            indirect_low,
            indirect_high,
            checked,
            data,
            at,
        ),
        AddressingMode::AbsoluteYIndexed => lemma_absolute_indexed_cycle(
            cpu,
            opcode,
            low,
            high,
            pointer,
            indirect_low,
            indirect_high,
            checked,
            data,
            at,
        ),
        AddressingMode::Indirect => lemma_indirect_cycle(
            cpu,
            opcode,
            low,
            high,
            pointer,
            indirect_low,
            indirect_high,
            checked,
            data,
            at,
        ),
        AddressingMode::IndirectXIndexed => lemma_indirect_x_cycle(
            cpu,
            opcode,
            low,
            high,
            pointer,
            indirect_low,
            indirect_high,
            checked,
            data,
            at,
        ),
        AddressingMode::IndirectYIndexed => lemma_indirect_y_cycle(
            cpu,
            opcode,
            low,
            high,
            pointer,
            indirect_low,
            indirect_high,
            checked,
            data,
            at,
        ),
        _ => {},
    }
}

/// One cycle takes one cycle off the count, and the processor stands
/// between two instructions exactly when the count has run out.
pub proof fn lemma_cycle_counts_down(cpu: CpuView, data: Seq<u8>, at: int)
    requires
        cpu.wf(),
    ensures
        ({
            let after = cpu.next(data[at]);
            let left = cycles_left(cpu, data, at);
            &&& left >= 1
            &&& left == 1 ==> after.state.at_boundary()
            &&& left > 1 ==> !after.state.at_boundary() && cycles_left(after, data, at + 1)
                == left - 1
        }),
{
    match cpu.state {
        State::Interrupt(_) => {},
        State::Cpu(CpuState::FetchOpcode) => {
            crate::cpu::opcodes::lemma_table_valid(data[at]);
        },
        State::Cpu(CpuState::ThrowawayRead { opcode, operand }) => {
            lemma_execute_timing(cpu, opcode, operand, None, data, at + 1);
            lemma_execute_timing(cpu.fetched(), opcode, operand, None, data, at + 1);
        },
        State::Cpu(
            CpuState::ReadingOperand {
                opcode,
                address_low_byte,
                address_high_byte,
                pointer,
                indirect_address_low_byte,
                indirect_address_high_byte,
                checked_page_boundary,
            },
        ) => {
            lemma_walker_cycle(
                cpu,
                opcode,
                address_low_byte,
                address_high_byte,
                pointer,
                indirect_address_low_byte,
                indirect_address_high_byte,
                checked_page_boundary,
                data,
                at,
            );
        },
        State::Cpu(CpuState::BranchCrossesPageBoundary { opcode, address, operand }) => {
            lemma_execute_timing(cpu, opcode, Some(operand), Some(address), data, at + 1);
        },
        State::Cpu(_) => {},
    }
}

/// An interrupt that is raised inside an instruction does not change how
/// long the instruction takes: it waits in the pending slot.
pub proof fn lemma_raise_keeps_count(
    cpu: CpuView,
    interrupt: crate::cpu::interrupts::Interrupt,
    data: Seq<u8>,
    at: int,
)
    ensures
        cycles_left(cpu.raise(interrupt), data, at) == cycles_left(cpu, data, at),
{
}

/// Cycle by cycle: after `k` of the `cycles_left` cycles the processor is
/// inside the instruction with the rest of the cycles to go, and after all
/// of them it stands between two instructions.
pub proof fn lemma_runs_to_boundary(cpu: CpuView, data: Seq<u8>, k: nat)
    requires
        cpu.wf(),
        1 <= k <= cycles_left(cpu, data, 0),
    ensures
        cpu.after(data, k).wf(),
        k < cycles_left(cpu, data, 0) ==> !cpu.after(data, k).state.at_boundary() && cycles_left(
            cpu.after(data, k),
            data,
            k as int,
        ) == cycles_left(cpu, data, 0) - k,
        k == cycles_left(cpu, data, 0) ==> cpu.after(data, k).state.at_boundary(),
    decreases k,
{
    let before = cpu.after(data, (k - 1) as nat);
    if k == 1 {
        assert(before == cpu);
    } else {
        lemma_runs_to_boundary(cpu, data, (k - 1) as nat);
    }
    lemma_cycle_counts_down(before, data, k - 1);
    lemma_next_wf(before, data[k - 1]);
}

/// The count at the fetch of an opcode is the data sheet's.
pub proof fn lemma_count_is_canonical(cpu: CpuView, data: Seq<u8>)
    requires
        cpu.state == fetch(),
    ensures
        cycles_left(cpu, data, 0) == instruction_cycles(cpu, data),
{
    crate::cpu::opcodes::lemma_table_valid(data[0]);
}

/// For every opcode, an instruction takes exactly the data sheet's number
/// of cycles: so many cycles after its fetch the processor stands between
/// two instructions again, and not before. Each of these cycles makes one
/// bus access, so that is also the number of the instruction's accesses.
pub proof fn lemma_instruction_takes_canonical_cycles(cpu: CpuView, data: Seq<u8>)
    requires
        cpu.wf(),
        cpu.state == fetch(),
    ensures
        2 <= instruction_cycles(cpu, data) <= 8,
        cpu.accesses(data, instruction_cycles(cpu, data)).len() == instruction_cycles(cpu, data),
        cpu.after(data, instruction_cycles(cpu, data)).state.at_boundary(),
        forall|k: nat|
            0 < k < instruction_cycles(cpu, data) ==> !(#[trigger] cpu.after(
                data,
                k,
            )).state.at_boundary(),
{
    lemma_count_is_canonical(cpu, data);
    let n = instruction_cycles(cpu, data);
    lemma_runs_to_boundary(cpu, data, n);
    assert forall|k: nat| 0 < k < n implies !(#[trigger] cpu.after(
        data,
        k,
    )).state.at_boundary() by {
        lemma_runs_to_boundary(cpu, data, k);
    }
}

/// A branch only ever sets the state that loads the program counter.
proof fn lemma_execute_branch(cpu: CpuView, opcode: Opcode, operand: Option<u8>, address: u16)
    requires
        opcode.operation.category() == InstructionType::Branch,
    ensures
        cpu.execute(opcode, operand, Some(address)) == cpu.with_state(
            State::Cpu(CpuState::SetProgramCounter { address }),
        ),
{
    reveal(CpuView::execute);
}

/// The cycles of a branch that follow the fetch of its opcode.
proof fn lemma_branch_tail(cpu: CpuView, opcode: Opcode, d1: u8, d2: u8, d3: u8)
    requires
        cpu.state == crate::cpu::model::operand_start(opcode),
        opcode.valid(),
        opcode.address_mode == AddressingMode::Relative,
    ensures
        ({
            let next_instruction = cpu.registers.advanced().program_counter;
            let target = branch_target_of(next_instruction, d1);
            let taken = cpu.registers.branch_taken(opcode.operation);
            let c2 = cpu.next(d1);
            let c3 = c2.next(d2);
            let c4 = c3.next(d3);
            &&& !taken ==> c2.registers.program_counter == next_instruction
            &&& taken && same_page(target, next_instruction) ==> c3.registers.program_counter
                == target
            &&& taken && !same_page(target, next_instruction) ==> c4.registers.program_counter
                == target
        }),
{
    reveal(CpuView::step_operand);
    let next_instruction = cpu.registers.advanced().program_counter;
    let target = branch_target_of(next_instruction, d1);
    let c2 = cpu.next(d1);
    let c3 = c2.next(d2);
    lemma_execute_branch(cpu.fetched(), opcode, Some(d1), target);
    lemma_execute_branch(c2, opcode, Some(d1), target);
    if cpu.registers.branch_taken(opcode.operation) {
        if same_page(target, next_instruction) {
            assert(c2.state == State::Cpu(CpuState::SetProgramCounter { address: target }));
        } else {
            assert(c2.state == State::Cpu(
                CpuState::BranchCrossesPageBoundary { opcode, address: target, operand: d1 },
            ));
            assert(c3.state == State::Cpu(CpuState::SetProgramCounter { address: target }));
        }
    }
}

/// A branch that is not taken takes two cycles, a taken branch three, and
/// four if its target lies in another page than the instruction that
/// follows the branch. Execution continues at the target if the branch is
/// taken and behind the branch if it is not.
pub proof fn lemma_branch_cycles(cpu: CpuView, data: Seq<u8>)
    requires
        cpu.wf(),
        cpu.state == fetch(),
        Opcode::of_byte(data[0]).address_mode == AddressingMode::Relative,
    ensures
        ({
            let next_instruction = cpu.registers.advanced().advanced().program_counter;
            let target = branch_target_of(next_instruction, data[1]);
            let taken = cpu.registers.branch_taken(Opcode::of_byte(data[0]).operation);
            let cycles: nat = if !taken {
                2
            } else if same_page(target, next_instruction) {
                3
            } else {
                4
            };
            &&& cpu.after(data, cycles).state.at_boundary()
            &&& forall|k: nat|
                0 < k < cycles ==> !(#[trigger] cpu.after(data, k)).state.at_boundary()
            &&& cpu.after(data, cycles).registers.program_counter == if taken {
                target
            } else {
                next_instruction
            }
        }),
{
    lemma_instruction_takes_canonical_cycles(cpu, data);
    crate::cpu::opcodes::lemma_table_valid(data[0]);
    lemma_after_next(cpu, data, 0);
    lemma_after_next(cpu, data, 1);
    lemma_after_next(cpu, data, 2);
    lemma_after_next(cpu, data, 3);
    let c1 = cpu.after(data, 1);
    assert(c1.state == crate::cpu::model::operand_start(Opcode::of_byte(data[0])));
    assert(c1.registers == cpu.registers.advanced());
    lemma_branch_tail(c1, Opcode::of_byte(data[0]), data[1], data[2], data[3]);
}

/// An interrupt entry takes seven cycles.
pub proof fn lemma_interrupt_entry_cycles(cpu: CpuView, data: Seq<u8>)
    requires
        cpu.wf(),
        cpu.state matches State::Interrupt(InterruptState::InternalOps1(_)),
    ensures
        cpu.after(data, 7).state.at_boundary(),
        forall|k: nat| 0 < k < 7 ==> !(#[trigger] cpu.after(data, k)).state.at_boundary(),
{
    lemma_runs_to_boundary(cpu, data, 7);
    assert forall|k: nat| 0 < k < 7 implies !(#[trigger] cpu.after(
        data,
        k,
    )).state.at_boundary() by {
        lemma_runs_to_boundary(cpu, data, k);
    }
}

} // verus!
