//! Where instructions find their operands, over whole instructions: the
//! addresses that appear on the bus, cycle by cycle.

use vstd::prelude::*;
use crate::cpu::address::{
    address_of,
    byte_sum,
    crosses_page,
    indexed_in_page_of,
    indexed_of,
    zero_page_indexed_of,
};
use crate::cpu::alu::modified;
use crate::cpu::model::{fetch, index_of, operand_start, walking, CpuView};
use crate::cpu::opcodes::{lemma_table_valid, AddressingMode, InstructionType, Opcode, Operation};
use crate::cpu::run::lemma_after_next;
use crate::cpu::state::{BusAccess, CpuState, State};

verus! {

/// The first two cycles of an instruction with operand bytes: the opcode
/// and the first operand byte are read at the program counter.
pub proof fn lemma_operand_byte_read(cpu: CpuView, data: Seq<u8>)
    requires
        cpu.wf(),
        cpu.state == fetch(),
        !Opcode::of_byte(data[0]).address_mode.is_implicit(),
    ensures
        cpu.access_at(data, 0) == cpu.read_at_pc(),
        cpu.access_at(data, 1) == cpu.fetched().read_at_pc(),
        cpu.after(data, 1).state == operand_start(Opcode::of_byte(data[0])),
        cpu.after(data, 1).registers == cpu.registers.advanced(),
{
    reveal(CpuView::operand_access);
    lemma_after_next(cpu, data, 0);
    lemma_table_valid(data[0]);
}

/// The cycles of `JMP (indirect)` that follow the fetch of its opcode.
proof fn lemma_jump_indirect_tail(cpu: CpuView, opcode: Opcode, d1: u8, d2: u8, d3: u8, d4: u8)
    requires
        cpu.state == operand_start(opcode),
        opcode.operation == Operation::JMP,
        opcode.address_mode == AddressingMode::Indirect,
    ensures
        ({
            let c2 = cpu.next(d1);
            let c3 = c2.next(d2);
            let c4 = c3.next(d3);
            let end = c4.next(d4);
            &&& c3.bus_access() == BusAccess::Read { address: address_of(d1, d2) }
            &&& c4.bus_access() == BusAccess::Read { address: address_of(byte_sum(d1, 1), d2) }
            &&& end.state.at_boundary()
            &&& end.registers.program_counter == address_of(d3, d4)
        }),
{
    reveal(CpuView::step_operand);
    reveal(CpuView::operand_access);
    reveal(CpuView::execute);
    let c2 = cpu.next(d1);
    let c3 = c2.next(d2);
    let c4 = c3.next(d3);
    assert(c2.state == walking(opcode, None, None, None, Some(d1), None, false));
    assert(c3.state == walking(opcode, None, None, None, Some(d1), Some(d2), false));
    assert(c4.state == walking(opcode, Some(d3), None, None, Some(d1), Some(d2), false));
}

/// `JMP (pointer)` reads the low byte of its target at the pointer and the
/// high byte at the next address in the pointer's own page: behind
/// `0x..FF` it reads at `0x..00` of the same page, not of the next.
pub proof fn lemma_jump_indirect(cpu: CpuView, data: Seq<u8>)
    requires
        cpu.wf(),
        cpu.state == fetch(),
        Opcode::of_byte(data[0]).address_mode == AddressingMode::Indirect,
    ensures
        cpu.access_at(data, 3) == (BusAccess::Read { address: address_of(data[1], data[2]) }),
        cpu.access_at(data, 4) == (BusAccess::Read {
            address: address_of(byte_sum(data[1], 1), data[2]),
        }),
        cpu.after(data, 5).state.at_boundary(),
        cpu.after(data, 5).registers.program_counter == address_of(data[3], data[4]),
{
    lemma_operand_byte_read(cpu, data);
    lemma_table_valid(data[0]);
    lemma_after_next(cpu, data, 1);
    lemma_after_next(cpu, data, 2);
    lemma_after_next(cpu, data, 3);
    lemma_after_next(cpu, data, 4);
    lemma_jump_indirect_tail(
        cpu.after(data, 1),
        Opcode::of_byte(data[0]),
        data[1],
        data[2],
        data[3],
        data[4],
    );
}

/// The cycles of a zero-page indexed instruction that follow the fetch of
/// its opcode, up to its access.
proof fn lemma_zero_page_indexed_tail(cpu: CpuView, opcode: Opcode, d1: u8, d2: u8)
    requires
        cpu.state == operand_start(opcode),
        opcode.address_mode == AddressingMode::ZeroPageXIndexed || opcode.address_mode
            == AddressingMode::ZeroPageYIndexed,
    ensures
        ({
            let index = index_of(opcode.address_mode, cpu.registers);
            let c2 = cpu.next(d1);
            let c3 = c2.next(d2);
            &&& c2.bus_access() == BusAccess::Read { address: d1 as u16 }
            &&& c3.bus_access() == crate::cpu::model::final_access(
                opcode,
                zero_page_indexed_of(d1, index),
                cpu.registers.advanced(),
            )
        }),
{
    reveal(CpuView::step_operand);
    reveal(CpuView::operand_access);
    let c2 = cpu.next(d1);
    assert(c2.state == walking(opcode, Some(d1), None, None, None, None, false));
    assert(c2.next(d2).state == walking(opcode, Some(d1), Some(0), None, None, None, false));
}

/// A zero-page indexed instruction never leaves the zero page: it reads
/// at the base, discards the value, and then makes its access at
/// `base + index` modulo 256.
pub proof fn lemma_zero_page_indexed(cpu: CpuView, data: Seq<u8>)
    requires
        cpu.wf(),
        cpu.state == fetch(),
        Opcode::of_byte(data[0]).address_mode == AddressingMode::ZeroPageXIndexed
            || Opcode::of_byte(data[0]).address_mode == AddressingMode::ZeroPageYIndexed,
    ensures
        ({
            let opcode = Opcode::of_byte(data[0]);
            let index = index_of(opcode.address_mode, cpu.registers);
            let address = zero_page_indexed_of(data[1], index);
            &&& address < 0x100
            &&& cpu.access_at(data, 2) == BusAccess::Read { address: data[1] as u16 }
            &&& cpu.access_at(data, 3) == crate::cpu::model::final_access(
                opcode,
                address,
                cpu.registers.advanced().advanced(),
            )
            &&& opcode.operation.category() != InstructionType::Write ==> cpu.access_at(data, 3)
                == BusAccess::Read { address }
        }),
{
    lemma_operand_byte_read(cpu, data);
    lemma_after_next(cpu, data, 1);
    lemma_after_next(cpu, data, 2);
    lemma_zero_page_indexed_tail(cpu.after(data, 1), Opcode::of_byte(data[0]), data[1], data[2]);
}

/// The cycles of an indirect indexed instruction that read the pointer.
proof fn lemma_indirect_y_tail(cpu: CpuView, opcode: Opcode, d1: u8, d2: u8)
    requires
        cpu.state == operand_start(opcode),
        opcode.address_mode == AddressingMode::IndirectYIndexed,
    ensures
        ({
            let c2 = cpu.next(d1);
            let c3 = c2.next(d2);
            &&& c2.bus_access() == BusAccess::Read { address: d1 as u16 }
            &&& c3.bus_access() == BusAccess::Read { address: zero_page_indexed_of(d1, 1) }
        }),
{
    reveal(CpuView::step_operand);
    reveal(CpuView::operand_access);
    let c2 = cpu.next(d1);
    assert(c2.state == walking(opcode, None, None, None, Some(d1), None, false));
    assert(c2.next(d2).state == walking(opcode, Some(d2), None, None, Some(d1), None, false));
}

/// An indirect indexed instruction, `(zp),Y`, reads the low byte of its
/// base address at `zp` and the high byte at `zp + 1` modulo 256: a
/// pointer at `0xFF` has its high byte at `0x00`.
pub proof fn lemma_indirect_y_pointer(cpu: CpuView, data: Seq<u8>)
    requires
        cpu.wf(),
        cpu.state == fetch(),
        Opcode::of_byte(data[0]).address_mode == AddressingMode::IndirectYIndexed,
    ensures
        cpu.access_at(data, 2) == (BusAccess::Read { address: data[1] as u16 }),
        cpu.access_at(data, 3) == (BusAccess::Read { address: zero_page_indexed_of(data[1], 1) }),
        zero_page_indexed_of(data[1], 1) < 0x100,
{
    lemma_operand_byte_read(cpu, data);
    lemma_after_next(cpu, data, 1);
    lemma_after_next(cpu, data, 2);
    lemma_indirect_y_tail(cpu.after(data, 1), Opcode::of_byte(data[0]), data[1], data[2]);
}

/// The cycles of an absolute indexed read that follow the fetch of its
/// opcode.
proof fn lemma_absolute_indexed_read_tail(
    cpu: CpuView,
    opcode: Opcode,
    d1: u8,
    d2: u8,
    d3: u8,
    d4: u8,
)
    requires
        cpu.state == operand_start(opcode),
        opcode.operation.category() == InstructionType::Read,
        opcode.address_mode == AddressingMode::AbsoluteXIndexed || opcode.address_mode
            == AddressingMode::AbsoluteYIndexed,
    ensures
        ({
            let index = index_of(opcode.address_mode, cpu.registers);
            let c2 = cpu.next(d1);
            let c3 = c2.next(d2);
            let c4 = c3.next(d3);
            let c5 = c4.next(d4);
            let operand = if crosses_page(d1, index) {
                d4
            } else {
                d3
            };
            let end = if crosses_page(d1, index) {
                c5
            } else {
                c4
            };
            &&& c3.bus_access() == BusAccess::Read { address: indexed_in_page_of(d1, d2, index) }
            &&& crosses_page(d1, index) ==> c4.bus_access() == BusAccess::Read {
                address: indexed_of(d1, d2, index),
            }
            &&& end.state.at_boundary()
            &&& end.registers == cpu.registers.advanced().advanced().after_read(
                opcode.operation,
                operand,
            )
        }),
{
    reveal(CpuView::step_operand);
    reveal(CpuView::operand_access);
    reveal(CpuView::execute);
    let c2 = cpu.next(d1);
    let c3 = c2.next(d2);
    let c4 = c3.next(d3);
    assert(c2.state == walking(opcode, Some(d1), None, None, None, None, false));
    assert(c3.state == walking(opcode, Some(d1), Some(d2), None, None, None, false));
    assert(c3.registers == cpu.registers.advanced().advanced());
    if crosses_page(d1, index_of(opcode.address_mode, cpu.registers)) {
        assert(c4.state == walking(opcode, Some(d1), Some(d2), None, None, None, true));
    }
}

/// An absolute indexed read first reads at the address without the carry
/// into the page. Without a carry that is the operand and the instruction
/// is done after four cycles; with a carry the value is discarded and the
/// operand is read at the true address in a fifth cycle.
pub proof fn lemma_absolute_indexed_read(cpu: CpuView, data: Seq<u8>)
    requires
        cpu.wf(),
        cpu.state == fetch(),
        Opcode::of_byte(data[0]).operation.category() == InstructionType::Read,
        Opcode::of_byte(data[0]).address_mode == AddressingMode::AbsoluteXIndexed
            || Opcode::of_byte(data[0]).address_mode == AddressingMode::AbsoluteYIndexed,
    ensures
        ({
            let opcode = Opcode::of_byte(data[0]);
            let behind = cpu.registers.advanced().advanced().advanced();
            let index = index_of(opcode.address_mode, cpu.registers);
            let crossed = crosses_page(data[1], index);
            let cycles: nat = if crossed {
                5
            } else {
                4
            };
            let operand = if crossed {
                data[4]
            } else {
                data[3]
            };
            &&& cpu.access_at(data, 3) == BusAccess::Read {
                address: indexed_in_page_of(data[1], data[2], index),
            }
            &&& crossed ==> cpu.access_at(data, 4) == BusAccess::Read {
                address: indexed_of(data[1], data[2], index),
            }
            &&& !crossed ==> indexed_in_page_of(data[1], data[2], index) == indexed_of(
                data[1],
                data[2],
                index,
            )
            &&& cpu.after(data, cycles).state.at_boundary()
            &&& cpu.after(data, cycles).registers == behind.after_read(opcode.operation, operand)
        }),
{
    let opcode = Opcode::of_byte(data[0]);
    lemma_operand_byte_read(cpu, data);
    lemma_after_next(cpu, data, 1);
    lemma_after_next(cpu, data, 2);
    lemma_after_next(cpu, data, 3);
    lemma_after_next(cpu, data, 4);
    lemma_absolute_indexed_read_tail(
        cpu.after(data, 1),
        opcode,
        data[1],
        data[2],
        data[3],
        data[4],
    );
    crate::cpu::address::lemma_crossing_changes_address(
        data[1],
        data[2],
        index_of(opcode.address_mode, cpu.registers),
    );
}

/// The cycles of an absolute read-modify-write instruction that follow
/// the fetch of its opcode.
proof fn lemma_modify_absolute_tail(
    cpu: CpuView,
    opcode: Opcode,
    d1: u8,
    d2: u8,
    d3: u8,
    d4: u8,
    d5: u8,
)
    requires
        cpu.state == operand_start(opcode),
        opcode.operation.category() == InstructionType::ReadModifyWrite,
        opcode.address_mode == AddressingMode::Absolute,
    ensures
        ({
            let address = address_of(d1, d2);
            let c2 = cpu.next(d1);
            let c3 = c2.next(d2);
            let c4 = c3.next(d3);
            let c5 = c4.next(d4);
            let end = c5.next(d5);
            &&& c3.bus_access() == BusAccess::Read { address }
            &&& c4.bus_access() == BusAccess::Write { address, value: d3 }
            &&& c5.bus_access() == BusAccess::Write {
                address,
                value: modified(opcode.operation, d3, cpu.registers.status.carry).value,
            }
            &&& c4.poll_point().is_none()
            &&& c5.poll_point() == Some(true)
            &&& end.state.at_boundary()
            &&& end.registers == cpu.registers.advanced().advanced().after_modify(
                opcode.operation,
                d3,
            )
        }),
{
    reveal(CpuView::step_operand);
    reveal(CpuView::operand_access);
    reveal(CpuView::execute);
    let address = address_of(d1, d2);
    let value = modified(opcode.operation, d3, cpu.registers.status.carry).value;
    let c2 = cpu.next(d1);
    let c3 = c2.next(d2);
    let c4 = c3.next(d3);
    let c5 = c4.next(d4);
    assert(c2.state == walking(opcode, Some(d1), None, None, None, None, false));
    assert(c3.state == walking(opcode, Some(d1), Some(d2), None, None, None, false));
    assert(c3.registers == cpu.registers.advanced().advanced());
    assert(c4.state == State::Cpu(
        CpuState::WritingResult { address, value, unmodified: d3, dummy: true },
    ));
    assert(c5.state == State::Cpu(
        CpuState::WritingResult { address, value, unmodified: d3, dummy: false },
    ));
}

/// A read-modify-write instruction on an absolute address takes six
/// cycles: after its three bytes it reads the operand, writes it back
/// unchanged, and then writes the result. The interrupt lines are sampled
/// before the last write and not before the first.
pub proof fn lemma_modify_absolute(cpu: CpuView, data: Seq<u8>)
    requires
        cpu.wf(),
        cpu.state == fetch(),
        Opcode::of_byte(data[0]).operation.category() == InstructionType::ReadModifyWrite,
        Opcode::of_byte(data[0]).address_mode == AddressingMode::Absolute,
    ensures
        ({
            let opcode = Opcode::of_byte(data[0]);
            let behind = cpu.registers.advanced().advanced().advanced();
            let address = address_of(data[1], data[2]);
            &&& cpu.access_at(data, 3) == BusAccess::Read { address }
            &&& cpu.access_at(data, 4) == BusAccess::Write { address, value: data[3] }
            &&& cpu.access_at(data, 5) == BusAccess::Write {
                address,
                value: modified(opcode.operation, data[3], cpu.registers.status.carry).value,
            }
            &&& cpu.after(data, 4).poll_point().is_none()
            &&& cpu.after(data, 5).poll_point() == Some(true)
            &&& cpu.after(data, 6).state.at_boundary()
            &&& cpu.after(data, 6).registers == behind.after_modify(opcode.operation, data[3])
        }),
{
    lemma_operand_byte_read(cpu, data);
    lemma_after_next(cpu, data, 1);
    lemma_after_next(cpu, data, 2);
    lemma_after_next(cpu, data, 3);
    lemma_after_next(cpu, data, 4);
    lemma_after_next(cpu, data, 5);
    lemma_modify_absolute_tail(
        cpu.after(data, 1),
        Opcode::of_byte(data[0]),
        data[1],
        data[2],
        data[3],
        data[4],
        data[5],
    );
}

} // verus!
