//! What the stack instructions and the interrupt entry do, over whole
//! instructions: what is pushed is what is pulled.

use vstd::prelude::*;
use crate::cpu::address::{address_of, high_byte_of, low_byte_of};
use crate::cpu::interrupts::Interrupt;
use crate::cpu::model::{fetch, CpuView};
use crate::cpu::opcodes::{InstructionType, Opcode, Operation};
use crate::cpu::run::lemma_after_next;
use crate::cpu::state::{BusAccess, CpuState, InterruptState, State};
use crate::cpu::status_flags::{lemma_from_bits_of_bits, Flags};

verus! {

/// What a stack operation leaves behind in the cycle that carries it out:
/// the registers as they were, and the state that begins its work on the
/// stack.
proof fn lemma_execute_stack(cpu: CpuView, opcode: Opcode, operand: Option<u8>)
    requires
        opcode.operation.category() == InstructionType::Stack,
    ensures
        cpu.execute(opcode, operand, None) == cpu.with_state(
            match opcode.operation {
                Operation::PHA => State::Cpu(
                    CpuState::PushRegisterOnStack { value: cpu.registers.a },
                ),
                Operation::PHP => State::Cpu(
                    CpuState::PushRegisterOnStack { value: cpu.registers.status.pushed(true) },
                ),
                Operation::BRK => State::Interrupt(
                    InterruptState::PushPCH(Interrupt::IRQ_BRK(cpu.cycles)),
                ),
                _ => State::Cpu(
                    CpuState::PreIncrementStackPointer { operation: opcode.operation },
                ),
            },
        ),
{
    reveal(CpuView::execute);
}

/// The two cycles with which an instruction without operand bytes begins:
/// the opcode is read and the byte after it is read and discarded.
proof fn lemma_stack_instruction_begins(cpu: CpuView, data: Seq<u8>)
    requires
        cpu.wf(),
        cpu.state == fetch(),
        Opcode::of_byte(data[0]).operation.category() == InstructionType::Stack,
    ensures
        ({
            let opcode = Opcode::of_byte(data[0]);
            let brk = opcode.operation == Operation::BRK;
            let c1 = cpu.after(data, 1);
            let c2 = cpu.after(data, 2);
            &&& c1.registers == cpu.registers.advanced()
            &&& c1.polled_interrupt == cpu.polled_interrupt
            &&& c2.polled_interrupt == cpu.polled_interrupt
            &&& c2.registers == if brk {
                cpu.registers.advanced().advanced()
            } else {
                cpu.registers.advanced()
            }
            &&& c2.state == match opcode.operation {
                Operation::PHA => State::Cpu(
                    CpuState::PushRegisterOnStack { value: cpu.registers.a },
                ),
                Operation::PHP => State::Cpu(
                    CpuState::PushRegisterOnStack { value: cpu.registers.status.pushed(true) },
                ),
                Operation::BRK => State::Interrupt(
                    InterruptState::PushPCH(Interrupt::IRQ_BRK(c1.cycles)),
                ),
                _ => State::Cpu(
                    CpuState::PreIncrementStackPointer { operation: opcode.operation },
                ),
            }
                    }),
{
    lemma_after_next(cpu, data, 0);
    lemma_after_next(cpu, data, 1);
    crate::cpu::opcodes::lemma_table_valid(data[0]);
    let opcode = Opcode::of_byte(data[0]);
    let c1 = cpu.after(data, 1);
    assert(c1 == cpu.next(data[0]));
    assert(c1.state == State::Cpu(CpuState::ThrowawayRead { opcode, operand: None }));
    lemma_execute_stack(c1, opcode, None);
    lemma_execute_stack(c1.fetched(), opcode, None);
}

/// The four cycles in which `RTI` works on the stack.
proof fn lemma_rti_pulls(cpu: CpuView, d2: u8, d3: u8, d4: u8, d5: u8)
    requires
        cpu.state == State::Cpu(CpuState::PreIncrementStackPointer { operation: Operation::RTI }),
    ensures
        ({
            let r = cpu.registers;
            let c3 = cpu.next(d2);
            let c4 = c3.next(d3);
            let c5 = c4.next(d4);
            let end = c5.next(d5);
            &&& end.state.at_boundary()
            &&& c3.bus_access() == BusAccess::Read { address: r.pull_address() }
            &&& c4.bus_access() == BusAccess::Read { address: r.pulled().pull_address() }
            &&& c5.bus_access() == BusAccess::Read { address: r.pulled().pulled().pull_address() }
            &&& end.registers.status == Flags::from_bits(d3).stored()
            &&& end.registers.program_counter == address_of(d4, d5)
            &&& end.registers.stack_pointer == r.pulled().pulled().pulled().stack_pointer
        }),
{
    let c3 = cpu.next(d2);
    let c4 = c3.next(d3);
    let c5 = c4.next(d4);
    assert(c3.state == State::Cpu(CpuState::PullRegisterFromStack { operation: Operation::RTI }));
    assert(c4.state == State::Cpu(CpuState::PullPCLFromStack { operation: Operation::RTI }));
    assert(c5.state == State::Cpu(
        CpuState::PullPCHFromStack { operation: Operation::RTI, pcl: d4 },
    ));
}

/// `RTI` pulls the status register, then the program counter: after its
/// six cycles the status register holds the first byte pulled without
/// `Break` and `Unused`, and execution continues at the address pulled,
/// with nothing added.
pub proof fn lemma_rti(cpu: CpuView, data: Seq<u8>)
    requires
        cpu.wf(),
        cpu.state == fetch(),
        Opcode::of_byte(data[0]).operation == Operation::RTI,
    ensures
        ({
            let r = cpu.registers;
            let end = cpu.after(data, 6);
            &&& end.state.at_boundary()
            &&& cpu.access_at(data, 3) == BusAccess::Read { address: r.pull_address() }
            &&& cpu.access_at(data, 4) == BusAccess::Read { address: r.pulled().pull_address() }
            &&& cpu.access_at(data, 5) == BusAccess::Read {
                address: r.pulled().pulled().pull_address(),
            }
            &&& end.registers.status == Flags::from_bits(data[3]).stored()
            &&& end.registers.program_counter == address_of(data[4], data[5])
            &&& end.registers.stack_pointer == r.pulled().pulled().pulled().stack_pointer
        }),
{
    lemma_stack_instruction_begins(cpu, data);
    lemma_after_next(cpu, data, 2);
    lemma_after_next(cpu, data, 3);
    lemma_after_next(cpu, data, 4);
    lemma_after_next(cpu, data, 5);
    lemma_rti_pulls(cpu.after(data, 2), data[2], data[3], data[4], data[5]);
}

/// The four cycles in which `RTS` works on the stack and steps over the
/// last byte of the `JSR`.
proof fn lemma_rts_pulls(cpu: CpuView, d2: u8, d3: u8, d4: u8, d5: u8)
    requires
        cpu.state == State::Cpu(CpuState::PreIncrementStackPointer { operation: Operation::RTS }),
    ensures
        ({
            let r = cpu.registers;
            let c3 = cpu.next(d2);
            let c4 = c3.next(d3);
            let c5 = c4.next(d4);
            let end = c5.next(d5);
            &&& end.state.at_boundary()
            &&& c3.bus_access() == BusAccess::Read { address: r.pull_address() }
            &&& c4.bus_access() == BusAccess::Read { address: r.pulled().pull_address() }
            &&& end.registers.program_counter == r.at(address_of(d3, d4)).advanced().program_counter
            &&& end.registers.stack_pointer == r.pulled().pulled().stack_pointer
            &&& end.registers.status == cpu.registers.status
        }),
{
    let c3 = cpu.next(d2);
    let c4 = c3.next(d3);
    let c5 = c4.next(d4);
    assert(c3.state == State::Cpu(CpuState::PullPCLFromStack { operation: Operation::RTS }));
    assert(c4.state == State::Cpu(
        CpuState::PullPCHFromStack { operation: Operation::RTS, pcl: d3 },
    ));
    assert(c5.state == State::Cpu(CpuState::IncrementProgramCounter));
}

/// `RTS` pulls the program counter and adds one: after its six cycles
/// execution continues one byte behind the address pulled.
pub proof fn lemma_rts(cpu: CpuView, data: Seq<u8>)
    requires
        cpu.wf(),
        cpu.state == fetch(),
        Opcode::of_byte(data[0]).operation == Operation::RTS,
    ensures
        ({
            let r = cpu.registers;
            let end = cpu.after(data, 6);
            &&& end.state.at_boundary()
            &&& cpu.access_at(data, 3) == BusAccess::Read { address: r.pull_address() }
            &&& cpu.access_at(data, 4) == BusAccess::Read { address: r.pulled().pull_address() }
            &&& end.registers.program_counter == r.at(
                address_of(data[3], data[4]),
            ).advanced().program_counter
            &&& end.registers.stack_pointer == r.pulled().pulled().stack_pointer
            &&& end.registers.status == cpu.registers.status
        }),
{
    lemma_stack_instruction_begins(cpu, data);
    lemma_after_next(cpu, data, 2);
    lemma_after_next(cpu, data, 3);
    lemma_after_next(cpu, data, 4);
    lemma_after_next(cpu, data, 5);
    lemma_rts_pulls(cpu.after(data, 2), data[2], data[3], data[4], data[5]);
}

/// `PHA` and `PHP` write their byte to the slot that the stack pointer
/// names and move the stack pointer down.
pub proof fn lemma_push(cpu: CpuView, data: Seq<u8>)
    requires
        cpu.wf(),
        cpu.state == fetch(),
        Opcode::of_byte(data[0]).operation == Operation::PHA || Opcode::of_byte(
            data[0],
        ).operation == Operation::PHP,
    ensures
        ({
            let r = cpu.registers;
            let end = cpu.after(data, 3);
            &&& end.state.at_boundary()
            &&& cpu.access_at(data, 2) == BusAccess::Write {
                address: r.push_address(),
                value: if Opcode::of_byte(data[0]).operation == Operation::PHA {
                    r.a
                } else {
                    r.status.pushed(true)
                },
            }
            &&& end.registers == r.advanced().pushed()
        }),
{
    lemma_stack_instruction_begins(cpu, data);
    lemma_after_next(cpu, data, 2);
}

/// The two cycles in which `PLA` and `PLP` work on the stack.
proof fn lemma_pull_tail(cpu: CpuView, operation: Operation, d2: u8, d3: u8)
    requires
        cpu.state == State::Cpu(CpuState::PreIncrementStackPointer { operation }),
        operation == Operation::PLA || operation == Operation::PLP,
    ensures
        ({
            let r = cpu.registers;
            let c3 = cpu.next(d2);
            let end = c3.next(d3);
            &&& end.state.at_boundary()
            &&& c3.bus_access() == BusAccess::Read { address: r.pull_address() }
            &&& end.registers.stack_pointer == r.pulled().stack_pointer
            &&& operation == Operation::PLA ==> end.registers.a == d3
                && end.registers.status.zero == (d3 == 0) && end.registers.status.negative == (d3
                >= 128)
            &&& operation == Operation::PLP ==> end.registers.status == Flags::from_bits(
                d3,
            ).stored()
        }),
{
    let c3 = cpu.next(d2);
    assert(c3.state == State::Cpu(CpuState::PullRegisterFromStack { operation }));
}

/// `PLA` and `PLP` read their byte from the slot above the stack pointer
/// and move the stack pointer up. `PLA` sets `Zero` and `Negative` from the
/// byte; `PLP` keeps every flag of it but `Break` and `Unused`.
pub proof fn lemma_pull(cpu: CpuView, data: Seq<u8>)
    requires
        cpu.wf(),
        cpu.state == fetch(),
        Opcode::of_byte(data[0]).operation == Operation::PLA || Opcode::of_byte(
            data[0],
        ).operation == Operation::PLP,
    ensures
        ({
            let r = cpu.registers;
            let pla = Opcode::of_byte(data[0]).operation == Operation::PLA;
            let end = cpu.after(data, 4);
            &&& end.state.at_boundary()
            &&& cpu.access_at(data, 3) == BusAccess::Read { address: r.pull_address() }
            &&& end.registers.stack_pointer == r.pulled().stack_pointer
            &&& pla ==> end.registers.a == data[3] && end.registers.status.zero == (data[3] == 0)
                && end.registers.status.negative == (data[3] >= 128)
            &&& !pla ==> end.registers.status == Flags::from_bits(data[3]).stored()
        }),
{
    lemma_stack_instruction_begins(cpu, data);
    lemma_after_next(cpu, data, 2);
    lemma_after_next(cpu, data, 3);
    lemma_pull_tail(cpu.after(data, 2), Opcode::of_byte(data[0]).operation, data[2], data[3]);
}

/// `PHA`, then `PLA`: the second pulls from the slot that the first pushed
/// to. If the bus gives back the byte that was written there, the
/// accumulator holds it again, whatever it held in between, `Zero` and
/// `Negative` are set from it, and the stack pointer is where it was.
pub proof fn lemma_pha_pla(cpu: CpuView, later: CpuView, pushed: Seq<u8>, pulled: Seq<u8>)
    requires
        cpu.wf(),
        cpu.state == fetch(),
        Opcode::of_byte(pushed[0]).operation == Operation::PHA,
        later.wf(),
        later.state == fetch(),
        later.registers.stack_pointer == cpu.after(pushed, 3).registers.stack_pointer,
        Opcode::of_byte(pulled[0]).operation == Operation::PLA,
        pulled[3] == cpu.registers.a,
    ensures
        ({
            let v = cpu.registers.a;
            let slot = cpu.registers.push_address();
            let end = later.after(pulled, 4);
            &&& cpu.after(pushed, 3).state.at_boundary()
            &&& cpu.access_at(pushed, 2) == BusAccess::Write { address: slot, value: v }
            &&& later.access_at(pulled, 3) == BusAccess::Read { address: slot }
            &&& end.state.at_boundary()
            &&& end.registers.a == v
            &&& end.registers.status.zero == (v == 0)
            &&& end.registers.status.negative == (v >= 128)
            &&& end.registers.stack_pointer == cpu.registers.stack_pointer
        }),
{
    lemma_push(cpu, pushed);
    lemma_pull(later, pulled);
}

/// `PHP`, then `PLP`: the byte pushed is the status register with `Break`
/// and `Unused` set; if the bus gives it back to the `PLP`, the status
/// register is what it was when it was pushed, whatever it held in between.
pub proof fn lemma_php_plp(cpu: CpuView, later: CpuView, pushed: Seq<u8>, pulled: Seq<u8>)
    requires
        cpu.wf(),
        cpu.state == fetch(),
        Opcode::of_byte(pushed[0]).operation == Operation::PHP,
        later.wf(),
        later.state == fetch(),
        later.registers.stack_pointer == cpu.after(pushed, 3).registers.stack_pointer,
        Opcode::of_byte(pulled[0]).operation == Operation::PLP,
        pulled[3] == cpu.registers.status.pushed(true),
    ensures
        ({
            let slot = cpu.registers.push_address();
            let end = later.after(pulled, 4);
            &&& cpu.after(pushed, 3).state.at_boundary()
            &&& cpu.access_at(pushed, 2) == BusAccess::Write {
                address: slot,
                value: cpu.registers.status.pushed(true),
            }
            &&& later.access_at(pulled, 3) == BusAccess::Read { address: slot }
            &&& end.state.at_boundary()
            &&& end.registers.status == cpu.registers.status
            &&& end.registers.stack_pointer == cpu.registers.stack_pointer
        }),
{
    lemma_push(cpu, pushed);
    lemma_pull(later, pulled);
    lemma_from_bits_of_bits(Flags { break_flag: true, unused: true, ..cpu.registers.status });
}

/// The five cycles of an interrupt entry that follow the two internal
/// ones.
proof fn lemma_entry_tail(
    cpu: CpuView,
    interrupt: Interrupt,
    d2: u8,
    d3: u8,
    d4: u8,
    d5: u8,
    d6: u8,
)
    requires
        cpu.state == State::Interrupt(InterruptState::PushPCH(interrupt)),
    ensures
        ({
            let r = cpu.registers;
            let served = interrupt.hijacked_by(cpu.polled_interrupt);
            let c3 = cpu.next(d2);
            let c4 = c3.next(d3);
            let c5 = c4.next(d4);
            let c6 = c5.next(d5);
            let end = c6.next(d6);
            &&& end.state == fetch()
            &&& end.polled_interrupt.is_none()
            &&& end.registers.status == Flags { interrupt_disable: true, ..r.status }
            &&& end.registers.program_counter == address_of(d5, d6)
            &&& end.registers.stack_pointer == r.pushed().pushed().pushed().stack_pointer
            &&& cpu.bus_access() == BusAccess::Write {
                address: r.push_address(),
                value: high_byte_of(r.program_counter),
            }
            &&& c3.bus_access() == BusAccess::Write {
                address: r.pushed().push_address(),
                value: low_byte_of(r.program_counter),
            }
            &&& c4.bus_access() == BusAccess::Write {
                address: r.pushed().pushed().push_address(),
                value: r.status.pushed(served.is_break()),
            }
            &&& c5.bus_access() == BusAccess::Read { address: served.vector() }
            &&& c6.bus_access() == BusAccess::Read { address: (served.vector() + 1) as u16 }
        }),
{
    let served = interrupt.hijacked_by(cpu.polled_interrupt);
    let c3 = cpu.next(d2);
    let c4 = c3.next(d3);
    let c5 = c4.next(d4);
    let c6 = c5.next(d5);
    assert(c3.state == State::Interrupt(InterruptState::PushPCL(interrupt)));
    assert(c4.state == State::Interrupt(InterruptState::PushStatusRegister(interrupt)));
    assert(c4.polled_interrupt == cpu.polled_interrupt);
    assert(c5.state == State::Interrupt(InterruptState::PullVectorLow(served)));
    assert(c5.polled_interrupt.is_none());
    assert(c6.state == State::Interrupt(InterruptState::PullVectorHigh(served)));
    assert(c6.registers.program_counter == d5 as u16);
}

/// An interrupt entry pushes the program counter and the status byte,
/// disables interrupts and continues at the address in the vector of the
/// interrupt that was served: the one that was entered, unless it was an
/// `IRQ` or `BRK` and another interrupt was pending when the status byte
/// was pushed.
pub proof fn lemma_interrupt_entry(cpu: CpuView, interrupt: Interrupt, data: Seq<u8>)
    requires
        cpu.wf(),
        cpu.state == State::Interrupt(InterruptState::InternalOps1(interrupt)),
    ensures
        ({
            let r = cpu.registers;
            let served = interrupt.hijacked_by(cpu.polled_interrupt);
            let end = cpu.after(data, 7);
            &&& end.state == fetch()
            &&& end.polled_interrupt.is_none()
            &&& end.registers.status == Flags { interrupt_disable: true, ..r.status }
            &&& end.registers.program_counter == address_of(data[5], data[6])
            &&& end.registers.stack_pointer == r.pushed().pushed().pushed().stack_pointer
            &&& cpu.access_at(data, 2) == BusAccess::Write {
                address: r.push_address(),
                value: high_byte_of(r.program_counter),
            }
            &&& cpu.access_at(data, 3) == BusAccess::Write {
                address: r.pushed().push_address(),
                value: low_byte_of(r.program_counter),
            }
            &&& cpu.access_at(data, 4) == BusAccess::Write {
                address: r.pushed().pushed().push_address(),
                value: r.status.pushed(served.is_break()),
            }
            &&& cpu.access_at(data, 5) == BusAccess::Read { address: served.vector() }
            &&& cpu.access_at(data, 6) == BusAccess::Read { address: (served.vector() + 1) as u16 }
        }),
{
    lemma_after_next(cpu, data, 0);
    lemma_after_next(cpu, data, 1);
    lemma_after_next(cpu, data, 2);
    lemma_after_next(cpu, data, 3);
    lemma_after_next(cpu, data, 4);
    lemma_after_next(cpu, data, 5);
    lemma_after_next(cpu, data, 6);
    let c1 = cpu.after(data, 1);
    let c2 = cpu.after(data, 2);
    assert(c1.state == State::Interrupt(InterruptState::InternalOps2(interrupt)));
    assert(c2.state == State::Interrupt(InterruptState::PushPCH(interrupt)));
    assert(c2.registers == cpu.registers);
    assert(c2.polled_interrupt == cpu.polled_interrupt);
    lemma_entry_tail(c2, interrupt, data[2], data[3], data[4], data[5], data[6]);
}

/// `BRK` is an interrupt entry whose first two cycles read the opcode and
/// the byte after it: the address pushed is that of the `BRK` plus two, the
/// status byte is pushed with `Break` set, and execution continues at the
/// address in the vector at `0xFFFE`. (If an interrupt is pending, it takes
/// the entry over, as it does with `IRQ`; here none is.)
pub proof fn lemma_brk(cpu: CpuView, data: Seq<u8>)
    requires
        cpu.wf(),
        cpu.state == fetch(),
        cpu.polled_interrupt.is_none(),
        Opcode::of_byte(data[0]).operation == Operation::BRK,
    ensures
        ({
            let r = cpu.registers;
            let pushed = r.advanced().advanced().program_counter;
            let end = cpu.after(data, 7);
            &&& end.state == fetch()
            &&& end.registers.status == Flags { interrupt_disable: true, ..r.status }
            &&& end.registers.program_counter == address_of(data[5], data[6])
            &&& end.registers.stack_pointer == r.pushed().pushed().pushed().stack_pointer
            &&& cpu.access_at(data, 2) == BusAccess::Write {
                address: r.push_address(),
                value: high_byte_of(pushed),
            }
            &&& cpu.access_at(data, 3) == BusAccess::Write {
                address: r.pushed().push_address(),
                value: low_byte_of(pushed),
            }
            &&& cpu.access_at(data, 4) == BusAccess::Write {
                address: r.pushed().pushed().push_address(),
                value: r.status.pushed(true),
            }
            &&& cpu.access_at(data, 5) == BusAccess::Read { address: 0xFFFE }
            &&& cpu.access_at(data, 6) == BusAccess::Read { address: 0xFFFF }
        }),
{
    lemma_stack_instruction_begins(cpu, data);
    lemma_after_next(cpu, data, 2);
    lemma_after_next(cpu, data, 3);
    lemma_after_next(cpu, data, 4);
    lemma_after_next(cpu, data, 5);
    lemma_after_next(cpu, data, 6);
    let c1 = cpu.after(data, 1);
    let c2 = cpu.after(data, 2);
    lemma_entry_tail(
        c2,
        Interrupt::IRQ_BRK(c1.cycles),
        data[2],
        data[3],
        data[4],
        data[5],
        data[6],
    );
}

/// After an interrupt entry, by an interrupt line or by `BRK`, interrupts
/// are disabled.
pub proof fn lemma_entry_disables_interrupts(cpu: CpuView, data: Seq<u8>)
    requires
        cpu.wf(),
        (cpu.state matches State::Interrupt(InterruptState::InternalOps1(_))) || (cpu.state
            == fetch() && Opcode::of_byte(data[0]).operation == Operation::BRK),
    ensures
        cpu.after(data, 7).state.at_boundary(),
        cpu.after(data, 7).registers.status.interrupt_disable,
{
    match cpu.state {
        State::Interrupt(InterruptState::InternalOps1(interrupt)) => {
            lemma_interrupt_entry(cpu, interrupt, data);
        },
        _ => {
            lemma_stack_instruction_begins(cpu, data);
            lemma_after_next(cpu, data, 2);
            lemma_after_next(cpu, data, 3);
            lemma_after_next(cpu, data, 4);
            lemma_after_next(cpu, data, 5);
            lemma_after_next(cpu, data, 6);
            lemma_entry_tail(
                cpu.after(data, 2),
                Interrupt::IRQ_BRK(cpu.after(data, 1).cycles),
                data[2],
                data[3],
                data[4],
                data[5],
                data[6],
            );
        },
    }
}

/// A non-maskable interrupt that is pending when an entry by `IRQ` or
/// `BRK` pushes the status byte takes the entry over: the vector is read
/// at `0xFFFA` and `0xFFFB`, the status byte is pushed with `Break` clear,
/// and the pending slot is emptied.
pub proof fn lemma_nmi_hijacks(cpu: CpuView, entered: Interrupt, raised_at: u32, data: Seq<u8>)
    requires
        cpu.wf(),
        cpu.state == State::Interrupt(InterruptState::PushStatusRegister(entered)),
        (entered is IRQ || entered is IRQ_BRK),
        cpu.polled_interrupt == Some(Interrupt::NMI(raised_at)),
    ensures
        ({
            &&& cpu.access_at(data, 0) == BusAccess::Write {
                address: cpu.registers.push_address(),
                value: cpu.registers.status.pushed(false),
            }
            &&& cpu.access_at(data, 1) == BusAccess::Read { address: 0xFFFA }
            &&& cpu.access_at(data, 2) == BusAccess::Read { address: 0xFFFB }
            &&& cpu.after(data, 3).state == fetch()
            &&& cpu.after(data, 3).registers.program_counter == address_of(data[1], data[2])
            &&& cpu.after(data, 3).polled_interrupt.is_none()
        }),
{
    lemma_after_next(cpu, data, 0);
    lemma_after_next(cpu, data, 1);
    lemma_after_next(cpu, data, 2);
    let c1 = cpu.after(data, 1);
    let c2 = cpu.after(data, 2);
    assert(c1.state == State::Interrupt(
        InterruptState::PullVectorLow(Interrupt::NMI(raised_at)),
    ));
    assert(c2.state == State::Interrupt(
        InterruptState::PullVectorHigh(Interrupt::NMI(raised_at)),
    ));
    assert(c2.registers.program_counter == data[1] as u16);
}

/// The two cycles in which `JSR` reads its operand.
proof fn lemma_jsr_operand(cpu: CpuView, opcode: Opcode, d1: u8, d2: u8)
    requires
        cpu.state == crate::cpu::model::operand_start(opcode),
        opcode.operation == Operation::JSR,
        opcode.address_mode == crate::cpu::opcodes::AddressingMode::Absolute,
    ensures
        cpu.next(d1).next(d2).state == State::Cpu(
            CpuState::WritePCHToStack { address: address_of(d1, d2) },
        ),
        cpu.next(d1).next(d2).registers == cpu.registers.advanced().advanced(),
{
    reveal(CpuView::step_operand);
    let c2 = cpu.next(d1);
    assert(c2.state == crate::cpu::model::walking(
        opcode,
        Some(d1),
        None,
        None,
        None,
        None,
        false,
    ));
    assert(c2.fetched().execute(opcode, None, Some(address_of(d1, d2))) == c2.fetched().with_state(
        State::Cpu(CpuState::WritePCHToStack { address: address_of(d1, d2) }),
    )) by {
        reveal(CpuView::execute);
    }
}

/// The three cycles in which `JSR` pushes the return address and loads
/// the program counter.
proof fn lemma_jsr_pushes(cpu: CpuView, address: u16, d3: u8, d4: u8, d5: u8)
    requires
        cpu.state == State::Cpu(CpuState::WritePCHToStack { address }),
    ensures
        ({
            let r = cpu.registers;
            let c4 = cpu.next(d3);
            let c5 = c4.next(d4);
            let end = c5.next(d5);
            &&& cpu.bus_access() == BusAccess::Write {
                address: r.push_address(),
                value: high_byte_of(r.return_address()),
            }
            &&& c4.bus_access() == BusAccess::Write {
                address: r.pushed().push_address(),
                value: low_byte_of(r.return_address()),
            }
            &&& end.state.at_boundary()
            &&& end.registers == r.pushed().pushed().at(address)
        }),
{
    let c4 = cpu.next(d3);
    let c5 = c4.next(d4);
    assert(c4.state == State::Cpu(CpuState::WritePCLToStack { address }));
    assert(c5.state == State::Cpu(CpuState::SetProgramCounter { address }));
}

/// The cycles of `JSR` that follow the fetch of its opcode.
proof fn lemma_jsr_tail(cpu: CpuView, opcode: Opcode, d1: u8, d2: u8, d3: u8, d4: u8, d5: u8)
    requires
        cpu.state == crate::cpu::model::operand_start(opcode),
        opcode.operation == Operation::JSR,
        opcode.address_mode == crate::cpu::opcodes::AddressingMode::Absolute,
    ensures
        ({
            let r = cpu.registers;
            let pushed = r.advanced().program_counter;
            let c2 = cpu.next(d1);
            let c3 = c2.next(d2);
            let c4 = c3.next(d3);
            let c5 = c4.next(d4);
            let end = c5.next(d5);
            &&& c3.bus_access() == BusAccess::Write {
                address: r.push_address(),
                value: high_byte_of(pushed),
            }
            &&& c4.bus_access() == BusAccess::Write {
                address: r.pushed().push_address(),
                value: low_byte_of(pushed),
            }
            &&& end.state.at_boundary()
            &&& end.registers == r.advanced().advanced().pushed().pushed().at(address_of(d1, d2))
        }),
{
    lemma_jsr_operand(cpu, opcode, d1, d2);
    lemma_jsr_pushes(cpu.next(d1).next(d2), address_of(d1, d2), d3, d4, d5);
}

/// `JSR` pushes the address of its own last byte, high byte first, and
/// continues at its operand.
pub proof fn lemma_jsr(cpu: CpuView, data: Seq<u8>)
    requires
        cpu.wf(),
        cpu.state == fetch(),
        Opcode::of_byte(data[0]).operation == Operation::JSR,
    ensures
        ({
            let r = cpu.registers;
            let pushed = r.advanced().advanced().program_counter;
            let end = cpu.after(data, 6);
            &&& cpu.access_at(data, 3) == BusAccess::Write {
                address: r.push_address(),
                value: high_byte_of(pushed),
            }
            &&& cpu.access_at(data, 4) == BusAccess::Write {
                address: r.pushed().push_address(),
                value: low_byte_of(pushed),
            }
            &&& end.state.at_boundary()
            &&& end.registers == r.pushed().pushed().at(address_of(data[1], data[2]))
        }),
{
    assert(cpu.registers.advanced().advanced().advanced().pushed().pushed().at(
        address_of(data[1], data[2]),
    ) == cpu.registers.pushed().pushed().at(address_of(data[1], data[2])));
    crate::cpu::opcodes::lemma_table_valid(data[0]);
    crate::cpu::operands::lemma_operand_byte_read(cpu, data);
    lemma_after_next(cpu, data, 1);
    lemma_after_next(cpu, data, 2);
    lemma_after_next(cpu, data, 3);
    lemma_after_next(cpu, data, 4);
    lemma_after_next(cpu, data, 5);
    lemma_jsr_tail(
        cpu.after(data, 1),
        Opcode::of_byte(data[0]),
        data[1],
        data[2],
        data[3],
        data[4],
        data[5],
    );
}

/// `JSR`, then `RTS`: if the bus gives the `RTS` the two bytes that the
/// `JSR` pushed, execution continues behind the `JSR`, with the stack
/// pointer where it was before the call.
pub proof fn lemma_jsr_rts(cpu: CpuView, later: CpuView, call: Seq<u8>, back: Seq<u8>)
    requires
        cpu.wf(),
        cpu.state == fetch(),
        Opcode::of_byte(call[0]).operation == Operation::JSR,
        later.wf(),
        later.state == fetch(),
        later.registers.stack_pointer == cpu.after(call, 6).registers.stack_pointer,
        Opcode::of_byte(back[0]).operation == Operation::RTS,
        back[3] == low_byte_of(cpu.registers.advanced().advanced().program_counter),
        back[4] == high_byte_of(cpu.registers.advanced().advanced().program_counter),
    ensures
        ({
            let r = cpu.registers;
            let end = later.after(back, 6);
            &&& later.access_at(back, 3) == BusAccess::Read {
                address: r.pushed().push_address(),
            }
            &&& later.access_at(back, 4) == BusAccess::Read {
                address: r.push_address(),
            }
            &&& end.state.at_boundary()
            &&& end.registers.program_counter == r.advanced().advanced().advanced().program_counter
            &&& end.registers.stack_pointer == r.stack_pointer
        }),
{
    lemma_jsr(cpu, call);
    lemma_rts(later, back);
    let pushed = cpu.registers.advanced().advanced().program_counter;
    assert(address_of(low_byte_of(pushed), high_byte_of(pushed)) == pushed);
}

} // verus!
