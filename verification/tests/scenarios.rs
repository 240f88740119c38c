//! Whole instructions run against a flat 64 KiB memory.

use nes_cpu::cpu::state::{BusAccess, CpuState, InterruptState, State};
use nes_cpu::cpu::status_flags::Flag;
use nes_cpu::{clock, new_cpu, raise_interrupt, Cpu, Interrupt};

struct Machine {
    cpu: Cpu,
    memory: Vec<u8>,
    trace: Vec<BusAccess>,
}

impl Machine {
    /// A machine whose reset vector points at `origin`, where `program` lies.
    fn new(origin: u16, program: &[u8]) -> Machine {
        let mut memory = vec![0u8; 0x1_0000];
        memory[0xFFFC] = origin as u8;
        memory[0xFFFD] = (origin >> 8) as u8;
        for (i, byte) in program.iter().enumerate() {
            memory[origin as usize + i] = *byte;
        }
        let cpu = new_cpu(0, memory[0xFFFC], memory[0xFFFD]);
        Machine { cpu, memory, trace: Vec::new() }
    }

    fn cycle(&mut self) {
        assert!(self.cpu.is_valid());
        let access = self.cpu.bus_access();
        let data = match access {
            BusAccess::Read { address } => self.memory[address as usize],
            BusAccess::Write { address, value } => {
                self.memory[address as usize] = value;
                value
            }
        };
        self.trace.push(access);
        clock(&mut self.cpu, data);
    }

    fn at_fetch(&self) -> bool {
        self.cpu.state == State::Cpu(CpuState::FetchOpcode)
    }

    /// Runs one instruction and returns the number of cycles it took.
    fn instruction(&mut self) -> usize {
        assert!(self.at_fetch());
        self.trace.clear();
        let mut cycles = 0;
        loop {
            self.cycle();
            cycles += 1;
            if self.at_fetch() {
                return cycles;
            }
            assert!(cycles < 10);
        }
    }

    fn flag(&self, flag: Flag) -> bool {
        self.cpu.registers.status_register.contains(flag)
    }
}

fn read(address: u16) -> BusAccess {
    BusAccess::Read { address }
}

fn write(address: u16, value: u8) -> BusAccess {
    BusAccess::Write { address, value }
}

#[test]
fn power_on_state() {
    let cpu = new_cpu(7, 0x34, 0x12);
    assert_eq!(cpu.registers.program_counter, 0x1234);
    assert_eq!(cpu.registers.stack_pointer, 0xFD);
    assert_eq!(cpu.registers.status_register.bits(), 0x04);
    assert_eq!(cpu.registers.a, 0);
    assert_eq!(cpu.registers.x, 0);
    assert_eq!(cpu.registers.y, 0);
    assert_eq!(cpu.cycles, 7);
    assert_eq!(cpu.state, State::Cpu(CpuState::FetchOpcode));
    assert_eq!(cpu.polled_interrupt, None);
    assert!(cpu.is_valid());
}

#[test]
fn cycle_counter_advances_by_one_per_clock() {
    let mut m = Machine::new(0x8000, &[0xEA, 0xEA, 0xA9, 0x01, 0x4C, 0x00, 0x80]);
    for n in 1..=50u32 {
        m.cycle();
        assert_eq!(m.cpu.cycles, n);
    }
}

#[test]
fn cycle_counter_wraps() {
    let mut cpu = new_cpu(u32::MAX, 0x00, 0x80);
    clock(&mut cpu, 0xEA);
    assert_eq!(cpu.cycles, 0);
}

#[test]
fn adc_overflow() {
    // LDA #$50; ADC #$50
    let mut m = Machine::new(0x8000, &[0xA9, 0x50, 0x69, 0x50]);
    assert_eq!(m.instruction(), 2);
    assert_eq!(m.instruction(), 2);
    assert_eq!(m.cpu.registers.a, 0xA0);
    assert!(m.flag(Flag::Negative));
    assert!(m.flag(Flag::Overflow));
    assert!(!m.flag(Flag::Zero));
    assert!(!m.flag(Flag::Carry));
}

#[test]
fn sbc_borrow() {
    // SEC; LDA #$50; SBC #$F0
    let mut m = Machine::new(0x8000, &[0x38, 0xA9, 0x50, 0xE9, 0xF0]);
    m.instruction();
    m.instruction();
    m.instruction();
    assert_eq!(m.cpu.registers.a, 0x60);
    assert!(!m.flag(Flag::Negative));
    assert!(!m.flag(Flag::Overflow));
    assert!(!m.flag(Flag::Zero));
    assert!(!m.flag(Flag::Carry));
}

#[test]
fn adc_carry_in_and_out() {
    // SEC; LDA #$FF; ADC #$00 -> 0x00, carry, zero
    let mut m = Machine::new(0x8000, &[0x38, 0xA9, 0xFF, 0x69, 0x00]);
    m.instruction();
    m.instruction();
    m.instruction();
    assert_eq!(m.cpu.registers.a, 0x00);
    assert!(m.flag(Flag::Carry));
    assert!(m.flag(Flag::Zero));
    assert!(!m.flag(Flag::Overflow));
    assert!(!m.flag(Flag::Negative));
}

#[test]
fn brk_entry() {
    let mut m = Machine::new(0x8000, &[0x00]);
    m.memory[0xFFFE] = 0x00;
    m.memory[0xFFFF] = 0x90;
    assert_eq!(m.cpu.registers.status_register.bits() | 0x20, 0x24);
    assert_eq!(m.cpu.registers.stack_pointer, 0xFD);
    assert_eq!(m.instruction(), 7);
    assert_eq!(m.cpu.registers.program_counter, 0x9000);
    assert_eq!(m.memory[0x01FD], 0x80);
    assert_eq!(m.memory[0x01FC], 0x02);
    assert_eq!(m.memory[0x01FB], 0x34);
    assert_eq!(m.cpu.registers.stack_pointer, 0xFA);
    assert!(m.flag(Flag::InterruptDisable));
    assert_eq!(
        m.trace,
        vec![
            read(0x8000),
            read(0x8001),
            write(0x01FD, 0x80),
            write(0x01FC, 0x02),
            write(0x01FB, 0x34),
            read(0xFFFE),
            read(0xFFFF),
        ]
    );
}

#[test]
fn jmp_indirect_page_wrap() {
    let mut m = Machine::new(0x8000, &[0x6C, 0xFF, 0x10]);
    m.memory[0x10FF] = 0x34;
    m.memory[0x1100] = 0x12;
    m.memory[0x1000] = 0xCD;
    assert_eq!(m.instruction(), 5);
    assert_eq!(m.cpu.registers.program_counter, 0xCD34);
    assert_eq!(
        m.trace,
        vec![read(0x8000), read(0x8001), read(0x8002), read(0x10FF), read(0x1000)]
    );
}

#[test]
fn jmp_absolute() {
    let mut m = Machine::new(0x8000, &[0x4C, 0x34, 0x12]);
    assert_eq!(m.instruction(), 3);
    assert_eq!(m.cpu.registers.program_counter, 0x1234);
}

#[test]
fn lda_absolute_x_page_cross() {
    // LDX #$FF; LDA $1201,X
    let mut m = Machine::new(0x8000, &[0xA2, 0xFF, 0xBD, 0x01, 0x12]);
    m.memory[0x1300] = 0x77;
    m.memory[0x1200] = 0x11;
    m.instruction();
    assert_eq!(m.instruction(), 5);
    assert_eq!(m.cpu.registers.a, 0x77);
    assert_eq!(
        m.trace,
        vec![read(0x8002), read(0x8003), read(0x8004), read(0x1200), read(0x1300)]
    );
}

#[test]
fn lda_absolute_x_same_page() {
    // LDX #$01; LDA $1201,X
    let mut m = Machine::new(0x8000, &[0xA2, 0x01, 0xBD, 0x01, 0x12]);
    m.memory[0x1202] = 0x99;
    m.instruction();
    assert_eq!(m.instruction(), 4);
    assert_eq!(m.cpu.registers.a, 0x99);
    assert!(m.flag(Flag::Negative));
    assert_eq!(m.trace, vec![read(0x8002), read(0x8003), read(0x8004), read(0x1202)]);
}

#[test]
fn inc_absolute_read_modify_write() {
    let mut m = Machine::new(0x8000, &[0xEE, 0x34, 0x12]);
    m.memory[0x1234] = 0x7F;
    assert_eq!(m.instruction(), 6);
    assert_eq!(
        m.trace,
        vec![
            read(0x8000),
            read(0x8001),
            read(0x8002),
            read(0x1234),
            write(0x1234, 0x7F),
            write(0x1234, 0x80),
        ]
    );
    assert_eq!(m.memory[0x1234], 0x80);
    assert!(!m.flag(Flag::Zero));
    assert!(m.flag(Flag::Negative));
}

#[test]
fn zero_page_x_wraps() {
    // LDX #$01; LDA $FF,X reads $00
    let mut m = Machine::new(0x8000, &[0xA2, 0x01, 0xB5, 0xFF]);
    m.memory[0x0000] = 0x42;
    m.memory[0x0100] = 0x24;
    m.instruction();
    assert_eq!(m.instruction(), 4);
    assert_eq!(m.cpu.registers.a, 0x42);
    assert_eq!(m.trace, vec![read(0x8002), read(0x8003), read(0x00FF), read(0x0000)]);
}

#[test]
fn indirect_y_pointer_wraps_in_zero_page() {
    // LDY #$00; LDA ($FF),Y: pointer low at $FF, high at $00
    let mut m = Machine::new(0x8000, &[0xA0, 0x00, 0xB1, 0xFF]);
    m.memory[0x00FF] = 0x34;
    m.memory[0x0000] = 0x12;
    m.memory[0x1234] = 0x5A;
    m.instruction();
    assert_eq!(m.instruction(), 5);
    assert_eq!(m.cpu.registers.a, 0x5A);
    assert_eq!(
        m.trace,
        vec![read(0x8002), read(0x8003), read(0x00FF), read(0x0000), read(0x1234)]
    );
}

#[test]
fn indirect_y_page_cross_takes_six_cycles() {
    // LDY #$FF; LDA ($10),Y with base $12F0
    let mut m = Machine::new(0x8000, &[0xA0, 0xFF, 0xB1, 0x10]);
    m.memory[0x0010] = 0xF0;
    m.memory[0x0011] = 0x12;
    m.memory[0x13EF] = 0x66;
    m.instruction();
    assert_eq!(m.instruction(), 6);
    assert_eq!(m.cpu.registers.a, 0x66);
    assert_eq!(
        m.trace,
        vec![read(0x8002), read(0x8003), read(0x0010), read(0x0011), read(0x12EF), read(0x13EF)]
    );
}

#[test]
fn indirect_x_reads_pointer_in_zero_page() {
    // LDX #$04; LDA ($FE,X): pointer at $02/$03
    let mut m = Machine::new(0x8000, &[0xA2, 0x04, 0xA1, 0xFE]);
    m.memory[0x0002] = 0x00;
    m.memory[0x0003] = 0x30;
    m.memory[0x3000] = 0x17;
    m.instruction();
    assert_eq!(m.instruction(), 6);
    assert_eq!(m.cpu.registers.a, 0x17);
    assert_eq!(
        m.trace,
        vec![
            read(0x8002),
            read(0x8003),
            read(0x00FE),
            read(0x0002),
            read(0x0003),
            read(0x3000),
        ]
    );
}

#[test]
fn branch_not_taken_two_cycles() {
    // CLC; BCS +5
    let mut m = Machine::new(0x8000, &[0x18, 0xB0, 0x05]);
    m.instruction();
    assert_eq!(m.instruction(), 2);
    assert_eq!(m.cpu.registers.program_counter, 0x8003);
}

#[test]
fn branch_taken_same_page_three_cycles() {
    // CLC; BCC +5
    let mut m = Machine::new(0x8000, &[0x18, 0x90, 0x05]);
    m.instruction();
    assert_eq!(m.instruction(), 3);
    assert_eq!(m.cpu.registers.program_counter, 0x8008);
}

#[test]
fn branch_taken_other_page_four_cycles() {
    // at $80FC: CLC; BCC +5 -> $80FF + 5 = $8104
    let mut m = Machine::new(0x80FC, &[0x18, 0x90, 0x05]);
    m.instruction();
    assert_eq!(m.instruction(), 4);
    assert_eq!(m.cpu.registers.program_counter, 0x8104);
}

#[test]
fn branch_backwards() {
    // SEC; BCS -3 -> $8003 - 3 = $8000
    let mut m = Machine::new(0x8000, &[0x38, 0xB0, 0xFD]);
    m.instruction();
    assert_eq!(m.instruction(), 3);
    assert_eq!(m.cpu.registers.program_counter, 0x8000);
}

#[test]
fn pha_pla_round_trip() {
    // LDA #$80; PHA; LDA #$01; PLA
    let mut m = Machine::new(0x8000, &[0xA9, 0x80, 0x48, 0xA9, 0x01, 0x68]);
    m.instruction();
    assert_eq!(m.instruction(), 3);
    assert_eq!(m.trace, vec![read(0x8002), read(0x8003), write(0x01FD, 0x80)]);
    assert_eq!(m.cpu.registers.stack_pointer, 0xFC);
    m.instruction();
    assert!(!m.flag(Flag::Negative));
    assert_eq!(m.instruction(), 4);
    assert_eq!(m.trace, vec![read(0x8005), read(0x8006), read(0x01FC), read(0x01FD)]);
    assert_eq!(m.cpu.registers.a, 0x80);
    assert!(m.flag(Flag::Negative));
    assert!(!m.flag(Flag::Zero));
    assert_eq!(m.cpu.registers.stack_pointer, 0xFD);
}

#[test]
fn php_plp_round_trip() {
    // SEC; SED; PHP; CLC; CLD; PLP
    let mut m = Machine::new(0x8000, &[0x38, 0xF8, 0x08, 0x18, 0xD8, 0x28]);
    m.instruction();
    m.instruction();
    let before = m.cpu.registers.status_register.bits();
    assert_eq!(before, 0x0D);
    assert_eq!(m.instruction(), 3);
    assert_eq!(m.memory[0x01FD], 0x3D);
    m.instruction();
    m.instruction();
    assert_eq!(m.cpu.registers.status_register.bits(), 0x04);
    assert_eq!(m.instruction(), 4);
    assert_eq!(m.cpu.registers.status_register.bits(), before);
    assert_eq!(m.cpu.registers.status_register.bits() & 0x30, 0);
}

#[test]
fn plp_masks_break_and_unused() {
    // LDA #$FF; PHA; PLP
    let mut m = Machine::new(0x8000, &[0xA9, 0xFF, 0x48, 0x28]);
    m.instruction();
    m.instruction();
    m.instruction();
    assert_eq!(m.cpu.registers.status_register.bits(), 0xCF);
}

#[test]
fn jsr_rts() {
    // $8000: JSR $9000 ; $9000: RTS
    let mut m = Machine::new(0x8000, &[0x20, 0x00, 0x90, 0xEA]);
    m.memory[0x9000] = 0x60;
    assert_eq!(m.instruction(), 6);
    assert_eq!(m.cpu.registers.program_counter, 0x9000);
    assert_eq!(m.memory[0x01FD], 0x80);
    assert_eq!(m.memory[0x01FC], 0x02);
    assert_eq!(m.cpu.registers.stack_pointer, 0xFB);
    assert_eq!(m.instruction(), 6);
    assert_eq!(m.cpu.registers.program_counter, 0x8003);
    assert_eq!(m.cpu.registers.stack_pointer, 0xFD);
}

#[test]
fn rts_adds_one_to_pulled_address() {
    let mut m = Machine::new(0x8000, &[0x60]);
    m.memory[0x01FE] = 0xFF;
    m.memory[0x01FF] = 0x12;
    assert_eq!(m.instruction(), 6);
    assert_eq!(m.cpu.registers.program_counter, 0x1300);
}

#[test]
fn rti_restores_status_and_address() {
    let mut m = Machine::new(0x8000, &[0x40]);
    m.cpu.registers.stack_pointer = 0xFC;
    m.memory[0x01FD] = 0xF3;
    m.memory[0x01FE] = 0x34;
    m.memory[0x01FF] = 0x12;
    assert_eq!(m.instruction(), 6);
    assert_eq!(m.cpu.registers.status_register.bits(), 0xF3 & 0xCF);
    assert_eq!(m.cpu.registers.program_counter, 0x1234);
    assert_eq!(m.cpu.registers.stack_pointer, 0xFF);
}

#[test]
fn nmi_entry_sets_interrupt_disable() {
    // CLI; NOP, with an NMI raised during the CLI
    let mut m = Machine::new(0x8000, &[0x58, 0xEA]);
    m.memory[0xFFFA] = 0x00;
    m.memory[0xFFFB] = 0xA0;
    m.cycle();
    raise_interrupt(&mut m.cpu, Interrupt::NMI(1));
    m.cycle();
    assert_eq!(m.cpu.state, State::Interrupt(InterruptState::InternalOps1(Interrupt::NMI(1))));
    assert_eq!(m.cpu.polled_interrupt, None);
    assert!(!m.flag(Flag::InterruptDisable));
    m.trace.clear();
    for _ in 0..7 {
        assert!(!m.at_fetch());
        m.cycle();
    }
    assert!(m.at_fetch());
    assert!(m.flag(Flag::InterruptDisable));
    assert_eq!(m.cpu.registers.program_counter, 0xA000);
    assert_eq!(
        m.trace,
        vec![
            read(0x8001),
            read(0x8001),
            write(0x01FD, 0x80),
            write(0x01FC, 0x01),
            write(0x01FB, 0x20),
            read(0xFFFA),
            read(0xFFFB),
        ]
    );
}

#[test]
fn nmi_hijacks_brk() {
    let mut m = Machine::new(0x8000, &[0x00]);
    m.memory[0xFFFA] = 0x00;
    m.memory[0xFFFB] = 0xA0;
    m.memory[0xFFFE] = 0x00;
    m.memory[0xFFFF] = 0x90;
    for _ in 0..4 {
        m.cycle();
    }
    assert_eq!(
        m.cpu.state,
        State::Interrupt(InterruptState::PushStatusRegister(Interrupt::IRQ_BRK(1)))
    );
    assert_eq!(m.cpu.poll_point(), Some(false));
    raise_interrupt(&mut m.cpu, Interrupt::NMI(4));
    m.cycle();
    assert_eq!(m.cpu.polled_interrupt, None);
    m.cycle();
    m.cycle();
    assert!(m.at_fetch());
    assert_eq!(m.cpu.registers.program_counter, 0xA000);
    assert_eq!(m.trace[5], read(0xFFFA));
    assert_eq!(m.trace[6], read(0xFFFB));
    assert_eq!(m.trace[4], write(0x01FB, 0x24));
}

#[test]
fn nmi_hijacks_irq() {
    let mut m = Machine::new(0x8000, &[0xEA]);
    m.memory[0xFFFA] = 0x00;
    m.memory[0xFFFB] = 0xA0;
    m.memory[0xFFFE] = 0x00;
    m.memory[0xFFFF] = 0x90;
    m.cycle();
    raise_interrupt(&mut m.cpu, Interrupt::IRQ(1));
    m.cycle();
    assert_eq!(m.cpu.state, State::Interrupt(InterruptState::InternalOps1(Interrupt::IRQ(1))));
    for _ in 0..4 {
        m.cycle();
    }
    raise_interrupt(&mut m.cpu, Interrupt::NMI(6));
    for _ in 0..3 {
        m.cycle();
    }
    assert!(m.at_fetch());
    assert_eq!(m.cpu.registers.program_counter, 0xA000);
}

#[test]
fn irq_does_not_hijack_nmi() {
    let mut m = Machine::new(0x8000, &[0xEA]);
    m.memory[0xFFFA] = 0x00;
    m.memory[0xFFFB] = 0xA0;
    m.memory[0xFFFE] = 0x00;
    m.memory[0xFFFF] = 0x90;
    m.cycle();
    raise_interrupt(&mut m.cpu, Interrupt::NMI(1));
    m.cycle();
    for _ in 0..4 {
        m.cycle();
    }
    raise_interrupt(&mut m.cpu, Interrupt::IRQ(6));
    for _ in 0..3 {
        m.cycle();
    }
    assert!(m.at_fetch());
    assert_eq!(m.cpu.registers.program_counter, 0xA000);
    assert_eq!(m.cpu.polled_interrupt, None);
}

#[test]
fn raise_interrupt_keeps_the_higher_rank() {
    let mut cpu = new_cpu(0, 0x00, 0x80);
    raise_interrupt(&mut cpu, Interrupt::IRQ(1));
    assert_eq!(cpu.polled_interrupt, Some(Interrupt::IRQ(1)));
    raise_interrupt(&mut cpu, Interrupt::IRQ_BRK(2));
    assert_eq!(cpu.polled_interrupt, Some(Interrupt::IRQ(1)));
    raise_interrupt(&mut cpu, Interrupt::IRQ(3));
    assert_eq!(cpu.polled_interrupt, Some(Interrupt::IRQ(1)));
    raise_interrupt(&mut cpu, Interrupt::NMI(4));
    assert_eq!(cpu.polled_interrupt, Some(Interrupt::NMI(4)));
    raise_interrupt(&mut cpu, Interrupt::IRQ(5));
    assert_eq!(cpu.polled_interrupt, Some(Interrupt::NMI(4)));
    raise_interrupt(&mut cpu, Interrupt::RESET(6));
    assert_eq!(cpu.polled_interrupt, Some(Interrupt::RESET(6)));
    raise_interrupt(&mut cpu, Interrupt::NMI(7));
    assert_eq!(cpu.polled_interrupt, Some(Interrupt::RESET(6)));
}

#[test]
fn interrupt_vectors() {
    assert_eq!(Interrupt::NMI(0).offset(), 0xFFFA);
    assert_eq!(Interrupt::RESET(0).offset(), 0xFFFC);
    assert_eq!(Interrupt::IRQ(0).offset(), 0xFFFE);
    assert_eq!(Interrupt::IRQ_BRK(0).offset(), 0xFFFE);
}

#[test]
fn store_cycles_and_accesses() {
    // LDA #$AB; LDX #$FF; STA $10; STA $1201,X; STA $10,X
    let program = [0xA9, 0xAB, 0xA2, 0xFF, 0x85, 0x10, 0x9D, 0x01, 0x12, 0x95, 0x10];
    let mut m = Machine::new(0x8000, &program);
    m.instruction();
    m.instruction();
    assert_eq!(m.instruction(), 3);
    assert_eq!(m.trace, vec![read(0x8004), read(0x8005), write(0x0010, 0xAB)]);
    assert_eq!(m.instruction(), 5);
    assert_eq!(
        m.trace,
        vec![read(0x8006), read(0x8007), read(0x8008), read(0x1200), write(0x1300, 0xAB)]
    );
    assert_eq!(m.instruction(), 4);
    assert_eq!(m.trace, vec![read(0x8009), read(0x800A), read(0x0010), write(0x000F, 0xAB)]);
}

#[test]
fn rotate_through_carry() {
    // SEC; LDA #$81; ROR A -> $C0 carry; ROL A -> $81 carry
    let mut m = Machine::new(0x8000, &[0x38, 0xA9, 0x81, 0x6A, 0x2A]);
    m.instruction();
    m.instruction();
    assert_eq!(m.instruction(), 2);
    assert_eq!(m.cpu.registers.a, 0xC0);
    assert!(m.flag(Flag::Carry));
    assert!(m.flag(Flag::Negative));
    assert_eq!(m.instruction(), 2);
    assert_eq!(m.cpu.registers.a, 0x81);
    assert!(m.flag(Flag::Carry));
}

#[test]
fn shifts() {
    // LDA #$81; ASL A -> $02 carry; LSR A -> $01 no carry; LSR A -> 0 carry zero
    let mut m = Machine::new(0x8000, &[0xA9, 0x81, 0x0A, 0x4A, 0x4A]);
    m.instruction();
    m.instruction();
    assert_eq!(m.cpu.registers.a, 0x02);
    assert!(m.flag(Flag::Carry));
    m.instruction();
    assert_eq!(m.cpu.registers.a, 0x01);
    assert!(!m.flag(Flag::Carry));
    m.instruction();
    assert_eq!(m.cpu.registers.a, 0x00);
    assert!(m.flag(Flag::Carry));
    assert!(m.flag(Flag::Zero));
}

#[test]
fn compare_sets_carry_zero_negative() {
    // LDA #$40; CMP #$40; CMP #$41; CMP #$3F
    let mut m = Machine::new(0x8000, &[0xA9, 0x40, 0xC9, 0x40, 0xC9, 0x41, 0xC9, 0x3F]);
    m.instruction();
    m.instruction();
    assert!(m.flag(Flag::Carry) && m.flag(Flag::Zero) && !m.flag(Flag::Negative));
    m.instruction();
    assert!(!m.flag(Flag::Carry) && !m.flag(Flag::Zero) && m.flag(Flag::Negative));
    m.instruction();
    assert!(m.flag(Flag::Carry) && !m.flag(Flag::Zero) && !m.flag(Flag::Negative));
}

#[test]
fn bit_copies_bits_six_and_seven() {
    // LDA #$01; BIT $10 with [$10] = $C0
    let mut m = Machine::new(0x8000, &[0xA9, 0x01, 0x24, 0x10]);
    m.memory[0x0010] = 0xC0;
    m.instruction();
    assert_eq!(m.instruction(), 3);
    assert!(m.flag(Flag::Zero) && m.flag(Flag::Negative) && m.flag(Flag::Overflow));
    assert_eq!(m.cpu.registers.a, 0x01);
}

#[test]
fn transfers_and_index_arithmetic() {
    // LDX #$00; DEX; TXA; TAY; INY; TXS; TSX
    let mut m = Machine::new(0x8000, &[0xA2, 0x00, 0xCA, 0x8A, 0xA8, 0xC8, 0x9A, 0xBA]);
    m.instruction();
    assert!(m.flag(Flag::Zero));
    m.instruction();
    assert_eq!(m.cpu.registers.x, 0xFF);
    assert!(m.flag(Flag::Negative));
    m.instruction();
    assert_eq!(m.cpu.registers.a, 0xFF);
    m.instruction();
    assert_eq!(m.cpu.registers.y, 0xFF);
    m.instruction();
    assert_eq!(m.cpu.registers.y, 0x00);
    assert!(m.flag(Flag::Zero));
    m.instruction();
    assert_eq!(m.cpu.registers.stack_pointer, 0xFF);
    assert!(m.flag(Flag::Zero));
    m.instruction();
    assert_eq!(m.cpu.registers.x, 0xFF);
    assert!(m.flag(Flag::Negative));
}

#[test]
fn undocumented_bytes_are_two_cycle_nops() {
    let mut m = Machine::new(0x8000, &[0x02, 0xFF, 0x1A]);
    let before = m.cpu.registers;
    assert_eq!(m.instruction(), 2);
    assert_eq!(m.instruction(), 2);
    assert_eq!(m.instruction(), 2);
    assert_eq!(m.cpu.registers.program_counter, 0x8003);
    assert_eq!(m.cpu.registers.a, before.a);
    assert_eq!(m.cpu.registers.status_register, before.status_register);
}

#[test]
fn rmw_polls_on_the_real_write() {
    let mut m = Machine::new(0x8000, &[0xE6, 0x10]);
    let mut polls = Vec::new();
    for _ in 0..5 {
        polls.push(m.cpu.poll_point());
        m.cycle();
    }
    assert_eq!(polls, vec![None, None, None, None, Some(true)]);
    assert!(m.at_fetch());
}

#[test]
fn invalid_states_are_reported() {
    let mut cpu = new_cpu(0, 0x00, 0x80);
    cpu.registers.status_register.insert(Flag::Break);
    assert!(!cpu.is_valid());
    let mut cpu = new_cpu(0, 0x00, 0x80);
    cpu.state = State::Cpu(CpuState::PullRegisterFromStack {
        operation: nes_cpu::cpu::opcodes::Operation::LDA,
    });
    assert!(!cpu.is_valid());
}

/// The poll points of the instruction at the start of `program`, one entry
/// per cycle.
fn polls(program: &[u8]) -> Vec<Option<bool>> {
    let mut m = Machine::new(0x8000, program);
    let mut polls = Vec::new();
    loop {
        polls.push(m.cpu.poll_point());
        m.cycle();
        if m.at_fetch() {
            return polls;
        }
    }
}

#[test]
fn poll_points() {
    let poll = Some(true);
    assert_eq!(polls(&[0xEA]), vec![None, None]);
    assert_eq!(polls(&[0x48]), vec![None, None, None]);
    assert_eq!(polls(&[0x68]), vec![None, None, None, poll]);
    assert_eq!(polls(&[0x28]), vec![None, None, None, poll]);
    assert_eq!(polls(&[0x40]), vec![None, None, None, None, None, poll]);
    assert_eq!(polls(&[0x60]), vec![None, None, None, None, None, poll]);
    assert_eq!(polls(&[0x20, 0x00, 0x90]), vec![None, None, None, None, None, poll]);
    assert_eq!(polls(&[0x0E, 0x00, 0x90]), vec![None, None, None, None, None, poll]);
    assert_eq!(polls(&[0x00]), vec![None, None, None, None, Some(false), None, None]);
}
