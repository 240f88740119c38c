//! The small functions on bytes, addresses and flags.

use nes_cpu::cpu::address::{
    add_bytes, branch_target, high_byte, in_same_page, indexed, indexed_in_page, low_byte,
    make_address, stack_address, zero_page_indexed,
};
use nes_cpu::cpu::execute::shifted;
use nes_cpu::cpu::opcodes::Operation;
use nes_cpu::cpu::registers::Registers;
use nes_cpu::cpu::status_flags::{Flag, StatusFlags};
use nes_cpu::Interrupt;

#[test]
fn addresses_from_bytes() {
    assert_eq!(make_address(0x34, 0x12), 0x1234);
    assert_eq!(low_byte(0x1234), 0x34);
    assert_eq!(high_byte(0x1234), 0x12);
    assert_eq!(stack_address(0xFD), 0x01FD);
    assert_eq!(stack_address(0x00), 0x0100);
}

#[test]
fn indexing() {
    assert_eq!(add_bytes(0xFF, 0x02), 0x01);
    assert_eq!(zero_page_indexed(0xFF, 0x01), 0x0000);
    assert_eq!(zero_page_indexed(0x10, 0x05), 0x0015);
    assert_eq!(indexed(0x01, 0x12, 0xFF), 0x1300);
    assert_eq!(indexed_in_page(0x01, 0x12, 0xFF), 0x1200);
    assert_eq!(indexed(0xFF, 0xFF, 0x02), 0x0001);
    assert_eq!(indexed_in_page(0xFF, 0xFF, 0x02), 0xFF01);
    assert_eq!(indexed(0x10, 0x20, 0x05), indexed_in_page(0x10, 0x20, 0x05));
}

#[test]
fn branch_targets() {
    assert_eq!(branch_target(0x8002, 0x05), 0x8007);
    assert_eq!(branch_target(0x8002, 0xFD), 0x7FFF);
    assert_eq!(branch_target(0x8002, 0x80), 0x7F82);
    assert_eq!(branch_target(0xFFFE, 0x7F), 0x007D);
    assert_eq!(branch_target(0x0001, 0xFE), 0xFFFF);
    assert!(in_same_page(0x80FF, 0x8000));
    assert!(!in_same_page(0x80FF, 0x8100));
}

#[test]
fn flag_positions() {
    assert_eq!(Flag::Carry.mask(), 0x01);
    assert_eq!(Flag::Zero.mask(), 0x02);
    assert_eq!(Flag::InterruptDisable.mask(), 0x04);
    assert_eq!(Flag::Decimal.mask(), 0x08);
    assert_eq!(Flag::Break.mask(), 0x10);
    assert_eq!(Flag::Unused.mask(), 0x20);
    assert_eq!(Flag::Overflow.mask(), 0x40);
    assert_eq!(Flag::Negative.mask(), 0x80);
}

#[test]
fn flag_operations() {
    let mut p = StatusFlags::empty();
    assert_eq!(p.bits(), 0);
    p.insert(Flag::Carry);
    p.insert(Flag::Negative);
    assert_eq!(p.bits(), 0x81);
    assert!(p.contains(Flag::Carry));
    assert!(!p.contains(Flag::Zero));
    p.set(Flag::Zero, true);
    p.set(Flag::Carry, false);
    assert_eq!(p.bits(), 0x82);
    p.remove(Flag::Negative);
    assert_eq!(p.bits(), 0x02);
    assert_eq!(StatusFlags::from_bits_truncate(0xFF).bits(), 0xFF);
}

#[test]
fn pushed_and_pulled_status() {
    let p = StatusFlags::from_bits_truncate(0x04);
    assert_eq!(p.pushed(true), 0x34);
    assert_eq!(p.pushed(false), 0x24);
    let q = StatusFlags::from_bits_truncate(0xC3);
    assert_eq!(q.pushed(true), 0xF3);
    assert_eq!(q.pushed(false), 0xE3);
    assert_eq!(StatusFlags::pulled(0xFF).bits(), 0xCF);
    assert_eq!(StatusFlags::pulled(0x34).bits(), 0x04);
}

#[test]
fn shifts_and_rotates() {
    assert_eq!(shifted(Operation::ASL, 0x81, false), (0x02, true));
    assert_eq!(shifted(Operation::LSR, 0x81, false), (0x40, true));
    assert_eq!(shifted(Operation::ROL, 0x81, true), (0x03, true));
    assert_eq!(shifted(Operation::ROL, 0x40, false), (0x80, false));
    assert_eq!(shifted(Operation::ROR, 0x81, true), (0xC0, true));
    assert_eq!(shifted(Operation::ROR, 0x02, false), (0x01, false));
    assert_eq!(shifted(Operation::INC, 0xFF, true), (0x00, true));
    assert_eq!(shifted(Operation::DEC, 0x00, false), (0xFF, false));
}

#[test]
fn rotations_cancel_for_every_byte() {
    for value in 0..=255u8 {
        for carry in [false, true] {
            let (right, carry_out) = shifted(Operation::ROR, value, carry);
            assert_eq!(shifted(Operation::ROL, right, carry_out), (value, carry));
            let (left, carry_out) = shifted(Operation::ROL, value, carry);
            assert_eq!(shifted(Operation::ROR, left, carry_out), (value, carry));
        }
    }
}

#[test]
fn registers_at_power_on() {
    let r = Registers::new(0xC000);
    assert_eq!(r.program_counter, 0xC000);
    assert_eq!(r.stack_pointer, 0xFD);
    assert_eq!(r.status_register.bits(), 0x04);
    assert_eq!((r.a, r.x, r.y), (0, 0, 0));
}

#[test]
fn hijacking_and_rank() {
    let nmi = Interrupt::NMI(1);
    let irq = Interrupt::IRQ(2);
    let brk = Interrupt::IRQ_BRK(3);
    let reset = Interrupt::RESET(4);
    assert_eq!(brk.hijack(Some(nmi)), nmi);
    assert_eq!(brk.hijack(Some(irq)), irq);
    assert_eq!(irq.hijack(Some(nmi)), nmi);
    assert_eq!(irq.hijack(None), irq);
    assert_eq!(nmi.hijack(Some(irq)), nmi);
    assert_eq!(reset.hijack(Some(nmi)), reset);
    assert!(nmi.outranks(&irq));
    assert!(irq.outranks(&brk));
    assert!(reset.outranks(&nmi));
    assert!(!irq.outranks(&irq));
    assert!(!brk.outranks(&irq));
    assert!(brk.is_brk());
    assert!(!irq.is_brk());
}
