//! Every documented opcode, run once, against the cycle counts and lengths
//! of the data sheet.

use nes_cpu::cpu::opcodes::{AddressingMode, InstructionType, Opcode, Operation};
use nes_cpu::cpu::state::{BusAccess, CpuState, State};
use nes_cpu::{clock, new_cpu, Cpu};

/// (opcode, bytes, cycles without penalty, one more cycle on a page crossing)
const TABLE: [(u8, u16, usize, bool); 151] = [
    (0x69, 2, 2, false), (0x65, 2, 3, false), (0x75, 2, 4, false), (0x6D, 3, 4, false),
    (0x7D, 3, 4, true), (0x79, 3, 4, true), (0x61, 2, 6, false), (0x71, 2, 5, true),
    (0x29, 2, 2, false), (0x25, 2, 3, false), (0x35, 2, 4, false), (0x2D, 3, 4, false),
    (0x3D, 3, 4, true), (0x39, 3, 4, true), (0x21, 2, 6, false), (0x31, 2, 5, true),
    (0x0A, 1, 2, false), (0x06, 2, 5, false), (0x16, 2, 6, false), (0x0E, 3, 6, false),
    (0x1E, 3, 7, false),
    (0x90, 2, 3, false), (0xB0, 2, 2, false), (0xF0, 2, 2, false), (0x30, 2, 2, false),
    (0xD0, 2, 3, false), (0x10, 2, 3, false), (0x50, 2, 3, false), (0x70, 2, 2, false),
    (0x24, 2, 3, false), (0x2C, 3, 4, false),
    (0x00, 1, 7, false),
    (0x18, 1, 2, false), (0xD8, 1, 2, false), (0x58, 1, 2, false), (0xB8, 1, 2, false),
    (0xC9, 2, 2, false), (0xC5, 2, 3, false), (0xD5, 2, 4, false), (0xCD, 3, 4, false),
    (0xDD, 3, 4, true), (0xD9, 3, 4, true), (0xC1, 2, 6, false), (0xD1, 2, 5, true),
    (0xE0, 2, 2, false), (0xE4, 2, 3, false), (0xEC, 3, 4, false),
    (0xC0, 2, 2, false), (0xC4, 2, 3, false), (0xCC, 3, 4, false),
    (0xC6, 2, 5, false), (0xD6, 2, 6, false), (0xCE, 3, 6, false), (0xDE, 3, 7, false),
    (0xCA, 1, 2, false), (0x88, 1, 2, false),
    (0x49, 2, 2, false), (0x45, 2, 3, false), (0x55, 2, 4, false), (0x4D, 3, 4, false),
    (0x5D, 3, 4, true), (0x59, 3, 4, true), (0x41, 2, 6, false), (0x51, 2, 5, true),
    (0xE6, 2, 5, false), (0xF6, 2, 6, false), (0xEE, 3, 6, false), (0xFE, 3, 7, false),
    (0xE8, 1, 2, false), (0xC8, 1, 2, false),
    (0x4C, 3, 3, false), (0x6C, 3, 5, false), (0x20, 3, 6, false),
    (0xA9, 2, 2, false), (0xA5, 2, 3, false), (0xB5, 2, 4, false), (0xAD, 3, 4, false),
    (0xBD, 3, 4, true), (0xB9, 3, 4, true), (0xA1, 2, 6, false), (0xB1, 2, 5, true),
    (0xA2, 2, 2, false), (0xA6, 2, 3, false), (0xB6, 2, 4, false), (0xAE, 3, 4, false),
    (0xBE, 3, 4, true),
    (0xA0, 2, 2, false), (0xA4, 2, 3, false), (0xB4, 2, 4, false), (0xAC, 3, 4, false),
    (0xBC, 3, 4, true),
    (0x4A, 1, 2, false), (0x46, 2, 5, false), (0x56, 2, 6, false), (0x4E, 3, 6, false),
    (0x5E, 3, 7, false),
    (0xEA, 1, 2, false),
    (0x09, 2, 2, false), (0x05, 2, 3, false), (0x15, 2, 4, false), (0x0D, 3, 4, false),
    (0x1D, 3, 4, true), (0x19, 3, 4, true), (0x01, 2, 6, false), (0x11, 2, 5, true),
    (0x48, 1, 3, false), (0x08, 1, 3, false), (0x68, 1, 4, false), (0x28, 1, 4, false),
    (0x2A, 1, 2, false), (0x26, 2, 5, false), (0x36, 2, 6, false), (0x2E, 3, 6, false),
    (0x3E, 3, 7, false),
    (0x6A, 1, 2, false), (0x66, 2, 5, false), (0x76, 2, 6, false), (0x6E, 3, 6, false),
    (0x7E, 3, 7, false),
    (0x40, 1, 6, false), (0x60, 1, 6, false),
    (0xE9, 2, 2, false), (0xE5, 2, 3, false), (0xF5, 2, 4, false), (0xED, 3, 4, false),
    (0xFD, 3, 4, true), (0xF9, 3, 4, true), (0xE1, 2, 6, false), (0xF1, 2, 5, true),
    (0x38, 1, 2, false), (0xF8, 1, 2, false), (0x78, 1, 2, false),
    (0x85, 2, 3, false), (0x95, 2, 4, false), (0x8D, 3, 4, false), (0x9D, 3, 5, false),
    (0x99, 3, 5, false), (0x81, 2, 6, false), (0x91, 2, 6, false),
    (0x86, 2, 3, false), (0x96, 2, 4, false), (0x8E, 3, 4, false),
    (0x84, 2, 3, false), (0x94, 2, 4, false), (0x8C, 3, 4, false),
    (0xAA, 1, 2, false), (0xA8, 1, 2, false), (0xBA, 1, 2, false), (0x8A, 1, 2, false),
    (0x9A, 1, 2, false), (0x98, 1, 2, false),
];

/// Runs the instruction at `0x8000` on a memory that holds `fill` wherever
/// the program does not lie, and returns the processor and the accesses.
fn run(opcode: u8, index: u8, fill: u8) -> (Cpu, Vec<BusAccess>) {
    let mut memory = vec![fill; 0x1_0000];
    memory[0x8000] = opcode;
    memory[0x8001] = 0x10;
    memory[0x8002] = 0x20;
    let mut cpu = new_cpu(0, 0x00, 0x80);
    cpu.registers.x = index;
    cpu.registers.y = index;
    let mut trace = Vec::new();
    loop {
        assert!(cpu.is_valid());
        let access = cpu.bus_access();
        let data = match access {
            BusAccess::Read { address } => memory[address as usize],
            BusAccess::Write { address, value } => {
                memory[address as usize] = value;
                value
            }
        };
        trace.push(access);
        clock(&mut cpu, data);
        if cpu.state == State::Cpu(CpuState::FetchOpcode) {
            return (cpu, trace);
        }
        assert!(trace.len() < 10);
    }
}

#[test]
fn table_lists_each_opcode_once() {
    let mut seen = vec![false; 256];
    for (opcode, _, _, _) in TABLE.iter() {
        assert!(!seen[*opcode as usize]);
        seen[*opcode as usize] = true;
    }
    assert_eq!(seen.iter().filter(|s| **s).count(), 151);
}

#[test]
fn documented_opcodes_take_their_cycles() {
    for (opcode, _, cycles, _) in TABLE.iter() {
        let (cpu, trace) = run(*opcode, 0, 0x10);
        assert_eq!(trace.len(), *cycles, "opcode {:02X}", opcode);
        assert_eq!(cpu.cycles as usize, *cycles, "opcode {:02X}", opcode);
    }
}

#[test]
fn page_crossings_cost_one_cycle_for_reads_only() {
    for (opcode, _, cycles, penalty) in TABLE.iter() {
        let decoded = Opcode::decode(*opcode);
        if decoded.address_mode == AddressingMode::Relative {
            continue;
        }
        let (_, trace) = run(*opcode, 0xFF, 0x10);
        let expected = if *penalty { *cycles + 1 } else { *cycles };
        assert_eq!(trace.len(), expected, "opcode {:02X}", opcode);
    }
}

#[test]
fn documented_opcodes_have_their_length() {
    for (opcode, bytes, _, _) in TABLE.iter() {
        let decoded = Opcode::decode(*opcode);
        let category = decoded.operation.instruction_type();
        let moves_pc = category == InstructionType::Jump
            || category == InstructionType::Branch
            || decoded.operation == Operation::BRK
            || decoded.operation == Operation::RTI
            || decoded.operation == Operation::RTS;
        if moves_pc {
            continue;
        }
        let (cpu, _) = run(*opcode, 0, 0x10);
        assert_eq!(cpu.registers.program_counter, 0x8000 + *bytes, "opcode {:02X}", opcode);
    }
}

#[test]
fn every_byte_decodes_to_a_valid_opcode() {
    let mut documented = 0;
    for byte in 0..=255u8 {
        let opcode = Opcode::decode(byte);
        assert!(opcode.is_valid(), "opcode {:02X}", byte);
        if TABLE.iter().any(|entry| entry.0 == byte) {
            documented += 1;
        } else {
            assert_eq!(opcode.operation, Operation::NOP);
            assert_eq!(opcode.address_mode, AddressingMode::Implied);
        }
    }
    assert_eq!(documented, 151);
}

#[test]
fn every_cycle_makes_one_access_and_counts_once() {
    for byte in 0..=255u8 {
        let (cpu, trace) = run(byte, 0x80, 0x90);
        assert_eq!(cpu.cycles as usize, trace.len());
        assert_eq!(cpu.registers.status_register.bits() & 0x30, 0);
    }
}

#[test]
fn decode_samples() {
    let lda = Opcode::decode(0xA9);
    assert_eq!(lda.operation, Operation::LDA);
    assert_eq!(lda.address_mode, AddressingMode::Immediate);
    let sta = Opcode::decode(0x91);
    assert_eq!(sta.operation, Operation::STA);
    assert_eq!(sta.address_mode, AddressingMode::IndirectYIndexed);
    let jmp = Opcode::decode(0x6C);
    assert_eq!(jmp.operation, Operation::JMP);
    assert_eq!(jmp.address_mode, AddressingMode::Indirect);
    assert_eq!(Operation::STA.instruction_type(), InstructionType::Write);
    assert_eq!(Operation::INC.instruction_type(), InstructionType::ReadModifyWrite);
    assert_eq!(Operation::BRK.instruction_type(), InstructionType::Stack);
    assert_eq!(Operation::TAX.instruction_type(), InstructionType::Implied);
}
