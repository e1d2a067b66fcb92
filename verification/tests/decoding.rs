use emu8080::cpu::condition::ConditionOp;
use emu8080::cpu::decoder::{
    create_addr, decode, decode_opcode, disassemble, get_lxi, opcode_length, DecodeError,
};
use emu8080::cpu::instruction::{Group, Instruction};
use emu8080::cpu::memory::Memory;
use emu8080::cpu::register::{Register, RegisterPair};
use emu8080::cpu::CPU;
use std::collections::VecDeque;

fn memory_with(at: usize, bytes: &[u8]) -> Memory {
    let mut memory = Memory::new();
    for (i, byte) in bytes.iter().enumerate() {
        memory.write_byte(at + i, *byte).unwrap();
    }
    memory
}

const WITHOUT_MNEMONIC: [u8; 12] =
    [0x08, 0x10, 0x18, 0x20, 0x28, 0x30, 0x38, 0xcb, 0xd9, 0xdd, 0xed, 0xfd];

#[test]
fn jmp_operand_is_little_endian() {
    let memory = memory_with(0, &[0xc3, 0x34, 0x12]);
    assert_eq!(decode(&memory, 0), Ok((Instruction::JMP(0x1234), 3)));
    assert_eq!(decode_opcode(0xc3, 0x34, 0x12), Instruction::JMP(0x1234));
    assert_eq!(create_addr(0x34, 0x12), 0x12 * 256 + 0x34);
}

#[test]
fn every_opcode_decodes_with_its_own_size() {
    for op in 0..=255u8 {
        let instruction = decode_opcode(op, 0xab, 0xcd);
        assert_eq!(instruction.get_size(), opcode_length(op), "opcode {:#04x}", op);
        assert!(instruction.is_well_formed(), "opcode {:#04x}", op);
        let memory = memory_with(0x100, &[op, 0xab, 0xcd]);
        assert_eq!(decode(&memory, 0x100), Ok((instruction, opcode_length(op))));
    }
}

#[test]
fn documented_sizes() {
    let three = [
        0x01, 0x11, 0x21, 0x31, 0x22, 0x2a, 0x32, 0x3a, 0xc3, 0xcd, 0xc2, 0xca, 0xd2, 0xda, 0xe2,
        0xea, 0xf2, 0xfa, 0xc4, 0xcc, 0xd4, 0xdc, 0xe4, 0xec, 0xf4, 0xfc,
    ];
    let two = [
        0x06, 0x0e, 0x16, 0x1e, 0x26, 0x2e, 0x36, 0x3e, 0xc6, 0xce, 0xd6, 0xde, 0xe6, 0xee, 0xf6,
        0xfe, 0xd3, 0xdb,
    ];
    for op in 0..=255u8 {
        let expected = if three.contains(&op) {
            3
        } else if two.contains(&op) {
            2
        } else {
            1
        };
        assert_eq!(opcode_length(op), expected, "opcode {:#04x}", op);
    }
}

#[test]
fn opcodes_without_mnemonic_are_no_operations() {
    for op in WITHOUT_MNEMONIC {
        assert_eq!(decode_opcode(op, 0x11, 0x22), Instruction::NOP);
        assert_eq!(opcode_length(op), 1);
    }
    assert_eq!(decode_opcode(0x00, 0, 0), Instruction::NOP);
}

#[test]
fn distinct_opcodes_with_mnemonic_decode_differently() {
    let mut seen: Vec<Instruction> = Vec::new();
    for op in 0..=255u8 {
        if WITHOUT_MNEMONIC.contains(&op) {
            continue;
        }
        let instruction = decode_opcode(op, 0x55, 0x66);
        assert!(!seen.contains(&instruction), "opcode {:#04x} repeats {:?}", op, instruction);
        seen.push(instruction);
    }
    assert_eq!(seen.len(), 244);
}

#[test]
fn sample_of_the_opcode_table() {
    assert_eq!(decode_opcode(0x01, 0x34, 0x12), Instruction::LXI(RegisterPair::BC, (0x12, 0x34)));
    assert_eq!(get_lxi(RegisterPair::SP, 0x34, 0x12), Instruction::LXI(RegisterPair::SP, (0x12, 0x34)));
    assert_eq!(decode_opcode(0x31, 0x00, 0x24), Instruction::LXI(RegisterPair::SP, (0x24, 0x00)));
    assert_eq!(decode_opcode(0x02, 0, 0), Instruction::STAX(RegisterPair::BC));
    assert_eq!(decode_opcode(0x1a, 0, 0), Instruction::LDAX(RegisterPair::DE));
    assert_eq!(decode_opcode(0x36, 0x7f, 0), Instruction::MVI(Register::M, 0x7f));
    assert_eq!(decode_opcode(0x3e, 0x01, 0), Instruction::MVI(Register::A, 0x01));
    assert_eq!(decode_opcode(0x41, 0, 0), Instruction::MOV(Register::B, Register::C));
    assert_eq!(decode_opcode(0x77, 0, 0), Instruction::MOV(Register::M, Register::A));
    assert_eq!(decode_opcode(0x7e, 0, 0), Instruction::MOV(Register::A, Register::M));
    assert_eq!(decode_opcode(0x76, 0, 0), Instruction::HLT);
    assert_eq!(decode_opcode(0x80, 0, 0), Instruction::ADD(Register::B));
    assert_eq!(decode_opcode(0x8f, 0, 0), Instruction::ADC(Register::A));
    assert_eq!(decode_opcode(0x96, 0, 0), Instruction::SUB(Register::M));
    assert_eq!(decode_opcode(0xbe, 0, 0), Instruction::CMP(Register::M));
    assert_eq!(decode_opcode(0xc0, 0, 0), Instruction::RETCOND(ConditionOp::NZ));
    assert_eq!(decode_opcode(0xf8, 0, 0), Instruction::RETCOND(ConditionOp::M));
    assert_eq!(decode_opcode(0xca, 0x00, 0x10), Instruction::JCOND(ConditionOp::Z, 0x1000));
    assert_eq!(decode_opcode(0xdc, 0xff, 0xff), Instruction::CCOND(ConditionOp::C, 0xffff));
    assert_eq!(decode_opcode(0xcd, 0x00, 0x10), Instruction::CALL(0x1000));
    assert_eq!(decode_opcode(0xc9, 0, 0), Instruction::RET);
    assert_eq!(decode_opcode(0xc5, 0, 0), Instruction::PUSH(RegisterPair::BC));
    assert_eq!(decode_opcode(0xf5, 0, 0), Instruction::PUSH_PSW);
    assert_eq!(decode_opcode(0xe1, 0, 0), Instruction::POP(RegisterPair::HL));
    assert_eq!(decode_opcode(0xf1, 0, 0), Instruction::POP_PSW);
    assert_eq!(decode_opcode(0xd3, 0x10, 0), Instruction::OUT(0x10));
    assert_eq!(decode_opcode(0xdb, 0x20, 0), Instruction::IN(0x20));
    assert_eq!(decode_opcode(0xfe, 0x99, 0), Instruction::CPI(0x99));
    assert_eq!(decode_opcode(0xc7, 0, 0), Instruction::RST(0));
    assert_eq!(decode_opcode(0xff, 0, 0), Instruction::RST(7));
    assert_eq!(decode_opcode(0xe9, 0, 0), Instruction::PCHL);
    assert_eq!(decode_opcode(0xf9, 0, 0), Instruction::SPHL);
    assert_eq!(decode_opcode(0xeb, 0, 0), Instruction::XCHG);
    assert_eq!(decode_opcode(0xe3, 0, 0), Instruction::XTHL);
    assert_eq!(decode_opcode(0x27, 0, 0), Instruction::DAA);
    assert_eq!(decode_opcode(0x07, 0, 0), Instruction::RLC);
    assert_eq!(decode_opcode(0x1f, 0, 0), Instruction::RAR);
    assert_eq!(decode_opcode(0xf3, 0, 0), Instruction::DI);
    assert_eq!(decode_opcode(0xfb, 0, 0), Instruction::EI);
}

#[test]
fn short_instructions_ignore_the_bytes_they_do_not_have() {
    for op in 0..=255u8 {
        let size = opcode_length(op);
        if size == 1 {
            assert_eq!(decode_opcode(op, 0, 0), decode_opcode(op, 0xff, 0xee));
        }
        if size == 2 {
            assert_eq!(decode_opcode(op, 0x42, 0), decode_opcode(op, 0x42, 0xee));
            assert_ne!(decode_opcode(op, 0x42, 0), decode_opcode(op, 0x43, 0));
        }
        if size == 3 {
            assert_ne!(decode_opcode(op, 0x42, 0x10), decode_opcode(op, 0x42, 0x11));
        }
    }
}

#[test]
fn decoding_fails_where_operands_lie_past_the_end() {
    let memory = memory_with(0xfffe, &[0xc3, 0x34]);
    assert_eq!(decode(&memory, 0xfffe), Err(DecodeError { address: 0xfffe }));
    let memory = memory_with(0xffff, &[0x3e]);
    assert_eq!(decode(&memory, 0xffff), Err(DecodeError { address: 0xffff }));
    let memory = memory_with(0xfffd, &[0xc3, 0x34, 0x12]);
    assert_eq!(decode(&memory, 0xfffd), Ok((Instruction::JMP(0x1234), 3)));
    let memory = memory_with(0xfffe, &[0x3e, 0x07]);
    assert_eq!(decode(&memory, 0xfffe), Ok((Instruction::MVI(Register::A, 0x07), 2)));
    let memory = memory_with(0xffff, &[0x76]);
    assert_eq!(decode(&memory, 0xffff), Ok((Instruction::HLT, 1)));
}

#[test]
fn decoding_twice_gives_the_same_and_changes_nothing() {
    let rom = vec![0x21, 0x00, 0x20, 0x36, 0x05, 0xc3, 0x00, 0x00];
    let mut cpu = CPU::new(VecDeque::from(rom.clone())).unwrap();
    let before: Vec<u8> = (0..16u16).map(|a| cpu.read_memory(a)).collect();
    let first = cpu.get_next_instruction();
    let second = cpu.get_next_instruction();
    assert_eq!(first, second);
    assert_eq!(first, Ok(Instruction::LXI(RegisterPair::HL, (0x20, 0x00))));
    let after: Vec<u8> = (0..16u16).map(|a| cpu.read_memory(a)).collect();
    assert_eq!(before, after);
    assert_eq!(cpu.pc(), 0);
    assert_eq!(cpu.sp(), 0);
    assert_eq!(cpu.get_pair(RegisterPair::HL), 0);
    assert!(!cpu.is_halted());
    assert_eq!(decode(cpu.memory(), 3), decode(cpu.memory(), 3));
}

#[test]
fn get_next_instruction_reports_the_failing_address() {
    let mut cpu = CPU::new(VecDeque::new()).unwrap();
    cpu.write_memory(0xffff, 0xcd);
    cpu.set_pc(0xffff);
    assert_eq!(cpu.get_next_instruction(), Err(DecodeError { address: 0xffff }));
    assert_eq!(cpu.pc(), 0xffff);
}

#[test]
fn listing_of_a_small_program() {
    let memory = memory_with(0, &[0x3e, 0x01, 0xc3, 0x00, 0x10, 0x76]);
    let listing = disassemble(&memory, 0, 6);
    assert_eq!(
        listing.entries,
        vec![
            (0, Instruction::MVI(Register::A, 0x01), 2),
            (2, Instruction::JMP(0x1000), 3),
            (5, Instruction::HLT, 1),
        ]
    );
    assert_eq!(listing.error, None);
}

#[test]
fn listing_starts_where_asked_and_stops_before_the_end() {
    let memory = memory_with(0, &[0x3e, 0x01, 0xc3, 0x00, 0x10, 0x76]);
    let listing = disassemble(&memory, 2, 3);
    assert_eq!(listing.entries, vec![(2, Instruction::JMP(0x1000), 3)]);
    assert_eq!(listing.error, None);
    let listing = disassemble(&memory, 2, 2);
    assert!(listing.entries.is_empty());
    assert_eq!(listing.error, None);
    let listing = disassemble(&memory, 1, 4);
    assert_eq!(
        listing.entries,
        vec![(1, Instruction::LXI(RegisterPair::BC, (0x00, 0xc3)), 3)]
    );
}

#[test]
fn listing_ends_on_an_error_with_its_address() {
    let memory = memory_with(0xfffc, &[0x00, 0x00, 0x00, 0xc3]);
    let listing = disassemble(&memory, 0xfffc, 0x20000);
    assert_eq!(
        listing.entries,
        vec![
            (0xfffc, Instruction::NOP, 1),
            (0xfffd, Instruction::NOP, 1),
            (0xfffe, Instruction::NOP, 1),
        ]
    );
    assert_eq!(listing.error, Some(DecodeError { address: 0xffff }));
}

#[test]
fn listing_of_the_whole_memory() {
    let memory = Memory::new();
    let listing = disassemble(&memory, 0, 65536);
    assert_eq!(listing.entries.len(), 65536);
    assert_eq!(listing.entries[65535], (0xffff, Instruction::NOP, 1));
    assert_eq!(listing.error, None);
}

#[test]
fn groups_and_well_formedness() {
    assert_eq!(Instruction::MOV(Register::A, Register::B).get_group(), Group::DataTransfer);
    assert_eq!(Instruction::DAA.get_group(), Group::Arithmetic);
    assert_eq!(Instruction::CMP(Register::B).get_group(), Group::Logical);
    assert_eq!(Instruction::RST(3).get_group(), Group::Branch);
    assert_eq!(Instruction::HLT.get_group(), Group::StackIoControl);
    assert!(!Instruction::MOV(Register::M, Register::M).is_well_formed());
    assert!(!Instruction::PUSH(RegisterPair::SP).is_well_formed());
    assert!(!Instruction::POP(RegisterPair::SP).is_well_formed());
    assert!(!Instruction::STAX(RegisterPair::HL).is_well_formed());
    assert!(!Instruction::LDAX(RegisterPair::SP).is_well_formed());
    assert!(!Instruction::RST(8).is_well_formed());
    assert!(Instruction::RST(7).is_well_formed());
    assert!(Instruction::STAX(RegisterPair::DE).is_well_formed());
    assert_eq!(Instruction::CALL(0).get_size(), 3);
    assert_eq!(Instruction::IN(1).get_size(), 2);
    assert_eq!(Instruction::RET.get_size(), 1);
}
