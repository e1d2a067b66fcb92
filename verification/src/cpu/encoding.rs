//! The encoding of instructions, as the inverse of decoding: the opcode and the operand
//! bytes of each instruction, and the proofs that decoding and encoding undo each other.

use super::condition::{code_of_condition, condition_of_code, lemma_condition_code_round_trip};
use super::decoder::{group_field, has_mnemonic, instruction_of, y_field, z_field};
use super::instruction::{Group, Instruction};
use super::memory::{high_byte, lemma_word_bytes, low_byte};
use super::register::{
    code_of_pair, code_of_register, lemma_pair_code_round_trip, lemma_register_code_round_trip,
    pair_of_code, register_of_code,
};
use vstd::prelude::*;

verus! {

/// The opcode that encodes `instruction`. It is an opcode, with a mnemonic, where the
/// instruction is well formed.
pub open spec fn opcode_of(instruction: Instruction) -> int {
    match instruction {
        Instruction::NOP => 0x00,
        Instruction::LXI(pair, _) => 0x01 + 16 * code_of_pair(pair),
        Instruction::STAX(pair) => 0x02 + 16 * code_of_pair(pair),
        Instruction::INX(pair) => 0x03 + 16 * code_of_pair(pair),
        Instruction::INR(reg) => 0x04 + 8 * code_of_register(reg),
        Instruction::DCR(reg) => 0x05 + 8 * code_of_register(reg),
        Instruction::MVI(reg, _) => 0x06 + 8 * code_of_register(reg),
        Instruction::RLC => 0x07,
        Instruction::DAD(pair) => 0x09 + 16 * code_of_pair(pair),
        Instruction::LDAX(pair) => 0x0a + 16 * code_of_pair(pair),
        Instruction::DCX(pair) => 0x0b + 16 * code_of_pair(pair),
        Instruction::RRC => 0x0f,
        Instruction::RAL => 0x17,
        Instruction::RAR => 0x1f,
        Instruction::SHLD(_) => 0x22,
        Instruction::DAA => 0x27,
        Instruction::LHLD(_) => 0x2a,
        Instruction::CMA => 0x2f,
        Instruction::STA(_) => 0x32,
        Instruction::STC => 0x37,
        Instruction::LDA(_) => 0x3a,
        Instruction::CMC => 0x3f,
        Instruction::MOV(dst, src) => 0x40 + 8 * code_of_register(dst) + code_of_register(src),
        Instruction::HLT => 0x76,
        Instruction::ADD(reg) => 0x80 + code_of_register(reg),
        Instruction::ADC(reg) => 0x88 + code_of_register(reg),
        Instruction::SUB(reg) => 0x90 + code_of_register(reg),
        Instruction::SBB(reg) => 0x98 + code_of_register(reg),
        Instruction::ANA(reg) => 0xa0 + code_of_register(reg),
        Instruction::XRA(reg) => 0xa8 + code_of_register(reg),
        Instruction::ORA(reg) => 0xb0 + code_of_register(reg),
        Instruction::CMP(reg) => 0xb8 + code_of_register(reg),
        Instruction::RETCOND(condition) => 0xc0 + 8 * code_of_condition(condition),
        Instruction::POP(pair) => 0xc1 + 16 * code_of_pair(pair),
        Instruction::JCOND(condition, _) => 0xc2 + 8 * code_of_condition(condition),
        Instruction::JMP(_) => 0xc3,
        Instruction::CCOND(condition, _) => 0xc4 + 8 * code_of_condition(condition),
        Instruction::PUSH(pair) => 0xc5 + 16 * code_of_pair(pair),
        Instruction::ADI(_) => 0xc6,
        Instruction::RST(vector) => 0xc7 + 8 * vector,
        Instruction::RET => 0xc9,
        Instruction::CALL(_) => 0xcd,
        Instruction::ACI(_) => 0xce,
        Instruction::OUT(_) => 0xd3,
        Instruction::SUI(_) => 0xd6,
        Instruction::IN(_) => 0xdb,
        Instruction::SBI(_) => 0xde,
        Instruction::XTHL => 0xe3,
        Instruction::ANI(_) => 0xe6,
        Instruction::PCHL => 0xe9,
        Instruction::XCHG => 0xeb,
        Instruction::XRI(_) => 0xee,
        Instruction::POP_PSW => 0xf1,
        Instruction::DI => 0xf3,
        Instruction::PUSH_PSW => 0xf5,
        Instruction::ORI(_) => 0xf6,
        Instruction::SPHL => 0xf9,
        Instruction::EI => 0xfb,
        Instruction::CPI(_) => 0xfe,
    }
}

/// The two bytes that follow the opcode of `instruction`: its 8-bit operand and 0, the
/// low and the high byte of its 16-bit operand, or two zeros where it has no operand.
pub open spec fn operands_of(instruction: Instruction) -> (u8, u8) {
    match instruction {
        Instruction::LXI(_, (hi, lo)) => (lo, hi),
        Instruction::SHLD(address)
        | Instruction::LHLD(address)
        | Instruction::STA(address)
        | Instruction::LDA(address)
        | Instruction::JMP(address)
        | Instruction::JCOND(_, address)
        | Instruction::CALL(address)
        | Instruction::CCOND(_, address) => (low_byte(address), high_byte(address)),
        Instruction::MVI(_, value)
        | Instruction::ADI(value)
        | Instruction::ACI(value)
        | Instruction::SUI(value)
        | Instruction::SBI(value)
        | Instruction::ANI(value)
        | Instruction::XRI(value)
        | Instruction::ORI(value)
        | Instruction::CPI(value)
        | Instruction::OUT(value)
        | Instruction::IN(value) => (value, 0),
        _ => (0, 0),
    }
}

/// Encoding what a code below 8 (below 4 for a pair) decodes to gives the code back.
proof fn lemma_codes_of_decoded_fields(code: u8)
    requires
        code < 8,
    ensures
        code_of_register(register_of_code(code)) == code,
        code_of_condition(condition_of_code(code as i8)) == code,
        code < 4 ==> code_of_pair(pair_of_code(code)) == code,
{
}

/// An opcode is put together from its three fields.
proof fn lemma_opcode_of_fields(op: u8)
    ensures
        op == 64 * group_field(op) + 8 * y_field(op) + z_field(op),
        group_field(op) < 4,
        y_field(op) < 8,
        z_field(op) < 8,
        y_field(op) == 2 * (y_field(op) / 2) + y_field(op) % 2,
{
}

/// An opcode with a mnemonic is the opcode of the instruction that it decodes to: so no
/// two such opcodes decode to the same instruction.
#[verifier::rlimit(60)]
pub proof fn lemma_decoding_keeps_the_opcode(op: u8, lo: u8, hi: u8)
    requires
        has_mnemonic(op),
    ensures
        opcode_of(instruction_of(op, lo, hi)) == op,
{
    lemma_opcode_of_fields(op);
    lemma_codes_of_decoded_fields(y_field(op));
    lemma_codes_of_decoded_fields(z_field(op));
    lemma_codes_of_decoded_fields(y_field(op) / 2);
}

/// An opcode put together from its three fields has those fields.
proof fn lemma_fields_of_opcode(group: u8, y: u8, z: u8)
    requires
        group < 4,
        y < 8,
        z < 8,
    ensures
        0 <= 64 * group + 8 * y + z < 256,
        group_field((64 * group + 8 * y + z) as u8) == group,
        y_field((64 * group + 8 * y + z) as u8) == y,
        z_field((64 * group + 8 * y + z) as u8) == z,
{
}

/// The instructions of the data transfer group decode back from their encoding.
#[verifier::rlimit(60)]
proof fn lemma_data_transfer_decodes_back(instruction: Instruction)
    requires
        instruction.well_formed(),
        instruction.group() == Group::DataTransfer,
    ensures
        0 <= opcode_of(instruction) < 256,
        has_mnemonic(opcode_of(instruction) as u8),
        instruction_of(
            opcode_of(instruction) as u8,
            operands_of(instruction).0,
            operands_of(instruction).1,
        ) == instruction,
{
    match instruction {
        Instruction::LXI(pair, _) => {
            lemma_pair_code_round_trip(pair);
            lemma_fields_of_opcode(0, (2 * code_of_pair(pair)) as u8, 1);
        },
        Instruction::STAX(pair) => {
            lemma_pair_code_round_trip(pair);
            lemma_fields_of_opcode(0, (2 * code_of_pair(pair)) as u8, 2);
        },
        Instruction::LDAX(pair) => {
            lemma_pair_code_round_trip(pair);
            lemma_fields_of_opcode(0, (2 * code_of_pair(pair) + 1) as u8, 2);
        },
        Instruction::MVI(reg, _) => {
            lemma_register_code_round_trip(reg);
            lemma_fields_of_opcode(0, code_of_register(reg), 6);
        },
        Instruction::MOV(dst, src) => {
            lemma_register_code_round_trip(dst);
            lemma_register_code_round_trip(src);
            lemma_fields_of_opcode(1, code_of_register(dst), code_of_register(src));
        },
        Instruction::SHLD(address)
        | Instruction::LHLD(address)
        | Instruction::STA(address)
        | Instruction::LDA(address) => {
            lemma_word_bytes(address);
        },
        _ => {},
    }
}

/// The instructions of the arithmetic group decode back from their encoding.
#[verifier::rlimit(60)]
proof fn lemma_arithmetic_decodes_back(instruction: Instruction)
    requires
        instruction.well_formed(),
        instruction.group() == Group::Arithmetic,
    ensures
        0 <= opcode_of(instruction) < 256,
        has_mnemonic(opcode_of(instruction) as u8),
        instruction_of(
            opcode_of(instruction) as u8,
            operands_of(instruction).0,
            operands_of(instruction).1,
        ) == instruction,
{
    match instruction {
        Instruction::DAD(pair) => {
            lemma_pair_code_round_trip(pair);
            lemma_fields_of_opcode(0, (2 * code_of_pair(pair) + 1) as u8, 1);
        },
        Instruction::INX(pair) => {
            lemma_pair_code_round_trip(pair);
            lemma_fields_of_opcode(0, (2 * code_of_pair(pair)) as u8, 3);
        },
        Instruction::DCX(pair) => {
            lemma_pair_code_round_trip(pair);
            lemma_fields_of_opcode(0, (2 * code_of_pair(pair) + 1) as u8, 3);
        },
        Instruction::INR(reg) => {
            lemma_register_code_round_trip(reg);
            lemma_fields_of_opcode(0, code_of_register(reg), 4);
        },
        Instruction::DCR(reg) => {
            lemma_register_code_round_trip(reg);
            lemma_fields_of_opcode(0, code_of_register(reg), 5);
        },
        Instruction::ADD(reg) => {
            lemma_register_code_round_trip(reg);
            lemma_fields_of_opcode(2, 0, code_of_register(reg));
        },
        Instruction::ADC(reg) => {
            lemma_register_code_round_trip(reg);
            lemma_fields_of_opcode(2, 1, code_of_register(reg));
        },
        Instruction::SUB(reg) => {
            lemma_register_code_round_trip(reg);
            lemma_fields_of_opcode(2, 2, code_of_register(reg));
        },
        Instruction::SBB(reg) => {
            lemma_register_code_round_trip(reg);
            lemma_fields_of_opcode(2, 3, code_of_register(reg));
        },
        _ => {},
    }
}

/// The instructions of the logical group decode back from their encoding.
#[verifier::rlimit(60)]
proof fn lemma_logical_decodes_back(instruction: Instruction)
    requires
        instruction.well_formed(),
        instruction.group() == Group::Logical,
    ensures
        0 <= opcode_of(instruction) < 256,
        has_mnemonic(opcode_of(instruction) as u8),
        instruction_of(
            opcode_of(instruction) as u8,
            operands_of(instruction).0,
            operands_of(instruction).1,
        ) == instruction,
{
    match instruction {
        Instruction::ANA(reg) => {
            lemma_register_code_round_trip(reg);
            lemma_fields_of_opcode(2, 4, code_of_register(reg));
        },
        Instruction::XRA(reg) => {
            lemma_register_code_round_trip(reg);
            lemma_fields_of_opcode(2, 5, code_of_register(reg));
        },
        Instruction::ORA(reg) => {
            lemma_register_code_round_trip(reg);
            lemma_fields_of_opcode(2, 6, code_of_register(reg));
        },
        Instruction::CMP(reg) => {
            lemma_register_code_round_trip(reg);
            lemma_fields_of_opcode(2, 7, code_of_register(reg));
        },
        _ => {},
    }
}

/// The instructions of the branch group decode back from their encoding.
#[verifier::rlimit(60)]
proof fn lemma_branch_decodes_back(instruction: Instruction)
    requires
        instruction.well_formed(),
        instruction.group() == Group::Branch,
    ensures
        0 <= opcode_of(instruction) < 256,
        has_mnemonic(opcode_of(instruction) as u8),
        instruction_of(
            opcode_of(instruction) as u8,
            operands_of(instruction).0,
            operands_of(instruction).1,
        ) == instruction,
{
    match instruction {
        Instruction::RETCOND(condition) => {
            lemma_condition_code_round_trip(condition);
            lemma_fields_of_opcode(3, code_of_condition(condition) as u8, 0);
        },
        Instruction::JCOND(condition, address) => {
            lemma_condition_code_round_trip(condition);
            lemma_fields_of_opcode(3, code_of_condition(condition) as u8, 2);
            lemma_word_bytes(address);
        },
        Instruction::CCOND(condition, address) => {
            lemma_condition_code_round_trip(condition);
            lemma_fields_of_opcode(3, code_of_condition(condition) as u8, 4);
            lemma_word_bytes(address);
        },
        Instruction::RST(vector) => {
            lemma_fields_of_opcode(3, vector, 7);
        },
        Instruction::JMP(address)
        | Instruction::CALL(address) => {
            lemma_word_bytes(address);
        },
        _ => {},
    }
}

/// The instructions of the stack, input/output and machine control group decode back
/// from their encoding.
#[verifier::rlimit(60)]
proof fn lemma_stack_io_control_decodes_back(instruction: Instruction)
    requires
        instruction.well_formed(),
        instruction.group() == Group::StackIoControl,
    ensures
        0 <= opcode_of(instruction) < 256,
        has_mnemonic(opcode_of(instruction) as u8),
        instruction_of(
            opcode_of(instruction) as u8,
            operands_of(instruction).0,
            operands_of(instruction).1,
        ) == instruction,
{
    match instruction {
        Instruction::POP(pair) => {
            lemma_pair_code_round_trip(pair);
            lemma_fields_of_opcode(3, (2 * code_of_pair(pair)) as u8, 1);
        },
        Instruction::PUSH(pair) => {
            lemma_pair_code_round_trip(pair);
            lemma_fields_of_opcode(3, (2 * code_of_pair(pair)) as u8, 5);
        },
        _ => {},
    }
}

/// Every well-formed instruction is what its own opcode and operand bytes decode to: so
/// each instruction that an opcode encodes is encoded in exactly one way.
pub proof fn lemma_encoding_decodes_back(instruction: Instruction)
    requires
        instruction.well_formed(),
    ensures
        0 <= opcode_of(instruction) < 256,
        has_mnemonic(opcode_of(instruction) as u8),
        instruction_of(
            opcode_of(instruction) as u8,
            operands_of(instruction).0,
            operands_of(instruction).1,
        ) == instruction,
{
    match instruction.group() {
        Group::DataTransfer => lemma_data_transfer_decodes_back(instruction),
        Group::Arithmetic => lemma_arithmetic_decodes_back(instruction),
        Group::Logical => lemma_logical_decodes_back(instruction),
        Group::Branch => lemma_branch_decodes_back(instruction),
        Group::StackIoControl => lemma_stack_io_control_decodes_back(instruction),
    }
}

} // verus!
