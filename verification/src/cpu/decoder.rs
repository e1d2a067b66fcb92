//! The instruction decoder: a pure mapping from the bytes of memory at an address to
//! one instruction and its size.
//!
//! An opcode is read as three fields, `xx yyy zzz` in binary: `group` is the two high
//! bits, `y` the middle three and `z` the low three. A register field holds a register
//! code, the high two bits of `y` a register-pair code, and `y` of a conditional
//! instruction a condition code.

use super::condition::{ConditionOp, condition_of_code};
use super::instruction::Instruction;
use super::memory::{Memory, join_word, lemma_memory_size, word_of_bytes};
use super::register::{Register, RegisterPair, pair_of_code, register_of_code};
use super::Address;
use vstd::prelude::*;

verus! {

/// An instruction whose operand bytes would lie past the last byte of memory.
#[derive(Debug, Clone, Copy, PartialEq, Eq, Hash, Structural)]
pub struct DecodeError {
    /// The address of the opcode that could not be decoded.
    pub address: Address,
}

/// The two high bits of an opcode.
pub open spec fn group_field(op: u8) -> u8 {
    op / 64
}

/// The middle three bits of an opcode.
pub open spec fn y_field(op: u8) -> u8 {
    (op / 8) % 8
}

/// The low three bits of an opcode.
pub open spec fn z_field(op: u8) -> u8 {
    op % 8
}

/// Whether the instruction set assigns a mnemonic to the opcode. Twelve opcodes have
/// none.
pub open spec fn has_mnemonic(op: u8) -> bool {
    !(op == 0x08 || op == 0x10 || op == 0x18 || op == 0x20 || op == 0x28 || op == 0x30 || op
        == 0x38 || op == 0xcb || op == 0xd9 || op == 0xdd || op == 0xed || op == 0xfd)
}

/// The number of bytes of the instruction that begins with `op`: 3 where a 16-bit
/// operand follows the opcode (LXI, SHLD, LHLD, STA, LDA, the jumps and the calls), 2
/// where one byte follows (MVI, the immediate arithmetic and logic, IN, OUT), else 1.
pub open spec fn opcode_size(op: u8) -> nat {
    let group = group_field(op);
    let y = y_field(op);
    let z = z_field(op);
    if group == 0 && z == 1 && y % 2 == 0 {
        3
    } else if group == 0 && z == 2 && y >= 4 {
        3
    } else if group == 3 && (z == 2 || z == 4) {
        3
    } else if op == 0xc3 || op == 0xcd {
        3
    } else if group == 0 && z == 6 {
        2
    } else if group == 3 && z == 6 {
        2
    } else if op == 0xd3 || op == 0xdb {
        2
    } else {
        1
    }
}

/// The instruction of the first quarter of the opcodes (group 0) with the fields `y`
/// and `z`: loads and stores, increments and decrements, rotations and the like.
/// Seven of these opcodes have no mnemonic.
pub open spec fn instruction_of_group_0(y: u8, z: u8, lo: u8, hi: u8) -> Instruction {
    let address = word_of_bytes(lo, hi);
    if z == 0 {
        Instruction::NOP
    } else if z == 1 {
        if y % 2 == 0 {
            Instruction::LXI(pair_of_code(y / 2), (hi, lo))
        } else {
            Instruction::DAD(pair_of_code(y / 2))
        }
    } else if z == 2 {
        if y == 0 {
            Instruction::STAX(RegisterPair::BC)
        } else if y == 1 {
            Instruction::LDAX(RegisterPair::BC)
        } else if y == 2 {
            Instruction::STAX(RegisterPair::DE)
        } else if y == 3 {
            Instruction::LDAX(RegisterPair::DE)
        } else if y == 4 {
            Instruction::SHLD(address)
        } else if y == 5 {
            Instruction::LHLD(address)
        } else if y == 6 {
            Instruction::STA(address)
        } else {
            Instruction::LDA(address)
        }
    } else if z == 3 {
        if y % 2 == 0 {
            Instruction::INX(pair_of_code(y / 2))
        } else {
            Instruction::DCX(pair_of_code(y / 2))
        }
    } else if z == 4 {
        Instruction::INR(register_of_code(y))
    } else if z == 5 {
        Instruction::DCR(register_of_code(y))
    } else if z == 6 {
        Instruction::MVI(register_of_code(y), lo)
    } else {
        if y == 0 {
            Instruction::RLC
        } else if y == 1 {
            Instruction::RRC
        } else if y == 2 {
            Instruction::RAL
        } else if y == 3 {
            Instruction::RAR
        } else if y == 4 {
            Instruction::DAA
        } else if y == 5 {
            Instruction::CMA
        } else if y == 6 {
            Instruction::STC
        } else {
            Instruction::CMC
        }
    }
}

/// The instruction of the second quarter of the opcodes (group 1): a move from the
/// operand `z` to the operand `y`, but for the one that would move memory to memory,
/// which halts.
pub open spec fn instruction_of_group_1(y: u8, z: u8) -> Instruction {
    if y == 6 && z == 6 {
        Instruction::HLT
    } else {
        Instruction::MOV(register_of_code(y), register_of_code(z))
    }
}

/// The instruction of the third quarter of the opcodes (group 2): the operation `y` of
/// the accumulator with the operand `z`.
pub open spec fn instruction_of_group_2(y: u8, z: u8) -> Instruction {
    let operand = register_of_code(z);
    if y == 0 {
        Instruction::ADD(operand)
    } else if y == 1 {
        Instruction::ADC(operand)
    } else if y == 2 {
        Instruction::SUB(operand)
    } else if y == 3 {
        Instruction::SBB(operand)
    } else if y == 4 {
        Instruction::ANA(operand)
    } else if y == 5 {
        Instruction::XRA(operand)
    } else if y == 6 {
        Instruction::ORA(operand)
    } else {
        Instruction::CMP(operand)
    }
}

/// The instruction of the last quarter of the opcodes (group 3): jumps, calls and
/// returns, stack operations, operations with an immediate byte and restarts. Five of
/// these opcodes have no mnemonic.
pub open spec fn instruction_of_group_3(y: u8, z: u8, lo: u8, hi: u8) -> Instruction {
    let address = word_of_bytes(lo, hi);
    if z == 0 {
        Instruction::RETCOND(condition_of_code(y as i8))
    } else if z == 1 {
        if y == 6 {
            Instruction::POP_PSW
        } else if y % 2 == 0 {
            Instruction::POP(pair_of_code(y / 2))
        } else if y == 1 {
            Instruction::RET
        } else if y == 3 {
            Instruction::NOP
        } else if y == 5 {
            Instruction::PCHL
        } else {
            Instruction::SPHL
        }
    } else if z == 2 {
        Instruction::JCOND(condition_of_code(y as i8), address)
    } else if z == 3 {
        if y == 0 {
            Instruction::JMP(address)
        } else if y == 1 {
            Instruction::NOP
        } else if y == 2 {
            Instruction::OUT(lo)
        } else if y == 3 {
            Instruction::IN(lo)
        } else if y == 4 {
            Instruction::XTHL
        } else if y == 5 {
            Instruction::XCHG
        } else if y == 6 {
            Instruction::DI
        } else {
            Instruction::EI
        }
    } else if z == 4 {
        Instruction::CCOND(condition_of_code(y as i8), address)
    } else if z == 5 {
        if y == 6 {
            Instruction::PUSH_PSW
        } else if y % 2 == 0 {
            Instruction::PUSH(pair_of_code(y / 2))
        } else if y == 1 {
            Instruction::CALL(address)
        } else {
            Instruction::NOP
        }
    } else if z == 6 {
        if y == 0 {
            Instruction::ADI(lo)
        } else if y == 1 {
            Instruction::ACI(lo)
        } else if y == 2 {
            Instruction::SUI(lo)
        } else if y == 3 {
            Instruction::SBI(lo)
        } else if y == 4 {
            Instruction::ANI(lo)
        } else if y == 5 {
            Instruction::XRI(lo)
        } else if y == 6 {
            Instruction::ORI(lo)
        } else {
            Instruction::CPI(lo)
        }
    } else {
        Instruction::RST(y)
    }
}

/// The instruction that the opcode `op` encodes when the byte `lo` follows it and the
/// byte `hi` follows that. An instruction shorter than 3 bytes does not depend on the
/// bytes it does not have. An opcode without a mnemonic encodes `NOP`.
pub open spec fn instruction_of(op: u8, lo: u8, hi: u8) -> Instruction {
    let group = group_field(op);
    let y = y_field(op);
    let z = z_field(op);
    if group == 0 {
        instruction_of_group_0(y, z, lo, hi)
    } else if group == 1 {
        instruction_of_group_1(y, z)
    } else if group == 2 {
        instruction_of_group_2(y, z)
    } else {
        instruction_of_group_3(y, z, lo, hi)
    }
}

/// What decoding at `address` gives: the instruction that the opcode there encodes,
/// with the operand bytes that follow it, and its size; or an error where the
/// instruction would reach past the last byte of memory. An operand that the
/// instruction does not have counts as 0.
pub open spec fn decode_spec(memory: Seq<u8>, address: Address) -> Result<
    (Instruction, u16),
    DecodeError,
> {
    let op = memory[address as int];
    let size = opcode_size(op);
    if address + size > 65536 {
        Err(DecodeError { address })
    } else {
        let lo = if size >= 2 {
            memory[address + 1]
        } else {
            0
        };
        let hi = if size >= 3 {
            memory[address + 2]
        } else {
            0
        };
        Ok((instruction_of(op, lo, hi), size as u16))
    }
}

/// Every opcode encodes one instruction, which some opcode encodes (namely this one),
/// and whose size is the opcode's; an opcode without a mnemonic encodes `NOP`, of
/// size 1.
pub proof fn lemma_every_opcode_decodes(op: u8, lo: u8, hi: u8)
    ensures
        instruction_of(op, lo, hi).size() == opcode_size(op),
        1 <= opcode_size(op) <= 3,
        instruction_of(op, lo, hi).well_formed(),
        !has_mnemonic(op) ==> instruction_of(op, lo, hi) == Instruction::NOP && opcode_size(op)
            == 1,
{
}

/// An instruction does not depend on bytes beyond its size.
pub proof fn lemma_missing_operands_are_not_read(
    op: u8,
    lo: u8,
    hi: u8,
    other_lo: u8,
    other_hi: u8,
)
    ensures
        opcode_size(op) == 1 ==> instruction_of(op, lo, hi) == instruction_of(
            op,
            other_lo,
            other_hi,
        ),
        opcode_size(op) == 2 ==> instruction_of(op, lo, hi) == instruction_of(op, lo, other_hi),
{
}

/// Decoding succeeds exactly where the whole instruction lies inside the memory, and
/// then gives a well-formed instruction with its own size.
pub proof fn lemma_decode_total(memory: Seq<u8>, address: Address)
    requires
        memory.len() == 65536,
    ensures
        decode_spec(memory, address) is Ok <==> address + opcode_size(memory[address as int])
            <= 65536,
        decode_spec(memory, address) matches Ok((instruction, size)) ==> {
            &&& instruction.well_formed()
            &&& size == instruction.size()
            &&& size == opcode_size(memory[address as int])
        },
        decode_spec(memory, address) matches Err(error) ==> error.address == address,
{
    let op = memory[address as int];
    lemma_every_opcode_decodes(op, memory[address + 1], memory[address + 2]);
    lemma_every_opcode_decodes(op, memory[address + 1], 0);
    lemma_every_opcode_decodes(op, 0, 0);
}

/// The `LXI` instruction for `target_reg` with the immediate whose low byte is `byte_2`
/// and whose high byte is `byte_3`, the second and third byte of the instruction.
pub fn get_lxi(target_reg: RegisterPair, byte_2: u8, byte_3: u8) -> (instruction: Instruction)
    ensures
        instruction == Instruction::LXI(target_reg, (byte_3, byte_2)),
{
    Instruction::LXI(target_reg, (byte_3, byte_2))
}

/// The address whose low byte is `lo_byte` and whose high byte is `hi_byte`.
pub fn create_addr(lo_byte: u8, hi_byte: u8) -> (address: Address)
    ensures
        address == word_of_bytes(lo_byte, hi_byte),
        address == hi_byte * 256 + lo_byte,
{
    join_word(lo_byte, hi_byte)
}

/// The size in bytes of the instruction that begins with the opcode `op`.
pub fn opcode_length(op: u8) -> (size: u16)
    ensures
        size == opcode_size(op),
        1 <= size <= 3,
{
    match op {
        0x01 | 0x11 | 0x21 | 0x31 => 3,
        0x22 | 0x2a | 0x32 | 0x3a => 3,
        0xc2 | 0xca | 0xd2 | 0xda | 0xe2 | 0xea | 0xf2 | 0xfa => 3,
        0xc4 | 0xcc | 0xd4 | 0xdc | 0xe4 | 0xec | 0xf4 | 0xfc => 3,
        0xc3 | 0xcd => 3,
        0x06 | 0x0e | 0x16 | 0x1e | 0x26 | 0x2e | 0x36 | 0x3e => 2,
        0xc6 | 0xce | 0xd6 | 0xde | 0xe6 | 0xee | 0xf6 | 0xfe => 2,
        0xd3 | 0xdb => 2,
        _ => 1,
    }
}

/// The table of the first quarter of the opcodes, 0x00 to 0x3f: one line for each opcode with
/// a mnemonic; the others are no-operations.
#[verifier::rlimit(40)]
fn decode_first_quarter(op: u8, lo: u8, hi: u8) -> (instruction: Instruction)
    requires
        group_field(op) == 0,
    ensures
        instruction == instruction_of(op, lo, hi),
{
    match op {
        0x00 => Instruction::NOP,
        0x01 => get_lxi(RegisterPair::BC, lo, hi),
        0x02 => Instruction::STAX(RegisterPair::BC),
        0x03 => Instruction::INX(RegisterPair::BC),
        0x04 => Instruction::INR(Register::B),
        0x05 => Instruction::DCR(Register::B),
        0x06 => Instruction::MVI(Register::B, lo),
        0x07 => Instruction::RLC,
        0x09 => Instruction::DAD(RegisterPair::BC),
        0x0a => Instruction::LDAX(RegisterPair::BC),
        0x0b => Instruction::DCX(RegisterPair::BC),
        0x0c => Instruction::INR(Register::C),
        0x0d => Instruction::DCR(Register::C),
        0x0e => Instruction::MVI(Register::C, lo),
        0x0f => Instruction::RRC,
        0x11 => get_lxi(RegisterPair::DE, lo, hi),
        0x12 => Instruction::STAX(RegisterPair::DE),
        0x13 => Instruction::INX(RegisterPair::DE),
        0x14 => Instruction::INR(Register::D),
        0x15 => Instruction::DCR(Register::D),
        0x16 => Instruction::MVI(Register::D, lo),
        0x17 => Instruction::RAL,
        0x19 => Instruction::DAD(RegisterPair::DE),
        0x1a => Instruction::LDAX(RegisterPair::DE),
        0x1b => Instruction::DCX(RegisterPair::DE),
        0x1c => Instruction::INR(Register::E),
        0x1d => Instruction::DCR(Register::E),
        0x1e => Instruction::MVI(Register::E, lo),
        0x1f => Instruction::RAR,
        0x21 => get_lxi(RegisterPair::HL, lo, hi),
        0x22 => Instruction::SHLD(create_addr(lo, hi)),
        0x23 => Instruction::INX(RegisterPair::HL),
        0x24 => Instruction::INR(Register::H),
        0x25 => Instruction::DCR(Register::H),
        0x26 => Instruction::MVI(Register::H, lo),
        0x27 => Instruction::DAA,
        0x29 => Instruction::DAD(RegisterPair::HL),
        0x2a => Instruction::LHLD(create_addr(lo, hi)),
        0x2b => Instruction::DCX(RegisterPair::HL),
        0x2c => Instruction::INR(Register::L),
        0x2d => Instruction::DCR(Register::L),
        0x2e => Instruction::MVI(Register::L, lo),
        0x2f => Instruction::CMA,
        0x31 => get_lxi(RegisterPair::SP, lo, hi),
        0x32 => Instruction::STA(create_addr(lo, hi)),
        0x33 => Instruction::INX(RegisterPair::SP),
        0x34 => Instruction::INR(Register::M),
        0x35 => Instruction::DCR(Register::M),
        0x36 => Instruction::MVI(Register::M, lo),
        0x37 => Instruction::STC,
        0x39 => Instruction::DAD(RegisterPair::SP),
        0x3a => Instruction::LDA(create_addr(lo, hi)),
        0x3b => Instruction::DCX(RegisterPair::SP),
        0x3c => Instruction::INR(Register::A),
        0x3d => Instruction::DCR(Register::A),
        0x3e => Instruction::MVI(Register::A, lo),
        0x3f => Instruction::CMC,
        _ => Instruction::NOP,
    }
}

/// The table of the second quarter of the opcodes, 0x40 to 0x7f: one line for each opcode with
/// a mnemonic; the others are no-operations.
#[verifier::rlimit(40)]
fn decode_second_quarter(op: u8, lo: u8, hi: u8) -> (instruction: Instruction)
    requires
        group_field(op) == 1,
    ensures
        instruction == instruction_of(op, lo, hi),
{
    match op {
        0x40 => Instruction::MOV(Register::B, Register::B),
        0x41 => Instruction::MOV(Register::B, Register::C),
        0x42 => Instruction::MOV(Register::B, Register::D),
        0x43 => Instruction::MOV(Register::B, Register::E),
        0x44 => Instruction::MOV(Register::B, Register::H),
        0x45 => Instruction::MOV(Register::B, Register::L),
        0x46 => Instruction::MOV(Register::B, Register::M),
        0x47 => Instruction::MOV(Register::B, Register::A),
        0x48 => Instruction::MOV(Register::C, Register::B),
        0x49 => Instruction::MOV(Register::C, Register::C),
        0x4a => Instruction::MOV(Register::C, Register::D),
        0x4b => Instruction::MOV(Register::C, Register::E),
        0x4c => Instruction::MOV(Register::C, Register::H),
        0x4d => Instruction::MOV(Register::C, Register::L),
        0x4e => Instruction::MOV(Register::C, Register::M),
        0x4f => Instruction::MOV(Register::C, Register::A),
        0x50 => Instruction::MOV(Register::D, Register::B),
        0x51 => Instruction::MOV(Register::D, Register::C),
        0x52 => Instruction::MOV(Register::D, Register::D),
        0x53 => Instruction::MOV(Register::D, Register::E),
        0x54 => Instruction::MOV(Register::D, Register::H),
        0x55 => Instruction::MOV(Register::D, Register::L),
        0x56 => Instruction::MOV(Register::D, Register::M),
        0x57 => Instruction::MOV(Register::D, Register::A),
        0x58 => Instruction::MOV(Register::E, Register::B),
        0x59 => Instruction::MOV(Register::E, Register::C),
        0x5a => Instruction::MOV(Register::E, Register::D),
        0x5b => Instruction::MOV(Register::E, Register::E),
        0x5c => Instruction::MOV(Register::E, Register::H),
        0x5d => Instruction::MOV(Register::E, Register::L),
        0x5e => Instruction::MOV(Register::E, Register::M),
        0x5f => Instruction::MOV(Register::E, Register::A),
        0x60 => Instruction::MOV(Register::H, Register::B),
        0x61 => Instruction::MOV(Register::H, Register::C),
        0x62 => Instruction::MOV(Register::H, Register::D),
        0x63 => Instruction::MOV(Register::H, Register::E),
        0x64 => Instruction::MOV(Register::H, Register::H),
        0x65 => Instruction::MOV(Register::H, Register::L),
        0x66 => Instruction::MOV(Register::H, Register::M),
        0x67 => Instruction::MOV(Register::H, Register::A),
        0x68 => Instruction::MOV(Register::L, Register::B),
        0x69 => Instruction::MOV(Register::L, Register::C),
        0x6a => Instruction::MOV(Register::L, Register::D),
        0x6b => Instruction::MOV(Register::L, Register::E),
        0x6c => Instruction::MOV(Register::L, Register::H),
        0x6d => Instruction::MOV(Register::L, Register::L),
        0x6e => Instruction::MOV(Register::L, Register::M),
        0x6f => Instruction::MOV(Register::L, Register::A),
        0x70 => Instruction::MOV(Register::M, Register::B),
        0x71 => Instruction::MOV(Register::M, Register::C),
        0x72 => Instruction::MOV(Register::M, Register::D),
        0x73 => Instruction::MOV(Register::M, Register::E),
        0x74 => Instruction::MOV(Register::M, Register::H),
        0x75 => Instruction::MOV(Register::M, Register::L),
        0x76 => Instruction::HLT,
        0x77 => Instruction::MOV(Register::M, Register::A),
        0x78 => Instruction::MOV(Register::A, Register::B),
        0x79 => Instruction::MOV(Register::A, Register::C),
        0x7a => Instruction::MOV(Register::A, Register::D),
        0x7b => Instruction::MOV(Register::A, Register::E),
        0x7c => Instruction::MOV(Register::A, Register::H),
        0x7d => Instruction::MOV(Register::A, Register::L),
        0x7e => Instruction::MOV(Register::A, Register::M),
        0x7f => Instruction::MOV(Register::A, Register::A),
        _ => Instruction::NOP,
    }
}

/// The table of the third quarter of the opcodes, 0x80 to 0xbf: one line for each opcode with
/// a mnemonic; the others are no-operations.
#[verifier::rlimit(40)]
fn decode_third_quarter(op: u8, lo: u8, hi: u8) -> (instruction: Instruction)
    requires
        group_field(op) == 2,
    ensures
        instruction == instruction_of(op, lo, hi),
{
    match op {
        0x80 => Instruction::ADD(Register::B),
        0x81 => Instruction::ADD(Register::C),
        0x82 => Instruction::ADD(Register::D),
        0x83 => Instruction::ADD(Register::E),
        0x84 => Instruction::ADD(Register::H),
        0x85 => Instruction::ADD(Register::L),
        0x86 => Instruction::ADD(Register::M),
        0x87 => Instruction::ADD(Register::A),
        0x88 => Instruction::ADC(Register::B),
        0x89 => Instruction::ADC(Register::C),
        0x8a => Instruction::ADC(Register::D),
        0x8b => Instruction::ADC(Register::E),
        0x8c => Instruction::ADC(Register::H),
        0x8d => Instruction::ADC(Register::L),
        0x8e => Instruction::ADC(Register::M),
        0x8f => Instruction::ADC(Register::A),
        0x90 => Instruction::SUB(Register::B),
        0x91 => Instruction::SUB(Register::C),
        0x92 => Instruction::SUB(Register::D),
        0x93 => Instruction::SUB(Register::E),
        0x94 => Instruction::SUB(Register::H),
        0x95 => Instruction::SUB(Register::L),
        0x96 => Instruction::SUB(Register::M),
        0x97 => Instruction::SUB(Register::A),
        0x98 => Instruction::SBB(Register::B),
        0x99 => Instruction::SBB(Register::C),
        0x9a => Instruction::SBB(Register::D),
        0x9b => Instruction::SBB(Register::E),
        0x9c => Instruction::SBB(Register::H),
        0x9d => Instruction::SBB(Register::L),
        0x9e => Instruction::SBB(Register::M),
        0x9f => Instruction::SBB(Register::A),
        0xa0 => Instruction::ANA(Register::B),
        0xa1 => Instruction::ANA(Register::C),
        0xa2 => Instruction::ANA(Register::D),
        0xa3 => Instruction::ANA(Register::E),
        0xa4 => Instruction::ANA(Register::H),
        0xa5 => Instruction::ANA(Register::L),
        0xa6 => Instruction::ANA(Register::M),
        0xa7 => Instruction::ANA(Register::A),
        0xa8 => Instruction::XRA(Register::B),
        0xa9 => Instruction::XRA(Register::C),
        0xaa => Instruction::XRA(Register::D),
        0xab => Instruction::XRA(Register::E),
        0xac => Instruction::XRA(Register::H),
        0xad => Instruction::XRA(Register::L),
        0xae => Instruction::XRA(Register::M),
        0xaf => Instruction::XRA(Register::A),
        0xb0 => Instruction::ORA(Register::B),
        0xb1 => Instruction::ORA(Register::C),
        0xb2 => Instruction::ORA(Register::D),
        0xb3 => Instruction::ORA(Register::E),
        0xb4 => Instruction::ORA(Register::H),
        0xb5 => Instruction::ORA(Register::L),
        0xb6 => Instruction::ORA(Register::M),
        0xb7 => Instruction::ORA(Register::A),
        0xb8 => Instruction::CMP(Register::B),
        0xb9 => Instruction::CMP(Register::C),
        0xba => Instruction::CMP(Register::D),
        0xbb => Instruction::CMP(Register::E),
        0xbc => Instruction::CMP(Register::H),
        0xbd => Instruction::CMP(Register::L),
        0xbe => Instruction::CMP(Register::M),
        0xbf => Instruction::CMP(Register::A),
        _ => Instruction::NOP,
    }
}

/// The table of the last quarter of the opcodes, 0xc0 to 0xff: one line for each opcode with
/// a mnemonic; the others are no-operations.
#[verifier::rlimit(40)]
fn decode_last_quarter(op: u8, lo: u8, hi: u8) -> (instruction: Instruction)
    requires
        group_field(op) == 3,
    ensures
        instruction == instruction_of(op, lo, hi),
{
    match op {
        0xc0 => Instruction::RETCOND(ConditionOp::NZ),
        0xc1 => Instruction::POP(RegisterPair::BC),
        0xc2 => Instruction::JCOND(ConditionOp::NZ, create_addr(lo, hi)),
        0xc3 => Instruction::JMP(create_addr(lo, hi)),
        0xc4 => Instruction::CCOND(ConditionOp::NZ, create_addr(lo, hi)),
        0xc5 => Instruction::PUSH(RegisterPair::BC),
        0xc6 => Instruction::ADI(lo),
        0xc7 => Instruction::RST(0x00),
        0xc8 => Instruction::RETCOND(ConditionOp::Z),
        0xc9 => Instruction::RET,
        0xca => Instruction::JCOND(ConditionOp::Z, create_addr(lo, hi)),
        0xcc => Instruction::CCOND(ConditionOp::Z, create_addr(lo, hi)),
        0xcd => Instruction::CALL(create_addr(lo, hi)),
        0xce => Instruction::ACI(lo),
        0xcf => Instruction::RST(0x01),
        0xd0 => Instruction::RETCOND(ConditionOp::NC),
        0xd1 => Instruction::POP(RegisterPair::DE),
        0xd2 => Instruction::JCOND(ConditionOp::NC, create_addr(lo, hi)),
        0xd3 => Instruction::OUT(lo),
        0xd4 => Instruction::CCOND(ConditionOp::NC, create_addr(lo, hi)),
        0xd5 => Instruction::PUSH(RegisterPair::DE),
        0xd6 => Instruction::SUI(lo),
        0xd7 => Instruction::RST(0x02),
        0xd8 => Instruction::RETCOND(ConditionOp::C),
        0xda => Instruction::JCOND(ConditionOp::C, create_addr(lo, hi)),
        0xdb => Instruction::IN(lo),
        0xdc => Instruction::CCOND(ConditionOp::C, create_addr(lo, hi)),
        0xde => Instruction::SBI(lo),
        0xdf => Instruction::RST(0x03),
        0xe0 => Instruction::RETCOND(ConditionOp::PO),
        0xe1 => Instruction::POP(RegisterPair::HL),
        0xe2 => Instruction::JCOND(ConditionOp::PO, create_addr(lo, hi)),
        0xe3 => Instruction::XTHL,
        0xe4 => Instruction::CCOND(ConditionOp::PO, create_addr(lo, hi)),
        0xe5 => Instruction::PUSH(RegisterPair::HL),
        0xe6 => Instruction::ANI(lo),
        0xe7 => Instruction::RST(0x04),
        0xe8 => Instruction::RETCOND(ConditionOp::PE),
        0xe9 => Instruction::PCHL,
        0xea => Instruction::JCOND(ConditionOp::PE, create_addr(lo, hi)),
        0xeb => Instruction::XCHG,
        0xec => Instruction::CCOND(ConditionOp::PE, create_addr(lo, hi)),
        0xee => Instruction::XRI(lo),
        0xef => Instruction::RST(0x05),
        0xf0 => Instruction::RETCOND(ConditionOp::P),
        0xf1 => Instruction::POP_PSW,
        0xf2 => Instruction::JCOND(ConditionOp::P, create_addr(lo, hi)),
        0xf3 => Instruction::DI,
        0xf4 => Instruction::CCOND(ConditionOp::P, create_addr(lo, hi)),
        0xf5 => Instruction::PUSH_PSW,
        0xf6 => Instruction::ORI(lo),
        0xf7 => Instruction::RST(0x06),
        0xf8 => Instruction::RETCOND(ConditionOp::M),
        0xf9 => Instruction::SPHL,
        0xfa => Instruction::JCOND(ConditionOp::M, create_addr(lo, hi)),
        0xfb => Instruction::EI,
        0xfc => Instruction::CCOND(ConditionOp::M, create_addr(lo, hi)),
        0xfe => Instruction::CPI(lo),
        0xff => Instruction::RST(0x07),
        _ => Instruction::NOP,
    }
}

/// Decodes one opcode with the two bytes that follow it.
pub fn decode_opcode(op: u8, lo: u8, hi: u8) -> (instruction: Instruction)
    ensures
        instruction == instruction_of(op, lo, hi),
{
    match op {
        0x00..=0x3f => decode_first_quarter(op, lo, hi),
        0x40..=0x7f => decode_second_quarter(op, lo, hi),
        0x80..=0xbf => decode_third_quarter(op, lo, hi),
        _ => decode_last_quarter(op, lo, hi),
    }
}

/// Decodes the instruction at `address`. Only reads memory; fails where the
/// instruction's operand bytes would lie past the last byte of memory, and makes up no
/// byte in their place.
pub fn decode(memory: &Memory, address: Address) -> (result: Result<
    (Instruction, u16),
    DecodeError,
>)
    ensures
        result == decode_spec(memory@, address),
{
    let op = memory.load(address);
    let size = opcode_length(op);
    let lo_index: usize = address as usize + 1;
    let hi_index: usize = address as usize + 2;
    let lo = if size >= 2 {
        match memory.read_byte(lo_index) {
            Ok(byte) => byte,
            Err(_) => {
                return Err(DecodeError { address });
            },
        }
    } else {
        0
    };
    let hi = if size >= 3 {
        match memory.read_byte(hi_index) {
            Ok(byte) => byte,
            Err(_) => {
                return Err(DecodeError { address });
            },
        }
    } else {
        0
    };
    Ok((decode_opcode(op, lo, hi), size))
}

/// One line of a listing: the address of an instruction, the instruction, and its size
/// in bytes.
pub type ListingEntry = (Address, Instruction, u16);

/// A listing of consecutive instructions, and the error that ended it, if one did.
#[derive(Debug, Clone, PartialEq, Eq)]
pub struct Disassembly {
    /// The instructions that were decoded, in the order of their addresses.
    pub entries: Vec<ListingEntry>,
    /// The error at the address after the last entry, where the listing ended on one.
    pub error: Option<DecodeError>,
}

/// The address at which line `i` of a listing from `start` must begin: `start` for the
/// first line, else the end of the line before. For `i` the number of lines this is the
/// address at which the listing ends.
pub open spec fn line_address(start: Address, entries: Seq<ListingEntry>, i: int) -> int {
    if i <= 0 {
        start as int
    } else {
        entries[i - 1].0 + entries[i - 1].2
    }
}

/// Whether `entries` lists the instructions that lie in `memory` one after the other
/// from `start`: each line begins where the line before ends and holds what decoding
/// gives there.
pub open spec fn is_listing(memory: Seq<u8>, start: Address, entries: Seq<ListingEntry>) -> bool {
    forall|i: int|
        0 <= i < entries.len() ==> {
            &&& (#[trigger] entries[i]).0 == line_address(start, entries, i)
            &&& decode_spec(memory, entries[i].0) == Ok::<(Instruction, u16), DecodeError>(
                (entries[i].1, entries[i].2),
            )
        }
}

/// Lists the instructions from `start` up to `end`: it decodes one instruction after
/// the other for as long as the next one begins before `end` and inside the memory. An
/// instruction that cannot be decoded ends the listing, with its error.
pub fn disassemble(memory: &Memory, start: Address, end: usize) -> (listing: Disassembly)
    ensures
        is_listing(memory@, start, listing.entries@),
        forall|i: int| 0 <= i < listing.entries@.len() ==> (#[trigger] listing.entries@[i]).0 < end,
        match listing.error {
            None => {
                let stop = line_address(start, listing.entries@, listing.entries@.len() as int);
                stop >= end || stop >= 65536
            },
            Some(error) => {
                let stop = line_address(start, listing.entries@, listing.entries@.len() as int);
                &&& stop < end
                &&& stop < 65536
                &&& decode_spec(memory@, stop as u16) == Err::<(Instruction, u16), DecodeError>(
                    error,
                )
            },
        },
{
    let mut entries: Vec<ListingEntry> = Vec::new();
    let mut address: usize = start as usize;
    proof {
        lemma_memory_size(*memory);
    }
    while address < end && address < 65536
        invariant
            memory@.len() == 65536,
            start <= address <= 65536,
            address == line_address(start, entries@, entries@.len() as int),
            is_listing(memory@, start, entries@),
            forall|i: int| 0 <= i < entries@.len() ==> (#[trigger] entries@[i]).0 < end,
        decreases 65536 - address,
    {
        proof {
            lemma_decode_total(memory@, address as u16);
        }
        match decode(memory, address as u16) {
            Ok((instruction, size)) => {
                entries.push((address as u16, instruction, size));
                address = address + size as usize;
            },
            Err(error) => {
                return Disassembly { entries, error: Some(error) };
            },
        }
    }
    Disassembly { entries, error: None }
}

} // verus!
