//! The instruction set: one variant per mnemonic, with typed operands.

use super::condition::{Condition, ConditionOp};
use super::register::{Register, RegisterPair};
use super::{Address, Port};
use vstd::prelude::*;

verus! {

/// A decoded instruction.
///
/// The pair of `LXI` holds the immediate's high byte first, then its low byte.
#[allow(non_camel_case_types)]
#[derive(Debug, Clone, Copy, PartialEq, Eq, Hash)]
pub enum Instruction {
    NOP,
    LXI(RegisterPair, (u8, u8)),
    STAX(RegisterPair),
    INX(RegisterPair),
    INR(Register),
    DCR(Register),
    MVI(Register, u8),
    RLC,
    DAD(RegisterPair),
    LDAX(RegisterPair),
    DCX(RegisterPair),
    RRC,
    RAL,
    RAR,
    SHLD(Address),
    DAA,
    LHLD(Address),
    CMA,
    STA(Address),
    STC,
    LDA(Address),
    CMC,
    MOV(Register, Register),
    HLT,
    ADD(Register),
    ADC(Register),
    SUB(Register),
    SBB(Register),
    ANA(Register),
    XRA(Register),
    ORA(Register),
    CMP(Register),
    RETCOND(ConditionOp),
    POP(RegisterPair),
    JCOND(ConditionOp, Address),
    JMP(Address),
    CCOND(ConditionOp, Address),
    PUSH(RegisterPair),
    ADI(u8),
    RST(u8),
    RET,
    CALL(Address),
    ACI(u8),
    OUT(Port),
    SUI(u8),
    IN(Port),
    SBI(u8),
    XTHL,
    ANI(u8),
    PCHL,
    XCHG,
    XRI(u8),
    POP_PSW,
    DI,
    PUSH_PSW,
    ORI(u8),
    SPHL,
    EI,
    CPI(u8),
}

/// The five groups into which the instruction set is divided.
#[derive(Debug, Clone, Copy, PartialEq, Eq, Hash, Structural)]
pub enum Group {
    /// Moves between registers and memory.
    DataTransfer,
    /// Additions, subtractions, increments and decrements, and the decimal adjustment.
    Arithmetic,
    /// Logical operations, comparisons, rotations, and operations on the carry.
    Logical,
    /// Jumps, calls, returns and restarts.
    Branch,
    /// Stack operations, input and output, and machine control.
    StackIoControl,
}

impl Instruction {
    /// The group to which the instruction belongs.
    pub open spec fn group(self) -> Group {
        match self {
            Instruction::MOV(_, _)
            | Instruction::MVI(_, _)
            | Instruction::LXI(_, _)
            | Instruction::LDA(_)
            | Instruction::STA(_)
            | Instruction::LHLD(_)
            | Instruction::SHLD(_)
            | Instruction::LDAX(_)
            | Instruction::STAX(_)
            | Instruction::XCHG => Group::DataTransfer,
            Instruction::ADD(_)
            | Instruction::ADI(_)
            | Instruction::ADC(_)
            | Instruction::ACI(_)
            | Instruction::SUB(_)
            | Instruction::SUI(_)
            | Instruction::SBB(_)
            | Instruction::SBI(_)
            | Instruction::INR(_)
            | Instruction::DCR(_)
            | Instruction::INX(_)
            | Instruction::DCX(_)
            | Instruction::DAD(_)
            | Instruction::DAA => Group::Arithmetic,
            Instruction::ANA(_)
            | Instruction::ANI(_)
            | Instruction::XRA(_)
            | Instruction::XRI(_)
            | Instruction::ORA(_)
            | Instruction::ORI(_)
            | Instruction::CMP(_)
            | Instruction::CPI(_)
            | Instruction::RLC
            | Instruction::RRC
            | Instruction::RAL
            | Instruction::RAR
            | Instruction::CMA
            | Instruction::CMC
            | Instruction::STC => Group::Logical,
            Instruction::JMP(_)
            | Instruction::JCOND(_, _)
            | Instruction::CALL(_)
            | Instruction::CCOND(_, _)
            | Instruction::RET
            | Instruction::RETCOND(_)
            | Instruction::RST(_)
            | Instruction::PCHL => Group::Branch,
            Instruction::PUSH(_)
            | Instruction::PUSH_PSW
            | Instruction::POP(_)
            | Instruction::POP_PSW
            | Instruction::XTHL
            | Instruction::SPHL
            | Instruction::IN(_)
            | Instruction::OUT(_)
            | Instruction::EI
            | Instruction::DI
            | Instruction::HLT
            | Instruction::NOP => Group::StackIoControl,
        }
    }

    /// The group to which the instruction belongs.
    pub fn get_group(&self) -> (group: Group)
        ensures
            group == self.group(),
    {
        match self {
            Instruction::MOV(_, _)
            | Instruction::MVI(_, _)
            | Instruction::LXI(_, _)
            | Instruction::LDA(_)
            | Instruction::STA(_)
            | Instruction::LHLD(_)
            | Instruction::SHLD(_)
            | Instruction::LDAX(_)
            | Instruction::STAX(_)
            | Instruction::XCHG => Group::DataTransfer,
            Instruction::ADD(_)
            | Instruction::ADI(_)
            | Instruction::ADC(_)
            | Instruction::ACI(_)
            | Instruction::SUB(_)
            | Instruction::SUI(_)
            | Instruction::SBB(_)
            | Instruction::SBI(_)
            | Instruction::INR(_)
            | Instruction::DCR(_)
            | Instruction::INX(_)
            | Instruction::DCX(_)
            | Instruction::DAD(_)
            | Instruction::DAA => Group::Arithmetic,
            Instruction::ANA(_)
            | Instruction::ANI(_)
            | Instruction::XRA(_)
            | Instruction::XRI(_)
            | Instruction::ORA(_)
            | Instruction::ORI(_)
            | Instruction::CMP(_)
            | Instruction::CPI(_)
            | Instruction::RLC
            | Instruction::RRC
            | Instruction::RAL
            | Instruction::RAR
            | Instruction::CMA
            | Instruction::CMC
            | Instruction::STC => Group::Logical,
            Instruction::JMP(_)
            | Instruction::JCOND(_, _)
            | Instruction::CALL(_)
            | Instruction::CCOND(_, _)
            | Instruction::RET
            | Instruction::RETCOND(_)
            | Instruction::RST(_)
            | Instruction::PCHL => Group::Branch,
            Instruction::PUSH(_)
            | Instruction::PUSH_PSW
            | Instruction::POP(_)
            | Instruction::POP_PSW
            | Instruction::XTHL
            | Instruction::SPHL
            | Instruction::IN(_)
            | Instruction::OUT(_)
            | Instruction::EI
            | Instruction::DI
            | Instruction::HLT
            | Instruction::NOP => Group::StackIoControl,
        }
    }

    /// The flags that the instruction may change, each marked by `true`: all five for
    /// the additions, subtractions and comparisons, the decimal adjustment and the
    /// restoring of the status word; all but the auxiliary carry for the logical
    /// operations; all but the carry for the increment and decrement of a register; the
    /// carry alone for the 16-bit addition, the rotations and the two instructions that
    /// set and complement it; none for the rest.
    pub open spec fn affected_flags(self) -> Condition {
        match self {
            Instruction::ADD(_)
            | Instruction::ADC(_)
            | Instruction::SUB(_)
            | Instruction::SBB(_)
            | Instruction::CMP(_)
            | Instruction::ADI(_)
            | Instruction::ACI(_)
            | Instruction::SUI(_)
            | Instruction::SBI(_)
            | Instruction::CPI(_)
            | Instruction::DAA
            | Instruction::POP_PSW => Condition { z: true, s: true, p: true, cy: true, ac: true },
            Instruction::ANA(_)
            | Instruction::XRA(_)
            | Instruction::ORA(_)
            | Instruction::ANI(_)
            | Instruction::XRI(_)
            | Instruction::ORI(_) => Condition { z: true, s: true, p: true, cy: true, ac: false },
            Instruction::INR(_) | Instruction::DCR(_) => Condition {
                z: true,
                s: true,
                p: true,
                cy: false,
                ac: true,
            },
            Instruction::DAD(_)
            | Instruction::RLC
            | Instruction::RRC
            | Instruction::RAL
            | Instruction::RAR
            | Instruction::STC
            | Instruction::CMC => Condition { z: false, s: false, p: false, cy: true, ac: false },
            _ => Condition { z: false, s: false, p: false, cy: false, ac: false },
        }
    }

    /// Whether the instruction may set the program counter to an address other than
    /// that of the instruction after it.
    pub open spec fn transfers_control(self) -> bool {
        self.group() == Group::Branch
    }

    /// The number of bytes that the instruction occupies in memory: the opcode and its
    /// operand bytes.
    pub open spec fn size(self) -> nat {
        match self {
            Instruction::LXI(_, _)
            | Instruction::SHLD(_)
            | Instruction::LHLD(_)
            | Instruction::STA(_)
            | Instruction::LDA(_)
            | Instruction::JCOND(_, _)
            | Instruction::JMP(_)
            | Instruction::CCOND(_, _)
            | Instruction::CALL(_) => 3,
            Instruction::MVI(_, _)
            | Instruction::ADI(_)
            | Instruction::ACI(_)
            | Instruction::SUI(_)
            | Instruction::SBI(_)
            | Instruction::ANI(_)
            | Instruction::XRI(_)
            | Instruction::ORI(_)
            | Instruction::CPI(_)
            | Instruction::OUT(_)
            | Instruction::IN(_) => 2,
            _ => 1,
        }
    }

    /// Whether some opcode encodes the instruction. The type admits a few values that
    /// none does: `STAX` and `LDAX` exist for BC and DE only, `PUSH` and `POP` take no
    /// SP, a move from memory to memory is no instruction, and `RST` has eight vectors.
    pub open spec fn well_formed(self) -> bool {
        match self {
            Instruction::STAX(pair) | Instruction::LDAX(pair) => pair == RegisterPair::BC || pair
                == RegisterPair::DE,
            Instruction::PUSH(pair) | Instruction::POP(pair) => pair != RegisterPair::SP,
            Instruction::MOV(dst, src) => !(dst == Register::M && src == Register::M),
            Instruction::RST(vector) => vector < 8,
            _ => true,
        }
    }

    /// The instruction's size in bytes.
    pub fn get_size(&self) -> (size: u16)
        ensures
            size == self.size(),
            1 <= size <= 3,
    {
        match self {
            Instruction::LXI(_, _)
            | Instruction::SHLD(_)
            | Instruction::LHLD(_)
            | Instruction::STA(_)
            | Instruction::LDA(_)
            | Instruction::JCOND(_, _)
            | Instruction::JMP(_)
            | Instruction::CCOND(_, _)
            | Instruction::CALL(_) => 3,
            Instruction::MVI(_, _)
            | Instruction::ADI(_)
            | Instruction::ACI(_)
            | Instruction::SUI(_)
            | Instruction::SBI(_)
            | Instruction::ANI(_)
            | Instruction::XRI(_)
            | Instruction::ORI(_)
            | Instruction::CPI(_)
            | Instruction::OUT(_)
            | Instruction::IN(_) => 2,
            _ => 1,
        }
    }

    /// Tells whether some opcode encodes the instruction.
    pub fn is_well_formed(&self) -> (ok: bool)
        ensures
            ok == self.well_formed(),
    {
        match self {
            Instruction::STAX(pair) | Instruction::LDAX(pair) => match pair {
                RegisterPair::BC | RegisterPair::DE => true,
                _ => false,
            },
            Instruction::PUSH(pair) | Instruction::POP(pair) => match pair {
                RegisterPair::SP => false,
                _ => true,
            },
            Instruction::MOV(Register::M, Register::M) => false,
            Instruction::RST(vector) => *vector < 8,
            _ => true,
        }
    }
}

} // verus!
