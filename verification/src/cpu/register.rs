//! The 8-bit registers and the 16-bit register pairs, with the codes that select them
//! inside an opcode.

use vstd::prelude::*;

verus! {

/// The three-bit field that selects a register or the memory operand in an opcode.
pub type RegisterOp = u8;

/// The two-bit field that selects a register pair in an opcode.
pub type RegisterPairOp = u8;

/// An 8-bit operand of an instruction. `M` is no physical register: it stands for the
/// byte of memory that the pair HL addresses.
#[derive(Debug, Clone, Copy, PartialEq, Eq, Hash, Structural)]
pub enum Register {
    A,
    B,
    C,
    D,
    E,
    H,
    L,
    M,
}

/// The register that the three-bit code `op` selects. Codes above 7 select nothing; the
/// function gives them `A` so that it is total.
pub open spec fn register_of_code(op: RegisterOp) -> Register {
    if op == 0 {
        Register::B
    } else if op == 1 {
        Register::C
    } else if op == 2 {
        Register::D
    } else if op == 3 {
        Register::E
    } else if op == 4 {
        Register::H
    } else if op == 5 {
        Register::L
    } else if op == 6 {
        Register::M
    } else {
        Register::A
    }
}

/// The three-bit code that selects `reg`.
pub open spec fn code_of_register(reg: Register) -> RegisterOp {
    match reg {
        Register::B => 0,
        Register::C => 1,
        Register::D => 2,
        Register::E => 3,
        Register::H => 4,
        Register::L => 5,
        Register::M => 6,
        Register::A => 7,
    }
}

impl Register {
    /// Decodes a three-bit register field. A code above 7 names no register and is
    /// excluded.
    pub fn from(op: RegisterOp) -> (reg: Register)
        requires
            op < 8,
        ensures
            reg == register_of_code(op),
            code_of_register(reg) == op,
    {
        match op {
            0b000 => Register::B,
            0b001 => Register::C,
            0b010 => Register::D,
            0b011 => Register::E,
            0b100 => Register::H,
            0b101 => Register::L,
            0b110 => Register::M,
            _ => Register::A,
        }
    }
}

impl From<Register> for RegisterOp {
    fn from(reg: Register) -> (op: RegisterOp) {
        match reg {
            Register::A => 0b111,
            Register::B => 0b000,
            Register::C => 0b001,
            Register::D => 0b010,
            Register::E => 0b011,
            Register::H => 0b100,
            Register::L => 0b101,
            Register::M => 0b110,
        }
    }
}

impl vstd::std_specs::convert::FromSpecImpl<Register> for RegisterOp {
    open spec fn obeys_from_spec() -> bool {
        true
    }

    open spec fn from_spec(reg: Register) -> RegisterOp {
        code_of_register(reg)
    }
}

/// A 16-bit operand of an instruction: one of the pairs B:C, D:E and H:L, with the first
/// register as the high byte, or the stack pointer.
#[derive(Debug, Clone, Copy, PartialEq, Eq, Hash, Structural)]
pub enum RegisterPair {
    BC,
    DE,
    HL,
    SP,
}

/// The pair that the two-bit code `op` selects. Codes above 3 select nothing; the
/// function gives them `SP` so that it is total.
pub open spec fn pair_of_code(op: RegisterPairOp) -> RegisterPair {
    if op == 0 {
        RegisterPair::BC
    } else if op == 1 {
        RegisterPair::DE
    } else if op == 2 {
        RegisterPair::HL
    } else {
        RegisterPair::SP
    }
}

/// The two-bit code that selects `pair`.
pub open spec fn code_of_pair(pair: RegisterPair) -> RegisterPairOp {
    match pair {
        RegisterPair::BC => 0,
        RegisterPair::DE => 1,
        RegisterPair::HL => 2,
        RegisterPair::SP => 3,
    }
}

impl RegisterPair {
    /// Decodes a two-bit register-pair field. A code above 3 names no pair and is
    /// excluded.
    pub fn from(op: RegisterPairOp) -> (pair: RegisterPair)
        requires
            op < 4,
        ensures
            pair == pair_of_code(op),
            code_of_pair(pair) == op,
    {
        match op {
            0b00 => RegisterPair::BC,
            0b01 => RegisterPair::DE,
            0b10 => RegisterPair::HL,
            _ => RegisterPair::SP,
        }
    }
}

impl From<RegisterPair> for RegisterPairOp {
    fn from(pair: RegisterPair) -> (op: RegisterPairOp) {
        match pair {
            RegisterPair::BC => 0b00,
            RegisterPair::DE => 0b01,
            RegisterPair::HL => 0b10,
            RegisterPair::SP => 0b11,
        }
    }
}

impl vstd::std_specs::convert::FromSpecImpl<RegisterPair> for RegisterPairOp {
    open spec fn obeys_from_spec() -> bool {
        true
    }

    open spec fn from_spec(pair: RegisterPair) -> RegisterPairOp {
        code_of_pair(pair)
    }
}

/// Every register has a code below 8, and decoding that code gives the register back.
pub proof fn lemma_register_code_round_trip(reg: Register)
    ensures
        code_of_register(reg) < 8,
        register_of_code(code_of_register(reg)) == reg,
{
}

/// Every register pair has a code below 4, and decoding that code gives the pair back.
pub proof fn lemma_pair_code_round_trip(pair: RegisterPair)
    ensures
        code_of_pair(pair) < 4,
        pair_of_code(code_of_pair(pair)) == pair,
{
}

} // verus!
