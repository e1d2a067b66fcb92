//! The five condition flags, the byte that packs them on the stack, and the eight
//! conditions that conditional jumps, calls and returns test.

use vstd::prelude::*;

verus! {

/// The three-bit field that selects a condition in an opcode.
pub type ConditionOpCode = i8;

/// A predicate over the flags, tested by the conditional transfer instructions.
#[derive(Debug, Clone, Copy, PartialEq, Eq, Hash, Structural)]
pub enum ConditionOp {
    /// Zero flag clear.
    NZ,
    /// Zero flag set.
    Z,
    /// Carry flag clear.
    NC,
    /// Carry flag set.
    C,
    /// Parity flag clear (odd parity).
    PO,
    /// Parity flag set (even parity).
    PE,
    /// Sign flag clear (plus).
    P,
    /// Sign flag set (minus).
    M,
}

/// The flag register: zero, sign, parity, carry and auxiliary carry.
#[derive(Debug, Clone, Copy, PartialEq, Eq, Hash, Structural)]
pub struct Condition {
    pub z: bool,
    pub s: bool,
    pub p: bool,
    pub cy: bool,
    pub ac: bool,
}

/// The condition that the three-bit code `op` selects. Codes outside 0..=7 select
/// nothing; the function gives them `M` so that it is total.
pub open spec fn condition_of_code(op: ConditionOpCode) -> ConditionOp {
    if op == 0 {
        ConditionOp::NZ
    } else if op == 1 {
        ConditionOp::Z
    } else if op == 2 {
        ConditionOp::NC
    } else if op == 3 {
        ConditionOp::C
    } else if op == 4 {
        ConditionOp::PO
    } else if op == 5 {
        ConditionOp::PE
    } else if op == 6 {
        ConditionOp::P
    } else {
        ConditionOp::M
    }
}

/// The three-bit code that selects `op`.
pub open spec fn code_of_condition(op: ConditionOp) -> ConditionOpCode {
    match op {
        ConditionOp::NZ => 0,
        ConditionOp::Z => 1,
        ConditionOp::NC => 2,
        ConditionOp::C => 3,
        ConditionOp::PO => 4,
        ConditionOp::PE => 5,
        ConditionOp::P => 6,
        ConditionOp::M => 7,
    }
}

impl ConditionOp {
    /// Decodes a three-bit condition field. A code outside 0..=7 names no condition and
    /// is excluded.
    pub fn from(op: ConditionOpCode) -> (cond: ConditionOp)
        requires
            0 <= op < 8,
        ensures
            cond == condition_of_code(op),
            code_of_condition(cond) == op,
    {
        match op {
            0b000 => ConditionOp::NZ,
            0b001 => ConditionOp::Z,
            0b010 => ConditionOp::NC,
            0b011 => ConditionOp::C,
            0b100 => ConditionOp::PO,
            0b101 => ConditionOp::PE,
            0b110 => ConditionOp::P,
            _ => ConditionOp::M,
        }
    }

    /// Whether the condition is true of `flags`.
    pub open spec fn holds(self, flags: Condition) -> bool {
        match self {
            ConditionOp::NZ => !flags.z,
            ConditionOp::Z => flags.z,
            ConditionOp::NC => !flags.cy,
            ConditionOp::C => flags.cy,
            ConditionOp::PO => !flags.p,
            ConditionOp::PE => flags.p,
            ConditionOp::P => !flags.s,
            ConditionOp::M => flags.s,
        }
    }

    /// Tests the condition against `flags`.
    pub fn evaluate(&self, flags: &Condition) -> (taken: bool)
        ensures
            taken == self.holds(*flags),
    {
        match self {
            ConditionOp::NZ => !flags.z,
            ConditionOp::Z => flags.z,
            ConditionOp::NC => !flags.cy,
            ConditionOp::C => flags.cy,
            ConditionOp::PO => !flags.p,
            ConditionOp::PE => flags.p,
            ConditionOp::P => !flags.s,
            ConditionOp::M => flags.s,
        }
    }
}

impl From<ConditionOp> for ConditionOpCode {
    fn from(op: ConditionOp) -> (code: ConditionOpCode) {
        match op {
            ConditionOp::NZ => 0b000,
            ConditionOp::Z => 0b001,
            ConditionOp::NC => 0b010,
            ConditionOp::C => 0b011,
            ConditionOp::PO => 0b100,
            ConditionOp::PE => 0b101,
            ConditionOp::P => 0b110,
            ConditionOp::M => 0b111,
        }
    }
}

impl vstd::std_specs::convert::FromSpecImpl<ConditionOp> for ConditionOpCode {
    open spec fn obeys_from_spec() -> bool {
        true
    }

    open spec fn from_spec(op: ConditionOp) -> ConditionOpCode {
        code_of_condition(op)
    }
}

/// The value that a flag contributes to the status byte: `weight` when set, 0 when clear.
pub open spec fn flag_bit(flag: bool, weight: int) -> int {
    if flag {
        weight
    } else {
        0
    }
}

impl Condition {
    /// The flag register after reset: every flag clear.
    pub fn new() -> (flags: Condition)
        ensures
            flags == (Condition { z: false, s: false, p: false, cy: false, ac: false }),
    {
        Condition { z: false, s: false, p: false, cy: false, ac: false }
    }

    /// The status byte that stands for the flags on the stack: sign in bit 7, zero in
    /// bit 6, auxiliary carry in bit 4, parity in bit 2 and carry in bit 0. Bit 1 is
    /// always 1, bits 3 and 5 are always 0.
    pub open spec fn status_byte(self) -> int {
        flag_bit(self.s, 128) + flag_bit(self.z, 64) + flag_bit(self.ac, 16) + flag_bit(self.p, 4)
            + 2 + flag_bit(self.cy, 1)
    }

    /// The flags that a status byte stands for. The three fixed bits are not read.
    pub open spec fn of_status_byte(byte: u8) -> Condition {
        Condition {
            s: (byte / 128) % 2 == 1,
            z: (byte / 64) % 2 == 1,
            ac: (byte / 16) % 2 == 1,
            p: (byte / 4) % 2 == 1,
            cy: byte % 2 == 1,
        }
    }

    /// Packs the flags into their status byte.
    pub fn to_byte(&self) -> (byte: u8)
        ensures
            byte == self.status_byte(),
    {
        let mut byte: u8 = 0x02;
        if self.s {
            byte = byte + 0x80;
        }
        if self.z {
            byte = byte + 0x40;
        }
        if self.ac {
            byte = byte + 0x10;
        }
        if self.p {
            byte = byte + 0x04;
        }
        if self.cy {
            byte = byte + 0x01;
        }
        byte
    }

    /// Unpacks a status byte into flags.
    pub fn from_byte(byte: u8) -> (flags: Condition)
        ensures
            flags == Condition::of_status_byte(byte),
    {
        proof {
            lemma_status_bits(byte);
        }
        Condition {
            s: byte & 0x80 != 0,
            z: byte & 0x40 != 0,
            ac: byte & 0x10 != 0,
            p: byte & 0x04 != 0,
            cy: byte & 0x01 != 0,
        }
    }
}

/// Masking a flag's bit out of a status byte agrees with reading the binary digit at its
/// place.
proof fn lemma_status_bits(byte: u8)
    ensures
        (byte & 0x80 != 0) == ((byte / 128) % 2 == 1),
        (byte & 0x40 != 0) == ((byte / 64) % 2 == 1),
        (byte & 0x10 != 0) == ((byte / 16) % 2 == 1),
        (byte & 0x04 != 0) == ((byte / 4) % 2 == 1),
        (byte & 0x01 != 0) == (byte % 2 == 1),
{
    assert((byte & 0x80 != 0) == ((byte / 128) % 2 == 1)) by (bit_vector);
    assert((byte & 0x40 != 0) == ((byte / 64) % 2 == 1)) by (bit_vector);
    assert((byte & 0x10 != 0) == ((byte / 16) % 2 == 1)) by (bit_vector);
    assert((byte & 0x04 != 0) == ((byte / 4) % 2 == 1)) by (bit_vector);
    assert((byte & 0x01 != 0) == (byte % 2 == 1)) by (bit_vector);
}

/// Every condition has a code in 0..=7, and decoding that code gives the condition back.
pub proof fn lemma_condition_code_round_trip(op: ConditionOp)
    ensures
        0 <= code_of_condition(op) < 8,
        condition_of_code(code_of_condition(op)) == op,
{
}

/// Each condition is the negation of its partner: of every pair NZ/Z, NC/C, PO/PE and
/// P/M exactly one holds of any flags.
pub proof fn lemma_conditions_come_in_opposite_pairs(flags: Condition)
    ensures
        ConditionOp::NZ.holds(flags) != ConditionOp::Z.holds(flags),
        ConditionOp::NC.holds(flags) != ConditionOp::C.holds(flags),
        ConditionOp::PO.holds(flags) != ConditionOp::PE.holds(flags),
        ConditionOp::P.holds(flags) != ConditionOp::M.holds(flags),
{
}

/// Unpacking the status byte of any flags gives those flags back, and the byte has its
/// fixed bits in place: it fits in 8 bits, bit 1 is set, bits 3 and 5 are clear.
pub proof fn lemma_status_byte_round_trip(flags: Condition)
    ensures
        0 <= flags.status_byte() < 256,
        Condition::of_status_byte(flags.status_byte() as u8) == flags,
        (flags.status_byte() / 2) % 2 == 1,
        (flags.status_byte() / 8) % 2 == 0,
        (flags.status_byte() / 32) % 2 == 0,
{
}

} // verus!
