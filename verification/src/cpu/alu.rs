//! The arithmetic and logic unit: what each operation computes from bytes and flags,
//! stated over integers, and the functions that compute it.
//!
//! A carry is a carry out of bit 7 on addition and a borrow into bit 7 on subtraction;
//! an auxiliary carry is the same at bit 3. The logical operations clear the carry and
//! leave the auxiliary carry as it was.

use super::condition::{Condition, flag_bit};
use vstd::prelude::*;

verus! {

/// The number of binary digits of `value` that are 1.
#[verifier::opaque]
pub open spec fn ones(value: u8) -> int {
    value % 2 + (value / 2) % 2 + (value / 4) % 2 + (value / 8) % 2 + (value / 16) % 2 + (value
        / 32) % 2 + (value / 64) % 2 + (value / 128) % 2
}

/// Whether an even number of the binary digits of `value` are 1.
pub open spec fn even_parity(value: u8) -> bool {
    ones(value) % 2 == 0
}

/// The flags after an operation with the result `value` that sets zero, sign and parity
/// from its result and leaves carry and auxiliary carry as they were.
pub open spec fn with_result(flags: Condition, value: u8) -> Condition {
    Condition { z: value == 0, s: value >= 128, p: even_parity(value), ..flags }
}

/// The sum of `a`, `b` and the carry, modulo 256.
pub open spec fn add_value(a: u8, b: u8, carry: bool) -> u8 {
    ((a + b + flag_bit(carry, 1)) % 256) as u8
}

/// The flags after adding `b` and the carry to `a`.
pub open spec fn add_flags(a: u8, b: u8, carry: bool) -> Condition {
    Condition {
        z: add_value(a, b, carry) == 0,
        s: add_value(a, b, carry) >= 128,
        p: even_parity(add_value(a, b, carry)),
        cy: a + b + flag_bit(carry, 1) > 255,
        ac: a % 16 + b % 16 + flag_bit(carry, 1) > 15,
    }
}

/// The difference of `a` and `b` less the borrow, modulo 256.
pub open spec fn sub_value(a: u8, b: u8, borrow: bool) -> u8 {
    ((a - b - flag_bit(borrow, 1)) % 256) as u8
}

/// The flags after subtracting `b` and the borrow from `a`.
pub open spec fn sub_flags(a: u8, b: u8, borrow: bool) -> Condition {
    Condition {
        z: sub_value(a, b, borrow) == 0,
        s: sub_value(a, b, borrow) >= 128,
        p: even_parity(sub_value(a, b, borrow)),
        cy: a - b - flag_bit(borrow, 1) < 0,
        ac: a % 16 - b % 16 - flag_bit(borrow, 1) < 0,
    }
}

/// The flags after a logical operation with the result `value`.
pub open spec fn logic_flags(flags: Condition, value: u8) -> Condition {
    Condition { cy: false, ..with_result(flags, value) }
}

/// The operations of the arithmetic and logic group, which combine the accumulator with
/// a register, a byte of memory or an immediate byte.
#[derive(Debug, Clone, Copy, PartialEq, Eq, Hash, Structural)]
pub enum Operation {
    Add,
    AddWithCarry,
    Subtract,
    SubtractWithBorrow,
    And,
    Xor,
    Or,
    /// A subtraction that sets the flags and leaves the accumulator as it was.
    Compare,
}

/// The accumulator after `operation` is applied to the accumulator `a` and `operand`.
pub open spec fn operation_value(operation: Operation, a: u8, operand: u8, flags: Condition) -> u8 {
    match operation {
        Operation::Add => add_value(a, operand, false),
        Operation::AddWithCarry => add_value(a, operand, flags.cy),
        Operation::Subtract => sub_value(a, operand, false),
        Operation::SubtractWithBorrow => sub_value(a, operand, flags.cy),
        Operation::And => a & operand,
        Operation::Xor => a ^ operand,
        Operation::Or => a | operand,
        Operation::Compare => a,
    }
}

/// The flags after `operation` is applied to the accumulator `a` and `operand`.
pub open spec fn operation_flags(
    operation: Operation,
    a: u8,
    operand: u8,
    flags: Condition,
) -> Condition {
    match operation {
        Operation::Add => add_flags(a, operand, false),
        Operation::AddWithCarry => add_flags(a, operand, flags.cy),
        Operation::Subtract | Operation::Compare => sub_flags(a, operand, false),
        Operation::SubtractWithBorrow => sub_flags(a, operand, flags.cy),
        Operation::And => logic_flags(flags, a & operand),
        Operation::Xor => logic_flags(flags, a ^ operand),
        Operation::Or => logic_flags(flags, a | operand),
    }
}

/// `value` plus one, modulo 256.
pub open spec fn increment_value(value: u8) -> u8 {
    ((value + 1) % 256) as u8
}

/// The flags after incrementing `value`: the carry stays as it was.
pub open spec fn increment_flags(flags: Condition, value: u8) -> Condition {
    Condition { ac: value % 16 == 15, ..with_result(flags, increment_value(value)) }
}

/// `value` less one, modulo 256.
pub open spec fn decrement_value(value: u8) -> u8 {
    ((value - 1) % 256) as u8
}

/// The flags after decrementing `value`: the carry stays as it was.
pub open spec fn decrement_flags(flags: Condition, value: u8) -> Condition {
    Condition { ac: value % 16 == 0, ..with_result(flags, decrement_value(value)) }
}

/// The four rotations of the accumulator.
#[derive(Debug, Clone, Copy, PartialEq, Eq, Hash, Structural)]
pub enum Rotation {
    /// Left; bit 7 goes to bit 0 and to the carry.
    Left,
    /// Right; bit 0 goes to bit 7 and to the carry.
    Right,
    /// Left through the carry: the carry goes to bit 0, bit 7 to the carry.
    LeftThroughCarry,
    /// Right through the carry: the carry goes to bit 7, bit 0 to the carry.
    RightThroughCarry,
}

/// The accumulator after a rotation.
pub open spec fn rotate_value(rotation: Rotation, a: u8, carry: bool) -> u8 {
    match rotation {
        Rotation::Left => ((a * 2) % 256 + a / 128) as u8,
        Rotation::Right => (a / 2 + (a % 2) * 128) as u8,
        Rotation::LeftThroughCarry => ((a * 2) % 256 + flag_bit(carry, 1)) as u8,
        Rotation::RightThroughCarry => (a / 2 + flag_bit(carry, 128)) as u8,
    }
}

/// The carry after a rotation: the bit that left the accumulator.
pub open spec fn rotate_carry(rotation: Rotation, a: u8) -> bool {
    match rotation {
        Rotation::Left | Rotation::LeftThroughCarry => a >= 128,
        Rotation::Right | Rotation::RightThroughCarry => a % 2 == 1,
    }
}

/// The first step of the decimal adjustment: 6 is added where the low digit is above 9
/// or the auxiliary carry is set.
pub open spec fn decimal_low_adjust(a: u8, flags: Condition) -> int {
    if a % 16 > 9 || flags.ac {
        6
    } else {
        0
    }
}

/// The second step of the decimal adjustment: 6 is added to the high digit where, after
/// the first step, it is above 9, or the carry is set. After the first step the high
/// digit counts a carry out of bit 7 too.
pub open spec fn decimal_high_adjust(a: u8, flags: Condition) -> int {
    if (a + decimal_low_adjust(a, flags)) / 16 > 9 || flags.cy {
        0x60
    } else {
        0
    }
}

/// The accumulator after the decimal adjustment.
pub open spec fn decimal_adjust_value(a: u8, flags: Condition) -> u8 {
    ((a + decimal_low_adjust(a, flags) + decimal_high_adjust(a, flags)) % 256) as u8
}

/// The flags after the decimal adjustment: the auxiliary carry is the carry out of the
/// low digit in the first step; the carry is set where the second step added, and is
/// never cleared.
pub open spec fn decimal_adjust_flags(a: u8, flags: Condition) -> Condition {
    Condition {
        cy: decimal_high_adjust(a, flags) != 0,
        ac: a % 16 + decimal_low_adjust(a, flags) > 15,
        ..with_result(flags, decimal_adjust_value(a, flags))
    }
}

/// The sum of two 16-bit values, modulo 65536.
pub open spec fn double_add_value(x: u16, y: u16) -> u16 {
    ((x + y) % 65536) as u16
}

/// Whether the sum of two 16-bit values carries out of bit 15.
pub open spec fn double_add_carry(x: u16, y: u16) -> bool {
    x + y > 65535
}

/// Tells whether `value` has even parity.
pub fn parity(value: u8) -> (even: bool)
    ensures
        even == even_parity(value),
{
    reveal(ones);
    let folded: u8 = value ^ (value >> 4);
    let folded: u8 = folded ^ (folded >> 2);
    let folded: u8 = folded ^ (folded >> 1);
    assert((((value ^ (value >> 4)) ^ ((value ^ (value >> 4)) >> 2)) ^ (((value ^ (value >> 4)) ^ ((
    value ^ (value >> 4)) >> 2)) >> 1)) & 1 == 0 <==> (value % 2 + (value / 2) % 2 + (value / 4) % 2
        + (value / 8) % 2 + (value / 16) % 2 + (value / 32) % 2 + (value / 64) % 2 + (value / 128)
        % 2) % 2 == 0) by (bit_vector);
    folded & 1 == 0
}

/// Sets zero, sign and parity from `value`.
pub fn result_flags(flags: Condition, value: u8) -> (updated: Condition)
    ensures
        updated == with_result(flags, value),
{
    Condition { z: value == 0, s: value >= 0x80, p: parity(value), cy: flags.cy, ac: flags.ac }
}

/// Adds `b` and the carry to `a`.
pub fn add_with_carry(a: u8, b: u8, carry: bool) -> (result: (u8, Condition))
    ensures
        result.0 == add_value(a, b, carry),
        result.1 == add_flags(a, b, carry),
{
    let carry_in: u16 = if carry {
        1
    } else {
        0
    };
    let sum: u16 = a as u16 + b as u16 + carry_in;
    let low_sum: u16 = (a & 0x0f) as u16 + (b & 0x0f) as u16 + carry_in;
    assert(a & 0x0f == a % 16) by (bit_vector);
    assert(b & 0x0f == b % 16) by (bit_vector);
    let value: u8 = if sum > 0xff {
        (sum - 0x100) as u8
    } else {
        sum as u8
    };
    let flags = Condition {
        z: value == 0,
        s: value >= 0x80,
        p: parity(value),
        cy: sum > 0xff,
        ac: low_sum > 0x0f,
    };
    (value, flags)
}

/// Subtracts `b` and the borrow from `a`.
pub fn subtract_with_borrow(a: u8, b: u8, borrow: bool) -> (result: (u8, Condition))
    ensures
        result.0 == sub_value(a, b, borrow),
        result.1 == sub_flags(a, b, borrow),
{
    let borrow_in: u16 = if borrow {
        1
    } else {
        0
    };
    let taken: u16 = b as u16 + borrow_in;
    let low_taken: u16 = (b & 0x0f) as u16 + borrow_in;
    assert(a & 0x0f == a % 16) by (bit_vector);
    assert(b & 0x0f == b % 16) by (bit_vector);
    let value: u8 = if (a as u16) < taken {
        (a as u16 + 0x100 - taken) as u8
    } else {
        (a as u16 - taken) as u8
    };
    let flags = Condition {
        z: value == 0,
        s: value >= 0x80,
        p: parity(value),
        cy: (a as u16) < taken,
        ac: ((a & 0x0f) as u16) < low_taken,
    };
    (value, flags)
}

/// The flags after a logical operation with the result `value`.
pub fn logical(flags: Condition, value: u8) -> (updated: Condition)
    ensures
        updated == logic_flags(flags, value),
{
    Condition { z: value == 0, s: value >= 0x80, p: parity(value), cy: false, ac: flags.ac }
}

/// Applies `operation` to the accumulator `a` and `operand`; gives the new accumulator
/// and the new flags.
pub fn operate(operation: Operation, a: u8, operand: u8, flags: Condition) -> (result: (
    u8,
    Condition,
))
    ensures
        result.0 == operation_value(operation, a, operand, flags),
        result.1 == operation_flags(operation, a, operand, flags),
{
    match operation {
        Operation::Add => add_with_carry(a, operand, false),
        Operation::AddWithCarry => add_with_carry(a, operand, flags.cy),
        Operation::Subtract => subtract_with_borrow(a, operand, false),
        Operation::SubtractWithBorrow => subtract_with_borrow(a, operand, flags.cy),
        Operation::And => (a & operand, logical(flags, a & operand)),
        Operation::Xor => (a ^ operand, logical(flags, a ^ operand)),
        Operation::Or => (a | operand, logical(flags, a | operand)),
        Operation::Compare => (a, subtract_with_borrow(a, operand, false).1),
    }
}

/// Increments `value`, leaving the carry alone.
pub fn increment(flags: Condition, value: u8) -> (result: (u8, Condition))
    ensures
        result.0 == increment_value(value),
        result.1 == increment_flags(flags, value),
{
    let incremented = value.wrapping_add(1);
    assert((value & 0x0f == 0x0f) == (value % 16 == 15)) by (bit_vector);
    let updated = Condition {
        z: incremented == 0,
        s: incremented >= 0x80,
        p: parity(incremented),
        cy: flags.cy,
        ac: value & 0x0f == 0x0f,
    };
    (incremented, updated)
}

/// Decrements `value`, leaving the carry alone.
pub fn decrement(flags: Condition, value: u8) -> (result: (u8, Condition))
    ensures
        result.0 == decrement_value(value),
        result.1 == decrement_flags(flags, value),
{
    let decremented = value.wrapping_sub(1);
    assert((value & 0x0f == 0) == (value % 16 == 0)) by (bit_vector);
    let updated = Condition {
        z: decremented == 0,
        s: decremented >= 0x80,
        p: parity(decremented),
        cy: flags.cy,
        ac: value & 0x0f == 0,
    };
    (decremented, updated)
}

/// Rotates the accumulator; gives its new value and the new carry.
pub fn rotate(rotation: Rotation, a: u8, carry: bool) -> (result: (u8, bool))
    ensures
        result.0 == rotate_value(rotation, a, carry),
        result.1 == rotate_carry(rotation, a),
{
    let carry_in: u8 = if carry {
        1
    } else {
        0
    };
    assert((a << 1) == (a * 2) % 256 && (a >> 7) == a / 128 && (a >> 1) == a / 2 && (a & 1) == a
        % 2 && ((a & 1) << 7) == (a % 2) * 128) by (bit_vector);
    assert(((a << 1) | (a >> 7)) == (a << 1) + (a >> 7)) by (bit_vector);
    assert(((a >> 1) | ((a & 1) << 7)) == (a >> 1) + ((a & 1) << 7)) by (bit_vector);
    assert(carry_in <= 1 ==> ((a << 1) | carry_in) == (a << 1) + carry_in && ((a >> 1) | (carry_in
        << 7)) == (a >> 1) + (carry_in << 7) && carry_in << 7 == carry_in * 128) by (bit_vector);
    match rotation {
        Rotation::Left => ((a << 1) | (a >> 7), a >= 0x80),
        Rotation::Right => ((a >> 1) | ((a & 1) << 7), a & 1 == 1),
        Rotation::LeftThroughCarry => ((a << 1) | carry_in, a >= 0x80),
        Rotation::RightThroughCarry => ((a >> 1) | (carry_in << 7), a & 1 == 1),
    }
}

/// Adjusts the accumulator after an addition of two packed decimal numbers.
pub fn decimal_adjust(a: u8, flags: Condition) -> (result: (u8, Condition))
    ensures
        result.0 == decimal_adjust_value(a, flags),
        result.1 == decimal_adjust_flags(a, flags),
{
    let low: u8 = a & 0x0f;
    let high: u8 = a >> 4;
    assert(a & 0x0f == a % 16 && a >> 4 == a / 16) by (bit_vector);
    let mut correction: u16 = 0;
    let mut carry = false;
    if flags.ac || low > 9 {
        correction = correction + 0x06;
    }
    if flags.cy || high > 9 || (high >= 9 && low > 9) {
        correction = correction + 0x60;
        carry = true;
    }
    let sum: u16 = a as u16 + correction;
    let value: u8 = if sum > 0xff {
        (sum - 0x100) as u8
    } else {
        sum as u8
    };
    let updated = Condition {
        z: value == 0,
        s: value >= 0x80,
        p: parity(value),
        cy: carry,
        ac: low > 9,
    };
    (value, updated)
}

/// Adds two 16-bit values; gives the sum modulo 65536 and the carry out of bit 15.
pub fn double_add(x: u16, y: u16) -> (result: (u16, bool))
    ensures
        result.0 == double_add_value(x, y),
        result.1 == double_add_carry(x, y),
{
    let sum: u32 = x as u32 + y as u32;
    if sum > 0xffff {
        ((sum - 0x1_0000) as u16, true)
    } else {
        (sum as u16, false)
    }
}

} // verus!
