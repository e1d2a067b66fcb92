use emu8080::cpu::alu::{
    add_with_carry, decimal_adjust, decrement, double_add, increment, logical, operate, parity,
    result_flags, rotate, subtract_with_borrow, Operation, Rotation,
};
use emu8080::cpu::condition::{Condition, ConditionOp, ConditionOpCode};
use emu8080::cpu::memory::{join_word, split_word, Memory, MemoryBoundsError, MEMORY_SIZE};
use emu8080::cpu::register::{Register, RegisterOp, RegisterPair, RegisterPairOp};

fn flags(z: bool, s: bool, p: bool, cy: bool, ac: bool) -> Condition {
    Condition { z, s, p, cy, ac }
}

#[test]
fn register_codes() {
    let expected = [
        Register::B,
        Register::C,
        Register::D,
        Register::E,
        Register::H,
        Register::L,
        Register::M,
        Register::A,
    ];
    for code in 0..8u8 {
        let reg = Register::from(code);
        assert_eq!(reg, expected[code as usize]);
        assert_eq!(<RegisterOp as From<Register>>::from(reg), code);
    }
}

#[test]
fn register_pair_codes() {
    let expected = [RegisterPair::BC, RegisterPair::DE, RegisterPair::HL, RegisterPair::SP];
    for code in 0..4u8 {
        let pair = RegisterPair::from(code);
        assert_eq!(pair, expected[code as usize]);
        assert_eq!(<RegisterPairOp as From<RegisterPair>>::from(pair), code);
    }
}

#[test]
fn condition_codes() {
    let expected = [
        ConditionOp::NZ,
        ConditionOp::Z,
        ConditionOp::NC,
        ConditionOp::C,
        ConditionOp::PO,
        ConditionOp::PE,
        ConditionOp::P,
        ConditionOp::M,
    ];
    for code in 0..8i8 {
        let condition = ConditionOp::from(code);
        assert_eq!(condition, expected[code as usize]);
        assert_eq!(<ConditionOpCode as From<ConditionOp>>::from(condition), code);
    }
}

#[test]
fn condition_truth_table() {
    for bits in 0..32u8 {
        let f = flags(bits & 1 != 0, bits & 2 != 0, bits & 4 != 0, bits & 8 != 0, bits & 16 != 0);
        assert_eq!(ConditionOp::NZ.evaluate(&f), !f.z);
        assert_eq!(ConditionOp::Z.evaluate(&f), f.z);
        assert_eq!(ConditionOp::NC.evaluate(&f), !f.cy);
        assert_eq!(ConditionOp::C.evaluate(&f), f.cy);
        assert_eq!(ConditionOp::PO.evaluate(&f), !f.p);
        assert_eq!(ConditionOp::PE.evaluate(&f), f.p);
        assert_eq!(ConditionOp::P.evaluate(&f), !f.s);
        assert_eq!(ConditionOp::M.evaluate(&f), f.s);
    }
}

#[test]
fn new_flags_are_clear() {
    assert_eq!(Condition::new(), flags(false, false, false, false, false));
}

#[test]
fn status_byte_layout() {
    assert_eq!(Condition::new().to_byte(), 0x02);
    assert_eq!(flags(false, true, false, false, false).to_byte(), 0x82);
    assert_eq!(flags(true, false, false, false, false).to_byte(), 0x42);
    assert_eq!(flags(false, false, false, false, true).to_byte(), 0x12);
    assert_eq!(flags(false, false, true, false, false).to_byte(), 0x06);
    assert_eq!(flags(false, false, false, true, false).to_byte(), 0x03);
    assert_eq!(flags(true, true, true, true, true).to_byte(), 0xd7);
}

#[test]
fn status_byte_round_trip() {
    for bits in 0..32u8 {
        let f = flags(bits & 1 != 0, bits & 2 != 0, bits & 4 != 0, bits & 8 != 0, bits & 16 != 0);
        assert_eq!(Condition::from_byte(f.to_byte()), f);
    }
    for byte in 0..=255u8 {
        assert_eq!(Condition::from_byte(byte).to_byte(), (byte & 0xd7) | 0x02);
    }
}

#[test]
fn parity_counts_set_bits() {
    for value in 0..=255u8 {
        assert_eq!(parity(value), value.count_ones() % 2 == 0, "value {:#04x}", value);
    }
    assert!(parity(0x00));
    assert!(!parity(0x01));
    assert!(parity(0xff));
}

#[test]
fn result_flags_keep_carries() {
    let f = result_flags(flags(false, false, false, true, true), 0x80);
    assert_eq!(f, flags(false, true, false, true, true));
    let f = result_flags(flags(true, true, true, false, false), 0x03);
    assert_eq!(f, flags(false, false, true, false, false));
}

#[test]
fn addition_against_wide_arithmetic() {
    for a in 0..=255u16 {
        for b in 0..=255u16 {
            for c in 0..=1u16 {
                let (value, f) = add_with_carry(a as u8, b as u8, c == 1);
                let sum = a + b + c;
                assert_eq!(value, (sum & 0xff) as u8);
                assert_eq!(f.cy, sum > 0xff);
                assert_eq!(f.ac, (a & 0xf) + (b & 0xf) + c > 0xf);
                assert_eq!(f.z, value == 0);
                assert_eq!(f.s, value & 0x80 != 0);
                assert_eq!(f.p, value.count_ones() % 2 == 0);
            }
        }
    }
}

#[test]
fn addition_examples() {
    assert_eq!(add_with_carry(0x2e, 0x6c, false), (0x9a, flags(false, true, true, false, true)));
    assert_eq!(add_with_carry(0xff, 0x01, false), (0x00, flags(true, false, true, true, true)));
    assert_eq!(add_with_carry(0x3d, 0x42, true), (0x80, flags(false, true, false, false, true)));
}

#[test]
fn subtraction_against_wide_arithmetic() {
    for a in 0..=255i16 {
        for b in 0..=255i16 {
            for c in 0..=1i16 {
                let (value, f) = subtract_with_borrow(a as u8, b as u8, c == 1);
                let difference = a - b - c;
                assert_eq!(value, (difference & 0xff) as u8);
                assert_eq!(f.cy, difference < 0);
                assert_eq!(f.ac, (a & 0xf) - (b & 0xf) - c < 0);
                assert_eq!(f.z, value == 0);
                assert_eq!(f.s, value & 0x80 != 0);
                assert_eq!(f.p, value.count_ones() % 2 == 0);
            }
        }
    }
}

#[test]
fn subtraction_examples() {
    assert_eq!(subtract_with_borrow(0x3e, 0x3e, false), (0x00, flags(true, false, true, false, false)));
    assert_eq!(subtract_with_borrow(0x00, 0x01, false), (0xff, flags(false, true, true, true, true)));
    assert_eq!(subtract_with_borrow(0x04, 0x02, true), (0x01, flags(false, false, false, false, false)));
}

#[test]
fn logical_operations_clear_carry_and_keep_auxiliary_carry() {
    let before = flags(false, false, false, true, true);
    assert_eq!(operate(Operation::And, 0xfc, 0x0f, before), (0x0c, flags(false, false, true, false, true)));
    assert_eq!(operate(Operation::Xor, 0x5c, 0x5c, before), (0x00, flags(true, false, true, false, true)));
    assert_eq!(operate(Operation::Or, 0x33, 0x0f, before), (0x3f, flags(false, false, true, false, true)));
    let before = flags(false, false, false, true, false);
    assert_eq!(operate(Operation::Or, 0x80, 0x00, before), (0x80, flags(false, true, false, false, false)));
    assert_eq!(logical(before, 0x00), flags(true, false, true, false, false));
}

#[test]
fn operations_of_the_arithmetic_group() {
    let carry = flags(false, false, false, true, false);
    let clear = Condition::new();
    assert_eq!(operate(Operation::Add, 0x10, 0x05, carry).0, 0x15);
    assert_eq!(operate(Operation::AddWithCarry, 0x10, 0x05, carry).0, 0x16);
    assert_eq!(operate(Operation::AddWithCarry, 0x10, 0x05, clear).0, 0x15);
    assert_eq!(operate(Operation::Subtract, 0x10, 0x05, carry).0, 0x0b);
    assert_eq!(operate(Operation::SubtractWithBorrow, 0x10, 0x05, carry).0, 0x0a);
    assert_eq!(operate(Operation::SubtractWithBorrow, 0x10, 0x05, clear).0, 0x0b);
}

#[test]
fn comparison_sets_flags_and_keeps_the_accumulator() {
    let (value, f) = operate(Operation::Compare, 0x0a, 0x05, Condition::new());
    assert_eq!(value, 0x0a);
    assert_eq!(f, flags(false, false, true, false, false));
    let (value, f) = operate(Operation::Compare, 0x02, 0x05, Condition::new());
    assert_eq!(value, 0x02);
    assert_eq!(f, flags(false, true, false, true, true));
    let (value, f) = operate(Operation::Compare, 0x05, 0x05, Condition::new());
    assert_eq!(value, 0x05);
    assert!(f.z && !f.cy);
}

#[test]
fn increment_and_decrement_leave_the_carry() {
    for carry in [false, true] {
        let before = flags(false, false, false, carry, false);
        assert_eq!(increment(before, 0xff), (0x00, flags(true, false, true, carry, true)));
        assert_eq!(increment(before, 0x0f), (0x10, flags(false, false, false, carry, true)));
        assert_eq!(increment(before, 0x7f), (0x80, flags(false, true, false, carry, true)));
        assert_eq!(increment(before, 0x00), (0x01, flags(false, false, false, carry, false)));
        assert_eq!(decrement(before, 0x00), (0xff, flags(false, true, true, carry, true)));
        assert_eq!(decrement(before, 0x01), (0x00, flags(true, false, true, carry, false)));
        assert_eq!(decrement(before, 0x10), (0x0f, flags(false, false, true, carry, true)));
    }
}

#[test]
fn rotations() {
    assert_eq!(rotate(Rotation::Left, 0xf2, false), (0xe5, true));
    assert_eq!(rotate(Rotation::Left, 0x72, true), (0xe4, false));
    assert_eq!(rotate(Rotation::Right, 0xf3, false), (0xf9, true));
    assert_eq!(rotate(Rotation::Right, 0xf2, true), (0x79, false));
    assert_eq!(rotate(Rotation::LeftThroughCarry, 0xb5, false), (0x6a, true));
    assert_eq!(rotate(Rotation::LeftThroughCarry, 0x35, true), (0x6b, false));
    assert_eq!(rotate(Rotation::RightThroughCarry, 0x6a, true), (0xb5, false));
    assert_eq!(rotate(Rotation::RightThroughCarry, 0x6b, false), (0x35, true));
    for a in 0..=255u8 {
        assert_eq!(rotate(Rotation::Left, a, false).0, a.rotate_left(1));
        assert_eq!(rotate(Rotation::Right, a, true).0, a.rotate_right(1));
    }
}

#[test]
fn decimal_adjustment_examples() {
    let (value, f) = decimal_adjust(0x9b, Condition::new());
    assert_eq!(value, 0x01);
    assert!(f.cy && f.ac && !f.z && !f.s && !f.p);
    let (value, f) = decimal_adjust(0x45, Condition::new());
    assert_eq!(value, 0x45);
    assert!(!f.cy && !f.ac);
    let (value, f) = decimal_adjust(0x0a, Condition::new());
    assert_eq!(value, 0x10);
    assert!(!f.cy && f.ac);
    let (value, f) = decimal_adjust(0x10, flags(false, false, false, false, true));
    assert_eq!(value, 0x16);
    assert!(!f.cy && !f.ac);
    let (value, f) = decimal_adjust(0xa0, Condition::new());
    assert_eq!(value, 0x00);
    assert!(f.cy && f.z && f.p);
    let (value, f) = decimal_adjust(0x12, flags(false, false, false, true, false));
    assert_eq!(value, 0x72);
    assert!(f.cy);
    let (value, f) = decimal_adjust(0xfa, Condition::new());
    assert_eq!(value, 0x60);
    assert!(f.cy && f.ac);
}

#[test]
fn decimal_adjustment_makes_packed_decimal_sums() {
    for x in 0..100u8 {
        for y in 0..100u8 {
            let packed_x = (x / 10) * 16 + x % 10;
            let packed_y = (y / 10) * 16 + y % 10;
            let (sum, f) = add_with_carry(packed_x, packed_y, false);
            let (adjusted, g) = decimal_adjust(sum, f);
            let total = x as u16 + y as u16;
            let expected = ((total % 100) / 10) as u8 * 16 + (total % 10) as u8;
            assert_eq!(adjusted, expected, "{} + {}", x, y);
            assert_eq!(g.cy, total >= 100, "{} + {}", x, y);
        }
    }
}

#[test]
fn sixteen_bit_addition() {
    assert_eq!(double_add(0xffff, 0x0001), (0x0000, true));
    assert_eq!(double_add(0x339f, 0xa17b), (0xd51a, false));
    assert_eq!(double_add(0x8000, 0x8000), (0x0000, true));
    assert_eq!(double_add(0x0000, 0x0000), (0x0000, false));
    assert_eq!(double_add(0xffff, 0xffff), (0xfffe, true));
}

#[test]
fn words_and_bytes() {
    assert_eq!(join_word(0x34, 0x12), 0x1234);
    assert_eq!(split_word(0x1234), (0x34, 0x12));
    for word in [0x0000u16, 0x00ff, 0xff00, 0xffff, 0xabcd] {
        let (lo, hi) = split_word(word);
        assert_eq!(join_word(lo, hi), word);
    }
}

#[test]
fn memory_starts_zeroed_and_checks_bounds() {
    let mut memory = Memory::new();
    assert_eq!(MEMORY_SIZE, 65536);
    assert_eq!(memory.read_byte(0), Ok(0));
    assert_eq!(memory.read_byte(65535), Ok(0));
    assert_eq!(memory.read_byte(65536), Err(MemoryBoundsError { address: 65536 }));
    assert_eq!(memory.write_byte(65536, 1), Err(MemoryBoundsError { address: 65536 }));
    assert_eq!(memory.write_byte(65535, 0xaa), Ok(()));
    assert_eq!(memory.read_byte(65535), Ok(0xaa));
    assert_eq!(memory.load(65535), 0xaa);
    assert_eq!(memory.read_word(65535), Err(MemoryBoundsError { address: 65535 }));
    assert_eq!(memory.write_word(65535, 0x1234), Err(MemoryBoundsError { address: 65535 }));
    assert_eq!(memory.read_byte(65535), Ok(0xaa));
    assert_eq!(memory.read_byte(0), Ok(0));
    assert_eq!(memory.read_word(usize::MAX), Err(MemoryBoundsError { address: usize::MAX }));
}

#[test]
fn memory_words_are_little_endian() {
    let mut memory = Memory::new();
    assert_eq!(memory.write_word(0x2000, 0x1234), Ok(()));
    assert_eq!(memory.read_byte(0x2000), Ok(0x34));
    assert_eq!(memory.read_byte(0x2001), Ok(0x12));
    assert_eq!(memory.read_word(0x2000), Ok(0x1234));
    assert_eq!(memory.load_word(0x2000), 0x1234);
    assert_eq!(memory.write_word(65534, 0xbeef), Ok(()));
    assert_eq!(memory.read_word(65534), Ok(0xbeef));
    memory.store(0x10, 0x77);
    assert_eq!(memory.load(0x10), 0x77);
}

#[test]
fn memory_words_wrap_at_sixteen_bit_addresses() {
    let mut memory = Memory::new();
    memory.store_word(0xffff, 0xabcd);
    assert_eq!(memory.load(0xffff), 0xcd);
    assert_eq!(memory.load(0x0000), 0xab);
    assert_eq!(memory.load_word(0xffff), 0xabcd);
}
