use sm83_core::alu::{
    add16, add8, add_offset, alu, and8, bit, ccf, cpl, daa, dec16, dec8, inc16, inc8, offset_word,
    or8, reset_bit, rotate_a, scf, set_bit, shift, sub8, test_bit, xor8, AluOp, ShiftOp,
};
use sm83_core::registers::Flags;

fn flags(zero: bool, subtract: bool, half_carry: bool, carry: bool) -> Flags {
    Flags { zero, subtract, half_carry, carry }
}

const CLEAR: Flags = Flags { zero: false, subtract: false, half_carry: false, carry: false };

#[test]
fn add_sets_half_carry() {
    let (result, after) = add8(0x0F, 0x01, false);
    assert_eq!(result, 0x10);
    assert_eq!(after, flags(false, false, true, false));
}

#[test]
fn add_wraps_to_zero_with_both_carries() {
    let (result, after) = add8(0xFF, 0x01, false);
    assert_eq!(result, 0x00);
    assert_eq!(after, flags(true, false, true, true));
}

#[test]
fn add_carry_out_without_half_carry() {
    let (result, after) = add8(0xF0, 0x20, false);
    assert_eq!(result, 0x10);
    assert_eq!(after, flags(false, false, false, true));
}

#[test]
fn adc_counts_the_carry_in() {
    let (result, after) = add8(0x0F, 0x00, true);
    assert_eq!(result, 0x10);
    assert_eq!(after, flags(false, false, true, false));
    let (result, after) = add8(0xFF, 0xFF, true);
    assert_eq!(result, 0xFF);
    assert_eq!(after, flags(false, false, true, true));
    let (result, after) = add8(0x00, 0xFF, true);
    assert_eq!(result, 0x00);
    assert_eq!(after, flags(true, false, true, true));
}

#[test]
fn sub_borrows_below_zero() {
    let (result, after) = sub8(0x00, 0x01, false);
    assert_eq!(result, 0xFF);
    assert_eq!(after, flags(false, true, true, true));
}

#[test]
fn sub_of_equal_values_is_zero() {
    let (result, after) = sub8(0x3C, 0x3C, false);
    assert_eq!(result, 0x00);
    assert_eq!(after, flags(true, true, false, false));
}

#[test]
fn sub_half_borrow_only() {
    let (result, after) = sub8(0x10, 0x01, false);
    assert_eq!(result, 0x0F);
    assert_eq!(after, flags(false, true, true, false));
}

#[test]
fn sbc_counts_the_carry_in() {
    let (result, after) = sub8(0x10, 0x0F, true);
    assert_eq!(result, 0x00);
    assert_eq!(after, flags(true, true, true, false));
    let (result, after) = sub8(0x00, 0xFF, true);
    assert_eq!(result, 0x00);
    assert_eq!(after, flags(true, true, true, true));
    let (result, after) = sub8(0x05, 0x05, true);
    assert_eq!(result, 0xFF);
    assert_eq!(after, flags(false, true, true, true));
}

#[test]
fn logic_operations_set_their_fixed_flags() {
    assert_eq!(and8(0xF0, 0x0F), (0x00, flags(true, false, true, false)));
    assert_eq!(and8(0xF3, 0x35), (0x31, flags(false, false, true, false)));
    assert_eq!(or8(0x00, 0x00), (0x00, flags(true, false, false, false)));
    assert_eq!(or8(0xA0, 0x05), (0xA5, flags(false, false, false, false)));
    assert_eq!(xor8(0xFF, 0xFF), (0x00, flags(true, false, false, false)));
    assert_eq!(xor8(0xF0, 0x3C), (0xCC, flags(false, false, false, false)));
}

#[test]
fn alu_dispatches_on_the_operation() {
    let carry_set = flags(false, false, false, true);
    assert_eq!(alu(AluOp::Add, 0x0F, 0x01, carry_set), (0x10, flags(false, false, true, false)));
    assert_eq!(alu(AluOp::Adc, 0x0F, 0x01, carry_set), (0x11, flags(false, false, true, false)));
    assert_eq!(alu(AluOp::Sub, 0x10, 0x01, carry_set), (0x0F, flags(false, true, true, false)));
    assert_eq!(alu(AluOp::Sbc, 0x10, 0x01, carry_set), (0x0E, flags(false, true, true, false)));
    assert_eq!(alu(AluOp::And, 0x0F, 0x03, carry_set), (0x03, flags(false, false, true, false)));
    assert_eq!(alu(AluOp::Xor, 0x0F, 0x03, carry_set), (0x0C, flags(false, false, false, false)));
    assert_eq!(alu(AluOp::Or, 0x0C, 0x03, carry_set), (0x0F, flags(false, false, false, false)));
}

#[test]
fn compare_keeps_the_accumulator() {
    assert_eq!(alu(AluOp::Cp, 0x3C, 0x3C, CLEAR), (0x3C, flags(true, true, false, false)));
    assert_eq!(alu(AluOp::Cp, 0x3C, 0x40, CLEAR), (0x3C, flags(false, true, false, true)));
    assert_eq!(alu(AluOp::Cp, 0x00, 0x01, CLEAR), (0x00, flags(false, true, true, true)));
}

#[test]
fn increment_keeps_the_carry() {
    assert_eq!(inc8(0x0F, flags(false, true, false, true)), (0x10, flags(false, false, true, true)));
    assert_eq!(inc8(0xFF, CLEAR), (0x00, flags(true, false, true, false)));
    assert_eq!(inc8(0x41, CLEAR), (0x42, flags(false, false, false, false)));
}

#[test]
fn decrement_keeps_the_carry() {
    assert_eq!(dec8(0x10, flags(false, false, false, true)), (0x0F, flags(false, true, true, true)));
    assert_eq!(dec8(0x01, CLEAR), (0x00, flags(true, true, false, false)));
    assert_eq!(dec8(0x00, CLEAR), (0xFF, flags(false, true, true, false)));
}

#[test]
fn word_addition_keeps_zero_and_carries_from_bits_11_and_15() {
    assert_eq!(add16(0x0FFF, 0x0001, flags(true, true, false, false)), (0x1000, flags(true, false, true, false)));
    assert_eq!(add16(0xFFFF, 0x0001, CLEAR), (0x0000, flags(false, false, true, true)));
    assert_eq!(add16(0xF000, 0x1000, CLEAR), (0x0000, flags(false, false, false, true)));
    assert_eq!(add16(0x1234, 0x1111, CLEAR), (0x2345, flags(false, false, false, false)));
}

#[test]
fn word_increment_and_decrement_wrap() {
    assert_eq!(inc16(0xFFFF), 0x0000);
    assert_eq!(inc16(0x00FF), 0x0100);
    assert_eq!(dec16(0x0000), 0xFFFF);
    assert_eq!(dec16(0x0100), 0x00FF);
}

#[test]
fn offsets_are_signed() {
    assert_eq!(offset_word(0x1000, 0x05), 0x1005);
    assert_eq!(offset_word(0x1000, 0x7F), 0x107F);
    assert_eq!(offset_word(0x1000, 0x80), 0x0F80);
    assert_eq!(offset_word(0x1000, 0xFF), 0x0FFF);
    assert_eq!(offset_word(0x0000, 0xFE), 0xFFFE);
    assert_eq!(offset_word(0xFFFF, 0x01), 0x0000);
}

#[test]
fn stack_pointer_offset_flags_come_from_the_low_byte() {
    assert_eq!(add_offset(0x000F, 0x01), (0x0010, flags(false, false, true, false)));
    assert_eq!(add_offset(0x00FF, 0x01), (0x0100, flags(false, false, true, true)));
    assert_eq!(add_offset(0x0001, 0xFF), (0x0000, flags(false, false, true, true)));
    assert_eq!(add_offset(0x0000, 0xFF), (0xFFFF, flags(false, false, false, false)));
    assert_eq!(add_offset(0xFFF8, 0x02), (0xFFFA, flags(false, false, false, false)));
}

#[test]
fn daa_after_addition_corrects_low_digit() {
    let (result, after) = daa(0x0A, CLEAR);
    assert_eq!(result, 0x10);
    assert!(!after.carry);
    assert!(!after.zero);
    assert_eq!(after, flags(false, false, false, false));
}

#[test]
fn daa_after_addition_corrects_high_digit() {
    // 0x90 + 0x20 = 0xB0, which stands for 110.
    assert_eq!(daa(0xB0, CLEAR), (0x10, flags(false, false, false, true)));
    // 0x99 + 0x01 = 0x9A, which stands for 100.
    assert_eq!(daa(0x9A, CLEAR), (0x00, flags(true, false, false, true)));
    // 0x19 + 0x28 = 0x41 with a half carry, which stands for 47.
    assert_eq!(daa(0x41, flags(false, false, true, false)), (0x47, flags(false, false, false, false)));
    // 0x80 + 0x80 = 0x00 with a carry, which stands for 160.
    assert_eq!(daa(0x00, flags(true, false, false, true)), (0x60, flags(false, false, false, true)));
    assert_eq!(daa(0x45, CLEAR), (0x45, flags(false, false, false, false)));
}

#[test]
fn daa_after_addition_tests_the_unadjusted_value() {
    // 0x95 + 0x65 = 0xFA, which stands for 160.
    assert_eq!(daa(0xFA, CLEAR), (0x60, flags(false, false, false, true)));
    // Not above 0x99 before the low digit is corrected.
    assert_eq!(daa(0x94, flags(false, false, true, false)), (0x9A, flags(false, false, false, false)));
    assert_eq!(daa(0x99, CLEAR), (0x99, flags(false, false, false, false)));
    assert_eq!(daa(0xA0, CLEAR), (0x00, flags(true, false, false, true)));
}

#[test]
fn daa_makes_every_decimal_addition_decimal() {
    let mut x: u16 = 0;
    while x < 100 {
        let mut y: u16 = 0;
        while y < 100 {
            let a: u8 = ((x / 10) * 16 + x % 10) as u8;
            let b: u8 = ((y / 10) * 16 + y % 10) as u8;
            let (sum, after_add) = sm83_core::alu::add8(a, b, false);
            let (result, after) = daa(sum, after_add);
            let expected: u16 = (x + y) % 100;
            assert_eq!(result, ((expected / 10) * 16 + expected % 10) as u8);
            assert_eq!(after.carry, x + y >= 100);
            y += 1;
        }
        x += 1;
    }
}

#[test]
fn daa_makes_every_decimal_subtraction_decimal() {
    let mut x: u16 = 0;
    while x < 100 {
        let mut y: u16 = 0;
        while y < 100 {
            let a: u8 = ((x / 10) * 16 + x % 10) as u8;
            let b: u8 = ((y / 10) * 16 + y % 10) as u8;
            let (difference, after_sub) = sm83_core::alu::sub8(a, b, false);
            let (result, after) = daa(difference, after_sub);
            let expected: u16 = (100 + x - y) % 100;
            assert_eq!(result, ((expected / 10) * 16 + expected % 10) as u8);
            assert_eq!(after.carry, x < y);
            y += 1;
        }
        x += 1;
    }
}

#[test]
fn daa_after_subtraction_follows_the_flags() {
    // 0x20 - 0x01 = 0x1F with a half borrow, which stands for 19.
    assert_eq!(daa(0x1F, flags(false, true, true, false)), (0x19, flags(false, true, false, false)));
    // 0x10 - 0x20 = 0xF0 with a borrow, which stands for 90.
    assert_eq!(daa(0xF0, flags(false, true, false, true)), (0x90, flags(false, true, false, true)));
    assert_eq!(daa(0x66, flags(false, true, true, true)), (0x00, flags(true, true, false, true)));
    assert_eq!(daa(0x9A, flags(false, true, false, false)), (0x9A, flags(false, true, false, false)));
}

#[test]
fn complement_and_carry_operations() {
    assert_eq!(cpl(0x35, flags(true, false, false, true)), (0xCA, flags(true, true, true, true)));
    assert_eq!(cpl(0xFF, CLEAR), (0x00, flags(false, true, true, false)));
    assert_eq!(scf(flags(true, true, true, false)), flags(true, false, false, true));
    assert_eq!(ccf(flags(true, true, true, false)), flags(true, false, false, true));
    assert_eq!(ccf(flags(false, true, true, true)), flags(false, false, false, false));
}

#[test]
fn rotates_move_the_outgoing_bit_to_the_carry() {
    assert_eq!(shift(ShiftOp::Rlc, 0x85, CLEAR), (0x0B, flags(false, false, false, true)));
    assert_eq!(shift(ShiftOp::Rlc, 0x00, flags(false, true, true, true)), (0x00, flags(true, false, false, false)));
    assert_eq!(shift(ShiftOp::Rrc, 0x01, CLEAR), (0x80, flags(false, false, false, true)));
    assert_eq!(shift(ShiftOp::Rl, 0x80, CLEAR), (0x00, flags(true, false, false, true)));
    assert_eq!(shift(ShiftOp::Rl, 0x11, flags(false, false, false, true)), (0x23, flags(false, false, false, false)));
    assert_eq!(shift(ShiftOp::Rr, 0x01, CLEAR), (0x00, flags(true, false, false, true)));
    assert_eq!(shift(ShiftOp::Rr, 0x8A, flags(false, false, false, true)), (0xC5, flags(false, false, false, false)));
}

#[test]
fn shifts_and_swap() {
    assert_eq!(shift(ShiftOp::Sla, 0x80, CLEAR), (0x00, flags(true, false, false, true)));
    assert_eq!(shift(ShiftOp::Sla, 0xFF, CLEAR), (0xFE, flags(false, false, false, true)));
    assert_eq!(shift(ShiftOp::Sra, 0x8A, CLEAR), (0xC5, flags(false, false, false, false)));
    assert_eq!(shift(ShiftOp::Sra, 0x01, CLEAR), (0x00, flags(true, false, false, true)));
    assert_eq!(shift(ShiftOp::Srl, 0x01, CLEAR), (0x00, flags(true, false, false, true)));
    assert_eq!(shift(ShiftOp::Srl, 0xFF, CLEAR), (0x7F, flags(false, false, false, true)));
    assert_eq!(shift(ShiftOp::Swap, 0xF1, flags(false, true, true, true)), (0x1F, flags(false, false, false, false)));
    assert_eq!(shift(ShiftOp::Swap, 0x00, CLEAR), (0x00, flags(true, false, false, false)));
}

#[test]
fn accumulator_rotates_clear_zero() {
    assert_eq!(rotate_a(ShiftOp::Rlc, 0x00, CLEAR), (0x00, flags(false, false, false, false)));
    assert_eq!(rotate_a(ShiftOp::Rl, 0x80, CLEAR), (0x00, flags(false, false, false, true)));
    assert_eq!(rotate_a(ShiftOp::Rrc, 0x3B, CLEAR), (0x9D, flags(false, false, false, true)));
    assert_eq!(rotate_a(ShiftOp::Rr, 0x81, CLEAR), (0x40, flags(false, false, false, true)));
}

#[test]
fn bit_operations() {
    assert!(test_bit(7, 0x80));
    assert!(!test_bit(6, 0x80));
    assert!(test_bit(0, 0x01));
    assert_eq!(bit(7, 0x80, flags(false, true, false, true)), flags(false, false, true, true));
    assert_eq!(bit(4, 0xEF, CLEAR), flags(true, false, true, false));
    assert_eq!(reset_bit(7, 0x80), 0x00);
    assert_eq!(reset_bit(1, 0x3B), 0x39);
    assert_eq!(reset_bit(2, 0x3B), 0x3B);
    assert_eq!(set_bit(3, 0x80), 0x88);
    assert_eq!(set_bit(7, 0x00), 0x80);
    assert_eq!(set_bit(0, 0x01), 0x01);
}

#[test]
fn addition_and_its_carries_make_the_full_sum() {
    let mut a: u16 = 0;
    while a < 256 {
        let mut b: u16 = 0;
        while b < 256 {
            let mut carry_in: u16 = 0;
            while carry_in < 2 {
                let (result, after) = add8(a as u8, b as u8, carry_in == 1);
                assert_eq!(result as u16 + 256 * (after.carry as u16), a + b + carry_in);
                assert_eq!(
                    (result as u16 & 0x0F) + 16 * (after.half_carry as u16),
                    (a & 0x0F) + (b & 0x0F) + carry_in
                );
                assert_eq!(after.zero, result == 0);
                assert!(!after.subtract);
                carry_in += 1;
            }
            b += 1;
        }
        a += 1;
    }
}

#[test]
fn subtraction_and_its_borrows_make_the_full_difference() {
    let mut a: i32 = 0;
    while a < 256 {
        let mut b: i32 = 0;
        while b < 256 {
            let mut carry_in: i32 = 0;
            while carry_in < 2 {
                let (result, after) = sub8(a as u8, b as u8, carry_in == 1);
                assert_eq!(result as i32 - 256 * (after.carry as i32), a - b - carry_in);
                assert_eq!(
                    (result as i32 & 0x0F) - 16 * (after.half_carry as i32),
                    (a & 0x0F) - (b & 0x0F) - carry_in
                );
                assert_eq!(after.zero, result == 0);
                assert!(after.subtract);
                carry_in += 1;
            }
            b += 1;
        }
        a += 1;
    }
}

#[test]
fn word_addition_and_its_carry_make_the_full_sum() {
    let samples: [u16; 9] = [0x0000, 0x0001, 0x0FFF, 0x1000, 0x7FFF, 0x8000, 0xF000, 0xFFFE, 0xFFFF];
    for a in samples {
        for b in samples {
            let (result, after) = add16(a, b, CLEAR);
            assert_eq!(result as u32 + 65536 * (after.carry as u32), a as u32 + b as u32);
            assert_eq!(
                (result as u32 & 0x0FFF) + 4096 * (after.half_carry as u32),
                (a as u32 & 0x0FFF) + (b as u32 & 0x0FFF)
            );
        }
    }
}

#[test]
fn rotates_of_every_byte_keep_its_bits() {
    let mut value: u16 = 0;
    while value < 256 {
        let byte: u8 = value as u8;
        assert_eq!(shift(ShiftOp::Rlc, byte, CLEAR).0, byte.rotate_left(1));
        assert_eq!(shift(ShiftOp::Rrc, byte, CLEAR).0, byte.rotate_right(1));
        assert_eq!(shift(ShiftOp::Swap, byte, CLEAR).0, byte.rotate_left(4));
        assert_eq!(shift(ShiftOp::Sla, byte, CLEAR).0, byte << 1);
        assert_eq!(shift(ShiftOp::Srl, byte, CLEAR).0, byte >> 1);
        assert_eq!(shift(ShiftOp::Sra, byte, CLEAR).0, ((byte as i8) >> 1) as u8);
        assert_eq!(shift(ShiftOp::Rl, byte, flags(false, false, false, true)).0, (byte << 1) | 1);
        assert_eq!(shift(ShiftOp::Rr, byte, flags(false, false, false, true)).0, (byte >> 1) | 0x80);
        assert_eq!(cpl(byte, CLEAR).0, !byte);
        value += 1;
    }
}

#[test]
fn bit_operations_on_every_bit() {
    let mut index: u8 = 0;
    while index < 8 {
        let mask: u8 = 1 << index;
        assert!(test_bit(index, mask));
        assert!(!test_bit(index, !mask));
        assert_eq!(set_bit(index, 0x00), mask);
        assert_eq!(reset_bit(index, 0xFF), !mask);
        assert!(bit(index, !mask, CLEAR).zero);
        assert!(!bit(index, mask, CLEAR).zero);
        index += 1;
    }
}
