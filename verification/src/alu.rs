use crate::registers::{wrap16, wrap8, Flags};
use vstd::prelude::*;

verus! {

/// The eight arithmetic and logic operations on the accumulator.
#[derive(Clone, Copy, Debug, PartialEq, Eq, Structural)]
pub enum AluOp {
    Add,
    Adc,
    Sub,
    Sbc,
    And,
    Xor,
    Or,
    Cp,
}

/// The eight rotates and shifts of the prefixed table.
#[derive(Clone, Copy, Debug, PartialEq, Eq, Structural)]
pub enum ShiftOp {
    /// Rotate left; bit 7 goes to bit 0 and to the carry.
    Rlc,
    /// Rotate right; bit 0 goes to bit 7 and to the carry.
    Rrc,
    /// Rotate left through the carry.
    Rl,
    /// Rotate right through the carry.
    Rr,
    /// Shift left; bit 0 becomes zero.
    Sla,
    /// Shift right; bit 7 keeps its value.
    Sra,
    /// Exchange the two nibbles.
    Swap,
    /// Shift right; bit 7 becomes zero.
    Srl,
}

/// A carry as a number.
pub open spec fn carry_value(carry: bool) -> int {
    if carry {
        1
    } else {
        0
    }
}

/// A byte read as a signed offset, -128 to 127.
pub open spec fn signed_offset(byte: u8) -> int {
    if byte < 128 {
        byte as int
    } else {
        byte as int - 256
    }
}

/// The weight of bit `index` of a byte, for an index below 8.
pub open spec fn bit_weight(index: u8) -> int {
    if index == 0 {
        1
    } else if index == 1 {
        2
    } else if index == 2 {
        4
    } else if index == 3 {
        8
    } else if index == 4 {
        16
    } else if index == 5 {
        32
    } else if index == 6 {
        64
    } else {
        128
    }
}

/// Whether bit `index` of `value` is set.
pub open spec fn bit_is_set(value: u8, index: u8) -> bool {
    (value as int / bit_weight(index)) % 2 == 1
}

/// ADD and ADC: the sum modulo 256; H is the carry out of bit 3, C the carry
/// out of bit 7.
pub open spec fn spec_add8(a: u8, b: u8, carry_in: bool) -> (u8, Flags) {
    let sum = a + b + carry_value(carry_in);
    let result = wrap8(sum);
    (
        result,
        Flags {
            zero: result == 0,
            subtract: false,
            half_carry: a % 16 + b % 16 + carry_value(carry_in) > 15,
            carry: sum > 255,
        },
    )
}

/// SUB, SBC and CP: the difference modulo 256; H is the borrow from bit 4,
/// C the borrow out of bit 7.
pub open spec fn spec_sub8(a: u8, b: u8, carry_in: bool) -> (u8, Flags) {
    let result = wrap8(a - b - carry_value(carry_in));
    (
        result,
        Flags {
            zero: result == 0,
            subtract: true,
            half_carry: a % 16 < b % 16 + carry_value(carry_in),
            carry: a < b + carry_value(carry_in),
        },
    )
}

/// AND: the bitwise result; H is set, N and C are cleared.
pub open spec fn spec_and8(a: u8, b: u8) -> (u8, Flags) {
    (a & b, Flags { zero: a & b == 0, subtract: false, half_carry: true, carry: false })
}

/// OR: the bitwise result; N, H and C are cleared.
pub open spec fn spec_or8(a: u8, b: u8) -> (u8, Flags) {
    (a | b, Flags { zero: a | b == 0, subtract: false, half_carry: false, carry: false })
}

/// XOR: the bitwise result; N, H and C are cleared.
pub open spec fn spec_xor8(a: u8, b: u8) -> (u8, Flags) {
    (a ^ b, Flags { zero: a ^ b == 0, subtract: false, half_carry: false, carry: false })
}

/// What an accumulator operation leaves in A and in the flags. CP leaves A as
/// it was and sets the flags of the subtraction.
pub open spec fn spec_alu(op: AluOp, a: u8, b: u8, flags: Flags) -> (u8, Flags) {
    match op {
        AluOp::Add => spec_add8(a, b, false),
        AluOp::Adc => spec_add8(a, b, flags.carry),
        AluOp::Sub => spec_sub8(a, b, false),
        AluOp::Sbc => spec_sub8(a, b, flags.carry),
        AluOp::And => spec_and8(a, b),
        AluOp::Xor => spec_xor8(a, b),
        AluOp::Or => spec_or8(a, b),
        AluOp::Cp => (a, spec_sub8(a, b, false).1),
    }
}

/// INC on a byte: C keeps its value.
pub open spec fn spec_inc8(value: u8, flags: Flags) -> (u8, Flags) {
    let result = wrap8(value + 1);
    (
        result,
        Flags { zero: result == 0, subtract: false, half_carry: value % 16 == 15, carry: flags.carry },
    )
}

/// DEC on a byte: C keeps its value.
pub open spec fn spec_dec8(value: u8, flags: Flags) -> (u8, Flags) {
    let result = wrap8(value - 1);
    (
        result,
        Flags { zero: result == 0, subtract: true, half_carry: value % 16 == 0, carry: flags.carry },
    )
}

/// ADD HL,rr: Z keeps its value; H is the carry out of bit 11, C the carry
/// out of bit 15.
pub open spec fn spec_add16(a: u16, b: u16, flags: Flags) -> (u16, Flags) {
    (
        wrap16(a + b),
        Flags {
            zero: flags.zero,
            subtract: false,
            half_carry: a % 4096 + b % 4096 > 4095,
            carry: a + b > 65535,
        },
    )
}

/// The stack pointer plus a signed offset: Z and N are cleared; H and C are
/// the carries out of bit 3 and bit 7 of the low byte plus the offset byte.
pub open spec fn spec_add_offset(sp: u16, offset: u8) -> (u16, Flags) {
    (
        wrap16(sp + signed_offset(offset)),
        Flags {
            zero: false,
            subtract: false,
            half_carry: sp % 16 + offset % 16 > 15,
            carry: sp % 256 + offset > 255,
        },
    )
}

/// The decimal adjustment of A. After an addition (N clear): 0x06 is added if
/// H is set or the low nibble is above 9; and 0x60 is added, and C set, if C
/// is set or A was above 0x99 before the adjustment. After a subtraction (N
/// set): 0x06 is taken off if H is set, and 0x60 if C is set; C keeps its
/// value. H is cleared and N keeps its value.
pub open spec fn spec_daa(a: u8, flags: Flags) -> (u8, Flags) {
    if !flags.subtract {
        let low = if flags.half_carry || a % 16 > 9 {
            0x06int
        } else {
            0
        };
        let adjust_high = flags.carry || a > 0x99;
        let high = if adjust_high {
            0x60int
        } else {
            0
        };
        let result = wrap8(a + low + high);
        (
            result,
            Flags {
                zero: result == 0,
                subtract: false,
                half_carry: false,
                carry: if adjust_high {
                    true
                } else {
                    flags.carry
                },
            },
        )
    } else {
        let low = if flags.half_carry {
            0x06int
        } else {
            0
        };
        let high = if flags.carry {
            0x60int
        } else {
            0
        };
        let result = wrap8(a - low - high);
        (
            result,
            Flags { zero: result == 0, subtract: true, half_carry: false, carry: flags.carry },
        )
    }
}

/// CPL: every bit of A inverted; N and H are set.
pub open spec fn spec_cpl(a: u8, flags: Flags) -> (u8, Flags) {
    ((255 - a) as u8, Flags { subtract: true, half_carry: true, ..flags })
}

/// SCF: C is set; N and H are cleared.
pub open spec fn spec_scf(flags: Flags) -> Flags {
    Flags { subtract: false, half_carry: false, carry: true, ..flags }
}

/// CCF: C is inverted; N and H are cleared.
pub open spec fn spec_ccf(flags: Flags) -> Flags {
    Flags { subtract: false, half_carry: false, carry: !flags.carry, ..flags }
}

/// The byte that a rotate or shift leaves.
pub open spec fn shifted(op: ShiftOp, value: u8, carry_in: bool) -> u8 {
    match op {
        ShiftOp::Rlc => wrap8(value * 2 + value / 128),
        ShiftOp::Rrc => wrap8(value / 2 + (value % 2) * 128),
        ShiftOp::Rl => wrap8(value * 2 + carry_value(carry_in)),
        ShiftOp::Rr => wrap8(value / 2 + carry_value(carry_in) * 128),
        ShiftOp::Sla => wrap8(value * 2),
        ShiftOp::Sra => wrap8(value / 2 + (value / 128) * 128),
        ShiftOp::Swap => wrap8((value % 16) * 16 + value / 16),
        ShiftOp::Srl => value / 2,
    }
}

/// The bit that a rotate or shift moves out: bit 7 to the left, bit 0 to the
/// right. SWAP moves none out.
pub open spec fn shifted_out(op: ShiftOp, value: u8) -> bool {
    match op {
        ShiftOp::Rlc | ShiftOp::Rl | ShiftOp::Sla => value >= 128,
        ShiftOp::Rrc | ShiftOp::Rr | ShiftOp::Sra | ShiftOp::Srl => value % 2 == 1,
        ShiftOp::Swap => false,
    }
}

/// A rotate or shift of the prefixed table: Z tells whether the result is
/// zero, C is the bit moved out, N and H are cleared.
pub open spec fn spec_shift(op: ShiftOp, value: u8, flags: Flags) -> (u8, Flags) {
    let result = shifted(op, value, flags.carry);
    (
        result,
        Flags {
            zero: result == 0,
            subtract: false,
            half_carry: false,
            carry: shifted_out(op, value),
        },
    )
}

/// A rotate of the accumulator outside the prefixed table: as the prefixed
/// rotate, but Z is always cleared.
pub open spec fn spec_rotate_a(op: ShiftOp, a: u8, flags: Flags) -> (u8, Flags) {
    let (result, after) = spec_shift(op, a, flags);
    (result, Flags { zero: false, ..after })
}

/// BIT: Z is set when the bit is clear; N is cleared, H is set, C keeps its
/// value.
pub open spec fn spec_bit(index: u8, value: u8, flags: Flags) -> Flags {
    Flags { zero: !bit_is_set(value, index), subtract: false, half_carry: true, carry: flags.carry }
}

/// RES: the byte with one bit cleared.
pub open spec fn spec_reset_bit(index: u8, value: u8) -> u8 {
    if bit_is_set(value, index) {
        (value - bit_weight(index)) as u8
    } else {
        value
    }
}

/// SET: the byte with one bit set.
pub open spec fn spec_set_bit(index: u8, value: u8) -> u8 {
    if bit_is_set(value, index) {
        value
    } else {
        (value + bit_weight(index)) as u8
    }
}

/// Adds two bytes and a carry, as ADD and ADC do.
pub fn add8(a: u8, b: u8, carry_in: bool) -> (out: (u8, Flags))
    ensures
        out == spec_add8(a, b, carry_in),
{
    let c: u8 = if carry_in {
        1
    } else {
        0
    };
    assert(a & 0x0f == a % 16 && b & 0x0f == b % 16) by (bit_vector);
    let result = a.wrapping_add(b).wrapping_add(c);
    let half_carry = (a & 0x0f) + (b & 0x0f) + c > 0x0f;
    let carry = (a as u16) + (b as u16) + (c as u16) > 0xff;
    (result, Flags { zero: result == 0, subtract: false, half_carry, carry })
}

/// Subtracts a byte and a carry from a byte, as SUB, SBC and CP do.
pub fn sub8(a: u8, b: u8, carry_in: bool) -> (out: (u8, Flags))
    ensures
        out == spec_sub8(a, b, carry_in),
{
    let c: u8 = if carry_in {
        1
    } else {
        0
    };
    assert(a & 0x0f == a % 16 && b & 0x0f == b % 16) by (bit_vector);
    let result = a.wrapping_sub(b).wrapping_sub(c);
    let half_carry = (a & 0x0f) < (b & 0x0f) + c;
    let carry = (a as u16) < (b as u16) + (c as u16);
    (result, Flags { zero: result == 0, subtract: true, half_carry, carry })
}

/// The bitwise AND of two bytes with its flags.
pub fn and8(a: u8, b: u8) -> (out: (u8, Flags))
    ensures
        out == spec_and8(a, b),
{
    let result = a & b;
    (result, Flags { zero: result == 0, subtract: false, half_carry: true, carry: false })
}

/// The bitwise OR of two bytes with its flags.
pub fn or8(a: u8, b: u8) -> (out: (u8, Flags))
    ensures
        out == spec_or8(a, b),
{
    let result = a | b;
    (result, Flags { zero: result == 0, subtract: false, half_carry: false, carry: false })
}

/// The bitwise XOR of two bytes with its flags.
pub fn xor8(a: u8, b: u8) -> (out: (u8, Flags))
    ensures
        out == spec_xor8(a, b),
{
    let result = a ^ b;
    (result, Flags { zero: result == 0, subtract: false, half_carry: false, carry: false })
}

/// Applies an accumulator operation to A and an operand.
pub fn alu(op: AluOp, a: u8, b: u8, flags: Flags) -> (out: (u8, Flags))
    ensures
        out == spec_alu(op, a, b, flags),
{
    match op {
        AluOp::Add => add8(a, b, false),
        AluOp::Adc => add8(a, b, flags.carry),
        AluOp::Sub => sub8(a, b, false),
        AluOp::Sbc => sub8(a, b, flags.carry),
        AluOp::And => and8(a, b),
        AluOp::Xor => xor8(a, b),
        AluOp::Or => or8(a, b),
        AluOp::Cp => {
            let (_, after) = sub8(a, b, false);
            (a, after)
        },
    }
}

/// A byte one up, with the flags of INC.
pub fn inc8(value: u8, flags: Flags) -> (out: (u8, Flags))
    ensures
        out == spec_inc8(value, flags),
{
    assert(value & 0x0f == value % 16) by (bit_vector);
    let result = value.wrapping_add(1);
    (
        result,
        Flags {
            zero: result == 0,
            subtract: false,
            half_carry: value & 0x0f == 0x0f,
            carry: flags.carry,
        },
    )
}

/// A byte one down, with the flags of DEC.
pub fn dec8(value: u8, flags: Flags) -> (out: (u8, Flags))
    ensures
        out == spec_dec8(value, flags),
{
    assert(value & 0x0f == value % 16) by (bit_vector);
    let result = value.wrapping_sub(1);
    (
        result,
        Flags {
            zero: result == 0,
            subtract: true,
            half_carry: value & 0x0f == 0x00,
            carry: flags.carry,
        },
    )
}

/// Adds two words, as ADD HL,rr does.
pub fn add16(a: u16, b: u16, flags: Flags) -> (out: (u16, Flags))
    ensures
        out == spec_add16(a, b, flags),
{
    assert(a & 0x0fff == a % 4096 && b & 0x0fff == b % 4096) by (bit_vector);
    let result = a.wrapping_add(b);
    let half_carry = (a & 0x0fff) + (b & 0x0fff) > 0x0fff;
    let carry = (a as u32) + (b as u32) > 0xffff;
    (result, Flags { zero: flags.zero, subtract: false, half_carry, carry })
}

/// A word one up, modulo 65536. No flag is touched.
pub fn inc16(value: u16) -> (out: u16)
    ensures
        out == wrap16(value + 1),
{
    value.wrapping_add(1)
}

/// A word one down, modulo 65536. No flag is touched.
pub fn dec16(value: u16) -> (out: u16)
    ensures
        out == wrap16(value - 1),
{
    value.wrapping_sub(1)
}

/// Adds a signed offset, given as its byte, to a word.
pub fn offset_word(word: u16, offset: u8) -> (out: u16)
    ensures
        out == wrap16(word + signed_offset(offset)),
{
    if offset < 128 {
        word.wrapping_add(offset as u16)
    } else {
        word.wrapping_sub(256 - offset as u16)
    }
}

/// Adds a signed offset, given as its byte, to the stack pointer, with the
/// flags of ADD SP,e and LD HL,SP+e.
pub fn add_offset(sp: u16, offset: u8) -> (out: (u16, Flags))
    ensures
        out == spec_add_offset(sp, offset),
{
    assert(sp & 0x000f == sp % 16 && sp & 0x00ff == sp % 256 && offset & 0x0f == offset % 16)
        by (bit_vector);
    let half_carry = (sp & 0x000f) + ((offset & 0x0f) as u16) > 0x000f;
    let carry = (sp & 0x00ff) + (offset as u16) > 0x00ff;
    (offset_word(sp, offset), Flags { zero: false, subtract: false, half_carry, carry })
}

/// The decimal adjustment of A.
pub fn daa(a: u8, flags: Flags) -> (out: (u8, Flags))
    ensures
        out == spec_daa(a, flags),
{
    assert(a & 0x0f == a % 16) by (bit_vector);
    let mut result = a;
    let mut carry = flags.carry;
    if flags.subtract {
        if flags.half_carry {
            result = result.wrapping_sub(0x06);
        }
        if flags.carry {
            result = result.wrapping_sub(0x60);
        }
    } else {
        if flags.half_carry || (a & 0x0f) > 0x09 {
            result = result.wrapping_add(0x06);
        }
        if flags.carry || a > 0x99 {
            result = result.wrapping_add(0x60);
            carry = true;
        }
    }
    (result, Flags { zero: result == 0, subtract: flags.subtract, half_carry: false, carry })
}

/// The complement of A with its flags.
pub fn cpl(a: u8, flags: Flags) -> (out: (u8, Flags))
    ensures
        out == spec_cpl(a, flags),
{
    assert(!a == 255 - a) by (bit_vector);
    (
        !a,
        Flags { zero: flags.zero, subtract: true, half_carry: true, carry: flags.carry },
    )
}

/// The flags after SCF.
pub fn scf(flags: Flags) -> (out: Flags)
    ensures
        out == spec_scf(flags),
{
    Flags { zero: flags.zero, subtract: false, half_carry: false, carry: true }
}

/// The flags after CCF.
pub fn ccf(flags: Flags) -> (out: Flags)
    ensures
        out == spec_ccf(flags),
{
    Flags { zero: flags.zero, subtract: false, half_carry: false, carry: !flags.carry }
}

/// Applies a rotate or shift of the prefixed table to a byte.
pub fn shift(op: ShiftOp, value: u8, flags: Flags) -> (out: (u8, Flags))
    ensures
        out == spec_shift(op, value, flags),
{
    let carry_in: u8 = if flags.carry {
        1
    } else {
        0
    };
    let result = match op {
        ShiftOp::Rlc => {
            assert((value << 1) | (value >> 7) == (value as u16 * 2 + value as u16 / 128) % 256)
                by (bit_vector);
            (value << 1) | (value >> 7)
        },
        ShiftOp::Rrc => {
            assert((value >> 1) | (value << 7) == (value as u16 / 2 + (value as u16 % 2) * 128)
                % 256) by (bit_vector);
            (value >> 1) | (value << 7)
        },
        ShiftOp::Rl => {
            assert((value << 1) | carry_in == (value as u16 * 2 + carry_in as u16) % 256)
                by (bit_vector)
                requires
                    carry_in <= 1,
            ;
            (value << 1) | carry_in
        },
        ShiftOp::Rr => {
            assert((value >> 1) | (carry_in << 7) == (value as u16 / 2 + carry_in as u16 * 128)
                % 256) by (bit_vector)
                requires
                    carry_in <= 1,
            ;
            (value >> 1) | (carry_in << 7)
        },
        ShiftOp::Sla => {
            assert(value << 1 == (value as u16 * 2) % 256) by (bit_vector);
            value << 1
        },
        ShiftOp::Sra => {
            assert((value >> 1) | (value & 0x80) == (value as u16 / 2 + (value as u16 / 128)
                * 128) % 256) by (bit_vector);
            (value >> 1) | (value & 0x80)
        },
        ShiftOp::Swap => {
            assert((value << 4) | (value >> 4) == ((value as u16 % 16) * 16 + value as u16 / 16)
                % 256) by (bit_vector);
            (value << 4) | (value >> 4)
        },
        ShiftOp::Srl => {
            assert(value >> 1 == value / 2) by (bit_vector);
            value >> 1
        },
    };
    assert((value & 0x80 != 0) == (value >= 128) && (value & 0x01 != 0) == (value % 2 == 1))
        by (bit_vector);
    let carry = match op {
        ShiftOp::Rlc | ShiftOp::Rl | ShiftOp::Sla => value & 0x80 != 0,
        ShiftOp::Rrc | ShiftOp::Rr | ShiftOp::Sra | ShiftOp::Srl => value & 0x01 != 0,
        ShiftOp::Swap => false,
    };
    (result, Flags { zero: result == 0, subtract: false, half_carry: false, carry })
}

/// Applies a rotate to the accumulator, as the four one-byte rotates do.
pub fn rotate_a(op: ShiftOp, a: u8, flags: Flags) -> (out: (u8, Flags))
    ensures
        out == spec_rotate_a(op, a, flags),
{
    let (result, after) = shift(op, a, flags);
    (
        result,
        Flags {
            zero: false,
            subtract: after.subtract,
            half_carry: after.half_carry,
            carry: after.carry,
        },
    )
}

/// The byte with only bit `index` set.
pub fn bit_mask(index: u8) -> (mask: u8)
    requires
        index < 8,
    ensures
        mask == bit_weight(index),
{
    assert(1u8 << index == (if index == 0 {
        1u8
    } else if index == 1 {
        2u8
    } else if index == 2 {
        4u8
    } else if index == 3 {
        8u8
    } else if index == 4 {
        16u8
    } else if index == 5 {
        32u8
    } else if index == 6 {
        64u8
    } else {
        128u8
    })) by (bit_vector)
        requires
            index < 8,
    ;
    1u8 << index
}

/// Whether bit `index` of a byte is set.
pub fn test_bit(index: u8, value: u8) -> (set: bool)
    requires
        index < 8,
    ensures
        set == bit_is_set(value, index),
{
    let mask = bit_mask(index);
    assert((value & mask != 0) == ((value / mask) % 2 == 1)) by (bit_vector)
        requires
            mask == 1 || mask == 2 || mask == 4 || mask == 8 || mask == 16 || mask == 32 || mask
                == 64 || mask == 128,
    ;
    value & mask != 0
}

/// The flags after a test of bit `index`.
pub fn bit(index: u8, value: u8, flags: Flags) -> (out: Flags)
    requires
        index < 8,
    ensures
        out == spec_bit(index, value, flags),
{
    Flags {
        zero: !test_bit(index, value),
        subtract: false,
        half_carry: true,
        carry: flags.carry,
    }
}

/// The byte with bit `index` cleared.
pub fn reset_bit(index: u8, value: u8) -> (out: u8)
    requires
        index < 8,
    ensures
        out == spec_reset_bit(index, value),
{
    let mask = bit_mask(index);
    assert(value & !mask == (if (value / mask) % 2 == 1 {
        (value - mask) as u8
    } else {
        value
    })) by (bit_vector)
        requires
            mask == 1 || mask == 2 || mask == 4 || mask == 8 || mask == 16 || mask == 32 || mask
                == 64 || mask == 128,
    ;
    value & !mask
}

/// The byte with bit `index` set.
pub fn set_bit(index: u8, value: u8) -> (out: u8)
    requires
        index < 8,
    ensures
        out == spec_set_bit(index, value),
{
    let mask = bit_mask(index);
    assert(value | mask == (if (value / mask) % 2 == 1 {
        value
    } else {
        (value + mask) as u8
    })) by (bit_vector)
        requires
            mask == 1 || mask == 2 || mask == 4 || mask == 8 || mask == 16 || mask == 32 || mask
                == 64 || mask == 128,
    ;
    value | mask
}

/// The result of an addition and its carry together are the full sum, and
/// the low nibble of the result and the half carry together are the sum of
/// the low nibbles.
pub proof fn lemma_add8_carries(a: u8, b: u8, carry_in: bool)
    ensures
        ({
            let (result, flags) = spec_add8(a, b, carry_in);
            &&& result + 256 * carry_value(flags.carry) == a + b + carry_value(carry_in)
            &&& result % 16 + 16 * carry_value(flags.half_carry) == a % 16 + b % 16 + carry_value(
                carry_in,
            )
        }),
{
}

/// The result of a subtraction and its borrow together are the full
/// difference, and the low nibble of the result and the half borrow together
/// are the difference of the low nibbles.
pub proof fn lemma_sub8_borrows(a: u8, b: u8, carry_in: bool)
    ensures
        ({
            let (result, flags) = spec_sub8(a, b, carry_in);
            &&& result - 256 * carry_value(flags.carry) == a - b - carry_value(carry_in)
            &&& result % 16 - 16 * carry_value(flags.half_carry) == a % 16 - b % 16 - carry_value(
                carry_in,
            )
        }),
{
}

/// A comparison sets the flags of the subtraction and leaves A alone: Z tells
/// whether the two bytes are equal and C whether A is the smaller.
pub proof fn lemma_compare(a: u8, b: u8, flags: Flags)
    ensures
        spec_alu(AluOp::Cp, a, b, flags).0 == a,
        spec_alu(AluOp::Cp, a, b, flags).1 == spec_alu(AluOp::Sub, a, b, flags).1,
        spec_alu(AluOp::Cp, a, b, flags).1.zero == (a == b),
        spec_alu(AluOp::Cp, a, b, flags).1.carry == (a < b),
{
}

/// The result of an addition to a word and its carry together are the full
/// sum.
pub proof fn lemma_add16_carries(a: u16, b: u16, flags: Flags)
    ensures
        ({
            let (result, after) = spec_add16(a, b, flags);
            &&& result + 65536 * carry_value(after.carry) == a + b
            &&& result % 4096 + 4096 * carry_value(after.half_carry) == a % 4096 + b % 4096
        }),
{
}

/// Whether a byte holds two decimal digits.
pub open spec fn is_bcd(value: u8) -> bool {
    value / 16 <= 9 && value % 16 <= 9
}

/// The number, 0 to 99, that two decimal digits in a byte stand for.
pub open spec fn bcd_value(value: u8) -> int {
    (value / 16) * 10 + value % 16
}

/// The decimal adjustment after an addition, on numbers alone: `a` and `b`
/// are bytes of two decimal digits and `carry_in` is 0 or 1.
proof fn lemma_decimal_addition(a: u16, b: u16, carry_in: u16)
    by (bit_vector)
    requires
        a / 16 <= 9 && a % 16 <= 9,
        b / 16 <= 9 && b % 16 <= 9,
        carry_in <= 1,
    ensures
        ({
            let total: u16 = (a + b + carry_in) as u16;
            let sum: u16 = total % 256;
            let adjust_low: bool = a % 16 + b % 16 + carry_in > 15 || sum % 16 > 9;
            let adjust_high: bool = total > 255 || sum > 0x99;
            let low: u16 = if adjust_low {
                0x06
            } else {
                0
            };
            let high: u16 = if adjust_high {
                0x60
            } else {
                0
            };
            let result: u16 = ((sum + low + high) % 256) as u16;
            &&& result / 16 <= 9
            &&& result % 16 <= 9
            &&& (result / 16) * 10 + result % 16 + (if adjust_high {
                100u16
            } else {
                0u16
            }) == (a / 16) * 10 + a % 16 + (b / 16) * 10 + b % 16 + carry_in
        }),
{
}

/// The decimal adjustment after a subtraction, on numbers alone: `a` and `b`
/// are bytes of two decimal digits, `carry_in` is 0 or 1, `difference` is
/// the binary difference and `result` the adjusted one, both modulo 256.
proof fn lemma_decimal_subtraction(a: u16, b: u16, carry_in: u16, difference: u16, result: u16)
    by (bit_vector)
    requires
        a / 16 <= 9 && a % 16 <= 9,
        b / 16 <= 9 && b % 16 <= 9,
        carry_in <= 1,
        difference == ((256u16 + a - b - carry_in) % 256) as u16,
        result == ((512u16 + difference - (if a % 16 < b % 16 + carry_in {
            0x06u16
        } else {
            0u16
        }) - (if a < b + carry_in {
            0x60u16
        } else {
            0u16
        })) % 256) as u16,
    ensures
        result / 16 <= 9,
        result % 16 <= 9,
        (result / 16) * 10 + result % 16 + (b / 16) * 10 + b % 16 + carry_in == (a / 16) * 10 + a
            % 16 + (if a < b + carry_in {
            100u16
        } else {
            0u16
        }),
{
}

/// A number within 512 below zero or 256 above it, modulo 256.
proof fn lemma_wrap8_shifted(value: int)
    requires
        -512 <= value < 256,
    ensures
        wrap8(value) == (512 + value) % 256,
        -256 <= value ==> wrap8(value) == (256 + value) % 256,
{
}

/// The decimal adjustment makes the addition of two bytes of decimal digits
/// a decimal addition: A then holds the two low digits of the sum, and C
/// tells whether the sum reached 100.
pub proof fn lemma_daa_after_addition(a: u8, b: u8, carry_in: bool)
    requires
        is_bcd(a),
        is_bcd(b),
    ensures
        ({
            let (sum, flags) = spec_add8(a, b, carry_in);
            let (result, after) = spec_daa(sum, flags);
            &&& is_bcd(result)
            &&& bcd_value(result) + 100 * carry_value(after.carry) == bcd_value(a) + bcd_value(b)
                + carry_value(carry_in)
            &&& after.zero == (result == 0)
            &&& !after.half_carry
        }),
{
    let carry: u16 = if carry_in {
        1
    } else {
        0
    };
    lemma_decimal_addition(a as u16, b as u16, carry);
}

/// The decimal adjustment makes the subtraction of two bytes of decimal
/// digits a decimal subtraction: A then holds the two low digits of the
/// difference, and C tells whether it fell below zero.
pub proof fn lemma_daa_after_subtraction(a: u8, b: u8, carry_in: bool)
    requires
        is_bcd(a),
        is_bcd(b),
    ensures
        ({
            let (difference, flags) = spec_sub8(a, b, carry_in);
            let (result, after) = spec_daa(difference, flags);
            &&& is_bcd(result)
            &&& bcd_value(result) - 100 * carry_value(after.carry) == bcd_value(a) - bcd_value(b)
                - carry_value(carry_in)
            &&& after.zero == (result == 0)
            &&& !after.half_carry
        }),
{
    let carry: u16 = if carry_in {
        1
    } else {
        0
    };
    let (difference, flags) = spec_sub8(a, b, carry_in);
    let (result, after) = spec_daa(difference, flags);
    let low: int = if flags.half_carry {
        0x06
    } else {
        0
    };
    let high: int = if flags.carry {
        0x60
    } else {
        0
    };
    lemma_wrap8_shifted(a - b - carry);
    lemma_wrap8_shifted(difference - low - high);
    lemma_decimal_subtraction(a as u16, b as u16, carry, difference as u16, result as u16);
}

} // verus!
