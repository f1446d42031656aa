//! The arithmetic and logic unit: pure functions from register and operand
//! values to a result and the flags that result from it.
//!
//! Addition and subtraction are binary whatever the decimal flag says: the
//! decimal mode of the processor is not modelled.

use vstd::prelude::*;

verus! {

/// The value of a byte read as a two's-complement number.
pub open spec fn signed(value: u8) -> int {
    if value < 0x80 {
        value as int
    } else {
        value - 0x100
    }
}

/// The low eight bits of an integer.
pub open spec fn low_byte(i: int) -> u8 {
    (i % 0x100) as u8
}

/// The carry flag as a number.
pub open spec fn carry_value(carry: bool) -> int {
    if carry {
        1
    } else {
        0
    }
}

/// The byte with every bit of `value` inverted.
pub open spec fn complement(value: u8) -> u8 {
    (0xFF - value) as u8
}

/// Whether bit 7 of `value` is set.
pub open spec fn is_negative(value: u8) -> bool {
    value >= 0x80
}

/// The outcome of an addition or subtraction in the accumulator.
#[derive(Clone, Copy, Debug, PartialEq, Eq, Structural)]
pub struct Sum {
    /// The new accumulator value.
    pub value: u8,
    /// The carry out of bit 7.
    pub carry: bool,
    /// Whether the signed result does not fit in a byte.
    pub overflow: bool,
}

/// The outcome of a shift or rotate.
#[derive(Clone, Copy, Debug, PartialEq, Eq, Structural)]
pub struct Shifted {
    /// The shifted value.
    pub value: u8,
    /// The bit that was shifted out.
    pub carry: bool,
}

/// The outcome of comparing a register with an operand.
#[derive(Clone, Copy, Debug, PartialEq, Eq, Structural)]
pub struct Comparison {
    /// The register is not below the operand.
    pub carry: bool,
    /// The register equals the operand.
    pub zero: bool,
    /// Bit 7 of the eight-bit difference.
    pub negative: bool,
}

/// `a + m + c` as the processor computes it: the low byte of the sum, the
/// ninth bit as carry, and overflow when the sum of the signed readings
/// leaves the range of a signed byte.
pub open spec fn sum_with_carry(a: u8, m: u8, carry: bool) -> Sum {
    let total = a + m + carry_value(carry);
    let signed_total = signed(a) + signed(m) + carry_value(carry);
    Sum {
        value: low_byte(total),
        carry: total > 0xFF,
        overflow: signed_total < -128 || signed_total > 127,
    }
}

/// `a - m - (1 - c)` as the processor computes it: the low byte of the
/// difference, carry when no borrow was needed, and overflow when the
/// difference of the signed readings leaves the range of a signed byte.
pub open spec fn difference_with_borrow(a: u8, m: u8, carry: bool) -> Sum {
    let borrow = 1 - carry_value(carry);
    let total = a - m - borrow;
    let signed_total = signed(a) - signed(m) - borrow;
    Sum {
        value: low_byte(total),
        carry: total >= 0,
        overflow: signed_total < -128 || signed_total > 127,
    }
}

/// The comparison of `register` with `m`.
pub open spec fn comparison(register: u8, m: u8) -> Comparison {
    Comparison {
        carry: register >= m,
        zero: register == m,
        negative: is_negative(low_byte(register - m)),
    }
}

/// `value` shifted left by one bit; bit 7 goes to the carry.
pub open spec fn shifted_left(value: u8) -> Shifted {
    Shifted { value: low_byte(2 * value), carry: is_negative(value) }
}

/// `value` shifted right by one bit; bit 0 goes to the carry.
pub open spec fn shifted_right(value: u8) -> Shifted {
    Shifted { value: value / 2, carry: value % 2 == 1 }
}

/// `value` rotated left through the carry: the old carry enters at bit 0 and
/// bit 7 becomes the new carry.
pub open spec fn rotated_left(value: u8, carry: bool) -> Shifted {
    Shifted { value: low_byte(2 * value + carry_value(carry)), carry: is_negative(value) }
}

/// `value` rotated right through the carry: the old carry enters at bit 7 and
/// bit 0 becomes the new carry.
pub open spec fn rotated_right(value: u8, carry: bool) -> Shifted {
    Shifted { value: (value / 2 + 0x80 * carry_value(carry)) as u8, carry: value % 2 == 1 }
}

/// Adds `m` and the carry to `a`.
pub fn adc(a: u8, m: u8, carry: bool) -> (sum: Sum)
    ensures
        sum == sum_with_carry(a, m, carry),
{
    let carry_in: u16 = if carry {
        1
    } else {
        0
    };
    let total: u16 = a as u16 + m as u16 + carry_in;
    let value: u8 = (total % 0x100) as u8;
    let same_sign: bool = (a >= 0x80) == (m >= 0x80);
    Sum {
        value,
        carry: total > 0xFF,
        overflow: same_sign && (value >= 0x80) != (a >= 0x80),
    }
}

/// Subtracts `m` and the borrow from `a`, as an addition of the inverted
/// operand.
pub fn sbc(a: u8, m: u8, carry: bool) -> (difference: Sum)
    ensures
        difference == difference_with_borrow(a, m, carry),
{
    assert(!m == 0xFF - m) by (bit_vector);
    proof {
        lemma_subtract_is_add_complement(a, m, carry);
    }
    adc(a, !m, carry)
}

/// Compares `register` with `m`.
pub fn compare(register: u8, m: u8) -> (outcome: Comparison)
    ensures
        outcome == comparison(register, m),
{
    let difference: u8 = register.wrapping_sub(m);
    Comparison { carry: register >= m, zero: register == m, negative: difference >= 0x80 }
}

/// Arithmetic shift left.
pub fn asl(value: u8) -> (shifted: Shifted)
    ensures
        shifted == shifted_left(value),
{
    assert(value << 1 == (2 * value) % 0x100) by (bit_vector);
    Shifted { value: value << 1, carry: value >= 0x80 }
}

/// Logical shift right.
pub fn lsr(value: u8) -> (shifted: Shifted)
    ensures
        shifted == shifted_right(value),
{
    assert(value >> 1 == value / 2) by (bit_vector);
    assert((value & 1 != 0) == (value % 2 == 1)) by (bit_vector);
    Shifted { value: value >> 1, carry: value & 1 != 0 }
}

/// Rotate left through the carry.
pub fn rol(value: u8, carry: bool) -> (shifted: Shifted)
    ensures
        shifted == rotated_left(value, carry),
{
    assert(value << 1 == (2 * value) % 0x100) by (bit_vector);
    assert((value << 1) | 1 == (2 * value + 1) % 0x100) by (bit_vector);
    let low: u8 = value << 1;
    Shifted {
        value: if carry {
            low | 0x01
        } else {
            low
        },
        carry: value >= 0x80,
    }
}

/// Rotate right through the carry.
pub fn ror(value: u8, carry: bool) -> (shifted: Shifted)
    ensures
        shifted == rotated_right(value, carry),
{
    assert(value >> 1 == value / 2) by (bit_vector);
    assert((value >> 1) | 0x80 == value / 2 + 0x80) by (bit_vector);
    assert((value & 1 != 0) == (value % 2 == 1)) by (bit_vector);
    let high: u8 = value >> 1;
    Shifted {
        value: if carry {
            high | 0x80
        } else {
            high
        },
        carry: value & 1 != 0,
    }
}

/// Subtracting an operand is adding its complement: the two give the same
/// value, carry and overflow.
pub proof fn lemma_subtract_is_add_complement(a: u8, m: u8, carry: bool)
    ensures
        difference_with_borrow(a, m, carry) == sum_with_carry(a, complement(m), carry),
{
}

/// Adding an operand is subtracting its complement: the two give the same
/// value, carry and overflow, and so the same negative and zero flags.
pub proof fn lemma_add_is_subtract_complement(a: u8, m: u8, carry: bool)
    ensures
        sum_with_carry(a, m, carry) == difference_with_borrow(a, complement(m), carry),
        complement(complement(m)) == m,
{
}

/// The overflow of an addition is set exactly when both operands have the
/// same sign and the result has the other.
pub proof fn lemma_overflow_by_signs(a: u8, m: u8, carry: bool)
    ensures
        sum_with_carry(a, m, carry).overflow == (is_negative(a) == is_negative(m) && is_negative(
            sum_with_carry(a, m, carry).value,
        ) != is_negative(a)),
{
}

/// A shift left followed by a shift right clears bit 7 and keeps the other
/// bits; a value below `0x80` comes back unchanged.
pub proof fn lemma_shift_left_then_right(value: u8)
    ensures
        shifted_right(shifted_left(value).value).value == value % 0x80,
        value < 0x80 ==> shifted_right(shifted_left(value).value).value == value,
        value >= 0x80 ==> shifted_right(shifted_left(value).value).value != value,
        shifted_left(value).carry == (value >= 0x80),
        !shifted_right(shifted_left(value).value).carry,
{
}

} // verus!
