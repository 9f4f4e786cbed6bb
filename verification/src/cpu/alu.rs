//! Arithmetic on bytes: what the instructions compute, apart from where
//! their operands come from and where their results go.

use vstd::prelude::*;

verus! {

/// The low 8 bits of accumulator + operand + carry.
#[verifier::opaque]
pub open spec fn add_result(a: u8, operand: u8, carry_in: bool) -> u8 {
    ((a + operand + (if carry_in {
        1int
    } else {
        0int
    })) % 256) as u8
}

/// Whether accumulator + operand + carry exceeds 8 bits.
#[verifier::opaque]
pub open spec fn add_carries(a: u8, operand: u8, carry_in: bool) -> bool {
    a + operand + (if carry_in {
        1int
    } else {
        0int
    }) > 0xFF
}

/// Signed overflow: the sign of the result differs from the sign of both
/// the operand and the accumulator.
#[verifier::opaque]
pub open spec fn add_overflows(a: u8, operand: u8, result: u8) -> bool {
    (operand ^ result) & (result ^ a) & 0x80 != 0
}

/// A byte moved one bit to the left; bit 0 takes `carry_in`.
#[verifier::opaque]
pub open spec fn rotated_left(value: u8, carry_in: bool) -> u8 {
    ((value % 128) * 2 + (if carry_in {
        1int
    } else {
        0int
    })) as u8
}

/// A byte moved one bit to the right; bit 7 takes `carry_in`.
#[verifier::opaque]
pub open spec fn rotated_right(value: u8, carry_in: bool) -> u8 {
    (value / 2 + (if carry_in {
        128int
    } else {
        0int
    })) as u8
}

/// The bit that a move to the left shifts off.
pub open spec fn top_bit(value: u8) -> bool {
    value >= 0x80
}

/// The bit that a move to the right shifts off.
pub open spec fn low_bit(value: u8) -> bool {
    value % 2 == 1
}

/// One more, wrapping.
#[verifier::opaque]
pub open spec fn incremented(value: u8) -> u8 {
    ((value + 1) % 256) as u8
}

/// One less, wrapping.
#[verifier::opaque]
pub open spec fn decremented(value: u8) -> u8 {
    ((value + 255) % 256) as u8
}

/// The difference of two bytes, wrapping.
#[verifier::opaque]
pub open spec fn difference(left: u8, right: u8) -> u8 {
    ((left - right) % 256) as u8
}

/// The high byte of a word.
#[verifier::opaque]
pub open spec fn high_byte(value: u16) -> u8 {
    (value / 256) as u8
}

/// The low byte of a word.
#[verifier::opaque]
pub open spec fn low_byte(value: u16) -> u8 {
    (value % 256) as u8
}

/// Adds with carry: the result, the carry out and the signed overflow.
pub fn add_bytes(a: u8, operand: u8, carry_in: bool) -> (sum: (u8, bool, bool))
    ensures
        sum.0 == add_result(a, operand, carry_in),
        sum.1 == add_carries(a, operand, carry_in),
        sum.2 == add_overflows(a, operand, sum.0),
{
    reveal(add_result);
    reveal(add_carries);
    reveal(add_overflows);
    let total: u16 = (a as u16) + (operand as u16) + (if carry_in {
        1
    } else {
        0
    });
    let result = (total % 256) as u8;
    (result, total > 0xFF, (operand ^ result) & (result ^ a) & 0x80 != 0)
}

pub fn rotate_left(value: u8, carry_in: bool) -> (rotated: (u8, bool))
    ensures
        rotated.0 == rotated_left(value, carry_in),
        rotated.1 == top_bit(value),
{
    reveal(rotated_left);
    ((value % 128) * 2 + (if carry_in {
        1
    } else {
        0
    }), value >= 0x80)
}

pub fn rotate_right(value: u8, carry_in: bool) -> (rotated: (u8, bool))
    ensures
        rotated.0 == rotated_right(value, carry_in),
        rotated.1 == low_bit(value),
{
    reveal(rotated_right);
    (value / 2 + (if carry_in {
        128
    } else {
        0
    }), value % 2 == 1)
}

pub fn increment(value: u8) -> (next: u8)
    ensures
        next == incremented(value),
{
    reveal(incremented);
    value.wrapping_add(1)
}

pub fn decrement(value: u8) -> (previous: u8)
    ensures
        previous == decremented(value),
{
    reveal(decremented);
    value.wrapping_sub(1)
}

pub fn subtract(left: u8, right: u8) -> (diff: u8)
    ensures
        diff == difference(left, right),
{
    reveal(difference);
    left.wrapping_sub(right)
}

pub fn high(value: u16) -> (byte: u8)
    ensures
        byte == high_byte(value),
{
    reveal(high_byte);
    (value / 256) as u8
}

pub fn low(value: u16) -> (byte: u8)
    ensures
        byte == low_byte(value),
{
    reveal(low_byte);
    (value % 256) as u8
}

} // verus!
