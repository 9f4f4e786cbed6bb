//! Packed flag bytes: single bits of a `u8` read and written through masks.

use vstd::prelude::*;

verus! {

/// Whether every bit of `mask` is set in `bits`.
pub open spec fn has_bits(bits: u8, mask: u8) -> bool {
    bits & mask == mask
}

/// `bits` with the bits of `mask` switched on or off.
pub open spec fn with_bits(bits: u8, mask: u8, on: bool) -> u8 {
    if on {
        bits | mask
    } else {
        bits & !mask
    }
}

/// Tests the bits of `mask`.
pub fn test_bits(bits: u8, mask: u8) -> (on: bool)
    ensures
        on == has_bits(bits, mask),
{
    bits & mask == mask
}

/// Switches the bits of `mask` on or off.
pub fn assign_bits(bits: u8, mask: u8, on: bool) -> (out: u8)
    ensures
        out == with_bits(bits, mask, on),
{
    if on {
        bits | mask
    } else {
        bits & !mask
    }
}

/// A bit that was just written reads back as written.
pub proof fn lemma_written_bit_reads_back(bits: u8, mask: u8, on: bool)
    requires
        mask != 0,
    ensures
        has_bits(with_bits(bits, mask, on), mask) == on,
{
    assert((bits | mask) & mask == mask) by (bit_vector);
    assert(mask != 0 ==> (bits & !mask) & mask != mask) by (bit_vector);
}

/// Writing the bits of one mask leaves the bits of a disjoint mask alone.
pub proof fn lemma_other_bits_kept(bits: u8, mask: u8, on: bool, other: u8)
    requires
        mask & other == 0,
    ensures
        has_bits(with_bits(bits, mask, on), other) == has_bits(bits, other),
        with_bits(bits, mask, on) & other == bits & other,
{
    assert(mask & other == 0 ==> (bits | mask) & other == bits & other) by (bit_vector);
    assert(mask & other == 0 ==> (bits & !mask) & other == bits & other) by (bit_vector);
}

} // verus!
