//! Extraction of fixed-position bit fields from a 64-bit instruction word.

use vstd::prelude::*;

verus! {

/// The mask that keeps the low `length` bits of a 64-bit word.
pub open spec fn mask_low(length: u64) -> u64 {
    !(u64::MAX << length)
}

/// The unsigned value of the `length`-bit field of `word` beginning at bit
/// `starting_index`, counted from the least significant bit.
pub open spec fn extract_spec(word: u64, starting_index: u64, length: u64) -> u64 {
    (word >> starting_index) & mask_low(length)
}

/// Reads the `length`-bit field of `*instruction_u64` beginning at bit
/// `starting_index`. The bit range must lie inside the word; that is the
/// caller's contract, not a runtime-checked error.
pub fn extract_bits(instruction_u64: &u64, starting_index: usize, length: usize) -> (r: u64)
    requires
        0 < length <= 64,
        starting_index + length <= 64,
    ensures
        r == extract_spec(*instruction_u64, starting_index as u64, length as u64),
{
    let w: u64 = *instruction_u64;
    let s: u64 = starting_index as u64;
    let l: u64 = length as u64;
    proof {
        assert((w >> s) & (u64::MAX >> ((64 - l) as u64)) == (w >> s) & !(u64::MAX << l))
            by (bit_vector)
            requires
                0 < l <= 64,
        ;
    }
    (w >> s) & (u64::MAX >> (64 - l))
}

} // verus!
