//! A 64-bit hash over the exact bit patterns of a color's components.
//!
//! The hash is a function of the field bit patterns alone, so two equal
//! colors — equality is exact, field for field — always hash equal.

use vstd::prelude::*;

verus! {

/// Starting value of the component hash.
pub const HASH_SEED: u64 = 0xcbf2_9ce4_8422_2325;

/// One mixing step: rotate the accumulator and fold in the next component's
/// bit pattern.
pub open spec fn spec_mix64(acc: u64, x: u64) -> u64 {
    ((acc << 7) | (acc >> 57)) ^ x
}

/// Folds one component into the hash accumulator.
pub fn mix64(acc: u64, x: u64) -> (r: u64)
    ensures
        r == spec_mix64(acc, x),
{
    ((acc << 7) | (acc >> 57)) ^ x
}

} // verus!
