//! Hashing of lattice points: the integer half of the gradient-noise
//! primitive, which picks a pseudo-random gradient for each corner of a cell.
use vstd::prelude::*;

verus! {

/// How many gradient directions a lattice point can be given.
pub const GRADIENT_COUNT: usize = 8;

/// Folds the high half of `h` into its low half.
pub open spec fn fold_high(h: u64) -> u64 {
    h ^ (h >> 32u64)
}

/// The hash of the lattice point `(i, j)` in the noise universe `seed`.
pub open spec fn lattice_hash(i: i64, j: i64, seed: usize) -> u64 {
    let h = (i as u64).wrapping_mul(0x9e37_79b9_7f4a_7c15u64) ^ (j as u64).wrapping_mul(
        0xc2b2_ae3d_27d4_eb4fu64,
    ) ^ (seed as u64).wrapping_mul(0x1656_67b1_9e37_79f9u64);
    fold_high(fold_high(h).wrapping_mul(0xd6e8_feb8_6659_fd93u64))
}

/// The gradient given to the lattice point `(i, j)` in the noise universe
/// `seed`: the same point and seed always get the same gradient.
pub fn gradient_index(i: i64, j: i64, seed: usize) -> (r: usize)
    ensures
        r == lattice_hash(i, j, seed) % (GRADIENT_COUNT as u64),
        r < GRADIENT_COUNT,
{
    let h: u64 = (i as u64).wrapping_mul(0x9e37_79b9_7f4a_7c15u64) ^ (j as u64).wrapping_mul(
        0xc2b2_ae3d_27d4_eb4fu64,
    ) ^ (seed as u64).wrapping_mul(0x1656_67b1_9e37_79f9u64);
    let h: u64 = (h ^ (h >> 32u64)).wrapping_mul(0xd6e8_feb8_6659_fd93u64);
    let h: u64 = h ^ (h >> 32u64);
    (h % (GRADIENT_COUNT as u64)) as usize
}

} // verus!
