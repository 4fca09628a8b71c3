//! Validation of the octave count and the seed of each octave of a fractal
//! generator.
use vstd::prelude::*;

verus! {

/// The largest number of octaves a fractal generator accepts.
pub const MAX_OCTAVES: usize = 30;

/// Why a noise module could not produce a value.
#[derive(Clone, Copy, Debug, PartialEq, Eq, Structural)]
pub enum NoiseError {
    /// The octave count is one or zero.
    TooFewOctaves,
    /// The octave count exceeds [`MAX_OCTAVES`].
    TooManyOctaves,
}

/// An octave count a fractal generator can evaluate with.
pub open spec fn octaves_valid(octaves: nat) -> bool {
    1 < octaves <= MAX_OCTAVES
}

/// The outcome of validating an octave count.
pub open spec fn octave_check(octaves: nat) -> Result<(), NoiseError> {
    if octaves <= 1 {
        Err(NoiseError::TooFewOctaves)
    } else if octaves > MAX_OCTAVES {
        Err(NoiseError::TooManyOctaves)
    } else {
        Ok(())
    }
}

/// Checks that `octaves` lies in `2 ..= MAX_OCTAVES`.
pub fn check_octaves(octaves: usize) -> (r: Result<(), NoiseError>)
    ensures
        r == octave_check(octaves as nat),
        r is Ok <==> octaves_valid(octaves as nat),
{
    if octaves <= 1 {
        Err(NoiseError::TooFewOctaves)
    } else if octaves > MAX_OCTAVES {
        Err(NoiseError::TooManyOctaves)
    } else {
        Ok(())
    }
}

/// The seed of the octave numbered `octave` of a generator seeded with
/// `seed`: their sum, wrapping around at the width of `usize`.
pub open spec fn seed_of_octave(seed: usize, octave: nat) -> usize {
    if seed + octave > usize::MAX {
        (seed + octave - (usize::MAX + 1)) as usize
    } else {
        (seed + octave) as usize
    }
}

/// The seed that decorrelates the octave numbered `octave` from the others.
pub fn octave_seed(seed: usize, octave: usize) -> (r: usize)
    ensures
        r == seed_of_octave(seed, octave as nat),
{
    seed.wrapping_add(octave)
}

/// The seeds of the successive octaves of a generator seeded with `seed`
/// that sums `octaves` octaves, or the reason the count is refused.
pub fn octave_seeds(seed: usize, octaves: usize) -> (r: Result<Vec<usize>, NoiseError>)
    ensures
        r is Err <==> !octaves_valid(octaves as nat),
        r matches Err(e) ==> octave_check(octaves as nat) == Err::<(), NoiseError>(e),
        r matches Ok(v) ==> v@.len() == octaves && forall|i: int|
            0 <= i < octaves ==> #[trigger] v@[i] == seed_of_octave(seed, i as nat),
{
    match check_octaves(octaves) {
        Err(e) => Err(e),
        Ok(()) => {
            let mut seeds: Vec<usize> = Vec::new();
            let mut octave: usize = 0;
            while octave < octaves
                invariant
                    octave <= octaves,
                    seeds@.len() == octave,
                    forall|i: int| 0 <= i < octave ==> #[trigger] seeds@[i] == seed_of_octave(seed, i as nat),
                decreases octaves - octave,
            {
                seeds.push(octave_seed(seed, octave));
                octave = octave + 1;
            }
            Ok(seeds)
        },
    }
}

} // verus!
