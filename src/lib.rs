//! Coherent noise generation: the integer side of the noise primitive, the
//! octave plan of the fractal generators, and the error discipline of the
//! modifier chain.
pub mod lattice;
pub mod modifier;
pub mod octave;

pub use lattice::{gradient_index, GRADIENT_COUNT};
pub use modifier::modify;
pub use octave::{check_octaves, octave_seed, octave_seeds, NoiseError, MAX_OCTAVES};
