#![allow(non_snake_case)]
#![allow(non_camel_case_types)]

use vstd::prelude::*;

pub mod algorithm_structure;
pub mod progress;
pub mod benchmarks;
pub mod population;

verus! {

/// Population size used when no other size is given.
pub const DEFAULT_POPULATION_SIZE: usize = 50;

/// Number of iterations used when no other count is given.
pub const DEFAULT_ITERATIONS: usize = 500;

/// Number of decision variables used when no other count is given.
pub const DEFAULT_DIMENSIONS: usize = 10;

} // verus!
