//! The uniform distribution over an inclusive integer range.

use crate::generator::Generator;
use crate::generator::NumberGenerator;
use crate::rng::sample_inclusive;
use vstd::prelude::*;

verus! {

/// Samples uniformly from `[lower_bound, upper_bound]`, both ends included.
pub struct UniformLongGenerator {
    pub lower_bound: u64,
    pub upper_bound: u64,
}

impl UniformLongGenerator {
    pub fn new(lower_bound: u64, upper_bound: u64) -> (r: UniformLongGenerator)
        requires
            lower_bound <= upper_bound,
        ensures
            r.lower_bound == lower_bound,
            r.upper_bound == upper_bound,
    {
        UniformLongGenerator { lower_bound, upper_bound }
    }
}

impl Generator<u64> for UniformLongGenerator {
    open spec fn sample_req(&self) -> bool {
        self.lower_bound <= self.upper_bound
    }

    open spec fn sample_ens(&self, post: Self, r: u64) -> bool {
        &&& self.lower_bound <= r <= self.upper_bound
        &&& post == *self
    }

    fn next_value(&mut self, rng: &mut rand::rngs::SmallRng) -> (r: u64) {
        sample_inclusive(rng, self.lower_bound, self.upper_bound)
    }
}

impl NumberGenerator<u64> for UniformLongGenerator {
    open spec fn mean_req(&self) -> bool {
        self.lower_bound + self.upper_bound <= u64::MAX
    }

    open spec fn mean_ens(&self, r: u64) -> bool {
        r == (self.lower_bound + self.upper_bound) as u64 / 2
    }

    fn mean(&self) -> (r: u64) {
        (self.lower_bound + self.upper_bound) / 2
    }
}

} // verus!
