//! The degenerate distribution: every sample is the same value.

use crate::generator::Generator;
use vstd::prelude::*;

verus! {

/// Returns its value unchanged on every sample. Used where a distribution is
/// required but a scalar suffices, such as a fixed field length.
pub struct ConstantGenerator<T> {
    pub value: T,
}

impl<T> ConstantGenerator<T> {
    pub fn new(value: T) -> (r: ConstantGenerator<T>)
        ensures
            r.value == value,
    {
        ConstantGenerator { value }
    }
}

impl<T: Copy> Generator<T> for ConstantGenerator<T> {
    open spec fn sample_req(&self) -> bool {
        true
    }

    open spec fn sample_ens(&self, post: Self, r: T) -> bool {
        &&& r == self.value
        &&& post == *self
    }

    fn next_value(&mut self, _rng: &mut rand::rngs::SmallRng) -> (r: T) {
        self.value
    }
}

} // verus!
