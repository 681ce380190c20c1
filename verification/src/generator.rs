//! The generator algebra: distribution objects that the workload samples.
//!
//! Each generator carries its contract through the `Generator` trait's two
//! spec members: `sample_req` says when sampling is allowed, `sample_ens`
//! relates the state before a sample, the state after it, and the value
//! produced.

pub mod acknowledged_counter_generator;
pub mod constant_generator;
pub mod counter_generator;
pub mod discrete_generator;
pub mod uniform_long_generator;

pub use acknowledged_counter_generator::AcknowledgedCounterGenerator;
pub use constant_generator::ConstantGenerator;
pub use counter_generator::CounterGenerator;
pub use discrete_generator::DiscreteGenerator;
pub use discrete_generator::WeightPair;
pub use uniform_long_generator::UniformLongGenerator;

use vstd::prelude::*;

verus! {

/// A distribution over values of type `T`, sampled with a caller-provided
/// random number generator.
pub trait Generator<T>: Sized {
    /// When a sample may be drawn.
    spec fn sample_req(&self) -> bool;

    /// How one sample relates the prior state, the new state and the value.
    spec fn sample_ens(&self, post: Self, r: T) -> bool;

    fn next_value(&mut self, rng: &mut rand::rngs::SmallRng) -> (r: T)
        requires
            old(self).sample_req(),
        ensures
            old(self).sample_ens(*final(self), r),
    ;
}

/// A generator together with the last value it produced.
pub struct GeneratorImpl<T, G> {
    pub last_value: Option<T>,
    pub generator: G,
}

impl<T: Copy, G: Generator<T>> GeneratorImpl<T, G> {
    pub fn new(generator: G) -> (r: GeneratorImpl<T, G>)
        ensures
            r.generator == generator,
            r.last_value is None,
    {
        GeneratorImpl { generator, last_value: None }
    }

    pub fn next_value(&mut self, rng: &mut rand::rngs::SmallRng) -> (r: T)
        requires
            old(self).generator.sample_req(),
        ensures
            old(self).generator.sample_ens(final(self).generator, r),
            final(self).last_value == Some(r),
    {
        let v = self.generator.next_value(rng);
        self.last_value = Some(v);
        v
    }

    /// The value the latest sample produced; there must have been one.
    pub fn last_value(&self) -> (r: T)
        requires
            self.last_value is Some,
        ensures
            Some(r) == self.last_value,
    {
        self.last_value.unwrap()
    }
}

impl<T: Copy + core::fmt::Display, G: Generator<T>> GeneratorImpl<T, G> {
    /// Samples and renders the value; what the rendering is stays with
    /// std's `ToString`, as vstd specifies it.
    pub fn next_string(&mut self, rng: &mut rand::rngs::SmallRng) -> (r: String)
        requires
            old(self).generator.sample_req(),
        ensures
            exists|v: T|
                {
                    &&& old(self).generator.sample_ens(final(self).generator, v)
                    &&& final(self).last_value == Some(v)
                    &&& #[trigger] vstd::string::to_string_from_display_ensures::<T>(&v, r)
                },
    {
        let v = self.next_value(rng);
        v.to_string()
    }

    /// Renders the latest sample; there must have been one.
    pub fn last_string(&self) -> (r: String)
        requires
            self.last_value is Some,
        ensures
            vstd::string::to_string_from_display_ensures::<T>(&self.last_value->0, r),
    {
        let v = self.last_value();
        v.to_string()
    }
}

/// A numeric distribution that also reports its mean.
pub trait NumberGenerator<T>: Generator<T> {
    /// When the mean is defined.
    spec fn mean_req(&self) -> bool;

    /// What the reported mean is.
    spec fn mean_ens(&self, r: T) -> bool;

    fn mean(&self) -> (r: T)
        requires
            self.mean_req(),
        ensures
            self.mean_ens(r),
    ;
}

} // verus!
