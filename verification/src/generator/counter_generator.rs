//! A monotone counter: the n-th sample returns `start + n - 1`.

use crate::generator::Generator;
use vstd::prelude::*;

verus! {

/// Hands out consecutive integers, starting inclusively at the value it was
/// constructed with. No value is ever repeated and none is skipped.
pub struct CounterGenerator {
    /// The next value to hand out.
    pub counter: u64,
}

impl CounterGenerator {
    pub fn new(count_start: u64) -> (r: CounterGenerator)
        ensures
            r.counter == count_start,
    {
        CounterGenerator { counter: count_start }
    }
}

/// The step taken by each sample: the value handed out is the state's
/// counter and the counter moves up by one.
proof fn lemma_counter_state_value(states: Seq<CounterGenerator>, samples: Seq<u64>, i: int)
    requires
        states.len() == samples.len() + 1,
        forall|j: int|
            0 <= j < samples.len() ==> #[trigger] states[j].sample_ens(states[j + 1], samples[j]),
        0 <= i < samples.len(),
    ensures
        states[i].counter == states[0].counter + i,
        samples[i] == states[0].counter + i,
    decreases i,
{
    if i > 0 {
        lemma_counter_state_value(states, samples, i - 1);
        assert(states[i - 1].sample_ens(states[i - 1 + 1], samples[i - 1]));
        assert(states[i - 1 + 1] == states[i]);
    }
    assert(states[i].sample_ens(states[i + 1], samples[i]));
}

/// Counter monotonicity: over any run of consecutive samples — however the
/// run was produced — the i-th sample is the starting value plus i, so the
/// multiset of the values handed out is exactly the consecutive range that
/// begins at the first state's counter, each value once.
pub proof fn lemma_counter_samples_form_range(states: Seq<CounterGenerator>, samples: Seq<u64>)
    requires
        states.len() == samples.len() + 1,
        forall|j: int|
            0 <= j < samples.len() ==> #[trigger] states[j].sample_ens(states[j + 1], samples[j]),
    ensures
        forall|i: int| 0 <= i < samples.len() ==> samples[i] == states[0].counter + i,
        samples.to_multiset() == Seq::new(
            samples.len(),
            |i: int| (states[0].counter + i) as u64,
        ).to_multiset(),
{
    assert forall|i: int| 0 <= i < samples.len() implies samples[i] == states[0].counter + i by {
        lemma_counter_state_value(states, samples, i);
    }
    assert(samples =~= Seq::new(samples.len(), |i: int| (states[0].counter + i) as u64));
}

impl Generator<u64> for CounterGenerator {
    open spec fn sample_req(&self) -> bool {
        self.counter < u64::MAX
    }

    open spec fn sample_ens(&self, post: Self, r: u64) -> bool {
        &&& r == self.counter
        &&& post.counter == self.counter + 1
    }

    fn next_value(&mut self, _rng: &mut rand::rngs::SmallRng) -> (r: u64) {
        let r = self.counter;
        self.counter = self.counter + 1;
        r
    }
}

} // verus!
