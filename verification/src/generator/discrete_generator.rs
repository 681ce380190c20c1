//! The weighted-discrete distribution: a value is sampled with probability
//! proportional to its integer weight.
//!
//! A draw `d` is taken uniformly from `[0, total weight)` and the pairs are
//! walked in declaration order, subtracting each weight from `d` until it
//! falls inside a pair's bucket. Declaration order is thus the observable
//! tie-break, exactly as `pick_from` states it.

use crate::generator::Generator;
use crate::rng::sample_inclusive;
use vstd::prelude::*;

verus! {

/// A value together with its sampling weight.
pub struct WeightPair<T> {
    pub weight: u64,
    pub value: T,
}

impl<T> WeightPair<T> {
    pub fn new(weight: u64, value: T) -> (r: WeightPair<T>)
        ensures
            r.weight == weight,
            r.value == value,
    {
        WeightPair { weight, value }
    }
}

/// The sum of the weights of `pairs[i..]`.
pub open spec fn total_from<T>(pairs: Seq<WeightPair<T>>, i: int) -> int
    decreases pairs.len() - i,
{
    if i < 0 || i >= pairs.len() {
        0
    } else {
        pairs[i].weight + total_from(pairs, i + 1)
    }
}

/// The sum of all weights.
pub open spec fn total_weight<T>(pairs: Seq<WeightPair<T>>) -> int {
    total_from(pairs, 0)
}

/// The index that a draw of `d` selects when the walk is at index `i` with
/// `d` still to spend: the first index at or after `i` whose bucket holds `d`.
pub open spec fn pick_from<T>(pairs: Seq<WeightPair<T>>, i: int, d: int) -> int
    decreases pairs.len() - i,
{
    if i < 0 || i >= pairs.len() {
        i
    } else if d < pairs[i].weight {
        i
    } else {
        pick_from(pairs, i + 1, d - pairs[i].weight)
    }
}

/// A draw inside the total weight always lands on a declared pair, and only
/// on one whose weight is positive: values with zero weight cannot be
/// sampled, and nothing outside the declared pairs can be.
pub proof fn lemma_pick_in_positive_support<T>(pairs: Seq<WeightPair<T>>, i: int, d: int)
    requires
        0 <= i <= pairs.len(),
        0 <= d < total_from(pairs, i),
    ensures
        i <= pick_from(pairs, i, d) < pairs.len(),
        pairs[pick_from(pairs, i, d)].weight > 0,
    decreases pairs.len() - i,
{
    if i < pairs.len() {
        if d < pairs[i].weight {
        } else {
            lemma_pick_in_positive_support(pairs, i + 1, d - pairs[i].weight);
        }
    }
}

/// Discrete proportionality, exactly: among the `total_from(pairs, j)`
/// equally likely draws that remain at index `j`, the ones that select
/// index `i` are precisely the contiguous bucket of size `pairs[i].weight`
/// that starts after the weights between `j` and `i`. So each value is
/// chosen with probability `weight / total weight`, and ties go to the
/// earliest declared pair.
pub proof fn lemma_pick_bucket<T>(pairs: Seq<WeightPair<T>>, j: int, i: int, d: int)
    requires
        0 <= j <= i < pairs.len(),
        0 <= d < total_from(pairs, j),
    ensures
        pick_from(pairs, j, d) == i <==> (total_from(pairs, j) - total_from(pairs, i) <= d
            < total_from(pairs, j) - total_from(pairs, i + 1)),
    decreases i - j,
{
    lemma_total_from_nonneg_all(pairs);
    if j == i {
        if d >= pairs[j].weight {
            // the walk moves past j, and whatever it picks lies beyond j
            lemma_pick_in_positive_support(pairs, j + 1, d - pairs[j].weight);
        }
    } else {
        if d < pairs[j].weight {
            assert(pick_from(pairs, j, d) == j);
            lemma_total_from_prefix_strict(pairs, j, i);
        } else {
            lemma_pick_bucket(pairs, j + 1, i, d - pairs[j].weight);
        }
    }
}

/// Between two indices the suffix sum drops by at least the weight of the
/// first.
proof fn lemma_total_from_prefix_strict<T>(pairs: Seq<WeightPair<T>>, j: int, i: int)
    requires
        0 <= j < i <= pairs.len(),
    ensures
        total_from(pairs, i) <= total_from(pairs, j) - pairs[j].weight,
    decreases i - j,
{
    if j + 1 < i {
        lemma_total_from_prefix(pairs, j + 1, i);
    }
}

/// Samples each declared value with probability `weight / total weight`.
pub struct DiscreteGenerator<T> {
    pub values: Vec<WeightPair<T>>,
    pub sum: u64,
}

/// The one way construction can fail: no pair with a positive weight, so no
/// value could ever be sampled.
#[derive(Clone, Copy, Debug, PartialEq, Eq, Structural)]
pub enum GeneratorError {
    NoPositiveWeights,
}

impl<T> DiscreteGenerator<T> {
    /// The cached sum matches the pairs and at least one weight is positive.
    pub open spec fn wf(&self) -> bool {
        &&& self.sum == total_weight(self.values@)
        &&& self.sum > 0
    }

    /// An empty pair list, or one whose weights are all zero, is a
    /// construction-time error.
    pub fn new(values: Vec<WeightPair<T>>) -> (r: Result<DiscreteGenerator<T>, GeneratorError>)
        requires
            total_weight(values@) <= u64::MAX,
        ensures
            r matches Ok(g) ==> g.values == values && g.wf(),
            r is Err <==> total_weight(values@) == 0,
    {
        proof {
            lemma_total_from_bounds(values@, 0);
        }
        let mut sum: u64 = 0;
        let mut i: usize = 0;
        let n = values.len();
        while i < n
            invariant
                0 <= i <= n,
                n == values.len(),
                sum == total_weight(values@) - total_from(values@, i as int),
                total_weight(values@) <= u64::MAX,
                0 <= total_from(values@, i as int) <= total_weight(values@),
            decreases n - i,
        {
            proof {
                lemma_total_from_bounds(values@, i + 1);
            }
            sum = sum + values[i].weight;
            i = i + 1;
        }
        if sum == 0 {
            Err(GeneratorError::NoPositiveWeights)
        } else {
            Ok(DiscreteGenerator { values, sum })
        }
    }
}

/// Every suffix sum is non-negative and no larger than the full sum from any
/// earlier index.
pub proof fn lemma_total_from_bounds<T>(pairs: Seq<WeightPair<T>>, i: int)
    ensures
        0 <= total_from(pairs, i),
        forall|j: int| 0 <= j <= i ==> total_from(pairs, i) <= #[trigger] total_from(pairs, j),
    decreases pairs.len() - i, pairs.len(),
{
    if i < 0 {
        assert forall|j: int| 0 <= j <= i implies total_from(pairs, i) <= #[trigger] total_from(
            pairs,
            j,
        ) by {}
    } else if i >= pairs.len() {
        lemma_total_from_nonneg_all(pairs);
    } else {
        lemma_total_from_bounds(pairs, i + 1);
        lemma_total_from_nonneg_all(pairs);
        assert forall|j: int| 0 <= j <= i implies total_from(pairs, i) <= #[trigger] total_from(
            pairs,
            j,
        ) by {
            lemma_total_from_prefix(pairs, j, i);
        }
    }
}

/// Suffix sums are non-negative.
pub proof fn lemma_total_from_nonneg_all<T>(pairs: Seq<WeightPair<T>>)
    ensures
        forall|k: int| 0 <= #[trigger] total_from(pairs, k),
{
    assert forall|k: int| 0 <= #[trigger] total_from(pairs, k) by {
        lemma_total_from_nonneg(pairs, k);
    }
}

proof fn lemma_total_from_nonneg<T>(pairs: Seq<WeightPair<T>>, i: int)
    ensures
        0 <= total_from(pairs, i),
    decreases pairs.len() - i,
{
    if 0 <= i && i < pairs.len() {
        lemma_total_from_nonneg(pairs, i + 1);
    }
}

/// Dropping pairs from the front can only shrink the suffix sum.
proof fn lemma_total_from_prefix<T>(pairs: Seq<WeightPair<T>>, j: int, i: int)
    requires
        0 <= j <= i,
    ensures
        total_from(pairs, i) <= total_from(pairs, j),
    decreases i - j,
{
    if j < i {
        lemma_total_from_prefix(pairs, j + 1, i);
        lemma_total_from_nonneg(pairs, j + 1);
        if j >= pairs.len() {
            lemma_total_from_beyond(pairs, j, i);
        }
    }
}

/// Past the end every suffix sum is zero.
proof fn lemma_total_from_beyond<T>(pairs: Seq<WeightPair<T>>, j: int, i: int)
    requires
        pairs.len() <= j <= i,
    ensures
        total_from(pairs, i) == 0,
    decreases i - j,
{
    if j < i {
        lemma_total_from_beyond(pairs, j + 1, i);
    }
}

/// Shifting past a prefix reads the suffix: the sum of `a + b` from an
/// offset inside `b` is the sum of `b` from there.
proof fn lemma_total_from_shift<T>(a: Seq<WeightPair<T>>, b: Seq<WeightPair<T>>, k: int)
    requires
        0 <= k <= b.len(),
    ensures
        total_from(a + b, a.len() + k) == total_from(b, k),
    decreases b.len() - k,
{
    if k < b.len() {
        lemma_total_from_shift(a, b, k + 1);
        assert((a + b)[a.len() + k] == b[k]);
    }
}

/// The weight of a concatenation splits at the seam.
pub proof fn lemma_total_from_concat<T>(a: Seq<WeightPair<T>>, b: Seq<WeightPair<T>>, j: int)
    requires
        0 <= j <= a.len(),
    ensures
        total_from(a + b, j) == total_from(a, j) + total_from(b, 0),
    decreases a.len() - j,
{
    if j == a.len() {
        lemma_total_from_shift(a, b, 0);
    } else {
        lemma_total_from_concat(a, b, j + 1);
        assert((a + b)[j] == a[j]);
    }
}

impl<T: Copy> DiscreteGenerator<T> {
    /// The value a draw selects: the walk that subtracts each weight in
    /// declaration order until the draw falls inside a pair's bucket. This
    /// is the whole deterministic content of a sample; `next_value` only
    /// adds the uniform draw.
    pub fn pick(&self, draw: u64) -> (r: T)
        requires
            self.wf(),
            draw < self.sum,
        ensures
            r == self.values@[pick_from(self.values@, 0, draw as int)].value,
    {
        let ghost full = self.values@;
        let n = self.values.len();
        let mut i: usize = 0;
        let mut rem = draw;
        loop
            invariant
                self.wf(),
                full == self.values@,
                n == self.values@.len(),
                0 <= i <= self.values@.len(),
                0 <= rem < total_from(full, i as int),
                pick_from(full, 0, draw as int) == pick_from(full, i as int, rem as int),
                0 <= draw < self.sum,
            decreases self.values@.len() - i,
        {
            proof {
                if i >= full.len() {
                    assert(total_from(full, i as int) == 0);
                    assert(false);
                }
            }
            let w = self.values[i].weight;
            if rem < w {
                return self.values[i].value;
            }
            rem = rem - w;
            i = i + 1;
        }
    }
}

impl<T: Copy> Generator<T> for DiscreteGenerator<T> {
    open spec fn sample_req(&self) -> bool {
        self.wf()
    }

    open spec fn sample_ens(&self, post: Self, r: T) -> bool {
        &&& post == *self
        &&& exists|d: int|
            0 <= d < self.sum && r == self.values@[pick_from(self.values@, 0, d)].value
    }

    fn next_value(&mut self, rng: &mut rand::rngs::SmallRng) -> (r: T) {
        let draw = sample_inclusive(rng, 0, self.sum - 1);
        let r = self.pick(draw);
        proof {
            assert((draw as int) < self.sum && r == self.values@[pick_from(
                self.values@,
                0,
                draw as int,
            )].value);
        }
        r
    }
}

} // verus!
