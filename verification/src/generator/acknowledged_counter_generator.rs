//! A counter that decouples *assigned* keys from *durably completed* keys.
//!
//! Samples come from an inner [`CounterGenerator`]. A worker that has
//! completed the work for a key calls [`AcknowledgedCounterGenerator::acknowledge`];
//! the generator tracks completions in a fixed window of `WINDOW_SIZE` slots
//! (one per key residue) and maintains `limit`, the largest key up to which
//! every key has been acknowledged. Readers that stay at or below
//! [`AcknowledgedCounterGenerator::last_value`] never observe a key whose
//! work has not completed.

use crate::generator::counter_generator::CounterGenerator;
use crate::generator::Generator;
use vstd::arithmetic::div_mod::lemma_fundamental_div_mod;
use vstd::arithmetic::div_mod::lemma_fundamental_div_mod_converse_mod;
use vstd::arithmetic::div_mod::lemma_mod_add_multiples_vanish;
use vstd::prelude::*;

verus! {

/// The number of completion slots: 2^20.
pub const WINDOW_SIZE: u64 = 1048576;

/// The slot a key occupies: its remainder modulo the window size.
pub open spec fn slot_of_int(k: int) -> int {
    k % (WINDOW_SIZE as int)
}

/// The slot of a concrete key.
pub open spec fn slot_of(k: u64) -> int {
    slot_of_int(k as int)
}

/// Two distinct keys less than a full window apart never share a slot.
pub proof fn lemma_slots_differ(x: int, y: int)
    requires
        0 <= x < y,
        y - x < WINDOW_SIZE,
    ensures
        slot_of_int(x) != slot_of_int(y),
{
    let m = WINDOW_SIZE as int;
    lemma_fundamental_div_mod(x, m);
    let q = x / m;
    let r = x % m;
    if r + (y - x) < m {
        lemma_fundamental_div_mod_converse_mod(y, m, q, r + y - x);
    } else {
        lemma_fundamental_div_mod_converse_mod(y, m, q + 1, r + y - x - m);
    }
}

/// How far the watermark advances: the walk starts one past `limit` with
/// offset `d` and retires marked slots until it meets an unmarked one
/// (yielding `d - 1` from offset `d`) or has gone a full window (yielding
/// `WINDOW_SIZE - 1`).
pub open spec fn advance_count(w: Seq<bool>, limit: int, d: int) -> int
    recommends
        w.len() == WINDOW_SIZE,
        1 <= d <= WINDOW_SIZE,
    decreases WINDOW_SIZE as int - d,
{
    if d >= WINDOW_SIZE {
        WINDOW_SIZE - 1
    } else if !w[slot_of_int(limit + d)] {
        d - 1
    } else {
        advance_count(w, limit, d + 1)
    }
}

/// The advance never walks backwards and never past a full window.
pub proof fn lemma_advance_count_bounds(w: Seq<bool>, limit: int, d: int)
    requires
        1 <= d <= WINDOW_SIZE,
    ensures
        d - 1 <= advance_count(w, limit, d) <= WINDOW_SIZE - 1,
    decreases WINDOW_SIZE as int - d,
{
    if d < WINDOW_SIZE && w[slot_of_int(limit + d)] {
        lemma_advance_count_bounds(w, limit, d + 1);
    }
}

/// The window after retiring the `n` slots that follow `limit`.
pub open spec fn window_after(w1: Seq<bool>, limit: int, n: int) -> Seq<bool> {
    Seq::new(
        WINDOW_SIZE as nat,
        |s: int|
            if exists|j: int| 1 <= j <= n && #[trigger] slot_of_int(limit + j) == s {
                false
            } else {
                w1[s]
            },
    )
}

/// Acknowledging an already-marked slot means more than a full window of
/// keys is in flight; the pipeline has drifted too far and the structure
/// refuses the acknowledgement.
#[derive(Clone, Copy, Debug, PartialEq, Eq, Structural)]
pub enum AckError {
    WindowOverflow,
}

/// What a successful acknowledgement of `value` does: the value's slot is
/// marked, the watermark advances over the now-contiguous run of marked
/// slots, and exactly that run is retired from the window.
pub open spec fn ack_ok_post(
    pre: AcknowledgedCounterGenerator,
    post: AcknowledgedCounterGenerator,
    value: u64,
) -> bool {
    let w1 = pre.window@.update(slot_of(value), true);
    let n = advance_count(w1, pre.limit as int, 1);
    &&& post.counter == pre.counter
    &&& post.limit == pre.limit + n
    &&& post.window@ =~= window_after(w1, pre.limit as int, n)
}

/// The sliding-window completion tracker.
pub struct AcknowledgedCounterGenerator {
    /// Source of assigned keys.
    pub counter: CounterGenerator,
    /// One slot per key residue: `true` means acknowledged but not retired.
    pub window: Vec<bool>,
    /// Every key at or below this has been acknowledged.
    pub limit: u64,
}

impl AcknowledgedCounterGenerator {
    /// The structural invariant: the window has its fixed size.
    pub open spec fn wf(&self) -> bool {
        self.window@.len() == WINDOW_SIZE
    }

    pub fn new(count_start: u64) -> (r: AcknowledgedCounterGenerator)
        requires
            count_start >= 1,
        ensures
            r.wf(),
            r.counter.counter == count_start,
            r.limit == count_start - 1,
            forall|s: int| 0 <= s < WINDOW_SIZE ==> !r.window@[s],
    {
        let counter = CounterGenerator::new(count_start);
        let mut window: Vec<bool> = Vec::new();
        let mut i: usize = 0;
        while i < WINDOW_SIZE as usize
            invariant
                0 <= i <= WINDOW_SIZE,
                window@.len() == i,
                forall|s: int| 0 <= s < i ==> !window@[s],
            decreases WINDOW_SIZE as int - i,
        {
            window.push(false);
            i = i + 1;
        }
        AcknowledgedCounterGenerator { counter, window, limit: count_start - 1 }
    }

    /// Marks `value` as durably completed and, when possible, advances the
    /// watermark over the contiguous run of completed keys. Re-marking a
    /// still-marked slot is refused: it signals a full window of
    /// unacknowledged keys in flight.
    pub fn acknowledge(&mut self, value: u64) -> (r: Result<(), AckError>)
        requires
            old(self).wf(),
            old(self).limit <= u64::MAX - WINDOW_SIZE,
        ensures
            final(self).wf(),
            final(self).counter == old(self).counter,
            old(self).limit <= final(self).limit,
            r is Err <==> old(self).window@[slot_of(value)],
            r is Err ==> *final(self) == *old(self),
            r is Ok ==> ack_ok_post(*old(self), *final(self), value),
    {
        let slot = (value % WINDOW_SIZE) as usize;
        if self.window[slot] {
            return Err(AckError::WindowOverflow);
        }
        self.window.set(slot, true);
        let ghost pre_counter = self.counter;
        let ghost w1 = self.window@;
        let limit = self.limit;
        let mut index: u64 = limit + 1;
        proof {
            lemma_advance_count_bounds(w1, limit as int, 1);
        }
        loop
            invariant
                self.window@.len() == WINDOW_SIZE,
                self.limit == limit,
                self.counter == pre_counter,
                limit <= u64::MAX - WINDOW_SIZE,
                limit as int + 1 <= index as int <= limit as int + WINDOW_SIZE as int,
                advance_count(w1, limit as int, 1) == advance_count(
                    w1,
                    limit as int,
                    index as int - limit as int,
                ),
                self.window@ =~= window_after(w1, limit as int, index as int - limit as int - 1),
            ensures
                self.window@.len() == WINDOW_SIZE,
                self.limit == limit,
                self.counter == pre_counter,
                index as int - limit as int - 1 == advance_count(w1, limit as int, 1),
                self.window@ =~= window_after(w1, limit as int, advance_count(w1, limit as int, 1)),
            decreases limit as int + WINDOW_SIZE as int - index as int,
        {
            let ghost d = index as int - limit as int;
            if index % WINDOW_SIZE == limit % WINDOW_SIZE {
                // back at the slot before the first: a full window was walked
                proof {
                    if d < WINDOW_SIZE as int {
                        lemma_slots_differ(limit as int, index as int);
                        assert(false);
                    }
                }
                break;
            }
            proof {
                if d == WINDOW_SIZE as int {
                    lemma_mod_add_multiples_vanish(limit as int, WINDOW_SIZE as int);
                    assert(false);
                }
            }
            let s = (index % WINDOW_SIZE) as usize;
            proof {
                assert forall|j: int| 1 <= j <= d - 1 implies #[trigger] slot_of_int(
                    limit as int + j,
                ) != slot_of_int(index as int) by {
                    lemma_slots_differ(limit as int + j, index as int);
                }
                assert(self.window@[s as int] == w1[slot_of_int(limit as int + d)]);
            }
            if !self.window[s] {
                break;
            }
            self.window.set(s, false);
            proof {
                assert forall|t: int| 0 <= t < WINDOW_SIZE as int implies self.window@[t]
                    == window_after(w1, limit as int, d)[t] by {
                    if t == slot_of_int(limit as int + d) {
                        assert(1 <= d <= d && slot_of_int(limit as int + d) == t);
                        assert(window_after(w1, limit as int, d)[t] == false);
                    } else {
                        if exists|j: int| 1 <= j <= d && #[trigger] slot_of_int(limit as int + j)
                            == t {
                            let j = choose|j: int|
                                1 <= j <= d && #[trigger] slot_of_int(limit as int + j) == t;
                            assert(1 <= j <= d - 1);
                        }
                    }
                }
                assert(self.window@ =~= window_after(w1, limit as int, d));
            }
            index = index + 1;
        }
        self.limit = index - 1;
        proof {
            lemma_advance_count_bounds(w1, limit as int, 1);
        }
        Ok(())
    }

    /// The watermark: the largest key up to which everything is acknowledged.
    pub fn last_value(&self) -> (r: u64)
        ensures
            r == self.limit,
    {
        self.limit
    }
}

/// The protocol invariant that ties a generator state to the set `acked` of
/// keys whose work has completed, for a generator that started at `start`:
///
/// - the watermark `limit` never passes the highest assigned key;
/// - every key from `start` up to `limit` has been acknowledged, so a reader
///   of [`AcknowledgedCounterGenerator::last_value`] never observes an
///   unacknowledged key;
/// - the marked slots are exactly the acknowledged keys beyond the
///   watermark, all of them less than a window ahead of it.
pub open spec fn valid(g: AcknowledgedCounterGenerator, start: u64, acked: Set<u64>) -> bool {
    &&& g.wf()
    &&& 1 <= start
    &&& start - 1 <= g.limit
    &&& g.limit < g.counter.counter
    &&& forall|k: u64| acked.contains(k) ==> start <= k < g.counter.counter
    &&& forall|k: u64| start <= k <= g.limit ==> acked.contains(k)
    &&& forall|k: u64| #[trigger]
        acked.contains(k) && k > g.limit ==> k < g.limit + WINDOW_SIZE && g.window@[slot_of(k)]
    &&& forall|s: int|
        0 <= s < WINDOW_SIZE && #[trigger] g.window@[s] ==> exists|k: u64|
            acked.contains(k) && k > g.limit && slot_of(k) == s
}

/// A freshly constructed generator is valid with nothing acknowledged.
pub proof fn lemma_new_valid(g: AcknowledgedCounterGenerator, start: u64)
    requires
        g.wf(),
        start >= 1,
        g.counter.counter == start,
        g.limit == start - 1,
        forall|s: int| 0 <= s < WINDOW_SIZE ==> !g.window@[s],
    ensures
        valid(g, start, Set::<u64>::empty()),
{
}

/// Assigning a key preserves the protocol invariant: sampling touches only
/// the inner counter.
pub proof fn lemma_sample_preserves_valid(
    pre: AcknowledgedCounterGenerator,
    post: AcknowledgedCounterGenerator,
    start: u64,
    acked: Set<u64>,
    r: u64,
)
    requires
        valid(pre, start, acked),
        pre.sample_ens(post, r),
    ensures
        valid(post, start, acked),
        r == pre.counter.counter,
{
}

/// Every slot retired by an advance of length `n` was marked.
proof fn lemma_advance_count_marked(w: Seq<bool>, limit: int, d: int)
    requires
        1 <= d <= WINDOW_SIZE,
    ensures
        forall|j: int|
            d <= j <= advance_count(w, limit, d) ==> w[#[trigger] slot_of_int(limit + j)],
    decreases WINDOW_SIZE as int - d,
{
    if d < WINDOW_SIZE && w[slot_of_int(limit + d)] {
        lemma_advance_count_marked(w, limit, d + 1);
    }
}

/// The advance length is pinned by a marked run and its first gap.
proof fn lemma_advance_count_exact(w: Seq<bool>, limit: int, m: int, d: int)
    requires
        1 <= d <= WINDOW_SIZE,
        d - 1 <= m <= WINDOW_SIZE - 1,
        forall|j: int| d <= j <= m ==> w[#[trigger] slot_of_int(limit + j)],
        m == WINDOW_SIZE - 1 || !w[slot_of_int(limit + m + 1)],
    ensures
        advance_count(w, limit, d) == m,
    decreases WINDOW_SIZE as int - d,
{
    if d >= WINDOW_SIZE {
    } else if d <= m {
        lemma_advance_count_exact(w, limit, m, d + 1);
    }
}

/// Acknowledging a key that is in flight — assigned, past the watermark,
/// less than a window ahead of it, and not acknowledged before — never finds
/// its slot already marked: the window-overflow failure cannot hit a
/// well-behaved pipeline.
pub proof fn lemma_acknowledge_in_window_succeeds(
    pre: AcknowledgedCounterGenerator,
    start: u64,
    acked: Set<u64>,
    value: u64,
)
    requires
        valid(pre, start, acked),
        !acked.contains(value),
        pre.limit < value < pre.counter.counter,
        value < pre.limit + WINDOW_SIZE,
    ensures
        !pre.window@[slot_of(value)],
{
    if pre.window@[slot_of(value)] {
        let k = choose|k: u64| acked.contains(k) && k > pre.limit && slot_of(k) == slot_of(value);
        if k < value {
            lemma_slots_differ(k as int, value as int);
        } else {
            lemma_slots_differ(value as int, k as int);
        }
    }
}

/// The heart of the acknowledged counter: a successful acknowledgement of an
/// in-flight key preserves the protocol invariant, never moves the watermark
/// down, and — once every assigned key has been acknowledged — lands the
/// watermark exactly on the highest assigned key.
pub proof fn lemma_acknowledge_ok_preserves_valid(
    pre: AcknowledgedCounterGenerator,
    post: AcknowledgedCounterGenerator,
    start: u64,
    acked: Set<u64>,
    value: u64,
)
    requires
        valid(pre, start, acked),
        !acked.contains(value),
        pre.limit < value < pre.counter.counter,
        value < pre.limit + WINDOW_SIZE,
        ack_ok_post(pre, post, value),
    ensures
        valid(post, start, acked.insert(value)),
        pre.limit <= post.limit,
        (forall|k: u64| start <= k < pre.counter.counter ==> acked.insert(value).contains(k))
            ==> post.limit == pre.counter.counter - 1,
{
    let a = acked.insert(value);
    let limit = pre.limit as int;
    let w1 = pre.window@.update(slot_of(value), true);
    let n = advance_count(w1, limit, 1);
    lemma_advance_count_bounds(w1, limit, 1);
    lemma_advance_count_marked(w1, limit, 1);

    // every marked slot of w1 is witnessed by an acknowledged in-flight key
    assert forall|s: int| 0 <= s < WINDOW_SIZE && w1[s] implies exists|k: u64|
        a.contains(k) && k > pre.limit && slot_of(k) == s by {
        if s == slot_of(value) {
            assert(a.contains(value) && value > pre.limit && slot_of(value) == s);
        } else {
            assert(pre.window@[s]);
            let k = choose|k: u64| acked.contains(k) && k > pre.limit && slot_of(k) == s;
            assert(a.contains(k) && k > pre.limit && slot_of(k) == s);
        }
    }

    // each key the watermark passed over is acknowledged
    assert forall|j: int| 1 <= j <= n implies a.contains(#[trigger] ((limit + j) as u64)) by {
        assert(w1[slot_of_int(limit + j)]);
        let s = slot_of_int(limit + j);
        let k = choose|k: u64| a.contains(k) && k > pre.limit && slot_of(k) == s;
        if k as int != limit + j {
            if (k as int) < limit + j {
                lemma_slots_differ(k as int, limit + j);
            } else {
                lemma_slots_differ(limit + j, k as int);
            }
        }
    }

    // keys the watermark passed over are assigned, so it stays below the counter
    assert(post.limit < post.counter.counter) by {
        if n > 0 {
            assert(a.contains((limit + n) as u64));
        }
    }

    // the new prefix is covered: old keys by the old invariant, passed-over
    // keys by the run of marks
    assert forall|k: u64| start <= k <= post.limit implies a.contains(k) by {
        if k > pre.limit {
            let j = k as int - limit;
            assert(a.contains(((limit + j) as u64)));
            assert((limit + j) as u64 == k);
        }
    }

    // acknowledged keys beyond the new watermark keep their marks
    assert forall|k: u64| #[trigger] a.contains(k) && k > post.limit implies k < post.limit
        + WINDOW_SIZE && post.window@[slot_of(k)] by {
        assert(k > pre.limit);
        assert(k < pre.limit + WINDOW_SIZE);
        assert(w1[slot_of(k)]);
        if exists|j: int| 1 <= j <= n && #[trigger] slot_of_int(limit + j) == slot_of(k) {
            let j = choose|j: int| 1 <= j <= n && #[trigger] slot_of_int(limit + j) == slot_of(k);
            if k as int != limit + j {
                if (k as int) < limit + j {
                    lemma_slots_differ(k as int, limit + j);
                } else {
                    lemma_slots_differ(limit + j, k as int);
                }
            }
            assert(false);
        }
        assert(post.window@[slot_of(k)] == w1[slot_of(k)]);
    }

    // marks that survive the advance are witnessed beyond the new watermark
    assert forall|s: int| 0 <= s < WINDOW_SIZE && #[trigger] post.window@[s] implies exists|k: u64|
        a.contains(k) && k > post.limit && slot_of(k) == s by {
        assert(w1[s]);
        let k = choose|k: u64| a.contains(k) && k > pre.limit && slot_of(k) == s;
        if k <= post.limit {
            let j = k as int - limit;
            assert(1 <= j <= n && slot_of_int(limit + j) == s);
            assert(false);
        }
        assert(a.contains(k) && k > post.limit && slot_of(k) == s);
    }

    // completion: with everything assigned acknowledged, the first gap sits
    // exactly at the next unassigned key
    if forall|k: u64| start <= k < pre.counter.counter ==> a.contains(k) {
        let top = pre.counter.counter as int - 1;
        let m = top - limit;
        assert(a.contains((top) as u64));
        assert(top < limit + WINDOW_SIZE);
        assert(1 <= m <= WINDOW_SIZE - 1);
        assert forall|j: int| 1 <= j <= m implies w1[#[trigger] slot_of_int(limit + j)] by {
            assert(a.contains((limit + j) as u64));
        }
        if m < WINDOW_SIZE - 1 {
            assert(!w1[slot_of_int(limit + m + 1)]) by {
                if w1[slot_of_int(limit + m + 1)] {
                    let s = slot_of_int(limit + m + 1);
                    let k = choose|k: u64| a.contains(k) && k > pre.limit && slot_of(k) == s;
                    if k as int != limit + m + 1 {
                        if (k as int) < limit + m + 1 {
                            lemma_slots_differ(k as int, limit + m + 1);
                        } else {
                            lemma_slots_differ(limit + m + 1, k as int);
                        }
                    }
                    assert((k as int) == limit + m + 1);
                    assert(false);
                }
            }
        }
        lemma_advance_count_exact(w1, limit, m, 1);
    }
}

impl Generator<u64> for AcknowledgedCounterGenerator {
    open spec fn sample_req(&self) -> bool {
        self.counter.counter < u64::MAX
    }

    open spec fn sample_ens(&self, post: Self, r: u64) -> bool {
        &&& r == self.counter.counter
        &&& post.counter.counter == self.counter.counter + 1
        &&& post.window == self.window
        &&& post.limit == self.limit
    }

    fn next_value(&mut self, rng: &mut rand::rngs::SmallRng) -> (r: u64) {
        self.counter.next_value(rng)
    }
}

} // verus!
