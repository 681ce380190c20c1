//! Pseudo-random sampling primitives.
//!
//! Every distribution in this crate draws its randomness from a caller-held
//! `SmallRng`. The generator itself is opaque; the wrappers below state only
//! what holds of every outcome (a range, a length, a character set), never
//! which value comes back.

use vstd::prelude::*;

verus! {

#[verifier::external_type_specification]
#[verifier::external_body]
pub struct ExSmallRng(rand::rngs::SmallRng);

/// A character of the alphanumeric alphabet: `A-Z`, `a-z` or `0-9`.
pub open spec fn is_alnum_char(c: char) -> bool {
    ('A' <= c && c <= 'Z') || ('a' <= c && c <= 'z') || ('0' <= c && c <= '9')
}

/// Relies on rand's `SeedableRng::from_entropy` for `SmallRng`: a generator
/// seeded from the operating system's entropy source. Nothing can be promised
/// of the values it will produce, and it aborts if the entropy source itself
/// fails — an environmental condition, like running out of memory.
#[verifier::external_body]
pub(crate) fn fresh_rng() -> rand::rngs::SmallRng {
    <rand::rngs::SmallRng as rand::SeedableRng>::from_entropy()
}

/// Relies on rand's `Rng::gen_range` over the inclusive range `lo..=hi`: the
/// sample lies in `[lo, hi]`. `gen_range` panics on an empty range, which the
/// precondition rules out.
#[verifier::external_body]
pub(crate) fn sample_inclusive(rng: &mut rand::rngs::SmallRng, lo: u64, hi: u64) -> (r: u64)
    requires
        lo <= hi,
    ensures
        lo <= r <= hi,
{
    rand::Rng::gen_range(rng, lo..=hi)
}

/// Relies on rand's `Alphanumeric` distribution through
/// `DistString::sample_string`: exactly `len` characters, each drawn from
/// `A-Z`, `a-z`, `0-9`.
#[verifier::external_body]
pub(crate) fn sample_alphanumeric(rng: &mut rand::rngs::SmallRng, len: usize) -> (r: String)
    ensures
        r@.len() == len,
        forall|i: int| 0 <= i < r@.len() ==> is_alnum_char(#[trigger] r@[i]),
{
    rand::distributions::DistString::sample_string(&rand::distributions::Alphanumeric, rng, len)
}

} // verus!
