//! The random source of the zone fill.
//!
//! Zones are filled from a seeded pseudo-random generator of the `rand` crate.
//! The generator is deterministic: in the version of `rand` that the library
//! is built with, a draw is a function of the generator's state, and so is
//! the state it leaves behind. Nothing is proved of `rand`; this module
//! states what the fill relies on, and the rest of the library is proved
//! from these statements alone.

use rand::distributions::{Distribution, WeightedError, WeightedIndex};
use rand::rngs::StdRng;
use rand::{Rng, SeedableRng};
use vstd::prelude::*;

verus! {

/// `rand::rngs::StdRng`, the generator behind every draw. Opaque.
#[verifier::external_type_specification]
#[verifier::external_body]
pub struct ExStdRng(StdRng);

/// A table of weights to draw an index from: a `WeightedIndex` of `rand`
/// over `u32` weights. Opaque.
#[verifier::external_body]
pub struct WeightTable {
    inner: WeightedIndex<u32>,
}

/// `rand::distributions::WeightedError`, the reason a table of weights is
/// refused. Opaque.
#[verifier::external_type_specification]
#[verifier::external_body]
pub struct ExWeightedError(WeightedError);

/// The internal state of a generator: the bytes that determine all its
/// later draws.
pub uninterp spec fn rng_state(rng: StdRng) -> Seq<u8>;

/// The state of the generator that `StdRng::seed_from_u64` makes from `seed`.
pub uninterp spec fn seeded_state(seed: u64) -> Seq<u8>;

/// What `Rng::gen_range` draws from `0..bound` in a given state: the value,
/// and the state after the draw.
pub uninterp spec fn uniform_draw(state: Seq<u8>, bound: u32) -> (u32, Seq<u8>);

/// What sampling a `WeightedIndex` over `weights` draws in a given state: the
/// index, and the state after the draw.
pub uninterp spec fn weighted_draw(state: Seq<u8>, weights: Seq<u32>) -> (usize, Seq<u8>);

/// The weights that a table was made from, in order.
pub uninterp spec fn table_weights(table: WeightTable) -> Seq<u32>;

/// The sum of a sequence of weights.
pub open spec fn total_weight(weights: Seq<u32>) -> int
    decreases weights.len(),
{
    if weights.len() == 0 {
        0
    } else {
        total_weight(weights.drop_last()) + weights.last()
    }
}

/// `StdRng::seed_from_u64`: a generator whose state is determined by `seed`.
#[verifier::external_body]
pub(crate) fn seeded_rng(seed: u64) -> (rng: StdRng)
    ensures
        rng_state(rng) == seeded_state(seed),
{
    StdRng::seed_from_u64(seed)
}

/// `Rng::gen_range` on `0..bound`: a value below `bound`, determined, as the
/// state left behind, by the state before. An empty range makes `gen_range`
/// panic, so `bound` is positive.
#[verifier::external_body]
pub(crate) fn draw_below(rng: &mut StdRng, bound: u32) -> (value: u32)
    requires
        bound > 0,
    ensures
        value == uniform_draw(rng_state(*old(rng)), bound).0,
        rng_state(*final(rng)) == uniform_draw(rng_state(*old(rng)), bound).1,
        value < bound,
{
    rng.gen_range(0..bound)
}

/// `WeightedIndex::new` on unsigned weights: refused exactly when there is no
/// weight or all are zero, else a table of these weights. The weights are
/// summed in `u32`, so their total fits.
#[verifier::external_body]
pub(crate) fn weighted_table(weights: &Vec<u32>) -> (result: Result<WeightTable, WeightedError>)
    requires
        total_weight(weights@) <= u32::MAX,
    ensures
        match result {
            Ok(table) => weights@.len() > 0 && total_weight(weights@) > 0 && table_weights(table)
                == weights@,
            Err(_) => weights@.len() == 0 || total_weight(weights@) == 0,
        },
{
    WeightedIndex::new(weights).map(|inner| WeightTable { inner })
}

/// `Distribution::sample` of a `WeightedIndex`: the index of one of the
/// table's weights, determined, as the state left behind, by the state before
/// and the weights.
#[verifier::external_body]
pub(crate) fn draw_weighted(table: &WeightTable, rng: &mut StdRng) -> (choice: usize)
    ensures
        choice == weighted_draw(rng_state(*old(rng)), table_weights(*table)).0,
        rng_state(*final(rng)) == weighted_draw(rng_state(*old(rng)), table_weights(*table)).1,
        choice < table_weights(*table).len(),
{
    table.inner.sample(rng)
}

} // verus!
