//! The random draws that the generator makes, each through `rand`.
//!
//! Every draw depends on the state of the thread's random number generator,
//! so the contracts here state only what holds of every outcome.

use rand::distributions::Alphanumeric;
use rand::distributions::Distribution;
use rand::distributions::Uniform;
use rand::distributions::WeightedError;
use rand::rngs::ThreadRng;
use rand::seq::SliceRandom;
use rand::Rng;
use vstd::prelude::*;

verus! {

/// The thread-local random number generator of `rand`.
#[verifier::external_type_specification]
#[verifier::external_body]
pub struct ExThreadRng(ThreadRng);

/// The error of a weighted choice in `rand`.
#[verifier::external_type_specification]
#[verifier::external_body]
pub struct ExWeightedError(WeightedError);

/// The sum of a sequence of weights.
pub open spec fn weight_sum(ws: Seq<usize>) -> nat
    decreases ws.len(),
{
    if ws.len() == 0 {
        0
    } else {
        weight_sum(ws.drop_last()) + ws.last() as nat
    }
}

/// Whether a weighted choice over `ws` succeeds: there is at least one weight,
/// the weights do not all vanish, and their total fits in a `usize`.
pub open spec fn weights_pickable(ws: Seq<usize>) -> bool {
    &&& ws.len() > 0
    &&& weight_sum(ws) > 0
    &&& weight_sum(ws) <= usize::MAX
}

/// Whether `c` is one of the 62 ASCII letters and digits.
pub open spec fn is_alphanumeric(c: char) -> bool {
    ('A' <= c && c <= 'Z') || ('a' <= c && c <= 'z') || ('0' <= c && c <= '9')
}

/// `SliceRandom::choose_weighted`: picks one of `weights` with a probability
/// proportional to its weight, and hands back its position. `rand` sums the
/// weights in a `usize` (so their total must fit), fails exactly when there is
/// no weight or they are all zero, and otherwise lands on a position whose
/// weight is positive (the position is found among the running sums, which
/// only grow at such positions).
#[verifier::external_body]
pub(crate) fn choose_weighted_index(rng: &mut ThreadRng, weights: &[usize]) -> (r: Result<usize, WeightedError>)
    requires
        weight_sum(weights@) <= usize::MAX,
    ensures
        r is Ok <==> (weights@.len() > 0 && weight_sum(weights@) > 0),
        r matches Ok(i) ==> i < weights@.len() && weights@[i as int] > 0,
{
    let indexed: Vec<(usize, usize)> = weights.iter().copied().enumerate().collect();
    indexed.choose_weighted(rng, |entry| entry.1).map(|entry| entry.0)
}

/// `Uniform::from(0..count)` sampled once: a position below `count`.
/// `rand` panics when the range is empty, hence `count > 0`.
#[verifier::external_body]
pub(crate) fn sample_below(rng: &mut ThreadRng, count: usize) -> (r: usize)
    requires
        count > 0,
    ensures
        r < count,
{
    Uniform::from(0..count).sample(rng)
}

/// `Rng::gen_range(low, high)`: a number in `[low, high)`. `rand` panics when
/// `low >= high`.
#[verifier::external_body]
pub(crate) fn gen_range_u64(rng: &mut ThreadRng, low: u64, high: u64) -> (r: u64)
    requires
        low < high,
    ensures
        low <= r < high,
{
    rng.gen_range(low, high)
}

/// `rng.sample_iter(&Alphanumeric).take(len).collect::<String>()`: `len`
/// characters, each drawn from the ASCII letters and digits.
#[verifier::external_body]
pub(crate) fn alphanumeric_string(rng: &mut ThreadRng, len: usize) -> (s: String)
    ensures
        s@.len() == len,
        forall|i: int| 0 <= i < len ==> is_alphanumeric(#[trigger] s@[i]),
{
    rng.sample_iter(&Alphanumeric).take(len).collect::<String>()
}

} // verus!
