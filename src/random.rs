//! The random source of the simulation: uniform integer draws, fair coins
//! and the weighted choice of a hazard's visual variant.
use rand::distributions::Distribution;
use rand::Rng;
use vstd::prelude::*;

verus! {

/// Weight, in percent, of the first variant of the catalog.
pub const FIRST_RARITY: u32 = 85;

/// Weight, in percent, shared by all the other variants.
pub const REST_RARITY: u32 = 15;

/// Largest catalog that the weighted choice accepts.
pub const MAX_VARIANTS: usize = 1_000_000;

/// Sum of a sequence of weights.
pub open spec fn weight_total(s: Seq<u32>) -> int
    decreases s.len(),
{
    if s.len() == 0 { 0 } else { weight_total(s.drop_last()) + s.last() }
}

/// Weight of entry `i` of a catalog of `n` variants: the first entry holds
/// `FIRST_RARITY` parts in a hundred, the others share `REST_RARITY` equally.
pub open spec fn variant_weight(n: int, i: int) -> int {
    if n == 1 { FIRST_RARITY as int }
    else if i == 0 { FIRST_RARITY * (n - 1) }
    else { REST_RARITY as int }
}

/// Relies on rand's `Rng::gen_range` over an inclusive range of `i64`, on the
/// thread-local generator: the value lies in the range, which must not be empty.
#[verifier::external_body]
pub(crate) fn random_between(lo: i64, hi: i64) -> (r: i64)
    requires
        lo <= hi,
    ensures
        lo <= r <= hi,
{
    rand::thread_rng().gen_range(lo..=hi)
}

/// Relies on rand's `random::<bool>`: a fair coin.
#[verifier::external_body]
pub(crate) fn random_bool() -> bool {
    rand::random::<bool>()
}

/// Relies on rand's `WeightedIndex::new` and its `sample` on the thread-local
/// generator: a non-empty list of weights whose total is positive and fits in
/// `u32` is accepted, and the index drawn is one of the list's, never one of
/// weight 0.
#[verifier::external_body]
fn sample_weighted(weights: &Vec<u32>) -> (r: usize)
    requires
        weights@.len() > 0,
        0 < weight_total(weights@) <= u32::MAX,
    ensures
        r < weights@.len(),
        weights@[r as int] > 0,
{
    rand::distributions::WeightedIndex::new(weights).unwrap().sample(&mut rand::thread_rng())
}

proof fn lemma_total_push(s: Seq<u32>, w: u32)
    ensures
        weight_total(s.push(w)) == weight_total(s) + w,
{
    assert(s.push(w).drop_last() == s);
}

/// The weights of a catalog of `n` variants, entry by entry.
pub fn create_weights(n: usize) -> (r: Vec<u32>)
    requires
        1 <= n <= MAX_VARIANTS,
    ensures
        r@.len() == n,
        forall|i: int| 0 <= i < n ==> r@[i] == variant_weight(n as int, i),
        weight_total(r@) == if n == 1 { FIRST_RARITY as int } else { 100 * (n - 1) },
{
    let mut r: Vec<u32> = Vec::new();
    let first: u32 = if n == 1 { FIRST_RARITY } else { FIRST_RARITY * (n - 1) as u32 };
    r.push(first);
    proof {
        lemma_total_push(Seq::empty(), first);
    }
    let mut i: usize = 1;
    while i < n
        invariant
            1 <= i <= n <= MAX_VARIANTS,
            r@.len() == i,
            forall|j: int| 0 <= j < i ==> r@[j] == variant_weight(n as int, j),
            weight_total(r@) == first + REST_RARITY * (i - 1),
            first == variant_weight(n as int, 0),
        decreases n - i,
    {
        proof {
            lemma_total_push(r@, REST_RARITY);
        }
        r.push(REST_RARITY);
        i = i + 1;
    }
    r
}

/// Draws the index of a hazard variant from a catalog of `n`, the first
/// variant with weight `FIRST_RARITY` and the rest sharing `REST_RARITY`.
pub fn pick_variant(n: usize) -> (r: usize)
    requires
        1 <= n <= MAX_VARIANTS,
    ensures
        r < n,
{
    let weights = create_weights(n);
    sample_weighted(&weights)
}

/// In a catalog of two or more variants the first holds exactly
/// `FIRST_RARITY` percent of the total weight, and the others share the rest
/// equally.
pub proof fn lemma_first_variant_share(n: int)
    requires
        2 <= n,
    ensures
        100 * variant_weight(n, 0) == FIRST_RARITY * (100 * (n - 1)),
        forall|i: int, j: int| 1 <= i < n && 1 <= j < n ==> variant_weight(n, i) == variant_weight(n, j),
        variant_weight(n, 1) == REST_RARITY,
        variant_weight(n, 0) + (n - 1) * variant_weight(n, 1) == 100 * (n - 1),
{
    assert(FIRST_RARITY * (n - 1) + (n - 1) * REST_RARITY == 100 * (n - 1)) by (nonlinear_arith);
}

} // verus!
