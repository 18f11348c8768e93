//! Trusted boundary around `rand`, the pipeline's only source of chance.
//!
//! Nothing can be promised about which value comes back, so each contract
//! states only what holds of every outcome.

use vstd::prelude::*;

use rand::prelude::SliceRandom;
use rand::Rng;

verus! {

/// Relies on `Rng::gen_range` over a half-open range: a value at least
/// `lo` and below `hi`. The call panics on an empty range, so `lo < hi` is
/// required here.
#[verifier::external_body]
pub(crate) fn random_in_range(lo: u32, hi: u32) -> (r: u32)
    requires
        lo < hi,
    ensures
        lo <= r < hi,
{
    rand::thread_rng().gen_range(lo..hi)
}

/// Relies on `SliceRandom::shuffle`: an in-place Fisher-Yates pass built
/// from swaps, so the result holds exactly the same elements.
#[verifier::external_body]
pub(crate) fn shuffle_vec<T>(v: &mut Vec<T>)
    ensures
        final(v)@.to_multiset() == old(v)@.to_multiset(),
        final(v)@.len() == old(v)@.len(),
{
    v.shuffle(&mut rand::thread_rng())
}

} // verus!
