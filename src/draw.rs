use vstd::prelude::*;
use rand::distributions::{Distribution, Uniform};

verus! {

/// Relies on rand's `Uniform::from(lo..hi)` sampled with `thread_rng()`: the value
/// drawn lies in `lo..hi`. `Uniform::new` panics unless `lo < hi`.
#[verifier::external_body]
pub(crate) fn uniform_below(lo: u64, hi: u64) -> (r: u64)
    requires
        lo < hi,
    ensures
        lo <= r < hi,
{
    Uniform::from(lo..hi).sample(&mut rand::thread_rng())
}

} // verus!
