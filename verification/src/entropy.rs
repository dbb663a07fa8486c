//! The crate's one live randomness source: a uniform integer draw delegated
//! to the `rand` crate. Every random decision the library makes goes through
//! this draw, and nothing is assumed of an outcome beyond its range.

use rand::Rng;
use vstd::prelude::*;

verus! {

/// Relies on rand's `Rng::gen_range` on the half-open integer range
/// `lo..hi`: it returns a uniformly distributed value of that range and
/// panics only when the range is empty, which the precondition rules out.
#[verifier::external_body]
pub(crate) fn rand_in(lo: u32, hi: u32) -> (r: u32)
    requires
        lo < hi,
    ensures
        lo <= r < hi,
{
    rand::thread_rng().gen_range(lo..hi)
}

} // verus!
