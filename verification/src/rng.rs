use vstd::prelude::*;
use rand::Rng;

verus! {

/// Relies on `rand::thread_rng` and `rand::Rng::gen_range`: a uniform
/// sample from the inclusive range `lo..=hi` lies in that range, and the
/// call panics only on an empty range, which the precondition excludes.
#[verifier::external_body]
pub(crate) fn rand_in_range(lo: i64, hi: i64) -> (r: i64)
    requires
        lo <= hi,
    ensures
        lo <= r <= hi,
{
    rand::thread_rng().gen_range(lo..=hi)
}

} // verus!
