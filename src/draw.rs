use vstd::prelude::*;
use rand::Rng;

verus! {

/// Relies on `rand::thread_rng` and `Rng::gen_range`: a value drawn from the
/// half-open range `lo..hi`, which must not be empty (else `gen_range` panics).
#[verifier::external_body]
pub(crate) fn uniform_in(lo: i64, hi: i64) -> (r: i64)
    requires
        lo < hi,
    ensures
        lo <= r < hi,
{
    rand::thread_rng().gen_range(lo..hi)
}

} // verus!
