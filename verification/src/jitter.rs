//! Random waits. The generator is the caller's: each task brings its own,
//! so that the waits of one sandbox say nothing of another's.

use rand::rngs::StdRng;
use rand::Rng;
use vstd::prelude::*;

verus! {

#[verifier::external_type_specification]
#[verifier::external_body]
pub struct ExStdRng(rand::rngs::StdRng);

/// `Rng::gen_range` on the half-open range `low..high` of `u64`: the number
/// drawn lies in the range. An empty range is left out: there the call
/// panics.
#[verifier::external_body]
pub(crate) fn uniform(rng: &mut StdRng, low: u64, high: u64) -> (r: u64)
    requires
        low < high,
    ensures
        low <= r < high,
{
    rng.gen_range(low..high)
}

} // verus!
