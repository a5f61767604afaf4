//! Random draws from the thread-local generator.
use vstd::prelude::*;
use rand::Rng;

verus! {

/// Relies on rand's `Rng::gen_range` on `rand::thread_rng()`: the value is drawn
/// from `low..high`. The call panics on an empty range, which `requires` rules out.
#[verifier::external_body]
pub(crate) fn random_in_range(low: u32, high: u32) -> (r: u32)
    requires
        low < high,
    ensures
        low <= r < high,
{
    rand::thread_rng().gen_range(low..high)
}

} // verus!
