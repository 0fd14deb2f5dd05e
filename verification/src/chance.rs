//! The one source of randomness.

use rand::Rng;
use vstd::prelude::*;

verus! {

/// Calls `rand::Rng::gen_range` on the generator that `rand::thread_rng`
/// hands out. Not verified: the contract repeats what the method documents,
/// a value of at least `low` and below `high`, and leaves out the inputs with
/// `low >= high`, on which it panics. Which value comes back is left open.
/// The generator seeds itself from the system when a thread first uses it,
/// and panics if the system has no seed to give: no argument decides that.
#[verifier::external_body]
pub(crate) fn gen_range(low: u32, high: u32) -> (n: u32)
    requires
        low < high,
    ensures
        low <= n < high,
{
    rand::thread_rng().gen_range(low, high)
}

} // verus!
