//! The one source of chance: the `rand` crate's generator of the current
//! thread.

use rand::Rng;
use vstd::prelude::*;

verus! {

/// Draws a number with `rand::thread_rng().gen_range(low, high)`.
///
/// Nothing here is proved. The contract repeats what `rand` documents of
/// `Rng::gen_range`: the value lies in the half-open range from `low` up to,
/// but not including, `high`, and the call panics unless `low < high`, which
/// is why that is required. Which value comes is left open: two draws from
/// one range may differ. `thread_rng` itself panics if the operating system
/// cannot seed the generator on its first use in a thread.
#[verifier::external_body]
pub(crate) fn draw_between(low: u16, high: u16) -> (drawn: u16)
    requires
        low < high,
    ensures
        low <= drawn < high,
{
    rand::thread_rng().gen_range(low, high)
}

} // verus!
