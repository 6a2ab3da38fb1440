//! The one place where the library asks for a random number.

use vstd::prelude::*;
use rand::Rng;

verus! {

/// `rand::Rng::gen_range` on the thread's generator, with the inclusive
/// range `low..=high`. The generator is seeded by the machine, so nothing is
/// said of which number comes back: only that it lies in the range.
/// `gen_range` panics on an empty range, so the range must hold a number.
#[verifier::external_body]
pub(crate) fn random_in_range(low: i64, high: i64) -> (drawn: i64)
    requires
        low <= high,
    ensures
        low <= drawn <= high,
{
    rand::thread_rng().gen_range(low..=high)
}

} // verus!
