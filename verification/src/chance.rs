//! The one place where the library asks for a random number.

use vstd::prelude::*;
use rand::Rng;

verus! {

/// Draws a number from `low` up to, but not including, `high`.
///
/// Trusted, not proved. The body calls `rand::Rng::gen_range` with the range
/// `low..high` on the generator that `rand::thread_rng` hands out. The
/// contract claims of that call only that every outcome lies in the range;
/// which number comes is chance, and two calls may answer differently.
/// `gen_range` panics on an empty range, which `requires` leaves out.
/// `thread_rng` panics where the operating system cannot seed it; no argument
/// avoids that.
#[verifier::external_body]
pub(crate) fn random_in_range(low: u16, high: u16) -> (drawn: u16)
    requires
        low < high,
    ensures
        low <= drawn < high,
{
    rand::thread_rng().gen_range(low..high)
}

} // verus!
