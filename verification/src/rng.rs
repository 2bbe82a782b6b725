//! Random draws, taken from the thread-local generator of `rand`.
use rand::Rng;
use vstd::prelude::*;

verus! {

/// Calls `rand::Rng::gen_ratio(numerator, denominator)` on `rand::thread_rng()`:
/// true with probability `numerator / denominator`. Claimed of it, from its source:
/// it returns false where the numerator is 0 and true where the numerator equals
/// the denominator. Nothing is claimed of any other draw. It panics where the
/// denominator is 0 or below the numerator, which `requires` leaves out.
#[verifier::external_body]
pub(crate) fn chance(numerator: u32, denominator: u32) -> (r: bool)
    requires
        0 < denominator,
        numerator <= denominator,
    ensures
        numerator == 0 ==> !r,
        numerator == denominator ==> r,
{
    rand::thread_rng().gen_ratio(numerator, denominator)
}

} // verus!
