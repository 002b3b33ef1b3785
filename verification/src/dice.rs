//! The one source of chance.

use rand::Rng;
use vstd::prelude::*;

verus! {

/// Calls `rand::thread_rng().gen_range(0..bound)`, which draws a number
/// from zero up to, and not including, `bound`. Which number comes is left
/// to chance, so nothing more is said of it. An empty range is not
/// accepted there, hence `bound` must be positive.
#[verifier::external_body]
pub(crate) fn random_below(bound: usize) -> (r: usize)
    requires
        bound > 0,
    ensures
        r < bound,
{
    rand::thread_rng().gen_range(0..bound)
}

} // verus!
