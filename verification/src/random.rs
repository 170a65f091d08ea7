//! The one source of chance in the library: the thread-local generator of `rand`.

use vstd::prelude::*;

verus! {

/// Draws a number uniformly from `0..bound` with `rand::random_range`.
///
/// Trusted: the contract claims only what the documentation of
/// `rand::random_range` promises for a half-open range, that the value lies in
/// the range. Which value comes out rests on chance and is not stated. The
/// function panics on an empty range, so `bound` must be positive.
#[verifier::external_body]
pub(crate) fn random_below(bound: usize) -> (r: usize)
    requires
        bound > 0,
    ensures
        r < bound,
{
    rand::random_range(0..bound)
}

} // verus!
