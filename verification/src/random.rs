//! Uniform integer draws from the thread-local generator.

use vstd::prelude::*;

verus! {

/// Calls `nannou::rand::random_range`, which orders its two bounds and then
/// draws from the half-open range between them with the thread-local
/// generator. Trusted: the value lies in that range. Equal bounds make the
/// range empty, on which the generator panics, so they are excluded.
#[verifier::external_body]
pub(crate) fn random_range(min: u32, max: u32) -> (value: u32)
    requires
        min != max,
    ensures
        min < max ==> min <= value < max,
        max < min ==> max <= value < min,
{
    nannou::rand::random_range(min, max)
}

} // verus!
