//! The session's single source of randomness: `bracket_lib`'s
//! `RandomNumberGenerator`, threaded by the caller through every operation
//! that draws, so a test may seed it deterministically.

use vstd::prelude::*;

use bracket_lib::random::RandomNumberGenerator;

verus! {

#[verifier::external_type_specification]
#[verifier::external_body]
pub struct ExRandomNumberGenerator(RandomNumberGenerator);

/// Relies on bracket_lib's `RandomNumberGenerator::range`: the result is
/// inclusive of `min` and exclusive of `max` (it panics on an empty range,
/// which the precondition rules out). Nothing is promised about which value
/// in that range comes back.
#[verifier::external_body]
pub fn range_i32(rng: &mut RandomNumberGenerator, min: i32, max: i32) -> (r: i32)
    requires
        min < max,
    ensures
        min <= r < max,
{
    rng.range(min, max)
}

} // verus!
