//! The random-number generator that burst spawners draw from.
use vstd::prelude::*;

verus! {

#[verifier::external_type_specification]
#[verifier::external_body]
pub struct ExRng(fastrand::Rng);

/// Relies on fastrand::Rng::new: a generator with a fresh seed, of which nothing is known.
pub assume_specification[ fastrand::Rng::new ]() -> fastrand::Rng;

/// Relies on fastrand::Rng::usize: on a non-empty inclusive range it returns a value
/// inside the range (an empty range panics, so `requires` leaves it out).
#[verifier::external_body]
pub(crate) fn random_between(rng: &mut fastrand::Rng, min: usize, max: usize) -> (r: usize)
    requires
        min <= max,
    ensures
        min <= r <= max,
{
    rng.usize(min..=max)
}

} // verus!
