//! The random number source of the scene, as far as the library draws from it.
//!
//! Nothing in this module is proved: the declarations below say what the
//! `rand` crate is taken to do.

use rand::Rng;
use vstd::prelude::*;

verus! {

/// `rand::rngs::ThreadRng`, the handle to the generator of the current
/// thread. Nothing is known of its state.
#[verifier::external_type_specification]
#[verifier::external_body]
pub struct ExThreadRng(rand::rngs::ThreadRng);

/// `rand::thread_rng` hands out the handle to the current thread's
/// generator. Nothing is claimed of the handle. The first call on a thread
/// seeds the generator from the operating system and stops the program if
/// the system has no entropy to give.
pub assume_specification[ rand::thread_rng ]() -> (rng: rand::rngs::ThreadRng);

/// `Rng::gen_range` on the half-open range `low..high` of `usize`: the
/// value drawn is at least `low` and below `high`. The crate panics on an
/// empty range, so the range must hold a value. Which value comes back is
/// open: two draws from one range need not agree.
#[verifier::external_body]
pub(crate) fn random_in_range(rng: &mut rand::rngs::ThreadRng, low: usize, high: usize) -> (value: usize)
    requires
        low < high,
    ensures
        low <= value < high,
{
    rng.gen_range(low..high)
}

} // verus!
