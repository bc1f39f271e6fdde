//! The random number generator behind apple placement.
//!
//! Nothing in this file is proved. The contracts are taken on trust from the
//! `rand` crate, and say only what holds of every draw.

use rand::rngs::ThreadRng;
use rand::Rng;
use vstd::prelude::*;

verus! {

#[verifier::external_type_specification]
#[verifier::external_body]
pub struct ExThreadRng(rand::rngs::ThreadRng);

/// Calls `rand::thread_rng`, which hands out a handle to the generator of the
/// calling thread. Nothing is claimed of the handle. The call fails only if
/// the system cannot seed the generator.
#[verifier::external_body]
pub(crate) fn thread_generator() -> ThreadRng {
    rand::thread_rng()
}

/// Calls `Rng::gen_range` on the half-open range from `low` to `high`. The
/// crate documents a value inside the range and a panic on an empty range: so
/// the range must not be empty, and the draw lies in it. Which value comes is
/// left open, and two draws from one range need not agree.
#[verifier::external_body]
pub(crate) fn draw(rng: &mut ThreadRng, low: u16, high: u16) -> (value: u16)
    requires
        low < high,
    ensures
        low <= value < high,
{
    rng.gen_range(low..high)
}

} // verus!
