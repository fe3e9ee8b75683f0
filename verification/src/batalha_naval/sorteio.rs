//! The dice of the bot: the two calls into `rand` that the game makes.
//!
//! Nothing is proved of these two functions. What the rest of the game
//! proves holds whatever they return.

use rand::Rng;
use vstd::prelude::*;

verus! {

/// A number drawn by `rand::Rng::gen_range` on the range `0..limite`, from
/// the generator of the running thread (`rand::thread_rng`). The contract
/// claims what the method's documentation says of a range that is not empty:
/// the number lies in it. On an empty range the method panics, so `limite`
/// may not be 0. A thread that the system refuses a seed panics in
/// `thread_rng`, whatever `limite` is.
#[verifier::external_body]
pub(crate) fn sorteia_abaixo(limite: usize) -> (r: usize)
    requires
        limite > 0,
    ensures
        r < limite,
{
    rand::thread_rng().gen_range(0..limite)
}

/// A number drawn by `rand::Rng::gen::<usize>`, from the generator of the
/// running thread (`rand::thread_rng`). Any `usize` may come back: the
/// contract claims nothing of it. A thread that the system refuses a seed
/// panics in `thread_rng`.
#[verifier::external_body]
pub(crate) fn sorteia_usize() -> (r: usize) {
    rand::thread_rng().gen::<usize>()
}

} // verus!
