//! Random choices, drawn from the `rand` crate.
use vstd::prelude::*;

verus! {

/// The thread-local random number generator of `rand`.
#[verifier::external_type_specification]
#[verifier::external_body]
pub struct ExThreadRng(rand::rngs::ThreadRng);

/// Calls `rand::thread_rng`, which hands out the calling thread's generator.
/// Nothing is claimed of its state.
#[verifier::external_body]
pub fn thread_rng() -> rand::rngs::ThreadRng {
    rand::thread_rng()
}

/// Calls `rand::seq::SliceRandom::choose` on the items: `None` exactly when
/// there are none, otherwise a reference to one of them. Which one is left to
/// chance and is not stated.
#[verifier::external_body]
pub fn choose_from<'a, T>(items: &'a Vec<T>, rng: &mut rand::rngs::ThreadRng) -> (r: Option<&'a T>)
    ensures
        r is None <==> items@.len() == 0,
        r matches Some(x) ==> exists|i: int| 0 <= i < items@.len() && items@[i] == *x,
{
    rand::seq::SliceRandom::choose(items.as_slice(), rng)
}

} // verus!
