//! The source of randomness: the thread-local generator of `rand`.

use rand::rngs::ThreadRng;
use rand::Rng;
use vstd::prelude::*;

verus! {

/// `rand::rngs::ThreadRng`, a handle to the generator of the current thread,
/// carried through as an opaque value.
#[verifier::external_type_specification]
#[verifier::external_body]
pub struct ExThreadRng(rand::rngs::ThreadRng);

/// Calls `ThreadRng::default`, which hands out the generator of the current
/// thread. Nothing is claimed of the handle.
#[verifier::external_body]
pub(crate) fn thread_generator() -> ThreadRng {
    ThreadRng::default()
}

/// Calls `Rng::random` for a `u64`: the next 64 bits of the generator.
/// The value depends on chance, so nothing is claimed of it.
#[verifier::external_body]
pub(crate) fn next_draw(rng: &mut ThreadRng) -> u64 {
    rng.random::<u64>()
}

} // verus!
