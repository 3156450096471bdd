use rand::Rng;
use rand::rngs::ThreadRng;
use vstd::prelude::*;

verus! {

/// rand's handle to the thread-local generator, carried through as it is.
#[verifier::external_type_specification]
#[verifier::external_body]
pub struct ExThreadRng(ThreadRng);

/// Relies on rand::thread_rng: a handle to the thread-local generator.
/// Nothing is promised of the values it will give.
pub assume_specification[ rand::thread_rng ]() -> ThreadRng;

/// Relies on rand's Rng::gen_range on the half-open range 0..n: it returns a
/// value of that range, and panics only where the range is empty.
#[verifier::external_body]
pub(crate) fn pick_below(rng: &mut ThreadRng, n: usize) -> (r: usize)
    requires
        n > 0,
    ensures
        r < n,
{
    rng.gen_range(0..n)
}

} // verus!
