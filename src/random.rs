use rand::Rng;
use vstd::prelude::*;

verus! {

/// rand's handle to the generator of the current thread.
#[verifier::external_type_specification]
#[verifier::external_body]
pub struct ExThreadRng(rand::rngs::ThreadRng);

/// Relies on rand::rng: it hands out the thread-local generator. Nothing is
/// known of the numbers it will produce.
pub assume_specification[ rand::rng ]() -> rand::rngs::ThreadRng;

/// Relies on rand::Rng::random_range: a value drawn from the half-open range
/// `lo..hi`; it panics only when that range is empty.
#[verifier::external_body]
pub(crate) fn random_in(rng: &mut rand::rngs::ThreadRng, lo: i32, hi: i32) -> (r: i32)
    requires
        lo < hi,
    ensures
        lo <= r < hi,
{
    rng.random_range(lo..hi)
}

} // verus!
