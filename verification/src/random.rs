use rand::rngs::ThreadRng;
use rand::Rng;
use vstd::prelude::*;

verus! {

/// The thread-local random number generator of `rand`.
#[verifier::external_type_specification]
#[verifier::external_body]
pub struct ExThreadRng(ThreadRng);

/// `rand::Rng::gen::<bool>` on the thread-local generator: a fair coin.
/// Nothing is claimed of the result, which depends on chance.
#[verifier::external_body]
pub(crate) fn coin_flip(rng: &mut ThreadRng) -> bool {
    rng.gen::<bool>()
}

/// `rand::Rng::gen_range(low..=high)` on the thread-local generator. The
/// crate documents (and its integer sampler asserts) that the range must not
/// be empty; it then returns a value from `low` to `high` inclusive. Which
/// one depends on chance and is not claimed.
#[verifier::external_body]
pub(crate) fn sample_inclusive(rng: &mut ThreadRng, low: u32, high: u32) -> (r: u32)
    requires
        low <= high,
    ensures
        low <= r <= high,
{
    rng.gen_range(low..=high)
}

} // verus!
