//! Random pauses between attempts.

use rand::rngs::ThreadRng;
use rand::Rng;
use vstd::prelude::*;

verus! {

#[verifier::external_type_specification]
#[verifier::external_body]
pub struct ExThreadRng(ThreadRng);

/// Calls `rand::rng`: the thread-local generator. Nothing is claimed of it.
/// (It panics only if the operating system cannot seed it.)
#[verifier::external_body]
fn thread_rng() -> ThreadRng {
    rand::rng()
}

/// Calls `Rng::random_range` on `low..high`: a number of at least `low` and
/// less than `high`. It panics on an empty range, which `requires` excludes.
#[verifier::external_body]
fn random_in_range(rng: &mut ThreadRng, low: u64, high: u64) -> (r: u64)
    requires
        low < high,
    ensures
        low <= r < high,
{
    rng.random_range(low..high)
}

/// A random pause of at least `min_ms` and less than `max_ms` milliseconds.
pub fn random_sleep_millis(min_ms: u64, max_ms: u64) -> (r: u64)
    requires
        min_ms < max_ms,
    ensures
        min_ms <= r < max_ms,
{
    let mut rng = thread_rng();
    random_in_range(&mut rng, min_ms, max_ms)
}

} // verus!
