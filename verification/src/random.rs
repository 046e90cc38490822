//! The one source of randomness: a trusted draw from the process-wide
//! generator, reduced to a bounded index by verified code.

use vstd::prelude::*;

verus! {

/// Relies on rand::random: draws one uniformly random machine word from the
/// thread-local generator. Nothing can be promised of the value.
#[verifier::external_body]
fn random_u64() -> u64 {
    rand::random::<u64>()
}

/// A random index below `n`.
pub fn pick_index(n: usize) -> (r: usize)
    requires
        n > 0,
    ensures
        r < n,
{
    let x = random_u64();
    (x % (n as u64)) as usize
}

} // verus!
