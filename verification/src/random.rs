//! Random bytes from the thread-local generator of `rand`.

use vstd::prelude::*;

verus! {

/// Calls `rand::thread_rng().fill(buf)`.
///
/// Trusted: only that the buffer keeps its length. The bytes it receives
/// are random, so nothing is said of them; `Rng::fill` panics if the
/// generator fails, which no input can rule out.
#[verifier::external_body]
pub(crate) fn fill_random(buf: &mut [u8])
    ensures
        final(buf)@.len() == old(buf)@.len(),
{
    rand::Rng::fill(&mut rand::thread_rng(), buf)
}

} // verus!
