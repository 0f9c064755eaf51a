//! The source of the byte that RND draws.

use vstd::prelude::*;
use rand::Rng;

verus! {

/// One byte from `rand`'s generator of the calling thread, as
/// `rand::thread_rng().gen()` gives it. Any byte may come back, and two
/// calls need not agree, so nothing is promised of it. The generator seeds
/// itself from the operating system on a thread's first call and panics if
/// the system has no entropy to give.
#[verifier::external_body]
pub(crate) fn random_byte() -> (byte: u8) {
    rand::thread_rng().gen()
}

} // verus!
