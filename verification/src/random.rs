//! The one place where chance enters.

use rand::Rng;
use vstd::prelude::*;

verus! {

/// Draws a number below `bound` from `rand`'s thread-local generator, by
/// `rand::thread_rng().gen_range(0..bound)`.
///
/// Trusted: `gen_range` panics on an empty range, which `bound > 0`
/// excludes, and returns a member of the half-open range it is given.
/// Nothing is claimed about which member. `thread_rng` fails only where
/// the operating system cannot seed it, which no argument causes or
/// prevents.
#[verifier::external_body]
pub(crate) fn random_below(bound: u32) -> (drawn: u32)
    requires
        bound > 0,
    ensures
        drawn < bound,
{
    rand::thread_rng().gen_range(0..bound)
}

} // verus!
