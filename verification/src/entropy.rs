//! The one source of randomness of the machine.

use rand::Rng;
use vstd::prelude::*;

verus! {

/// Draws a value below `bound` from the thread-local generator of the `rand`
/// crate: `rand::thread_rng().gen_range(0..bound)`.
///
/// This contract is taken on trust. `Rng::gen_range` samples the half-open
/// range it is given, so what comes back lies below `bound`; it panics on an
/// empty range, which `bound > 0` excludes. Which value comes back is left
/// open: two calls may differ. The generator seeds itself from the operating
/// system on first use and panics if that fails, whatever `bound` is.
#[verifier::external_body]
pub(crate) fn random_below(bound: u8) -> (r: u8)
    requires
        bound > 0,
    ensures
        r < bound,
{
    rand::thread_rng().gen_range(0..bound)
}

} // verus!
