//! The one source of randomness the agent uses: a uniform draw below a bound,
//! for picking a reward bus and for the epoch-reset election.

use rand::Rng;
use vstd::prelude::*;

verus! {

/// Relies on rand::Rng::gen_range over `0..bound` on the thread-local
/// generator: a value drawn from that half-open range. It panics only on an
/// empty range, which the precondition rules out. Nothing relates one draw to
/// the next: callers must hold for every value below the bound.
#[verifier::external_body]
pub(crate) fn sample_below(bound: u64) -> (r: u64)
    requires
        bound > 0,
    ensures
        r < bound,
{
    rand::thread_rng().gen_range(0..bound)
}

} // verus!
