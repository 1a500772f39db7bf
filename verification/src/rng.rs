//! The crate's only window onto the ambient thread-local random
//! source.  Nothing else in the library performs an outside call.

use vstd::prelude::*;
use rand::seq::SliceRandom;

verus! {

/// Relies on `rand::random::<bool>`: one unbiased draw from the
/// thread-local generator.  Nothing can be promised of a random value,
/// so callers must cope with either outcome.
#[verifier::external_body]
pub(crate) fn random_flag() -> bool {
    rand::random::<bool>()
}

/// Relies on `rand::seq::SliceRandom::choose`: returns `None` iff the
/// slice is empty, otherwise `Some` of a uniformly drawn element of
/// the slice.  Which element comes back is random, so only membership
/// is stated.
#[verifier::external_body]
pub(crate) fn pick_token(items: &Vec<&'static str>) -> (r: Option<&'static str>)
    ensures
        r is Some <==> items@.len() > 0,
        r is Some ==> items@.contains(r->Some_0),
{
    SliceRandom::choose(items.as_slice(), &mut rand::thread_rng()).copied()
}

} // verus!
