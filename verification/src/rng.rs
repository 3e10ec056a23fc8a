use vstd::prelude::*;

verus! {

/// Relies on `rand::Rng::gen_range` on `rand::thread_rng()`: it returns a
/// uniformly drawn value of the non-empty range `0..bound`, so the result
/// is below `bound`; which value comes back is not specified.
#[verifier::external_body]
pub(crate) fn random_below(bound: usize) -> (r: usize)
    requires
        bound > 0,
    ensures
        r < bound,
{
    rand::Rng::gen_range(&mut rand::thread_rng(), 0..bound)
}

/// Relies on `rand::random::<bool>`: a coin flip; nothing is promised of
/// the outcome.
#[verifier::external_body]
pub(crate) fn random_bool() -> bool {
    rand::random()
}

} // verus!
