use vstd::prelude::*;

verus! {

/// Relies on `rand::random_range`, which samples the thread-local generator
/// uniformly over the given range: the call returns some value in `[0, n)`.
/// The value depends on the generator's state, so nothing beyond the range
/// is assumed.
#[verifier::external_body]
pub(crate) fn random_below(n: u64) -> (r: u64)
    requires
        n > 0,
    ensures
        r < n,
{
    rand::random_range(0..n)
}

} // verus!
