use vstd::prelude::*;

verus! {

/// Relies on `rand::Rng::gen_range` over the half-open range `0..n`: it
/// panics only when the range is empty and otherwise returns a value drawn
/// from inside the range, so for `n >= 1` the result is below `n`. Nothing
/// more is assumed: two calls on the same bound may differ.
#[verifier::external_body]
pub(crate) fn rand_below(n: u32) -> (r: u32)
    requires
        n >= 1,
    ensures
        r < n,
{
    rand::Rng::gen_range(&mut rand::thread_rng(), 0..n)
}

} // verus!
