//! The library's only source of randomness: thin wrappers over the `rand`
//! crate's thread-local generator. Nothing about the distribution of a draw
//! can be checked here; callers state what holds of every possible outcome.

use vstd::prelude::*;

verus! {

/// Relies on rand's `Rng::gen_range` on the range `0..n`: it returns a
/// uniform draw from `[0, n)` and panics only on an empty range, which the
/// precondition rules out.
#[verifier::external_body]
pub(crate) fn rand_below(n: u32) -> (r: u32)
    requires
        1 <= n,
    ensures
        r < n,
{
    rand::Rng::gen_range(&mut rand::thread_rng(), 0..n)
}

/// Relies on rand's `Rng::gen_ratio`: true with probability `num / den`.
/// Its documentation promises the result is always true when `num == den`
/// and always false when `num == 0`; it panics only when `den == 0` or
/// `num > den`, which the precondition rules out.
#[verifier::external_body]
pub(crate) fn rand_chance(num: u32, den: u32) -> (r: bool)
    requires
        1 <= den,
        num <= den,
    ensures
        num == den ==> r,
        num == 0 ==> !r,
{
    rand::Rng::gen_ratio(&mut rand::thread_rng(), num, den)
}

} // verus!
