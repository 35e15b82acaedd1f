use rand::rngs::ThreadRng;
use rand::Rng;
use vstd::prelude::*;

verus! {

/// rand's thread-local generator, carried through as an opaque handle.
#[verifier::external_type_specification]
#[verifier::external_body]
pub struct ExThreadRng(ThreadRng);

/// Relies on `rand::Rng::random_range` over `lo..hi`: a value with
/// `lo <= r < hi`; it panics on an empty range, which `requires` excludes.
#[verifier::external_body]
pub(crate) fn random_in(rng: &mut ThreadRng, lo: u32, hi: u32) -> (r: u32)
    requires
        lo < hi,
    ensures
        lo <= r < hi,
{
    rng.random_range(lo..hi)
}

/// Relies on `rand::Rng::random_ratio`: true with chance `num / den`, always
/// true when `num == den`, never when `num == 0`; it panics when `den == 0`
/// or `num > den`, which `requires` excludes.
#[verifier::external_body]
pub(crate) fn chance(rng: &mut ThreadRng, num: u32, den: u32) -> (r: bool)
    requires
        0 < den,
        num <= den,
    ensures
        num == 0 ==> !r,
        num == den ==> r,
{
    rng.random_ratio(num, den)
}

/// A uniformly drawn index below `n`, for picking an entry of a table.
pub fn pick_index(rng: &mut ThreadRng, n: usize) -> (r: usize)
    requires
        0 < n <= u32::MAX,
    ensures
        r < n,
{
    random_in(rng, 0, n as u32) as usize
}

} // verus!
