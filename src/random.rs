use rand::Rng;
use vstd::prelude::*;

verus! {

#[verifier::external_type_specification]
#[verifier::external_body]
pub struct ExSmallRng(rand::rngs::SmallRng);

/// Relies on `rand::Rng::random_range`: a value drawn uniformly from
/// `lo..hi`, which panics only on an empty range.
#[verifier::external_body]
pub(crate) fn draw_range(rng: &mut rand::rngs::SmallRng, lo: i64, hi: i64) -> (r: i64)
    requires
        lo < hi,
    ensures
        lo <= r < hi,
{
    rng.random_range(lo..hi)
}

/// Relies on `rand::Rng::random_ratio`: `true` with chance `num / den`; never
/// when `num` is zero, always when `num == den`; panics only when `den` is
/// zero or below `num`.
#[verifier::external_body]
pub(crate) fn draw_ratio(rng: &mut rand::rngs::SmallRng, num: u32, den: u32) -> (r: bool)
    requires
        0 < den,
        num <= den,
    ensures
        num == 0 ==> !r,
        num == den ==> r,
{
    rng.random_ratio(num, den)
}

} // verus!
