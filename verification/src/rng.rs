//! Random draws, made by the `rand` crate.
use vstd::prelude::*;

verus! {

/// Calls `rand::random_range(low..=high)`, which draws from the thread-local
/// generator an integer of the closed range `low..=high` (the range must not
/// be empty, or it panics). The value drawn is left unsaid.
#[verifier::external_body]
pub(crate) fn random_range_i32(low: i32, high: i32) -> (r: i32)
    requires
        low <= high,
    ensures
        low <= r <= high,
{
    rand::random_range(low..=high)
}

/// Calls `rand::random_ratio(numerator, denominator)`, which is true with
/// probability `numerator / denominator` (it panics when the denominator is
/// zero or below the numerator). Its documentation promises `false` when the
/// numerator is zero and `true` when the two are equal; the value drawn
/// otherwise is left unsaid.
#[verifier::external_body]
pub(crate) fn random_ratio(numerator: u32, denominator: u32) -> (r: bool)
    requires
        0 < denominator,
        numerator <= denominator,
    ensures
        numerator == 0 ==> !r,
        numerator == denominator ==> r,
{
    rand::random_ratio(numerator, denominator)
}

} // verus!
