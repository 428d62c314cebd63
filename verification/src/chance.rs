//! The bot's dice: calls into `rand`, whose results depend on chance.
use vstd::prelude::*;

verus! {

/// Calls `rand::random_ratio(numerator, denominator)`, which returns `true`
/// with probability `numerator / denominator`. Its documentation promises
/// `false` when the numerator is 0 and `true` when the numerator equals the
/// denominator, and a panic when the denominator is 0 or smaller than the
/// numerator; nothing more is claimed of any single result.
#[verifier::external_body]
pub(crate) fn random_ratio(numerator: u32, denominator: u32) -> (b: bool)
    requires
        0 < denominator,
        numerator <= denominator,
    ensures
        numerator == 0 ==> !b,
        numerator == denominator ==> b,
{
    rand::random_ratio(numerator, denominator)
}

/// Calls `rand::random_range(low..high)`, which draws an integer uniformly
/// from the half-open range and panics when the range is empty. The claim is
/// only that the result lies in the range.
#[verifier::external_body]
pub(crate) fn random_range(low: i64, high: i64) -> (r: i64)
    requires
        low < high,
    ensures
        low <= r < high,
{
    rand::random_range(low..high)
}

} // verus!
