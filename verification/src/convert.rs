//! Width conversions that clamp instead of wrapping.

use sp_runtime::SaturatedConversion;
use vstd::prelude::*;

verus! {

/// `x`, held at `u32::MAX`.
pub open spec fn capped(x: int) -> int {
    if x > u32::MAX {
        u32::MAX as int
    } else {
        x
    }
}

/// Calls `sp_runtime::SaturatedConversion::saturated_into::<u32>` on a `u64`.
/// Trusted: the result is `x` where it fits in a `u32`, and `u32::MAX` where
/// it does not.
#[verifier::external_body]
pub(crate) fn saturated_into_u32(x: u64) -> (r: u32)
    ensures
        r == capped(x as int),
{
    x.saturated_into::<u32>()
}

} // verus!
