//! The documented keys of one tap's entry in an aggregate device's
//! composition.

use vstd::prelude::*;

verus! {

/// The key of the tap's uid.
pub fn uid() -> (r: &'static str)
    ensures
        r@ == "uid"@,
{
    "uid"
}

/// The key asking the aggregate device to compensate the tap's drift
/// against the time base.
pub fn drift_compensation() -> (r: &'static str)
    ensures
        r@ == "drift"@,
{
    "drift"
}

} // verus!
