//! The documented keys of one sub-device's entry in an aggregate device's
//! composition.

use vstd::prelude::*;

verus! {

/// The key of the sub-device's uid.
pub fn uid() -> (r: &'static str)
    ensures
        r@ == "uid"@,
{
    "uid"
}

/// The key of the sub-device's human-readable name.
pub fn name() -> (r: &'static str)
    ensures
        r@ == "name"@,
{
    "name"
}

} // verus!
