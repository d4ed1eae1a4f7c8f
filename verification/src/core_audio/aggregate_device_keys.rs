//! The documented keys of the dictionary an aggregate device is composed
//! from.  Each function returns its exact key string.

use vstd::prelude::*;

verus! {

/// The key of the aggregate device's uid.
pub fn uid() -> (r: &'static str)
    ensures
        r@ == "uid"@,
{
    "uid"
}

/// The key of the aggregate device's human-readable name.
pub fn name() -> (r: &'static str)
    ensures
        r@ == "name"@,
{
    "name"
}

/// The key of the array describing each sub-device.
pub fn sub_device_list() -> (r: &'static str)
    ensures
        r@ == "subdevices"@,
{
    "subdevices"
}

/// The key of the uid of the sub-device serving as time base.
pub fn main_sub_device() -> (r: &'static str)
    ensures
        r@ == "master"@,
{
    "master"
}

/// The key of the uid of the clock device serving as time base; a clock
/// device wins over a main sub-device.
pub fn clock_device() -> (r: &'static str)
    ensures
        r@ == "clock"@,
{
    "clock"
}

/// The key marking the aggregate device private to the process that
/// created it.
pub fn is_private() -> (r: &'static str)
    ensures
        r@ == "private"@,
{
    "private"
}

/// The key marking the sub-devices stacked, all outputs fed the same data.
pub fn is_stacked() -> (r: &'static str)
    ensures
        r@ == "stacked"@,
{
    "stacked"
}

/// The key of the array describing each tap.
pub fn tap_list() -> (r: &'static str)
    ensures
        r@ == "taps"@,
{
    "taps"
}

/// The key asking the aggregate device's start to wait for the first tap
/// that receives audio; it must come together with the private key.
pub fn tap_auto_start() -> (r: &'static str)
    ensures
        r@ == "tapautostart"@,
{
    "tapautostart"
}

} // verus!
