//! Media sample values.

use vstd::prelude::*;

verus! {

/// One delivered media sample: its presentation time in timescale units.
#[derive(Clone, Copy, Debug, PartialEq, Eq, Structural)]
pub struct SampleBuf {
    pub presentation_time: i64,
}

} // verus!
