//! The adaptive-moment optimizer, reduced to its whole-number switches.

use vstd::prelude::*;

verus! {

/// What an optimizer is created from; its rate parameters are fractions
/// and stay outside this layer.
#[derive(Clone, Copy, Debug, PartialEq, Eq, Structural)]
pub struct OptimizerDesc {
    pub gradient_clipping: bool,
}

/// The adaptive-moment optimizer: whether it keeps the maximum of past
/// moments, and its step counter.
#[derive(Clone, Copy, Debug, PartialEq, Eq, Structural)]
pub struct AdamOptimizer {
    pub uses_ams_grad: bool,
    pub time_step: usize,
}

impl AdamOptimizer {
    /// Whether the optimizer keeps the maximum of past second moments.
    pub fn uses_ams_grad(&self) -> (r: bool)
        ensures
            r == self.uses_ams_grad,
    {
        self.uses_ams_grad
    }

    /// The step counter, starting at one.
    pub fn time_step(&self) -> (r: usize)
        ensures
            r == self.time_step,
    {
        self.time_step
    }

    /// An optimizer with the documented defaults: the maximum of past
    /// moments is not kept, and the counter starts at one.
    pub fn with_desc(desc: &OptimizerDesc) -> (r: AdamOptimizer)
        ensures
            r.uses_ams_grad == false,
            r.time_step == 1,
    {
        let _ = desc;
        AdamOptimizer { uses_ams_grad: false, time_step: 1 }
    }
}

} // verus!
