//! Work queues, named by handle.

use vstd::prelude::*;

verus! {

/// A work queue the frameworks deliver callbacks on.
#[derive(Clone, Copy, Debug, PartialEq, Eq, Structural)]
pub struct Queue {
    pub id: u64,
}

impl Queue {
    /// The queue behind a handle.
    pub fn with_id(id: u64) -> (r: Queue)
        ensures
            r.id == id,
    {
        Queue { id }
    }
}

} // verus!
