//! A keyed collection of values, held as its pairs in insertion order.

use vstd::prelude::*;

verus! {

/// A dictionary of keys and values.
pub struct Dictionary<K, V> {
    pub pairs: Vec<(K, V)>,
}

impl<K, V> Dictionary<K, V> {
    /// An empty dictionary.
    pub fn new() -> (r: Dictionary<K, V>)
        ensures
            r.pairs@ =~= Seq::<(K, V)>::empty(),
    {
        Dictionary { pairs: Vec::new() }
    }

    /// The number of pairs held.
    pub fn len(&self) -> (r: usize)
        ensures
            r == self.pairs@.len(),
    {
        self.pairs.len()
    }
}

} // verus!
