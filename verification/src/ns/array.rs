//! An ordered collection of values, held as a plain vector.

use vstd::prelude::*;

use crate::ns::value::Number;

verus! {

/// An immutable array of values.
pub struct Array<T> {
    items: Vec<T>,
}

/// A mutable array of values.
pub struct ArrayMut<T> {
    pub array: Array<T>,
}

impl<T> View for Array<T> {
    type V = Seq<T>;

    closed spec fn view(&self) -> Seq<T> {
        self.items@
    }
}

impl<T> Array<T> {
    /// An empty array.
    pub fn new() -> (r: Array<T>)
        ensures
            r@ =~= Seq::<T>::empty(),
    {
        Array { items: Vec::new() }
    }

    /// An array holding exactly the given values, in order.
    pub fn from_slice(objs: Vec<T>) -> (r: Array<T>)
        ensures
            r@ == objs@,
    {
        Array { items: objs }
    }

    /// The number of values held.
    pub fn count(&self) -> (r: usize)
        ensures
            r == self@.len(),
    {
        self.items.len()
    }

    /// The number of values held.
    pub fn len(&self) -> (r: usize)
        ensures
            r == self@.len(),
    {
        self.count()
    }

    /// Whether no values are held.
    pub fn is_empty(&self) -> (r: bool)
        ensures
            r == (self@.len() == 0),
    {
        self.len() == 0
    }

    /// The values in order, for walking the array.
    pub fn iter(&self) -> (r: &Vec<T>)
        ensures
            r@ == self@,
    {
        &self.items
    }

    /// The value at an index.
    pub fn get(&self, index: usize) -> (r: &T)
        requires
            index < self@.len(),
        ensures
            *r == self@[index as int],
    {
        &self.items[index]
    }

    /// A small demonstration that walking a one-element array visits
    /// exactly one value.
    pub fn foo() {
        let one = Number::with_i32(5);
        let arr: Vec<Number> = vec![one];
        let array: Array<Number> = Array::from_slice(arr);
        let mut k: usize = 0;
        let mut visited: usize = 0;
        while k < array.len()
            invariant
                k <= array@.len(),
                visited == k,
            decreases array@.len() - k,
        {
            visited += 1;
            k += 1;
        }
        assert(visited == array@.len());
    }
}

impl<T> ArrayMut<T> {
    /// An empty mutable array.
    pub fn new() -> (r: ArrayMut<T>)
        ensures
            r.array@ =~= Seq::<T>::empty(),
    {
        ArrayMut { array: Array::new() }
    }
}

} // verus!
