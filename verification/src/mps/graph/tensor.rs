//! A symbolic tensor of a compute graph.

use vstd::prelude::*;

verus! {

/// The element type of a tensor, as the native numeric code.
#[derive(Clone, Copy, Debug, PartialEq, Eq, Structural)]
pub struct DataType(pub u32);

/// The operation a tensor is produced by.
#[derive(Debug, PartialEq)]
pub struct Operation {
    pub name: std::string::String,
}

/// A symbolic tensor: its shape when known, its element type, and the
/// operation that produces it.
pub struct Tensor {
    pub shape: Option<Vec<usize>>,
    pub data_type: DataType,
    pub operation: Operation,
}

impl Tensor {
    /// The tensor's shape, when the graph knows it.
    pub fn shape(&self) -> (r: Option<&Vec<usize>>)
        ensures
            match (r, &self.shape) {
                (Some(a), Some(b)) => a@ == b@,
                (None, None) => true,
                _ => false,
            },
    {
        match &self.shape {
            Some(s) => Some(s),
            None => None,
        }
    }

    /// The element type.
    pub fn data_type(&self) -> (r: DataType)
        ensures
            r == self.data_type,
    {
        self.data_type
    }

    /// The operation that produces the tensor.
    pub fn operation(&self) -> (r: &Operation)
        ensures
            r == self.operation,
    {
        &self.operation
    }
}

} // verus!
