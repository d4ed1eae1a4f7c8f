//! Graph tensors, reduced to the shape and type their accessors read.

pub mod graph;
