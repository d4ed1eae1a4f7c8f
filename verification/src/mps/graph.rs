//! Graph values.

pub mod tensor;

pub use tensor::Operation;
pub use tensor::Tensor;
