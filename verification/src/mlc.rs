//! Training optimizers, reduced to the switches this layer reads.

pub mod adam_optimizer;

pub use adam_optimizer::AdamOptimizer;
pub use adam_optimizer::OptimizerDesc;
