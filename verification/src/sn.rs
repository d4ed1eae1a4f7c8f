//! Sound analysis error codes.

pub mod error;

pub use error::Code;
