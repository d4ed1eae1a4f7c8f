//! Core value types: unique identifiers.

pub mod uuid;

pub use uuid::Uuid;
