//! Boxed number and value types.

use vstd::prelude::*;

verus! {

/// A number, held as a 64-bit signed integer.
#[derive(Clone, Copy, Debug, PartialEq, Eq, Structural)]
pub struct Number {
    pub value: i64,
}

impl Number {
    /// A number holding a 32-bit signed integer.
    pub fn with_i32(v: i32) -> (r: Number)
        ensures
            r.value == v as i64,
    {
        Number { value: v as i64 }
    }

    /// A number holding a 64-bit signed integer.
    pub fn with_i64(v: i64) -> (r: Number)
        ensures
            r.value == v,
    {
        Number { value: v }
    }

    /// The number as a 32-bit signed integer, truncated to its low bits as
    /// the native read would truncate.
    pub fn as_i32(&self) -> (r: i32)
        ensures
            r == self.value as i32,
    {
        self.value as i32
    }

    /// The number as a 64-bit signed integer.
    pub fn as_i64(&self) -> (r: i64)
        ensures
            r == self.value,
    {
        self.value
    }
}

/// A boxed time range: a start and a duration in timescale units.
#[derive(Clone, Copy, Debug, PartialEq, Eq, Structural)]
pub struct Value {
    pub start: i64,
    pub duration: i64,
}

/// A caught native exception, reduced to its name.
#[derive(Debug, PartialEq)]
pub struct Exception {
    pub name: std::string::String,
}

} // verus!
