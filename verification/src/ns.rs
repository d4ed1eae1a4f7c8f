//! Foundation value types: arrays, numbers and strings, held as plain
//! values with the documented conversions verified.

use vstd::prelude::*;

pub mod array;
pub mod dictionary;
pub mod string;
pub mod value;

pub use array::Array;
pub use array::ArrayMut;
pub use dictionary::Dictionary;
pub use string::String;
pub use string::Encoding;
pub use string::StringMut;
pub use value::Exception;
pub use value::Number;
pub use value::Value;

verus! {

/// The signed word size of the platform's collection indices.
pub type Integer = isize;

/// The unsigned word size of the platform's collection indices.
pub type UInteger = usize;

} // verus!
