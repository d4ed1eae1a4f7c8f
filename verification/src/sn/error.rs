//! The failure codes the sound analysis framework reports.

use vstd::prelude::*;

verus! {

/// One failure of sound analysis.
#[derive(Clone, Copy, Debug, PartialEq, Eq, Structural)]
pub enum Code {
    /// A failure no other code covers.
    UnknownError,
    /// The framework failed to analyze audio.
    OpFailed,
    /// The audio data's format is not valid.
    InvalidFormat,
    /// The classifier's underlying model has an invalid type.
    InvalidModel,
    /// An audio file is invalid.
    InvalidFile,
}

impl Code {
    /// The numeric value of the code in the native enumeration, starting
    /// at one.
    pub fn raw_value(&self) -> (r: isize)
        ensures
            r == match *self {
                Code::UnknownError => 1int,
                Code::OpFailed => 2int,
                Code::InvalidFormat => 3int,
                Code::InvalidModel => 4int,
                Code::InvalidFile => 5int,
            },
    {
        match self {
            Code::UnknownError => 1,
            Code::OpFailed => 2,
            Code::InvalidFormat => 3,
            Code::InvalidModel => 4,
            Code::InvalidFile => 5,
        }
    }
}

} // verus!
