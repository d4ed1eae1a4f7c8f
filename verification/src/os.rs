//! Status codes and the error type of the binding layer.
//!
//! Native calls of the hardware plane report failure through a signed 32-bit
//! status code where zero means success.  [`Status::result`] translates that
//! convention into a typed result; nothing else is added, retried or
//! recovered.

use vstd::prelude::*;

use crate::four_cc::{four_cc, four_cc_spec};

verus! {

/// A signed 32-bit status code; zero means success.
#[derive(Clone, Copy, Debug, PartialEq, Eq, Structural)]
pub struct Status(pub i32);

/// A failure reported by the object plane: a status code known to be
/// non-zero.
#[derive(Clone, Copy, Debug, PartialEq, Eq, Structural)]
pub struct Error(pub Status);

impl Status {
    /// Success.
    pub fn no_err() -> (r: Status)
        ensures
            r.0 == 0,
    {
        Status(0)
    }

    pub open spec fn is_ok_spec(self) -> bool {
        self.0 == 0
    }

    pub fn is_ok(&self) -> (r: bool)
        ensures
            r == self.is_ok_spec(),
    {
        self.0 == 0
    }

    pub fn is_err(&self) -> (r: bool)
        ensures
            r == !self.is_ok_spec(),
    {
        self.0 != 0
    }

    /// Zero becomes success, every other code becomes an error carrying
    /// exactly that code.
    pub fn result(self) -> (r: Result<(), Error>)
        ensures
            self.0 == 0 ==> r == Ok::<(), Error>(()),
            self.0 != 0 ==> r == Err::<(), Error>(Error(self)),
    {
        if self.0 == 0 {
            Ok(())
        } else {
            Err(Error(self))
        }
    }

    /// The object named by a call does not exist (mnemonic `!obj`).
    pub fn bad_object() -> (r: Status)
        ensures
            r == bad_object_status(),
    {
        Status(four_cc('!' as u8, 'o' as u8, 'b' as u8, 'j' as u8) as i32)
    }

    /// The object has no property at the given address (mnemonic `who?`).
    pub fn unknown_property() -> (r: Status)
        ensures
            r == unknown_property_status(),
    {
        Status(four_cc('w' as u8, 'h' as u8, 'o' as u8, '?' as u8) as i32)
    }

    /// The data handed to or asked of a property has the wrong size or shape
    /// (mnemonic `!siz`).
    pub fn bad_property_size() -> (r: Status)
        ensures
            r == bad_property_size_status(),
    {
        Status(four_cc('!' as u8, 's' as u8, 'i' as u8, 'z' as u8) as i32)
    }

    /// The object does not support the attempted operation, such as setting
    /// a read-only property (mnemonic `unop`).
    pub fn unsupported_operation() -> (r: Status)
        ensures
            r == unsupported_operation_status(),
    {
        Status(four_cc('u' as u8, 'n' as u8, 'o' as u8, 'p' as u8) as i32)
    }

    /// The object named as a device is not a device (mnemonic `!dev`).
    pub fn bad_device() -> (r: Status)
        ensures
            r == bad_device_status(),
    {
        Status(four_cc('!' as u8, 'd' as u8, 'e' as u8, 'v' as u8) as i32)
    }

    /// The operation is not legal in the object's current state (mnemonic
    /// `nope`).
    pub fn illegal_operation() -> (r: Status)
        ensures
            r == illegal_operation_status(),
    {
        Status(four_cc('n' as u8, 'o' as u8, 'p' as u8, 'e' as u8) as i32)
    }
}

/// Code of the missing-object failure, `!obj`.
pub open spec fn bad_object_status() -> Status {
    Status(four_cc_spec('!' as u8, 'o' as u8, 'b' as u8, 'j' as u8) as i32)
}

/// Code of the missing-property failure, `who?`.
pub open spec fn unknown_property_status() -> Status {
    Status(four_cc_spec('w' as u8, 'h' as u8, 'o' as u8, '?' as u8) as i32)
}

/// Code of the wrong-size failure, `!siz`.
pub open spec fn bad_property_size_status() -> Status {
    Status(four_cc_spec('!' as u8, 's' as u8, 'i' as u8, 'z' as u8) as i32)
}

/// Code of the unsupported-operation failure, `unop`.
pub open spec fn unsupported_operation_status() -> Status {
    Status(four_cc_spec('u' as u8, 'n' as u8, 'o' as u8, 'p' as u8) as i32)
}

/// Code of the not-a-device failure, `!dev`.
pub open spec fn bad_device_status() -> Status {
    Status(four_cc_spec('!' as u8, 'd' as u8, 'e' as u8, 'v' as u8) as i32)
}

/// Code of the illegal-operation failure, `nope`.
pub open spec fn illegal_operation_status() -> Status {
    Status(four_cc_spec('n' as u8, 'o' as u8, 'p' as u8, 'e' as u8) as i32)
}

} // verus!
