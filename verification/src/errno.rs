//! Error codes surfaced to the guest program.
//!
//! Recoverable misuse (a bad argument, a device that is not enabled) is
//! reported to the guest as one of these codes; it never aborts the
//! program. Integrity violations are not represented here: they end the
//! program instead of returning a code.

use vstd::prelude::*;

verus! {

/// The error-code register the guest can query after a failed call.
#[derive(Debug, Copy, Clone, PartialEq, Eq, Hash, Structural)]
pub enum Errno {
    /// The last call succeeded.
    Success,
    /// No such device or address: the device is not enabled.
    ENXIO,
    /// Invalid argument.
    EINVAL,
}

impl Errno {
    /// The numeric code the guest sees for this value.
    pub open spec fn spec_code(self) -> u8 {
        match self {
            Errno::Success => 0,
            Errno::ENXIO => 6,
            Errno::EINVAL => 23,
        }
    }

    /// Returns the numeric code the guest sees for this value.
    pub fn code(&self) -> (r: u8)
        ensures
            r == self.spec_code(),
    {
        match self {
            Errno::Success => 0,
            Errno::ENXIO => 6,
            Errno::EINVAL => 23,
        }
    }

    /// Whether this value reports success.
    pub fn is_success(&self) -> (r: bool)
        ensures
            r == (*self == Errno::Success),
    {
        matches!(self, Errno::Success)
    }

    /// Whether this value reports an error.
    pub fn is_error(&self) -> (r: bool)
        ensures
            r == (*self != Errno::Success),
    {
        !self.is_success()
    }
}

/// Anything that can be read as an error code: a code itself, or the
/// outcome of a call whose failure carries one.
pub trait AsErrno {
    /// The code this value stands for.
    spec fn spec_errno(&self) -> Errno;

    /// Returns the code this value stands for.
    fn as_errno(&self) -> (r: Errno)
        ensures
            r == self.spec_errno(),
    ;

    /// The code in the one-byte form.
    fn as_errno_u8(&self) -> (r: u8)
        ensures
            r == self.spec_errno().spec_code(),
    {
        self.as_errno().code()
    }

    /// The code in the form a guest register holds.
    fn as_errno_i32(&self) -> (r: i32)
        ensures
            r == self.spec_errno().spec_code() as i32,
    {
        self.as_errno_u8() as i32
    }
}

impl AsErrno for Errno {
    open spec fn spec_errno(&self) -> Errno {
        *self
    }

    fn as_errno(&self) -> (r: Errno) {
        *self
    }
}

impl<T> AsErrno for Result<T, Errno> {
    open spec fn spec_errno(&self) -> Errno {
        match self {
            Ok(_) => Errno::Success,
            Err(e) => *e,
        }
    }

    fn as_errno(&self) -> (r: Errno) {
        match self {
            Ok(_) => Errno::Success,
            Err(e) => *e,
        }
    }
}

} // verus!
