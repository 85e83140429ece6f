//! The ways in which a wait can fail.

use vstd::prelude::*;

verus! {

/// The error code of a wait for which no matching child exists.
pub const ECHILD: i32 = 10;

/// The error code of a wait that a delivered signal cut short.
pub const EINTR: i32 = 4;

/// The error code of a wait whose options the kernel does not accept.
pub const EINVAL: i32 = 22;

/// Why a wait produced no status.
#[derive(Clone, Copy, Debug, PartialEq, Eq, Structural)]
pub enum WaitError {
    /// There is no child that matches the target.
    NoSuchChild,
    /// A signal arrived before any child changed state.
    Interrupted,
    /// The options are not valid on this platform.
    InvalidArgument,
    /// The status word names a signal that the platform's table lacks.
    UnrecognizedSignal,
    /// The status word matches none of the platform's encodings.
    ContractViolation,
    /// Any other error code, as the kernel reported it.
    Other(i32),
}

impl WaitError {
    /// The error that stands for the kernel's error code `errno`.
    pub open spec fn of_errno(errno: i32) -> WaitError {
        if errno == ECHILD {
            WaitError::NoSuchChild
        } else if errno == EINTR {
            WaitError::Interrupted
        } else if errno == EINVAL {
            WaitError::InvalidArgument
        } else {
            WaitError::Other(errno)
        }
    }

    /// Maps the kernel's error code to an error. The three codes that a wait is
    /// documented to fail with get their own variant; any other code is kept
    /// as it is.
    pub fn from_errno(errno: i32) -> (error: WaitError)
        ensures
            error == Self::of_errno(errno),
            error == WaitError::NoSuchChild <==> errno == ECHILD,
            error == WaitError::Interrupted <==> errno == EINTR,
            error == WaitError::InvalidArgument <==> errno == EINVAL,
            error != WaitError::UnrecognizedSignal,
            error != WaitError::ContractViolation,
    {
        match errno {
            10 => WaitError::NoSuchChild,
            4 => WaitError::Interrupted,
            22 => WaitError::InvalidArgument,
            _ => WaitError::Other(errno),
        }
    }
}

} // verus!
