//! Standard return errors of the kernel.

use vstd::prelude::*;

verus! {

/// Errors that kernel operations report to their callers.
///
/// The numeric encoding (see [`ErrorCode::as_word`]) is part of the
/// kernel's binary interface with userspace and starts at 1: the value 0
/// is reserved for success and is not an error.
#[derive(Clone, Copy, Debug, PartialEq, Eq, Structural)]
pub enum ErrorCode {
    /// Generic failure condition.
    FAIL,
    /// Underlying system is busy; retry.
    BUSY,
    /// The state requested is already set.
    ALREADY,
    /// The component is powered down.
    OFF,
    /// Reservation required before use.
    RESERVE,
    /// An invalid parameter was passed.
    INVAL,
    /// Parameter passed was too large.
    SIZE,
    /// Operation cancelled by a call.
    CANCEL,
    /// Memory required not available.
    NOMEM,
    /// Operation is not supported.
    NOSUPPORT,
    /// Device is not available.
    NODEVICE,
    /// Device is not physically installed.
    UNINSTALLED,
    /// Packet transmission not acknowledged.
    NOACK,
}

/// The numeric value of an error, as delivered to userspace.
pub open spec fn spec_error_code_word(e: ErrorCode) -> u32 {
    match e {
        ErrorCode::FAIL => 1,
        ErrorCode::BUSY => 2,
        ErrorCode::ALREADY => 3,
        ErrorCode::OFF => 4,
        ErrorCode::RESERVE => 5,
        ErrorCode::INVAL => 6,
        ErrorCode::SIZE => 7,
        ErrorCode::CANCEL => 8,
        ErrorCode::NOMEM => 9,
        ErrorCode::NOSUPPORT => 10,
        ErrorCode::NODEVICE => 11,
        ErrorCode::UNINSTALLED => 12,
        ErrorCode::NOACK => 13,
    }
}

impl ErrorCode {
    /// The numeric value of this error, as delivered to userspace.
    pub fn as_word(&self) -> (w: u32)
        ensures
            w == spec_error_code_word(*self),
    {
        match self {
            ErrorCode::FAIL => 1,
            ErrorCode::BUSY => 2,
            ErrorCode::ALREADY => 3,
            ErrorCode::OFF => 4,
            ErrorCode::RESERVE => 5,
            ErrorCode::INVAL => 6,
            ErrorCode::SIZE => 7,
            ErrorCode::CANCEL => 8,
            ErrorCode::NOMEM => 9,
            ErrorCode::NOSUPPORT => 10,
            ErrorCode::NODEVICE => 11,
            ErrorCode::UNINSTALLED => 12,
            ErrorCode::NOACK => 13,
        }
    }
}

} // verus!
