//! The uniform failure contract of device acquisition.
//!
//! Every failure aborts the acquisition and is returned to the caller as an
//! [`AcquisitionError`]; none is retried, and raw operating-system error
//! codes are preserved where they exist.

use vstd::prelude::*;

verus! {

/// The POSIX error code for a missing file or device node.
pub const ENOENT: i32 = 2;

/// The POSIX error code for an operation forbidden to the caller.
pub const EPERM: i32 = 1;

/// The POSIX error code for insufficient access rights.
pub const EACCES: i32 = 13;

/// The configuration cannot be satisfied by the chosen backend, regardless
/// of what the operating system would say.
#[derive(Clone, Copy, Debug, PartialEq, Eq, Structural)]
pub enum ConfigurationError {
    /// The backend needs an explicit device number and none was set.
    NumberRequired,
    /// The requested mode does not exist on this backend.
    ModeUnsupported,
}

/// Opening the kernel control channel (a device node or a control socket)
/// failed.
#[derive(Clone, Copy, Debug, PartialEq, Eq, Structural)]
pub enum ChannelOpenError {
    /// The device node or control family does not exist.
    NotFound,
    /// The caller lacks the rights to open it.
    PermissionDenied,
    /// Any other failure, with the raw error code the system reported.
    Other(i32),
}

/// Why an acquisition was aborted.
#[derive(Clone, Copy, Debug, PartialEq, Eq, Structural)]
pub enum AcquisitionError {
    /// The configuration itself is invalid for the backend; no system call
    /// was attempted.
    Configuration(ConfigurationError),
    /// The control channel could not be opened.
    ChannelOpen(ChannelOpenError),
    /// A kernel configuration call on an already opened channel failed,
    /// with the raw error code the system reported.
    ControlCall(i32),
    /// The kernel answered with name bytes that are not text; the response
    /// is treated as an integrity failure, never masked.
    NameDecode,
}

/// How an `open`-style failure code is classified: a missing node is
/// `NotFound`, refused rights are `PermissionDenied`, and every other code
/// is preserved verbatim.
pub open spec fn classified_open_error(errno: i32) -> ChannelOpenError {
    if errno == ENOENT {
        ChannelOpenError::NotFound
    } else if errno == EACCES || errno == EPERM {
        ChannelOpenError::PermissionDenied
    } else {
        ChannelOpenError::Other(errno)
    }
}

/// Classifies the error code of a failed open of the control channel.
pub fn classify_open_errno(errno: i32) -> (r: ChannelOpenError)
    ensures
        r == classified_open_error(errno),
{
    if errno == ENOENT {
        ChannelOpenError::NotFound
    } else if errno == EACCES || errno == EPERM {
        ChannelOpenError::PermissionDenied
    } else {
        ChannelOpenError::Other(errno)
    }
}

} // verus!
