//! Errors of the duplication driver.

use crate::backend::NativeError;
use vstd::prelude::*;

verus! {

/// Frame-acquisition errors of the duplication driver.
#[derive(Debug, Clone, Copy, PartialEq, Eq, Structural)]
pub enum FrameError {
    /// No new frame arrived within the timeout; retry.
    WouldBlock,
    /// The acquire call failed with a backend status code; fatal.
    AcquireFrame(NativeError),
    /// A release call failed with a backend status code. The engine swallows
    /// release failures, so this kind never surfaces from it.
    ReleaseFrame(NativeError),
    /// The backend reported success but a required resource was absent;
    /// fatal, a contract breach on the backend's side.
    InvariantViolation,
    /// Any other backend status code; fatal.
    Unexpected(NativeError),
}

/// Output-enumeration errors.
#[derive(Debug, Clone, Copy, PartialEq, Eq, Structural)]
pub enum EnumerationError {
    /// An adapter or output walk call failed with a backend status code;
    /// fatal. An expected not-found status is normal end-of-sequence, not an
    /// error.
    Backend(NativeError),
    /// The backend returned an output descriptor with negative width or
    /// height.
    InvalidDescriptor,
}

} // verus!
