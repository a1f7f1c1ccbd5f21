//! Error taxonomy at the library surface.
//!
//! `WouldBlock` is not an error for control-flow purposes: it signals that no
//! new frame arrived within the timeout and the caller should retry. Every
//! other kind is fatal and propagates unchanged.

use vstd::prelude::*;

verus! {

/// Frame-acquisition errors at the library surface.
#[derive(Debug, Clone, Copy, PartialEq, Eq, Structural)]
pub enum FrameError {
    /// The operation needs to block to complete, but the blocking operation
    /// was requested to not occur. Recoverable: retry.
    WouldBlock,
    /// A fatal error of the duplication driver.
    Dxgi(crate::driver::dxgi::errors::FrameError),
}

/// What converting a driver frame error into a library frame error yields:
/// the driver's retry signal maps to the library's retry signal, and every
/// fatal kind is wrapped unchanged.
pub open spec fn lift_frame_error(inner: crate::driver::dxgi::errors::FrameError) -> FrameError {
    match inner {
        crate::driver::dxgi::errors::FrameError::WouldBlock => FrameError::WouldBlock,
        other => FrameError::Dxgi(other),
    }
}

impl core::convert::From<crate::driver::dxgi::errors::FrameError> for FrameError {
    fn from(inner: crate::driver::dxgi::errors::FrameError) -> (r: FrameError) {
        match inner {
            crate::driver::dxgi::errors::FrameError::WouldBlock => FrameError::WouldBlock,
            other => FrameError::Dxgi(other),
        }
    }
}

impl vstd::std_specs::convert::FromSpecImpl<crate::driver::dxgi::errors::FrameError> for FrameError {
    open spec fn obeys_from_spec() -> bool {
        true
    }

    open spec fn from_spec(inner: crate::driver::dxgi::errors::FrameError) -> FrameError {
        lift_frame_error(inner)
    }
}

/// Display geometry errors. Geometry accessors cannot fail in this engine —
/// no function of the library produces a value of this type — but their
/// signatures admit backend-dependent failure.
#[derive(Debug, Clone, Copy, PartialEq, Eq, Structural)]
pub enum DisplayError {
    /// A backend status code.
    Backend(crate::backend::NativeError),
}

/// Driver discovery errors. Discovery cannot fail in this engine — no
/// function of the library produces a value of this type — but its signature
/// admits backend-dependent failure.
#[derive(Debug, Clone, Copy, PartialEq, Eq, Structural)]
pub enum DriverError {
    /// A backend status code.
    Backend(crate::backend::NativeError),
}

} // verus!
