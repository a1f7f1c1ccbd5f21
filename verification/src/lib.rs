//! A desktop frame-capture engine: output enumeration over an adapter/output
//! topology, a per-output frame-acquisition state machine with a strict
//! acquire/release protocol, a two-variant frame representation (directly
//! mapped CPU memory or a GPU texture requiring an explicit readback copy),
//! and a best-effort change-region extractor with bounded adaptive buffer
//! growth.
//!
//! The duplication backend is modelled by an in-memory session
//! ([`backend::MockDuplication`]) and topology ([`topology::MockFactory`])
//! that record every protocol call in a log, so the engine's call-ordering
//! guarantees are stated and proved over that log.

pub mod backend;
pub mod driver;
pub mod errors;
pub mod frame;
pub mod log;
pub mod rect;
pub mod topology;
pub mod util;

pub use frame::{Frame, PixelFormat};
pub use rect::{DirtyRect, MovedPoint, MovedRect};

use vstd::prelude::*;

verus! {

/// The display drivers this library offers: the duplication driver alone.
pub fn drivers() -> (r: Vec<crate::driver::dxgi::Dxgi>)
    ensures
        r@.len() == 1,
        r@[0] == (crate::driver::dxgi::Dxgi {}),
{
    let mut r: Vec<crate::driver::dxgi::Dxgi> = Vec::new();
    r.push(crate::driver::dxgi::Dxgi {});
    r
}

} // verus!
