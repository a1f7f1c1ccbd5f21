//! The driver-agnostic frame: one tagged union over directly mapped CPU
//! bytes and a GPU texture requiring readback, so callers need one code
//! path.

use crate::backend::{eq_session, MockDuplication};
use crate::driver::dx11::frame::{readback_result, Dx11FrameData};
use crate::driver::dxgi::frame::{dirty_extraction, moved_extraction};
use crate::rect::{DirtyRect, MovedRect};
use vstd::prelude::*;

verus! {

/// The pixel format of a frame's bytes: 32-bit BGRA, 4 bytes per pixel,
/// row-major, with pitch at least `width * 4`.
#[derive(Debug, Clone, Copy, PartialEq, Eq, Hash, Structural)]
pub enum PixelFormat {
    Bgra,
}

/// One captured frame: bytes of a mapped CPU surface, or a GPU texture
/// whose bytes must be materialized by an explicit copy.
#[derive(Debug, Clone)]
pub enum Frame {
    Memory { fmt: PixelFormat, buf: Vec<u8> },
    D3D11Texture(Dx11FrameData),
}

/// A library frame error, undone back to the driver frame error it wraps.
pub open spec fn lower_bytes_result(r: Result<Vec<u8>, crate::errors::FrameError>) -> Result<
    Vec<u8>,
    crate::driver::dxgi::errors::FrameError,
> {
    match r {
        Ok(b) => Ok(b),
        Err(crate::errors::FrameError::WouldBlock) => Err(
            crate::driver::dxgi::errors::FrameError::WouldBlock,
        ),
        Err(crate::errors::FrameError::Dxgi(e)) => Err(e),
    }
}

impl Frame {
    /// The frame's pixel data. Memory frames return their bytes and leave
    /// the session untouched; GPU frames perform one synchronous readback
    /// per call, with no caching — a caller that reads twice copies twice.
    pub fn as_bytes(&self, session: &mut MockDuplication) -> (r: Result<
        Vec<u8>,
        crate::errors::FrameError,
    >)
        requires
            old(session).wf(),
        ensures
            final(session).wf(),
            self matches Frame::Memory { buf, .. } ==> {
                &&& eq_session(*old(session), *final(session))
                &&& r matches Ok(b) && b@ == buf@
            },
            self matches Frame::D3D11Texture(d) ==> readback_result(
                *d,
                *old(session),
                *final(session),
                lower_bytes_result(r),
            ),
    {
        match self {
            Frame::Memory { buf, .. } => Ok(crate::util::copy_vec(buf)),
            Frame::D3D11Texture(d) => match d.get_bytes(session) {
                Ok(b) => Ok(b),
                Err(e) => Err(crate::errors::FrameError::from(e)),
            },
        }
    }

    /// The pixel format of the frame's bytes.
    pub fn format(&self) -> (r: PixelFormat)
        ensures
            self matches Frame::Memory { fmt, .. } ==> r == fmt,
            self matches Frame::D3D11Texture(_) ==> r == PixelFormat::Bgra,
    {
        match self {
            Frame::Memory { fmt, .. } => *fmt,
            Frame::D3D11Texture(_) => PixelFormat::Bgra,
        }
    }

    /// The regions whose pixel content changed since the previous frame,
    /// queried against the live session. Best-effort: empty on backend
    /// failure.
    pub fn dirty(&self, session: &mut MockDuplication) -> (r: Vec<DirtyRect>)
        requires
            old(session).wf(),
        ensures
            dirty_extraction(*old(session), *final(session), r@),
    {
        crate::driver::dxgi::frame::get_dirty_rects(session)
    }

    /// The regions whose content moved since the previous frame, queried
    /// against the live session. Best-effort: empty on backend failure.
    pub fn moved(&self, session: &mut MockDuplication) -> (r: Vec<MovedRect>)
        requires
            old(session).wf(),
        ensures
            moved_extraction(*old(session), *final(session), r@),
    {
        crate::driver::dxgi::frame::get_moved_rects(session)
    }
}

impl core::convert::From<Dx11FrameData> for Frame {
    fn from(data: Dx11FrameData) -> (r: Frame) {
        Frame::D3D11Texture(data)
    }
}

impl vstd::std_specs::convert::FromSpecImpl<Dx11FrameData> for Frame {
    open spec fn obeys_from_spec() -> bool {
        true
    }

    open spec fn from_spec(data: Dx11FrameData) -> Frame {
        Frame::D3D11Texture(data)
    }
}

} // verus!
