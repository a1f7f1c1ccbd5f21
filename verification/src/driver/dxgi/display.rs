//! Displays and the output enumerator.
//!
//! The enumerator walks the topology's adapters by increasing ordinal, and
//! within each adapter its outputs by increasing ordinal. A not-found at the
//! current adapter ordinal ends the enumeration; a not-found at the current
//! output ordinal advances to the next adapter (an explicit loop, never
//! recursion); any other backend failure is fatal and surfaces to the
//! caller.

use crate::backend::{clone_session, eq_session, MockDuplication, NativeError};
use crate::driver::dxgi::capture::{get_frame_spec, DxgiDisplayCapturer};
use crate::driver::dxgi::errors::EnumerationError;
use crate::driver::dxgi::frame::DxgiFrame;
use crate::log::acquire_ordered;
use crate::topology::{
    clone_output_desc, flatten, flatten_from, valid_geometry, MockFactory, OutputDesc, OutputSlot,
};
use vstd::pervasive::unreached;
use vstd::prelude::*;

verus! {

/// One display: its descriptor, and — until the first frame request — the
/// duplication session that capturing it will use. The capturer is created
/// lazily on the first `frame` call and owns the session from then on.
#[derive(Debug)]
pub struct DxgiDisplay {
    pub desc: OutputDesc,
    pub source: Option<MockDuplication>,
    pub capturer: Option<DxgiDisplayCapturer>,
}

/// The capturer a `frame` call on `d` runs: the one already created, or the
/// idle capturer that creating one from the stored session yields.
pub open spec fn display_capturer(d: DxgiDisplay) -> DxgiDisplayCapturer
    recommends
        d.wf(),
{
    match d.capturer {
        Some(c) => c,
        None => match d.source {
            Some(s) => DxgiDisplayCapturer { session: s, desc: s.desc, has_frame: false },
            None => arbitrary(),
        },
    }
}

/// A library frame error, undone back to the driver frame error it wraps.
pub open spec fn lower_frame_result(r: Result<DxgiFrame, crate::errors::FrameError>) -> Result<
    DxgiFrame,
    crate::driver::dxgi::errors::FrameError,
> {
    match r {
        Ok(f) => Ok(f),
        Err(crate::errors::FrameError::WouldBlock) => Err(
            crate::driver::dxgi::errors::FrameError::WouldBlock,
        ),
        Err(crate::errors::FrameError::Dxgi(e)) => Err(e),
    }
}

impl DxgiDisplay {
    /// Display well-formedness: the geometry is valid, and exactly one of
    /// the stored session and the capturer exists, itself well-formed. A
    /// stored session is fresh: idle, its log obeying the acquire/release
    /// discipline.
    pub open spec fn wf(&self) -> bool {
        &&& valid_geometry(self.desc)
        &&& (self.source is Some <==> self.capturer is None)
        &&& (self.source matches Some(s) ==> {
            &&& s.wf()
            &&& !s.held
            &&& acquire_ordered(s.log@)
        })
        &&& (self.capturer matches Some(c) ==> c.wf())
    }

    /// The name of the display.
    pub fn name(&self) -> (r: String)
        ensures
            r@ == self.desc.name@,
    {
        self.desc.name.clone()
    }

    /// The width of the display, in pixels.
    pub fn width(&self) -> (r: usize)
        requires
            valid_geometry(self.desc),
        ensures
            r == self.desc.right - self.desc.left,
    {
        let d: i64 = self.desc.right as i64 - self.desc.left as i64;
        d as usize
    }

    /// The height of the display, in pixels.
    pub fn height(&self) -> (r: usize)
        requires
            valid_geometry(self.desc),
        ensures
            r == self.desc.bottom - self.desc.top,
    {
        let d: i64 = self.desc.bottom as i64 - self.desc.top as i64;
        d as usize
    }

    /// Read the next frame of this display, creating the capturer on the
    /// first call. The single suspension point: the call may wait up to
    /// `timeout_ms` for the backend to signal a new frame. `WouldBlock` is
    /// the designed-in retry signal of a polling loop, not a failure.
    pub fn frame(&mut self, timeout_ms: u32) -> (r: Result<DxgiFrame, crate::errors::FrameError>)
        requires
            old(self).wf(),
        ensures
            final(self).wf(),
            final(self).desc == old(self).desc,
            final(self).source is None,
            final(self).capturer matches Some(c) && get_frame_spec(
                display_capturer(*old(self)),
                c,
                lower_frame_result(r),
            ),
    {
        let mut cap: DxgiDisplayCapturer = match self.capturer.take() {
            Some(c) => c,
            None => match self.source.take() {
                Some(s) => DxgiDisplayCapturer::new(s),
                // A well-formed display holds exactly one of a stored
                // session and a capturer.
                None => unreached(),
            },
        };
        let result = cap.get_frame(timeout_ms);
        self.capturer = Some(cap);
        match result {
            Ok(f) => Ok(f),
            Err(e) => Err(crate::errors::FrameError::from(e)),
        }
    }
}

/// The slots the enumeration of `d` has not yet visited, in enumeration
/// order.
pub open spec fn remaining(d: DxgiDisplays) -> Seq<OutputSlot> {
    if d.adapter_loaded {
        d.factory.adapters@[d.adapter_idx as int].outputs@.skip(d.display_idx as int)
            + flatten_from(d.factory.adapters@, d.adapter_idx as int + 1)
    } else {
        flatten_from(d.factory.adapters@, d.adapter_idx as int)
    }
}

/// A one-shot forward iterator over the topology's displays, in
/// adapter-major, output-minor order. Restartable only by constructing a new
/// enumerator over a new topology value.
#[derive(Debug)]
pub struct DxgiDisplays {
    pub factory: MockFactory,
    pub adapter_loaded: bool,
    pub adapter_idx: u32,
    pub display_idx: u32,
}

impl DxgiDisplays {
    /// Enumerator well-formedness: the topology is well-formed and the
    /// cursor is in range — on a loaded adapter the output ordinal is at
    /// most the adapter's output count; otherwise the output ordinal is
    /// zero and the adapter ordinal at most the adapter count.
    pub open spec fn wf(&self) -> bool {
        &&& self.factory.wf()
        &&& if self.adapter_loaded {
            &&& self.adapter_idx < self.factory.adapters@.len()
            &&& self.display_idx <= self.factory.adapters@[self.adapter_idx as int].outputs@.len()
        } else {
            &&& self.adapter_idx <= self.factory.adapters@.len()
            &&& self.display_idx == 0
        }
    }

    /// An enumerator positioned at the start of the topology.
    pub fn new(factory: MockFactory) -> (r: DxgiDisplays)
        requires
            factory.wf(),
        ensures
            r.wf(),
            r.factory == factory,
            remaining(r) == flatten(factory),
    {
        DxgiDisplays { factory, adapter_loaded: false, adapter_idx: 0, display_idx: 0 }
    }

    /// The next display.
    ///
    /// Yields `None` when the adapter walk reports not-found past the last
    /// adapter (normal end of sequence). A failed output walk call or an
    /// invalid descriptor yields an error and does not advance, so the
    /// enumeration stays at the failed slot. A valid output yields a display
    /// holding the slot's descriptor and a copy of its session, with no
    /// capturer yet.
    pub fn next(&mut self) -> (r: Option<Result<DxgiDisplay, EnumerationError>>)
        requires
            old(self).wf(),
        ensures
            final(self).wf(),
            final(self).factory == old(self).factory,
            remaining(*old(self)).len() == 0 ==> {
                &&& r is None
                &&& remaining(*final(self)).len() == 0
            },
            remaining(*old(self)).len() > 0 ==> match remaining(*old(self))[0] {
                OutputSlot::Faulty(code) => {
                    &&& r == Some(
                        Err::<DxgiDisplay, EnumerationError>(
                            EnumerationError::Backend(NativeError { code }),
                        ),
                    )
                    &&& remaining(*final(self)) == remaining(*old(self))
                },
                OutputSlot::Good(ds) => if !valid_geometry(ds.desc) {
                    &&& r == Some(
                        Err::<DxgiDisplay, EnumerationError>(EnumerationError::InvalidDescriptor),
                    )
                    &&& remaining(*final(self)) == remaining(*old(self))
                } else {
                    &&& r matches Some(res)
                    &&& res matches Ok(d)
                    &&& d.desc == ds.desc
                    &&& d.source matches Some(s) && eq_session(ds.session, s)
                    &&& d.capturer is None
                    &&& d.wf()
                    &&& remaining(*final(self)) == remaining(*old(self)).skip(1)
                },
            },
    {
        loop
            invariant
                self.wf(),
                self.factory == old(self).factory,
                remaining(*self) == remaining(*old(self)),
            decreases self.factory.adapters@.len() - self.adapter_idx,
        {
            if !self.adapter_loaded {
                // Read the next adapter; not-found past the last adapter is
                // the normal end of enumeration.
                if self.adapter_idx as usize >= self.factory.adapters.len() {
                    return None;
                }
                self.adapter_loaded = true;
            }
            let a = self.adapter_idx as usize;
            let d_idx = self.display_idx as usize;
            if d_idx >= self.factory.adapters[a].outputs.len() {
                // No more outputs for this adapter: advance to the next
                // adapter ordinal and reset the output ordinal.
                proof {
                    assert(self.factory.adapters@[a as int].outputs@.skip(d_idx as int)
                        =~= Seq::<OutputSlot>::empty());
                    assert(remaining(*self) =~= flatten_from(
                        self.factory.adapters@,
                        a as int + 1,
                    ));
                }
                self.adapter_loaded = false;
                self.adapter_idx = self.adapter_idx + 1;
                self.display_idx = 0;
            } else {
                proof {
                    assert(remaining(*self)[0] == self.factory.adapters@[a as int].outputs@[
                        d_idx as int]);
                    assert(crate::topology::adapter_wf(self.factory.adapters@[a as int]));
                }
                match &self.factory.adapters[a].outputs[d_idx] {
                    OutputSlot::Faulty(code) => {
                        return Some(Err(EnumerationError::Backend(NativeError { code: *code })));
                    },
                    OutputSlot::Good(ds) => {
                        if !(ds.desc.left <= ds.desc.right && ds.desc.top <= ds.desc.bottom) {
                            return Some(Err(EnumerationError::InvalidDescriptor));
                        }
                        let desc = clone_output_desc(&ds.desc);
                        let session = clone_session(&ds.session);
                        self.display_idx = self.display_idx + 1;
                        proof {
                            assert(remaining(*self) =~= remaining(*old(self)).skip(1));
                        }
                        return Some(Ok(DxgiDisplay { desc, source: Some(session), capturer: None }));
                    },
                }
            }
        }
    }
}

} // verus!
