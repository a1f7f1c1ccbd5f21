//! The duplication driver's frame: a tagged union of directly mapped CPU
//! bytes and a GPU texture requiring readback, plus the best-effort
//! change-region extractor.

use crate::backend::{
    eq_session, script_unchanged, MockDuplication, MoveRect, Rect,
};
use crate::driver::dx11::frame::{readback_result, Dx11FrameData};
use crate::driver::dxgi::errors::FrameError;
use crate::log::CallEvent;
use crate::rect::{DirtyRect, MovedPoint, MovedRect};
use vstd::prelude::*;

verus! {

/// The pixel format of duplicated frames: 32-bit BGRA, 4 bytes per pixel,
/// row-major, with pitch at least `width * 4`.
#[derive(Debug, Clone, Copy, PartialEq, Eq, Hash, Structural)]
pub enum FrameFormat {
    B8G8R8A8,
}

/// Default scratch-buffer size, in entries, for change-region queries.
pub const RECT_BUF_LEN: usize = 16;

/// Most entries the scratch buffer may grow by, bounding worst-case memory:
/// together with the default it caps the buffer at 7000 entries.
pub const RECT_BUF_MAX_LEN: usize = 7000 - RECT_BUF_LEN;

/// How many of `n` reported change regions the extractor returns: all of
/// them, up to the 7000-entry buffer cap; entries beyond the cap are
/// silently dropped.
pub open spec fn cap_count(n: int) -> int {
    if n <= RECT_BUF_LEN + RECT_BUF_MAX_LEN {
        n
    } else {
        (RECT_BUF_LEN + RECT_BUF_MAX_LEN) as int
    }
}

/// A backend rectangle as the extractor returns it.
pub open spec fn dirty_of(q: Rect) -> DirtyRect {
    DirtyRect { top: q.top, left: q.left, right: q.right, bottom: q.bottom }
}

/// A backend moved region as the extractor returns it.
pub open spec fn moved_of(q: MoveRect) -> MovedRect {
    MovedRect {
        destination: dirty_of(q.destination),
        source_origin: MovedPoint { x: q.source_x, y: q.source_y },
    }
}

/// What an extraction query leaves unchanged: everything in the session but
/// the call log.
pub open spec fn extraction_unchanged(pre: MockDuplication, post: MockDuplication) -> bool {
    &&& script_unchanged(pre, post)
    &&& post.cursor == pre.cursor
    &&& post.held == pre.held
    &&& post.current == pre.current
    &&& post.mapped == pre.mapped
    &&& post.staging == pre.staging
}

/// Everything extracting dirty rectangles does and returns. Backend failure
/// and querying with no held frame are non-fatal: the result is then empty.
/// Otherwise the result is the reported rectangles up to the buffer cap, in
/// order; the log gains one query, or two when the buffer had to grow.
pub open spec fn dirty_extraction(
    pre: MockDuplication,
    post: MockDuplication,
    r: Seq<DirtyRect>,
) -> bool {
    let n = pre.dirty_rects@.len() as int;
    &&& post.wf()
    &&& extraction_unchanged(pre, post)
    &&& if !pre.held || pre.dirty_fail is Some {
        &&& r == Seq::<DirtyRect>::empty()
        &&& post.log@ == pre.log@ + seq![CallEvent::QueryDirty]
    } else {
        &&& r == pre.dirty_rects@.take(cap_count(n)).map_values(|q: Rect| dirty_of(q))
        &&& post.log@ == if n <= RECT_BUF_LEN {
            pre.log@ + seq![CallEvent::QueryDirty]
        } else {
            pre.log@ + seq![CallEvent::QueryDirty, CallEvent::QueryDirty]
        }
    }
}

/// Everything extracting moved rectangles does and returns; the same
/// protocol as the dirty-rectangle extraction.
pub open spec fn moved_extraction(
    pre: MockDuplication,
    post: MockDuplication,
    r: Seq<MovedRect>,
) -> bool {
    let n = pre.move_rects@.len() as int;
    &&& post.wf()
    &&& extraction_unchanged(pre, post)
    &&& if !pre.held || pre.moved_fail is Some {
        &&& r == Seq::<MovedRect>::empty()
        &&& post.log@ == pre.log@ + seq![CallEvent::QueryMoved]
    } else {
        &&& r == pre.move_rects@.take(cap_count(n)).map_values(|q: MoveRect| moved_of(q))
        &&& post.log@ == if n <= RECT_BUF_LEN {
            pre.log@ + seq![CallEvent::QueryMoved]
        } else {
            pre.log@ + seq![CallEvent::QueryMoved, CallEvent::QueryMoved]
        }
    }
}

/// Convert backend rectangles into owned extractor results.
fn to_dirty_rects(v: &Vec<Rect>) -> (r: Vec<DirtyRect>)
    ensures
        r@ == v@.map_values(|q: Rect| dirty_of(q)),
{
    let mut r: Vec<DirtyRect> = Vec::new();
    let mut i: usize = 0;
    while i < v.len()
        invariant
            i <= v.len(),
            r@ == v@.take(i as int).map_values(|q: Rect| dirty_of(q)),
        decreases v.len() - i,
    {
        let q = v[i];
        r.push(DirtyRect::new(q.top, q.right, q.bottom, q.left));
        assert(v@.take(i + 1).map_values(|q: Rect| dirty_of(q)) =~= v@.take(
            i as int,
        ).map_values(|q: Rect| dirty_of(q)).push(dirty_of(v@[i as int])));
        i = i + 1;
    }
    assert(v@.take(v.len() as int) =~= v@);
    r
}

/// Convert backend moved regions into owned extractor results.
fn to_moved_rects(v: &Vec<MoveRect>) -> (r: Vec<MovedRect>)
    ensures
        r@ == v@.map_values(|q: MoveRect| moved_of(q)),
{
    let mut r: Vec<MovedRect> = Vec::new();
    let mut i: usize = 0;
    while i < v.len()
        invariant
            i <= v.len(),
            r@ == v@.take(i as int).map_values(|q: MoveRect| moved_of(q)),
        decreases v.len() - i,
    {
        let q = v[i];
        r.push(
            MovedRect::new(
                DirtyRect::new(
                    q.destination.top,
                    q.destination.right,
                    q.destination.bottom,
                    q.destination.left,
                ),
                MovedPoint::new(q.source_x, q.source_y),
            ),
        );
        assert(v@.take(i + 1).map_values(|q: MoveRect| moved_of(q)) =~= v@.take(
            i as int,
        ).map_values(|q: MoveRect| moved_of(q)).push(moved_of(v@[i as int])));
        i = i + 1;
    }
    assert(v@.take(v.len() as int) =~= v@);
    r
}

/// Query the dirty rectangles of the held frame with the adaptive protocol:
/// query with the default buffer; if the backend wanted more entries, grow
/// once up to the cap and re-query; return what was written.
pub(crate) fn get_dirty_rects(session: &mut MockDuplication) -> (r: Vec<DirtyRect>)
    requires
        old(session).wf(),
    ensures
        dirty_extraction(*old(session), *final(session), r@),
{
    let first = session.get_frame_dirty_rects(RECT_BUF_LEN);
    match first {
        Err(_) => {
            proof {
                assert(session.log@ =~= old(session).log@ + seq![CallEvent::QueryDirty]);
            }
            Vec::new()
        },
        Ok((written, reported)) => {
            if reported > RECT_BUF_LEN {
                let more = reported - RECT_BUF_LEN;
                let more = if more < RECT_BUF_MAX_LEN {
                    more
                } else {
                    RECT_BUF_MAX_LEN
                };
                let grown = RECT_BUF_LEN + more;
                match session.get_frame_dirty_rects(grown) {
                    Err(_) => {
                        // Unreachable: the failure script did not change
                        // between the two queries, and the first succeeded.
                        proof {
                            assert(false);
                        }
                        Vec::new()
                    },
                    Ok((written2, _reported2)) => {
                        proof {
                            assert(session.log@ =~= old(session).log@ + seq![
                                CallEvent::QueryDirty,
                                CallEvent::QueryDirty,
                            ]);
                            assert(written2@ =~= old(session).dirty_rects@.take(
                                cap_count(old(session).dirty_rects@.len() as int),
                            ));
                        }
                        to_dirty_rects(&written2)
                    },
                }
            } else {
                proof {
                    assert(session.log@ =~= old(session).log@ + seq![CallEvent::QueryDirty]);
                    assert(written@ =~= old(session).dirty_rects@.take(
                        cap_count(old(session).dirty_rects@.len() as int),
                    ));
                }
                to_dirty_rects(&written)
            }
        },
    }
}

/// Query the moved rectangles of the held frame with the adaptive protocol.
pub(crate) fn get_moved_rects(session: &mut MockDuplication) -> (r: Vec<MovedRect>)
    requires
        old(session).wf(),
    ensures
        moved_extraction(*old(session), *final(session), r@),
{
    let first = session.get_frame_move_rects(RECT_BUF_LEN);
    match first {
        Err(_) => {
            proof {
                assert(session.log@ =~= old(session).log@ + seq![CallEvent::QueryMoved]);
            }
            Vec::new()
        },
        Ok((written, reported)) => {
            if reported > RECT_BUF_LEN {
                let more = reported - RECT_BUF_LEN;
                let more = if more < RECT_BUF_MAX_LEN {
                    more
                } else {
                    RECT_BUF_MAX_LEN
                };
                let grown = RECT_BUF_LEN + more;
                match session.get_frame_move_rects(grown) {
                    Err(_) => {
                        // Unreachable: the failure script did not change
                        // between the two queries, and the first succeeded.
                        proof {
                            assert(false);
                        }
                        Vec::new()
                    },
                    Ok((written2, _reported2)) => {
                        proof {
                            assert(session.log@ =~= old(session).log@ + seq![
                                CallEvent::QueryMoved,
                                CallEvent::QueryMoved,
                            ]);
                            assert(written2@ =~= old(session).move_rects@.take(
                                cap_count(old(session).move_rects@.len() as int),
                            ));
                        }
                        to_moved_rects(&written2)
                    },
                }
            } else {
                proof {
                    assert(session.log@ =~= old(session).log@ + seq![CallEvent::QueryMoved]);
                    assert(written@ =~= old(session).move_rects@.take(
                        cap_count(old(session).move_rects@.len() as int),
                    ));
                }
                to_moved_rects(&written)
            }
        },
    }
}

/// What one frame acquisition produced: bytes borrowed from the mapped
/// desktop surface (owned here), or a GPU texture requiring readback.
#[derive(Debug, Clone)]
pub enum DxgiFrameData {
    Memory(Vec<u8>),
    DirectX(Dx11FrameData),
}

/// One captured frame of the duplication driver.
///
/// A frame is an ephemeral view produced by one acquisition; its change
/// regions are queried against the live session it came from.
#[derive(Debug, Clone)]
pub struct DxgiFrame {
    pub data: DxgiFrameData,
}

impl DxgiFrame {
    pub fn new(data: DxgiFrameData) -> (r: DxgiFrame)
        ensures
            r == (DxgiFrame { data }),
    {
        DxgiFrame { data }
    }

    /// Get a reference to the underlying data.
    pub fn data(&self) -> (r: &DxgiFrameData)
        ensures
            *r == self.data,
    {
        &self.data
    }

    /// Convert into the underlying data.
    pub fn into_data(self) -> (r: DxgiFrameData)
        ensures
            r == self.data,
    {
        self.data
    }

    /// The pixel format of the underlying data. The duplication backend
    /// always reports the desktop image as 32-bit BGRA.
    pub fn format(&self) -> (r: FrameFormat)
        ensures
            r == FrameFormat::B8G8R8A8,
    {
        FrameFormat::B8G8R8A8
    }

    /// The frame's pixel data. Memory frames return their mapped bytes and
    /// leave the session untouched; GPU frames perform one synchronous
    /// readback per call, with no caching.
    pub fn as_bytes(&self, session: &mut MockDuplication) -> (r: Result<Vec<u8>, FrameError>)
        requires
            old(session).wf(),
        ensures
            final(session).wf(),
            self.data matches DxgiFrameData::Memory(buf) ==> {
                &&& eq_session(*old(session), *final(session))
                &&& r matches Ok(b) && b@ == buf@
            },
            self.data matches DxgiFrameData::DirectX(d) ==> readback_result(
                d,
                *old(session),
                *final(session),
                r,
            ),
    {
        match &self.data {
            DxgiFrameData::Memory(buf) => Ok(crate::util::copy_vec(buf)),
            DxgiFrameData::DirectX(d) => d.get_bytes(session),
        }
    }

    /// The regions whose pixel content changed since the previous frame.
    /// Best-effort: empty on backend failure or when no frame is held.
    pub fn dirty(&self, session: &mut MockDuplication) -> (r: Vec<DirtyRect>)
        requires
            old(session).wf(),
        ensures
            dirty_extraction(*old(session), *final(session), r@),
    {
        get_dirty_rects(session)
    }

    /// The regions whose content moved since the previous frame.
    /// Best-effort: empty on backend failure or when no frame is held.
    pub fn moved(&self, session: &mut MockDuplication) -> (r: Vec<MovedRect>)
        requires
            old(session).wf(),
        ensures
            moved_extraction(*old(session), *final(session), r@),
    {
        get_moved_rects(session)
    }
}

impl core::convert::From<Vec<u8>> for DxgiFrameData {
    fn from(data: Vec<u8>) -> (r: DxgiFrameData) {
        DxgiFrameData::Memory(data)
    }
}

impl vstd::std_specs::convert::FromSpecImpl<Vec<u8>> for DxgiFrameData {
    open spec fn obeys_from_spec() -> bool {
        true
    }

    open spec fn from_spec(data: Vec<u8>) -> DxgiFrameData {
        DxgiFrameData::Memory(data)
    }
}

impl core::convert::From<Dx11FrameData> for DxgiFrameData {
    fn from(data: Dx11FrameData) -> (r: DxgiFrameData) {
        DxgiFrameData::DirectX(data)
    }
}

impl vstd::std_specs::convert::FromSpecImpl<Dx11FrameData> for DxgiFrameData {
    open spec fn obeys_from_spec() -> bool {
        true
    }

    open spec fn from_spec(data: Dx11FrameData) -> DxgiFrameData {
        DxgiFrameData::DirectX(data)
    }
}

} // verus!
