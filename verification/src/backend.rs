//! The in-memory duplication backend.
//!
//! [`MockDuplication`] models one output's duplication session: a scripted
//! queue of acquire outcomes, the currently held frame, the texture store for
//! GPU-resident frames, scripted failure knobs, and a log of every protocol
//! call made against the session. The capture engine is verified against
//! this model; its contracts state exactly how each call changes the session
//! and what it appends to the log.

use crate::log::{holds_after, lemma_holds_after_push, CallEvent};
use vstd::prelude::*;

verus! {

/// The status code the backend reports for a call made out of protocol
/// order (acquiring while a frame is held, mapping without a frame, and so
/// on).
pub const ERROR_INVALID_CALL: u32 = 0x887A0001;

/// A status code reported by the backend.
#[derive(Debug, Clone, Copy, PartialEq, Eq, Structural)]
pub struct NativeError {
    pub code: u32,
}

/// A rectangle as the backend reports it.
#[derive(Debug, Clone, Copy, PartialEq, Eq, Structural)]
pub struct Rect {
    pub top: i32,
    pub left: i32,
    pub right: i32,
    pub bottom: i32,
}

/// A moved region as the backend reports it: the destination rectangle and
/// the prior top-left position of its content.
#[derive(Debug, Clone, Copy, PartialEq, Eq, Structural)]
pub struct MoveRect {
    pub destination: Rect,
    pub source_x: i32,
    pub source_y: i32,
}

/// Session-wide properties of a duplication session: whether acquired frames
/// are directly CPU-addressable, and the height of the duplicated output in
/// rows.
#[derive(Debug, Clone, Copy, PartialEq, Eq, Structural)]
pub struct DuplDesc {
    pub in_system_memory: bool,
    pub mode_height: u32,
}

/// A texture held by the backend's device. The surface contents are modelled
/// as a constant byte pattern: every byte of the texture reads `bits`.
#[derive(Debug, Clone, Copy, PartialEq, Eq, Structural)]
pub struct TextureData {
    pub height: u32,
    pub pitch: u32,
    pub bits: u8,
}

/// A mapped surface: the row stride the backend reports, and the constant
/// byte pattern the mapped memory reads.
#[derive(Debug, Clone, Copy, PartialEq, Eq, Structural)]
pub struct MappedRect {
    pub pitch: u32,
    pub bits: u8,
}

/// What one scripted frame holds.
///
/// A `Memory` frame is directly CPU-addressable once mapped: `pitch` is the
/// reported row stride, `bits` the constant byte pattern of the mapped
/// surface, and `map_fail` an optional scripted failure of the map call. A
/// `Gpu` frame hands out a texture handle; `None` scripts a backend that
/// reports success but returns no resource.
#[derive(Debug, Clone, Copy)]
pub enum ContentScript {
    Memory { pitch: u32, bits: u8, map_fail: Option<u32> },
    Gpu { texture: Option<usize> },
}

/// One scripted outcome of an acquire call.
#[derive(Debug, Clone, Copy)]
pub enum AcquireOutcome {
    Timeout,
    Fail(NativeError),
    Produce(ContentScript),
}

/// What an acquire call returned: a timeout, a failure status, or a frame
/// together with the resource handle the backend handed out (`None` for
/// frames that are read by mapping the desktop surface instead).
#[derive(Debug, Clone, Copy)]
pub enum AcquireResult {
    Timeout,
    Fail(NativeError),
    Produced(Option<usize>),
}

/// The resource handle that acquiring a frame with this content hands out.
pub open spec fn resource_of(c: ContentScript) -> Option<usize> {
    match c {
        ContentScript::Memory { .. } => None,
        ContentScript::Gpu { texture } => texture,
    }
}

/// Frame content is consistent with the session: its residency matches the
/// session description, a mapped surface's byte length fits in `usize`, and
/// a handed-out texture handle is backed by the texture store.
pub open spec fn content_wf(c: ContentScript, desc: DuplDesc, n_textures: int) -> bool {
    match c {
        ContentScript::Memory { pitch, .. } => {
            &&& desc.in_system_memory
            &&& desc.mode_height * pitch <= usize::MAX
        },
        ContentScript::Gpu { texture } => {
            &&& !desc.in_system_memory
            &&& (texture matches Some(t) ==> t < n_textures)
        },
    }
}

/// A scripted outcome is consistent with the session.
pub open spec fn outcome_wf(o: AcquireOutcome, desc: DuplDesc, n_textures: int) -> bool {
    o matches AcquireOutcome::Produce(c) ==> content_wf(c, desc, n_textures)
}

/// A texture's byte length fits in `usize`.
pub open spec fn texture_wf(t: TextureData) -> bool {
    t.height * t.pitch <= usize::MAX
}

/// An in-memory duplication session.
///
/// `frames` scripts the outcome of successive acquire calls (once exhausted,
/// further acquires time out); `cursor` is the next script entry. `held`,
/// `current` and `mapped` track the protocol state. `textures` backs the
/// handles handed out by GPU frames, and `staging` is the CPU-readable
/// staging texture of an in-progress readback. The `*_fail` and
/// `staging_missing` fields script backend failures. `log` records every
/// protocol call, in order.
#[derive(Debug)]
pub struct MockDuplication {
    pub desc: DuplDesc,
    pub device: usize,
    pub context: usize,
    pub frames: Vec<AcquireOutcome>,
    pub cursor: usize,
    pub held: bool,
    pub current: Option<ContentScript>,
    pub mapped: bool,
    pub textures: Vec<TextureData>,
    pub staging: Option<TextureData>,
    pub staging_fail: Option<u32>,
    pub staging_missing: bool,
    pub staging_map_fail: Option<u32>,
    pub dirty_rects: Vec<Rect>,
    pub dirty_fail: Option<u32>,
    pub move_rects: Vec<MoveRect>,
    pub moved_fail: Option<u32>,
    pub log: Vec<CallEvent>,
}

/// The scripted part of a session — everything a protocol call never
/// changes — is the same in `pre` and `post`.
pub open spec fn script_unchanged(pre: MockDuplication, post: MockDuplication) -> bool {
    &&& post.desc == pre.desc
    &&& post.device == pre.device
    &&& post.context == pre.context
    &&& post.frames@ == pre.frames@
    &&& post.textures@ == pre.textures@
    &&& post.staging_fail == pre.staging_fail
    &&& post.staging_missing == pre.staging_missing
    &&& post.staging_map_fail == pre.staging_map_fail
    &&& post.dirty_rects@ == pre.dirty_rects@
    &&& post.dirty_fail == pre.dirty_fail
    &&& post.move_rects@ == pre.move_rects@
    &&& post.moved_fail == pre.moved_fail
}

/// Two sessions agree on every observable field.
pub open spec fn eq_session(a: MockDuplication, b: MockDuplication) -> bool {
    &&& script_unchanged(a, b)
    &&& b.cursor == a.cursor
    &&& b.held == a.held
    &&& b.current == a.current
    &&& b.mapped == a.mapped
    &&& b.staging == a.staging
    &&& b.log@ == a.log@
}

/// The outcome the next acquire call on `s` will see.
pub open spec fn next_outcome(s: MockDuplication) -> AcquireOutcome {
    if s.cursor < s.frames@.len() {
        s.frames@[s.cursor as int]
    } else {
        AcquireOutcome::Timeout
    }
}

impl MockDuplication {
    /// Session well-formedness: the script cursor is in range, every scripted
    /// frame and texture is consistent, the held/current/mapped protocol
    /// flags agree, and `held` matches what the call log says.
    pub open spec fn wf(&self) -> bool {
        &&& self.cursor <= self.frames@.len()
        &&& (forall|i: int|
            0 <= i < self.frames@.len() ==> outcome_wf(
                #[trigger] self.frames@[i],
                self.desc,
                self.textures@.len() as int,
            ))
        &&& (forall|i: int| 0 <= i < self.textures@.len() ==> texture_wf(#[trigger] self.textures@[i]))
        &&& (self.held <==> self.current is Some)
        &&& (self.current matches Some(c) ==> content_wf(c, self.desc, self.textures@.len() as int))
        &&& (self.staging matches Some(t) ==> texture_wf(t))
        &&& (self.mapped ==> self.held)
        &&& self.held == holds_after(self.log@)
    }

    /// A fresh, idle session with an empty script and an empty call log.
    pub fn new(in_system_memory: bool, mode_height: u32, device: usize, context: usize) -> (s:
        MockDuplication)
        ensures
            s.wf(),
            s.desc == (DuplDesc { in_system_memory, mode_height }),
            s.device == device,
            s.context == context,
            s.frames@ == Seq::<AcquireOutcome>::empty(),
            s.cursor == 0,
            !s.held,
            s.current is None,
            !s.mapped,
            s.textures@ == Seq::<TextureData>::empty(),
            s.staging is None,
            s.staging_fail is None,
            !s.staging_missing,
            s.staging_map_fail is None,
            s.dirty_rects@ == Seq::<Rect>::empty(),
            s.dirty_fail is None,
            s.move_rects@ == Seq::<MoveRect>::empty(),
            s.moved_fail is None,
            s.log@ == Seq::<CallEvent>::empty(),
    {
        MockDuplication {
            desc: DuplDesc { in_system_memory, mode_height },
            device,
            context,
            frames: Vec::new(),
            cursor: 0,
            held: false,
            current: None,
            mapped: false,
            textures: Vec::new(),
            staging: None,
            staging_fail: None,
            staging_missing: false,
            staging_map_fail: None,
            dirty_rects: Vec::new(),
            dirty_fail: None,
            move_rects: Vec::new(),
            moved_fail: None,
            log: Vec::new(),
        }
    }

    /// The session description, as the backend reports it.
    pub fn get_desc(&self) -> (d: DuplDesc)
        ensures
            d == self.desc,
    {
        self.desc
    }

    /// The calls made against this session so far, in order.
    pub fn calls(&self) -> (l: &Vec<CallEvent>)
        ensures
            l@ == self.log@,
    {
        &self.log
    }

    /// Script the next acquire to time out.
    pub fn push_timeout(&mut self)
        requires
            old(self).wf(),
        ensures
            final(self).wf(),
            *final(self) == (MockDuplication {
                frames: final(self).frames,
                ..*old(self)
            }),
            final(self).frames@ == old(self).frames@.push(AcquireOutcome::Timeout),
    {
        self.frames.push(AcquireOutcome::Timeout);
    }

    /// Script the next acquire to fail with `code`.
    pub fn push_failure(&mut self, code: u32)
        requires
            old(self).wf(),
        ensures
            final(self).wf(),
            *final(self) == (MockDuplication {
                frames: final(self).frames,
                ..*old(self)
            }),
            final(self).frames@ == old(self).frames@.push(
                AcquireOutcome::Fail(NativeError { code }),
            ),
    {
        self.frames.push(AcquireOutcome::Fail(NativeError { code }));
    }

    /// Script the next acquire to produce a CPU-addressable frame whose
    /// mapped surface has row stride `pitch` and reads `bits` everywhere;
    /// `map_fail` optionally scripts the map call to fail. Refused (returning
    /// false) when the session is not a system-memory session or the mapped
    /// byte length would not fit in `usize`.
    pub fn push_memory_frame(&mut self, pitch: u32, bits: u8, map_fail: Option<u32>) -> (ok: bool)
        requires
            old(self).wf(),
        ensures
            final(self).wf(),
            *final(self) == (MockDuplication {
                frames: final(self).frames,
                ..*old(self)
            }),
            ok == (old(self).desc.in_system_memory && old(self).desc.mode_height * pitch
                <= usize::MAX),
            ok ==> final(self).frames@ == old(self).frames@.push(
                AcquireOutcome::Produce(ContentScript::Memory { pitch, bits, map_fail }),
            ),
            !ok ==> final(self).frames@ == old(self).frames@,
    {
        let h64: u64 = self.desc.mode_height as u64;
        let p64: u64 = pitch as u64;
        proof {
            assert(h64 * p64 <= 0xffff_ffff * 0xffff_ffffu64) by (nonlinear_arith)
                requires
                    h64 <= 0xffff_ffff,
                    p64 <= 0xffff_ffff,
            ;
        }
        let bytes: u64 = h64 * p64;
        if self.desc.in_system_memory && bytes <= usize::MAX as u64 {
            self.frames.push(AcquireOutcome::Produce(ContentScript::Memory { pitch, bits, map_fail }));
            true
        } else {
            false
        }
    }

    /// Script the next acquire to produce a GPU-resident frame handing out
    /// `texture`; `None` scripts a backend that reports success but returns
    /// no resource. Refused (returning false) when the session is a
    /// system-memory session or the handle is not backed by the texture
    /// store.
    pub fn push_gpu_frame(&mut self, texture: Option<usize>) -> (ok: bool)
        requires
            old(self).wf(),
        ensures
            final(self).wf(),
            *final(self) == (MockDuplication {
                frames: final(self).frames,
                ..*old(self)
            }),
            ok == (!old(self).desc.in_system_memory && (texture matches Some(t) ==> t < old(
                self,
            ).textures@.len())),
            ok ==> final(self).frames@ == old(self).frames@.push(
                AcquireOutcome::Produce(ContentScript::Gpu { texture }),
            ),
            !ok ==> final(self).frames@ == old(self).frames@,
    {
        let backed: bool = match texture {
            Some(t) => t < self.textures.len(),
            None => true,
        };
        if !self.desc.in_system_memory && backed {
            self.frames.push(AcquireOutcome::Produce(ContentScript::Gpu { texture }));
            true
        } else {
            false
        }
    }

    /// Add a texture to the device's store and return its handle. Refused
    /// (returning `None`) when the texture's byte length would not fit in
    /// `usize`.
    pub fn add_texture(&mut self, height: u32, pitch: u32, bits: u8) -> (r: Option<usize>)
        requires
            old(self).wf(),
        ensures
            final(self).wf(),
            *final(self) == (MockDuplication {
                textures: final(self).textures,
                ..*old(self)
            }),
            height * pitch <= usize::MAX ==> r == Some(old(self).textures@.len() as usize)
                && final(self).textures@ == old(self).textures@.push(
                TextureData { height, pitch, bits },
            ),
            height * pitch > usize::MAX ==> r is None && final(self).textures@ == old(
                self,
            ).textures@,
    {
        let h64: u64 = height as u64;
        let p64: u64 = pitch as u64;
        proof {
            assert(h64 * p64 <= 0xffff_ffff * 0xffff_ffffu64) by (nonlinear_arith)
                requires
                    h64 <= 0xffff_ffff,
                    p64 <= 0xffff_ffff,
            ;
        }
        let bytes: u64 = h64 * p64;
        if bytes <= usize::MAX as u64 {
            let handle = self.textures.len();
            self.textures.push(TextureData { height, pitch, bits });
            proof {
                assert forall|i: int| 0 <= i < self.frames@.len() implies outcome_wf(
                    #[trigger] self.frames@[i],
                    self.desc,
                    self.textures@.len() as int,
                ) by {
                    assert(outcome_wf(self.frames@[i], self.desc, old(self).textures@.len() as int));
                }
            }
            Some(handle)
        } else {
            None
        }
    }

    /// Acquire the next frame: consume the next scripted outcome, or time
    /// out when the script is exhausted. Acquiring while a frame is held is
    /// out of protocol order and fails. The call is logged as
    /// `Acquire(produced)`.
    ///
    /// `timeout_ms` does not influence the scripted outcome: the mock never
    /// blocks.
    #[allow(unused_variables)]
    pub fn acquire_next_frame(&mut self, timeout_ms: u32) -> (r: AcquireResult)
        requires
            old(self).wf(),
        ensures
            final(self).wf(),
            script_unchanged(*old(self), *final(self)),
            final(self).mapped == old(self).mapped,
            final(self).staging == old(self).staging,
            old(self).held ==> {
                &&& r == AcquireResult::Fail(NativeError { code: ERROR_INVALID_CALL })
                &&& final(self).cursor == old(self).cursor
                &&& final(self).held
                &&& final(self).current == old(self).current
                &&& final(self).log@ == old(self).log@.push(CallEvent::Acquire(false))
            },
            !old(self).held ==> {
                &&& (old(self).cursor < old(self).frames@.len() ==> final(self).cursor == old(
                    self,
                ).cursor + 1)
                &&& (old(self).cursor >= old(self).frames@.len() ==> final(self).cursor == old(
                    self,
                ).cursor)
                &&& match next_outcome(*old(self)) {
                    AcquireOutcome::Timeout => {
                        &&& r == AcquireResult::Timeout
                        &&& !final(self).held
                        &&& final(self).current is None
                        &&& final(self).log@ == old(self).log@.push(CallEvent::Acquire(false))
                    },
                    AcquireOutcome::Fail(e) => {
                        &&& r == AcquireResult::Fail(e)
                        &&& !final(self).held
                        &&& final(self).current is None
                        &&& final(self).log@ == old(self).log@.push(CallEvent::Acquire(false))
                    },
                    AcquireOutcome::Produce(c) => {
                        &&& r == AcquireResult::Produced(resource_of(c))
                        &&& final(self).held
                        &&& final(self).current == Some(c)
                        &&& final(self).log@ == old(self).log@.push(CallEvent::Acquire(true))
                    },
                }
            },
    {
        let mut produced: bool = false;
        let mut r: AcquireResult = AcquireResult::Timeout;
        if self.held {
            r = AcquireResult::Fail(NativeError { code: ERROR_INVALID_CALL });
        } else if self.cursor < self.frames.len() {
            let o = self.frames[self.cursor];
            self.cursor = self.cursor + 1;
            match o {
                AcquireOutcome::Timeout => {
                    r = AcquireResult::Timeout;
                },
                AcquireOutcome::Fail(e) => {
                    r = AcquireResult::Fail(e);
                },
                AcquireOutcome::Produce(c) => {
                    self.held = true;
                    self.current = Some(c);
                    let resource = match c {
                        ContentScript::Memory { .. } => None,
                        ContentScript::Gpu { texture } => texture,
                    };
                    r = AcquireResult::Produced(resource);
                    produced = true;
                },
            }
        }
        let ghost lg = self.log@;
        self.log.push(CallEvent::Acquire(produced));
        proof {
            lemma_holds_after_push(lg, CallEvent::Acquire(produced));
        }
        r
    }

    /// Release the held frame. Releasing with no frame held is out of
    /// protocol order and fails; either way the session is idle afterwards
    /// and the call is logged as `Release`.
    pub fn release_frame(&mut self) -> (r: Result<(), NativeError>)
        requires
            old(self).wf(),
        ensures
            final(self).wf(),
            script_unchanged(*old(self), *final(self)),
            final(self).cursor == old(self).cursor,
            final(self).staging == old(self).staging,
            !final(self).held,
            final(self).current is None,
            !final(self).mapped,
            final(self).log@ == old(self).log@.push(CallEvent::Release),
            r is Ok <==> old(self).held,
            r matches Err(e) ==> e == (NativeError { code: ERROR_INVALID_CALL }),
    {
        let was_held = self.held;
        self.held = false;
        self.current = None;
        self.mapped = false;
        let ghost lg = self.log@;
        self.log.push(CallEvent::Release);
        proof {
            lemma_holds_after_push(lg, CallEvent::Release);
        }
        if was_held {
            Ok(())
        } else {
            Err(NativeError { code: ERROR_INVALID_CALL })
        }
    }

    /// Map the held frame's desktop surface for CPU reads. Fails when no
    /// CPU-addressable frame is held or when the script says so. The call is
    /// logged as `MapDesktop`.
    pub fn map_desktop_surface(&mut self) -> (r: Result<MappedRect, NativeError>)
        requires
            old(self).wf(),
        ensures
            final(self).wf(),
            script_unchanged(*old(self), *final(self)),
            final(self).cursor == old(self).cursor,
            final(self).held == old(self).held,
            final(self).current == old(self).current,
            final(self).staging == old(self).staging,
            final(self).log@ == old(self).log@.push(CallEvent::MapDesktop),
            match old(self).current {
                Some(ContentScript::Memory { pitch, bits, map_fail }) => match map_fail {
                    None => {
                        &&& r == Ok::<MappedRect, NativeError>(MappedRect { pitch, bits })
                        &&& final(self).mapped
                    },
                    Some(code) => {
                        &&& r == Err::<MappedRect, NativeError>(NativeError { code })
                        &&& final(self).mapped == old(self).mapped
                    },
                },
                _ => {
                    &&& r == Err::<MappedRect, NativeError>(
                        NativeError { code: ERROR_INVALID_CALL },
                    )
                    &&& final(self).mapped == old(self).mapped
                },
            },
    {
        let ghost lg = self.log@;
        self.log.push(CallEvent::MapDesktop);
        proof {
            lemma_holds_after_push(lg, CallEvent::MapDesktop);
        }
        match self.current {
            Some(ContentScript::Memory { pitch, bits, map_fail }) => match map_fail {
                None => {
                    self.mapped = true;
                    Ok(MappedRect { pitch, bits })
                },
                Some(code) => Err(NativeError { code }),
            },
            _ => Err(NativeError { code: ERROR_INVALID_CALL }),
        }
    }

    /// Unmap the desktop surface. Fails when it is not mapped; either way it
    /// is unmapped afterwards. The call is logged as `UnmapDesktop`.
    pub fn unmap_desktop_surface(&mut self) -> (r: Result<(), NativeError>)
        requires
            old(self).wf(),
        ensures
            final(self).wf(),
            script_unchanged(*old(self), *final(self)),
            final(self).cursor == old(self).cursor,
            final(self).held == old(self).held,
            final(self).current == old(self).current,
            final(self).staging == old(self).staging,
            !final(self).mapped,
            final(self).log@ == old(self).log@.push(CallEvent::UnmapDesktop),
            r is Ok <==> old(self).mapped,
            r matches Err(e) ==> e == (NativeError { code: ERROR_INVALID_CALL }),
    {
        let was_mapped = self.mapped;
        self.mapped = false;
        let ghost lg = self.log@;
        self.log.push(CallEvent::UnmapDesktop);
        proof {
            lemma_holds_after_push(lg, CallEvent::UnmapDesktop);
        }
        if was_mapped {
            Ok(())
        } else {
            Err(NativeError { code: ERROR_INVALID_CALL })
        }
    }

    /// The height, in rows, of the texture behind `texture`, or `None` for a
    /// handle the device does not back.
    pub fn texture_desc(&self, texture: usize) -> (r: Option<u32>)
        ensures
            r == if texture < self.textures@.len() {
                Some(self.textures@[texture as int].height)
            } else {
                None::<u32>
            },
    {
        if texture < self.textures.len() {
            Some(self.textures[texture].height)
        } else {
            None
        }
    }

    /// Create a CPU-readable staging texture of `height` rows. The script
    /// may fail the call or have it succeed while returning no resource.
    /// The call is logged as `CreateStaging`.
    pub fn create_staging_texture(&mut self, height: u32) -> (r: Result<bool, NativeError>)
        requires
            old(self).wf(),
        ensures
            final(self).wf(),
            script_unchanged(*old(self), *final(self)),
            final(self).cursor == old(self).cursor,
            final(self).held == old(self).held,
            final(self).current == old(self).current,
            final(self).mapped == old(self).mapped,
            final(self).log@ == old(self).log@.push(CallEvent::CreateStaging),
            match old(self).staging_fail {
                Some(code) => {
                    &&& r == Err::<bool, NativeError>(NativeError { code })
                    &&& final(self).staging == old(self).staging
                },
                None => {
                    if old(self).staging_missing {
                        &&& r == Ok::<bool, NativeError>(false)
                        &&& final(self).staging == old(self).staging
                    } else {
                        &&& r == Ok::<bool, NativeError>(true)
                        &&& final(self).staging == Some(TextureData { height, pitch: 0, bits: 0 })
                    }
                },
            },
    {
        let ghost lg = self.log@;
        self.log.push(CallEvent::CreateStaging);
        proof {
            lemma_holds_after_push(lg, CallEvent::CreateStaging);
        }
        match self.staging_fail {
            Some(code) => Err(NativeError { code }),
            None => {
                if self.staging_missing {
                    Ok(false)
                } else {
                    self.staging = Some(TextureData { height, pitch: 0, bits: 0 });
                    Ok(true)
                }
            },
        }
    }

    /// Mark the staging texture highest eviction priority so it is not
    /// discarded under memory pressure. The call is logged as `SetPriority`.
    pub fn set_staging_priority(&mut self)
        requires
            old(self).wf(),
        ensures
            final(self).wf(),
            script_unchanged(*old(self), *final(self)),
            final(self).cursor == old(self).cursor,
            final(self).held == old(self).held,
            final(self).current == old(self).current,
            final(self).mapped == old(self).mapped,
            final(self).staging == old(self).staging,
            final(self).log@ == old(self).log@.push(CallEvent::SetPriority),
    {
        let ghost lg = self.log@;
        self.log.push(CallEvent::SetPriority);
        proof {
            lemma_holds_after_push(lg, CallEvent::SetPriority);
        }
    }

    /// Copy the texture behind `src` into the staging texture. A copy with
    /// no staging texture or an unbacked source handle leaves the staging
    /// texture unchanged. The call is logged as `CopyResource`.
    pub fn copy_resource(&mut self, src: usize)
        requires
            old(self).wf(),
        ensures
            final(self).wf(),
            script_unchanged(*old(self), *final(self)),
            final(self).cursor == old(self).cursor,
            final(self).held == old(self).held,
            final(self).current == old(self).current,
            final(self).mapped == old(self).mapped,
            final(self).log@ == old(self).log@.push(CallEvent::CopyResource),
            if old(self).staging is Some && src < old(self).textures@.len() {
                final(self).staging == Some(old(self).textures@[src as int])
            } else {
                final(self).staging == old(self).staging
            },
    {
        let ghost lg = self.log@;
        self.log.push(CallEvent::CopyResource);
        proof {
            lemma_holds_after_push(lg, CallEvent::CopyResource);
        }
        if self.staging.is_some() && src < self.textures.len() {
            self.staging = Some(self.textures[src]);
        }
    }

    /// Map the staging texture for CPU reads. Fails when there is no staging
    /// texture or when the script says so. The call is logged as
    /// `MapStaging`.
    pub fn map_staging(&mut self) -> (r: Result<MappedRect, NativeError>)
        requires
            old(self).wf(),
        ensures
            final(self).wf(),
            script_unchanged(*old(self), *final(self)),
            final(self).cursor == old(self).cursor,
            final(self).held == old(self).held,
            final(self).current == old(self).current,
            final(self).mapped == old(self).mapped,
            final(self).staging == old(self).staging,
            final(self).log@ == old(self).log@.push(CallEvent::MapStaging),
            match old(self).staging {
                None => r == Err::<MappedRect, NativeError>(
                    NativeError { code: ERROR_INVALID_CALL },
                ),
                Some(st) => match old(self).staging_map_fail {
                    Some(code) => r == Err::<MappedRect, NativeError>(NativeError { code }),
                    None => r == Ok::<MappedRect, NativeError>(
                        MappedRect { pitch: st.pitch, bits: st.bits },
                    ),
                },
            },
    {
        let ghost lg = self.log@;
        self.log.push(CallEvent::MapStaging);
        proof {
            lemma_holds_after_push(lg, CallEvent::MapStaging);
        }
        match self.staging {
            None => Err(NativeError { code: ERROR_INVALID_CALL }),
            Some(st) => match self.staging_map_fail {
                Some(code) => Err(NativeError { code }),
                None => Ok(MappedRect { pitch: st.pitch, bits: st.bits }),
            },
        }
    }

    /// Unmap the staging texture. The call is logged as `UnmapStaging`.
    pub fn unmap_staging(&mut self) -> (r: Result<(), NativeError>)
        requires
            old(self).wf(),
        ensures
            final(self).wf(),
            script_unchanged(*old(self), *final(self)),
            final(self).cursor == old(self).cursor,
            final(self).held == old(self).held,
            final(self).current == old(self).current,
            final(self).mapped == old(self).mapped,
            final(self).staging == old(self).staging,
            final(self).log@ == old(self).log@.push(CallEvent::UnmapStaging),
            r is Ok <==> old(self).staging is Some,
            r matches Err(e) ==> e == (NativeError { code: ERROR_INVALID_CALL }),
    {
        let ghost lg = self.log@;
        self.log.push(CallEvent::UnmapStaging);
        proof {
            lemma_holds_after_push(lg, CallEvent::UnmapStaging);
        }
        if self.staging.is_some() {
            Ok(())
        } else {
            Err(NativeError { code: ERROR_INVALID_CALL })
        }
    }

    /// Query the dirty rectangles of the held frame with a buffer of
    /// `capacity` entries: the backend writes at most `capacity` entries but
    /// reports the full count it wanted to write. Fails when no frame is
    /// held or when the script says so. The call is logged as `QueryDirty`.
    pub fn get_frame_dirty_rects(&mut self, capacity: usize) -> (r: Result<
        (Vec<Rect>, usize),
        NativeError,
    >)
        requires
            old(self).wf(),
        ensures
            final(self).wf(),
            script_unchanged(*old(self), *final(self)),
            final(self).cursor == old(self).cursor,
            final(self).held == old(self).held,
            final(self).current == old(self).current,
            final(self).mapped == old(self).mapped,
            final(self).staging == old(self).staging,
            final(self).log@ == old(self).log@.push(CallEvent::QueryDirty),
            !old(self).held ==> (r matches Err(e) && e == (NativeError {
                code: ERROR_INVALID_CALL,
            })),
            old(self).held ==> match old(self).dirty_fail {
                Some(code) => r matches Err(e) && e == (NativeError { code }),
                None => {
                    &&& r matches Ok(p)
                    &&& p.1 == old(self).dirty_rects@.len()
                    &&& p.0@ == old(self).dirty_rects@.take(
                        if capacity < old(self).dirty_rects@.len() {
                            capacity as int
                        } else {
                            old(self).dirty_rects@.len() as int
                        },
                    )
                },
            },
    {
        let ghost lg = self.log@;
        self.log.push(CallEvent::QueryDirty);
        proof {
            lemma_holds_after_push(lg, CallEvent::QueryDirty);
        }
        if !self.held {
            return Err(NativeError { code: ERROR_INVALID_CALL });
        }
        match self.dirty_fail {
            Some(code) => Err(NativeError { code }),
            None => {
                let n = self.dirty_rects.len();
                let k = if capacity < n {
                    capacity
                } else {
                    n
                };
                let written = crate::util::copy_prefix(&self.dirty_rects, k);
                Ok((written, n))
            },
        }
    }

    /// Query the moved rectangles of the held frame with a buffer of
    /// `capacity` entries; the same protocol as the dirty-rectangle query.
    /// The call is logged as `QueryMoved`.
    pub fn get_frame_move_rects(&mut self, capacity: usize) -> (r: Result<
        (Vec<MoveRect>, usize),
        NativeError,
    >)
        requires
            old(self).wf(),
        ensures
            final(self).wf(),
            script_unchanged(*old(self), *final(self)),
            final(self).cursor == old(self).cursor,
            final(self).held == old(self).held,
            final(self).current == old(self).current,
            final(self).mapped == old(self).mapped,
            final(self).staging == old(self).staging,
            final(self).log@ == old(self).log@.push(CallEvent::QueryMoved),
            !old(self).held ==> (r matches Err(e) && e == (NativeError {
                code: ERROR_INVALID_CALL,
            })),
            old(self).held ==> match old(self).moved_fail {
                Some(code) => r matches Err(e) && e == (NativeError { code }),
                None => {
                    &&& r matches Ok(p)
                    &&& p.1 == old(self).move_rects@.len()
                    &&& p.0@ == old(self).move_rects@.take(
                        if capacity < old(self).move_rects@.len() {
                            capacity as int
                        } else {
                            old(self).move_rects@.len() as int
                        },
                    )
                },
            },
    {
        let ghost lg = self.log@;
        self.log.push(CallEvent::QueryMoved);
        proof {
            lemma_holds_after_push(lg, CallEvent::QueryMoved);
        }
        if !self.held {
            return Err(NativeError { code: ERROR_INVALID_CALL });
        }
        match self.moved_fail {
            Some(code) => Err(NativeError { code }),
            None => {
                let n = self.move_rects.len();
                let k = if capacity < n {
                    capacity
                } else {
                    n
                };
                let written = crate::util::copy_prefix(&self.move_rects, k);
                Ok((written, n))
            },
        }
    }
}

/// An observably identical copy of a session.
pub fn clone_session(s: &MockDuplication) -> (r: MockDuplication)
    ensures
        eq_session(*s, r),
        s.wf() ==> r.wf(),
{
    MockDuplication {
        desc: s.desc,
        device: s.device,
        context: s.context,
        frames: crate::util::copy_vec(&s.frames),
        cursor: s.cursor,
        held: s.held,
        current: s.current,
        mapped: s.mapped,
        textures: crate::util::copy_vec(&s.textures),
        staging: s.staging,
        staging_fail: s.staging_fail,
        staging_missing: s.staging_missing,
        staging_map_fail: s.staging_map_fail,
        dirty_rects: crate::util::copy_vec(&s.dirty_rects),
        dirty_fail: s.dirty_fail,
        move_rects: crate::util::copy_vec(&s.move_rects),
        moved_fail: s.moved_fail,
        log: crate::util::copy_vec(&s.log),
    }
}

} // verus!
