//! The per-output frame-acquisition state machine.
//!
//! A capturer owns one duplication session and is either idle or holding a
//! native frame that must be released before the next acquire. Every
//! `get_frame` call first releases a held frame (swallowing release
//! failures), then acquires with the caller's timeout, then classifies the
//! acquired frame by the session's reported residency.
//!
//! Construction performs no priming acquire: a fresh capturer is idle, so
//! the first `get_frame` call may itself return `WouldBlock`.

use crate::backend::{
    next_outcome, script_unchanged, AcquireOutcome, AcquireResult, ContentScript, DuplDesc,
    MockDuplication, NativeError,
};
use crate::driver::dx11::frame::Dx11FrameData;
use crate::driver::dxgi::errors::FrameError;
use crate::driver::dxgi::frame::{DxgiFrame, DxgiFrameData};
use crate::log::{
    acquire_ordered, count_events, lemma_acquire_ordered_push, lemma_count_concat,
    lemma_count_one, lemma_count_two, CallEvent,
};
use vstd::prelude::*;

verus! {

/// The calls a `get_frame` call issues to shed a previously held frame: for
/// a system-memory session the desktop surface is unmapped first, then the
/// frame is released.
pub open spec fn release_events(has_frame: bool, in_system_memory: bool) -> Seq<CallEvent> {
    if has_frame {
        if in_system_memory {
            seq![CallEvent::UnmapDesktop, CallEvent::Release]
        } else {
            seq![CallEvent::Release]
        }
    } else {
        Seq::empty()
    }
}

/// The calls a `get_frame` call issues to acquire and classify the next
/// frame: one acquire, plus one desktop-surface map when a frame of a
/// system-memory session was produced.
pub open spec fn acquire_events(o: AcquireOutcome, in_system_memory: bool) -> Seq<CallEvent> {
    match o {
        AcquireOutcome::Produce(_) => if in_system_memory {
            seq![CallEvent::Acquire(true), CallEvent::MapDesktop]
        } else {
            seq![CallEvent::Acquire(true)]
        },
        _ => seq![CallEvent::Acquire(false)],
    }
}

/// Everything one `get_frame` call does and returns, relating the capturer
/// before the call (`pre`), the capturer after it (`post`) and the result:
/// the session script is untouched; exactly one scripted outcome is
/// consumed; the log gains the release calls owed for a previously held
/// frame followed by the acquire (and, for system-memory frames, the map);
/// the held state afterwards says whether a frame was produced; and the
/// result is determined by the consumed outcome — `WouldBlock` on a
/// timeout, a wrapped status on failure, the mapped bytes of length
/// `mode_height * pitch` for a produced system-memory frame, the wrapped
/// texture for a produced GPU frame, and an invariant violation when the
/// backend produced a frame but no texture.
pub open spec fn get_frame_spec(
    pre: DxgiDisplayCapturer,
    post: DxgiDisplayCapturer,
    r: Result<DxgiFrame, FrameError>,
) -> bool {
    &&& post.wf()
    &&& script_unchanged(pre.session, post.session)
    &&& post.desc == pre.desc
    &&& post.session.staging == pre.session.staging
    &&& (pre.session.cursor < pre.session.frames@.len() ==> post.session.cursor
        == pre.session.cursor + 1)
    &&& (pre.session.cursor >= pre.session.frames@.len() ==> post.session.cursor
        == pre.session.cursor)
    &&& post.session.log@ == pre.session.log@ + release_events(
        pre.has_frame,
        pre.desc.in_system_memory,
    ) + acquire_events(next_outcome(pre.session), pre.desc.in_system_memory)
    &&& post.has_frame == (next_outcome(pre.session) matches AcquireOutcome::Produce(_))
    &&& match next_outcome(pre.session) {
        AcquireOutcome::Timeout => r == Err::<DxgiFrame, FrameError>(FrameError::WouldBlock),
        AcquireOutcome::Fail(e) => r == Err::<DxgiFrame, FrameError>(FrameError::AcquireFrame(e)),
        AcquireOutcome::Produce(c) => {
            &&& post.session.current == Some(c)
            &&& match c {
                ContentScript::Memory { pitch, bits, map_fail } => match map_fail {
                    Some(code) => {
                        &&& r == Err::<DxgiFrame, FrameError>(
                            FrameError::Unexpected(NativeError { code }),
                        )
                        &&& !post.session.mapped
                    },
                    None => {
                        &&& r matches Ok(f)
                        &&& f.data matches DxgiFrameData::Memory(buf)
                        &&& buf@.len() == pre.desc.mode_height * pitch
                        &&& buf@ == Seq::new((pre.desc.mode_height * pitch) as nat, |i: int| bits)
                        &&& post.session.mapped
                    },
                },
                ContentScript::Gpu { texture } => match texture {
                    None => r == Err::<DxgiFrame, FrameError>(FrameError::InvariantViolation),
                    Some(t) => r == Ok::<DxgiFrame, FrameError>(
                        DxgiFrame {
                            data: DxgiFrameData::DirectX(
                                Dx11FrameData {
                                    device: pre.session.device,
                                    context: pre.session.context,
                                    texture: t,
                                },
                            ),
                        },
                    ),
                },
            }
        },
    }
}

/// The frame-acquisition state machine of one output: the duplication
/// session it owns, the session description read at construction, and
/// whether a native frame is currently held and must be released before the
/// next acquire.
#[derive(Debug)]
pub struct DxgiDisplayCapturer {
    pub session: MockDuplication,
    pub desc: DuplDesc,
    pub has_frame: bool,
}

impl DxgiDisplayCapturer {
    /// Capturer well-formedness: the session is well-formed, the cached
    /// description matches it, the held flag mirrors the session's protocol
    /// state, and the session's call log obeys the acquire/release
    /// discipline.
    pub open spec fn wf(&self) -> bool {
        &&& self.session.wf()
        &&& self.desc == self.session.desc
        &&& self.has_frame == self.session.held
        &&& acquire_ordered(self.session.log@)
    }

    /// Create a capturer for a fresh duplication session. No priming acquire
    /// is performed: the capturer starts idle.
    pub fn new(session: MockDuplication) -> (r: DxgiDisplayCapturer)
        requires
            session.wf(),
            !session.held,
            acquire_ordered(session.log@),
        ensures
            r.wf(),
            r.session == session,
            r.desc == session.desc,
            !r.has_frame,
    {
        let desc = session.get_desc();
        DxgiDisplayCapturer { session, desc, has_frame: false }
    }

    /// Read the next frame from the session.
    ///
    /// A held frame is released first (release failures are swallowed: the
    /// next acquire implicitly resets backend-side state). Then one acquire
    /// is issued with the caller's timeout: a timeout yields `WouldBlock`
    /// and leaves the capturer idle; any other failure is fatal and wraps
    /// the backend status. An acquired frame of a system-memory session is
    /// mapped and returned as `Memory` bytes of length
    /// `mode_height * pitch`; otherwise the backend's texture is wrapped as
    /// a `DirectX` frame without copying, and a missing texture despite a
    /// reported success is an invariant violation.
    pub fn get_frame(&mut self, timeout_ms: u32) -> (r: Result<DxgiFrame, FrameError>)
        requires
            old(self).wf(),
        ensures
            get_frame_spec(*old(self), *final(self), r),
    {
        // Shed the previously held frame so the acquire below is issued from
        // the idle state.
        if self.has_frame {
            if self.desc.in_system_memory {
                let ghost lg = self.session.log@;
                let _ = self.session.unmap_desktop_surface();
                proof {
                    lemma_acquire_ordered_push(lg, CallEvent::UnmapDesktop);
                }
            }
            let ghost lg = self.session.log@;
            let _ = self.session.release_frame();
            self.has_frame = false;
            proof {
                lemma_acquire_ordered_push(lg, CallEvent::Release);
            }
        }
        let ghost lg_acq = self.session.log@;
        let result = self.session.acquire_next_frame(timeout_ms);
        proof {
            lemma_acquire_ordered_push(lg_acq, CallEvent::Acquire(true));
            lemma_acquire_ordered_push(lg_acq, CallEvent::Acquire(false));
        }
        match result {
            AcquireResult::Timeout => {
                proof {
                    assert(self.session.log@ =~= old(self).session.log@ + release_events(
                        old(self).has_frame,
                        old(self).desc.in_system_memory,
                    ) + acquire_events(
                        next_outcome(old(self).session),
                        old(self).desc.in_system_memory,
                    ));
                }
                Err(FrameError::WouldBlock)
            },
            AcquireResult::Fail(e) => {
                proof {
                    assert(self.session.log@ =~= old(self).session.log@ + release_events(
                        old(self).has_frame,
                        old(self).desc.in_system_memory,
                    ) + acquire_events(
                        next_outcome(old(self).session),
                        old(self).desc.in_system_memory,
                    ));
                }
                Err(FrameError::AcquireFrame(e))
            },
            AcquireResult::Produced(resource) => {
                // A frame is now held and must be released before the next
                // acquire, whatever happens below.
                self.has_frame = true;
                if self.desc.in_system_memory {
                    let ghost lg = self.session.log@;
                    let rect = match self.session.map_desktop_surface() {
                        Ok(rc) => rc,
                        Err(e) => {
                            proof {
                                lemma_acquire_ordered_push(lg, CallEvent::MapDesktop);
                                assert(self.session.log@ =~= old(self).session.log@
                                    + release_events(
                                    old(self).has_frame,
                                    old(self).desc.in_system_memory,
                                ) + acquire_events(
                                    next_outcome(old(self).session),
                                    old(self).desc.in_system_memory,
                                ));
                            }
                            return Err(FrameError::Unexpected(e));
                        },
                    };
                    proof {
                        lemma_acquire_ordered_push(lg, CallEvent::MapDesktop);
                        assert(self.session.log@ =~= old(self).session.log@ + release_events(
                            old(self).has_frame,
                            old(self).desc.in_system_memory,
                        ) + acquire_events(
                            next_outcome(old(self).session),
                            old(self).desc.in_system_memory,
                        ));
                    }
                    // One frame's bytes: the reported height times the
                    // mapped row stride.
                    let h64: u64 = self.desc.mode_height as u64;
                    let p64: u64 = rect.pitch as u64;
                    proof {
                        assert(h64 * p64 <= 0xffff_ffff * 0xffff_ffffu64) by (nonlinear_arith)
                            requires
                                h64 <= 0xffff_ffff,
                                p64 <= 0xffff_ffff,
                        ;
                    }
                    let len64: u64 = h64 * p64;
                    let len: usize = len64 as usize;
                    let buf = crate::util::filled_vec(len, rect.bits);
                    return Ok(DxgiFrame::new(DxgiFrameData::Memory(buf)));
                }
                proof {
                    assert(self.session.log@ =~= old(self).session.log@ + release_events(
                        old(self).has_frame,
                        old(self).desc.in_system_memory,
                    ) + acquire_events(
                        next_outcome(old(self).session),
                        old(self).desc.in_system_memory,
                    ));
                }
                match resource {
                    Some(texture) => Ok(
                        DxgiFrame::new(
                            DxgiFrameData::DirectX(
                                Dx11FrameData::new(self.session.device, self.session.context, texture),
                            ),
                        ),
                    ),
                    None => Err(FrameError::InvariantViolation),
                }
            },
        }
    }
}

/// Law: polling an idle capturer whose backend has no pending frame returns
/// `WouldBlock` and changes nothing but the call log, so repeating the call
/// finds the same idle state and the same exhausted script: `WouldBlock`
/// polling is idempotent.
pub proof fn lemma_would_block_steady_state(
    pre: DxgiDisplayCapturer,
    post: DxgiDisplayCapturer,
    r: Result<DxgiFrame, FrameError>,
)
    requires
        pre.wf(),
        !pre.has_frame,
        pre.session.cursor >= pre.session.frames@.len(),
        get_frame_spec(pre, post, r),
    ensures
        r == Err::<DxgiFrame, FrameError>(FrameError::WouldBlock),
        post.wf(),
        !post.has_frame,
        post.session.cursor >= post.session.frames@.len(),
        script_unchanged(pre.session, post.session),
        post.session.cursor == pre.session.cursor,
        post.session.current == pre.session.current,
        post.session.mapped == pre.session.mapped,
        post.session.staging == pre.session.staging,
        post.session.log@ == pre.session.log@.push(CallEvent::Acquire(false)),
{
    assert(next_outcome(pre.session) is Timeout);
    assert(post.session.log@ =~= pre.session.log@.push(CallEvent::Acquire(false)));
}

/// Law: the capture state machine never issues two acquire calls without an
/// intervening release when the prior acquire succeeded. The capturer's
/// invariant keeps its session log under the acquire/release discipline, of
/// which this is the order statement.
pub proof fn lemma_capturer_never_double_acquires(c: DxgiDisplayCapturer, i: int, j: int)
    requires
        c.wf(),
        0 <= i < j < c.session.log@.len(),
        c.session.log@[i] == CallEvent::Acquire(true),
        c.session.log@[j] matches CallEvent::Acquire(_),
    ensures
        exists|k: int| i < k < j && c.session.log@[k] == CallEvent::Release,
{
    crate::log::lemma_no_double_acquire(c.session.log@, i, j);
}

/// Law: acquiring a frame copies nothing — the calls one `get_frame` issues
/// never include a staging-texture creation or a resource copy, whatever the
/// outcome. Bytes of a GPU frame are copied only when they are asked for.
pub proof fn lemma_get_frame_copies_nothing(
    pre: DxgiDisplayCapturer,
    post: DxgiDisplayCapturer,
    r: Result<DxgiFrame, FrameError>,
)
    requires
        get_frame_spec(pre, post, r),
    ensures
        count_events(post.session.log@, CallEvent::CreateStaging) == count_events(
            pre.session.log@,
            CallEvent::CreateStaging,
        ),
        count_events(post.session.log@, CallEvent::CopyResource) == count_events(
            pre.session.log@,
            CallEvent::CopyResource,
        ),
{
    let rel = release_events(pre.has_frame, pre.desc.in_system_memory);
    let acq = acquire_events(next_outcome(pre.session), pre.desc.in_system_memory);
    lemma_release_acquire_events_count(pre, CallEvent::CreateStaging);
    lemma_release_acquire_events_count(pre, CallEvent::CopyResource);
    lemma_count_concat(pre.session.log@, rel, CallEvent::CreateStaging);
    lemma_count_concat(pre.session.log@ + rel, acq, CallEvent::CreateStaging);
    lemma_count_concat(pre.session.log@, rel, CallEvent::CopyResource);
    lemma_count_concat(pre.session.log@ + rel, acq, CallEvent::CopyResource);
    assert(post.session.log@ =~= (pre.session.log@ + rel) + acq);
}

/// Neither the release calls nor the acquire calls of a `get_frame` contain
/// a staging-texture creation or a resource copy.
proof fn lemma_release_acquire_events_count(pre: DxgiDisplayCapturer, e: CallEvent)
    requires
        e matches CallEvent::CreateStaging || e matches CallEvent::CopyResource,
    ensures
        count_events(release_events(pre.has_frame, pre.desc.in_system_memory), e) == 0,
        count_events(acquire_events(next_outcome(pre.session), pre.desc.in_system_memory), e) == 0,
{
    lemma_count_one(CallEvent::Release, e);
    lemma_count_two(CallEvent::UnmapDesktop, CallEvent::Release, e);
    lemma_count_one(CallEvent::Acquire(true), e);
    lemma_count_one(CallEvent::Acquire(false), e);
    lemma_count_two(CallEvent::Acquire(true), CallEvent::MapDesktop, e);
}

} // verus!
