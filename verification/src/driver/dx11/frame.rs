//! A GPU-resident frame and its synchronous readback.
//!
//! Reading the bytes of a GPU-resident frame stages a CPU-readable copy:
//! create a staging texture with the source's dimensions, mark it highest
//! eviction priority, copy the source into it on the same device, map it,
//! read `height * pitch` bytes, and unmap. Nothing is cached: every call
//! performs exactly one staging-texture creation and one copy.

use crate::backend::{script_unchanged, MockDuplication, NativeError, TextureData};
use crate::driver::dxgi::errors::FrameError;
use crate::log::{
    count_events, lemma_count_concat, lemma_count_one, lemma_count_two, CallEvent,
};
use vstd::prelude::*;

verus! {

/// The bytes a readback of texture `t` yields: `height * pitch` bytes, each
/// reading the texture's byte pattern.
pub open spec fn readback_bytes(t: TextureData) -> Seq<u8> {
    Seq::new((t.height * t.pitch) as nat, |i: int| t.bits)
}

/// Law: a successful readback performs exactly one staging-texture creation
/// and exactly one copy — no more, whatever the session's history.
pub proof fn lemma_readback_copies_once(
    d: Dx11FrameData,
    pre: MockDuplication,
    post: MockDuplication,
    r: Result<Vec<u8>, FrameError>,
)
    requires
        readback_result(d, pre, post, r),
        d.texture < pre.textures@.len(),
        pre.staging_fail is None,
        !pre.staging_missing,
        pre.staging_map_fail is None,
    ensures
        count_events(post.log@, CallEvent::CreateStaging) == count_events(
            pre.log@,
            CallEvent::CreateStaging,
        ) + 1,
        count_events(post.log@, CallEvent::CopyResource) == count_events(
            pre.log@,
            CallEvent::CopyResource,
        ) + 1,
{
    let delta = seq![
        CallEvent::CreateStaging,
        CallEvent::SetPriority,
        CallEvent::CopyResource,
        CallEvent::MapStaging,
        CallEvent::UnmapStaging,
    ];
    assert(delta =~= seq![CallEvent::CreateStaging, CallEvent::SetPriority] + seq![
        CallEvent::CopyResource,
        CallEvent::MapStaging,
    ] + seq![CallEvent::UnmapStaging]);
    let front = seq![CallEvent::CreateStaging, CallEvent::SetPriority] + seq![
        CallEvent::CopyResource,
        CallEvent::MapStaging,
    ];
    lemma_count_two(CallEvent::CreateStaging, CallEvent::SetPriority, CallEvent::CreateStaging);
    lemma_count_two(CallEvent::CopyResource, CallEvent::MapStaging, CallEvent::CreateStaging);
    lemma_count_one(CallEvent::UnmapStaging, CallEvent::CreateStaging);
    lemma_count_concat(
        seq![CallEvent::CreateStaging, CallEvent::SetPriority],
        seq![CallEvent::CopyResource, CallEvent::MapStaging],
        CallEvent::CreateStaging,
    );
    lemma_count_concat(front, seq![CallEvent::UnmapStaging], CallEvent::CreateStaging);
    lemma_count_concat(pre.log@, delta, CallEvent::CreateStaging);
    lemma_count_two(CallEvent::CreateStaging, CallEvent::SetPriority, CallEvent::CopyResource);
    lemma_count_two(CallEvent::CopyResource, CallEvent::MapStaging, CallEvent::CopyResource);
    lemma_count_one(CallEvent::UnmapStaging, CallEvent::CopyResource);
    lemma_count_concat(
        seq![CallEvent::CreateStaging, CallEvent::SetPriority],
        seq![CallEvent::CopyResource, CallEvent::MapStaging],
        CallEvent::CopyResource,
    );
    lemma_count_concat(front, seq![CallEvent::UnmapStaging], CallEvent::CopyResource);
    lemma_count_concat(pre.log@, delta, CallEvent::CopyResource);
}

/// A frame that lives in a GPU texture: the device and context that own it,
/// and the texture handle itself. The bytes must be materialized by an
/// explicit copy; see [`Dx11FrameData::get_bytes`].
#[derive(Debug, Clone, Copy)]
pub struct Dx11FrameData {
    pub device: usize,
    pub context: usize,
    pub texture: usize,
}

/// Everything a readback of `d` does to the session and returns: the
/// session's protocol state and script are untouched; the staging texture,
/// the call log and the result are determined by the texture handle and the
/// scripted staging failures. On success the bytes are exactly
/// `height * pitch` bytes of the frame's texture, and the log gains exactly
/// one staging-texture creation, one priority mark, one copy, one map and
/// one unmap.
pub open spec fn readback_result(
    d: Dx11FrameData,
    pre: MockDuplication,
    post: MockDuplication,
    r: Result<Vec<u8>, FrameError>,
) -> bool {
    &&& post.wf()
    &&& script_unchanged(pre, post)
    &&& post.cursor == pre.cursor
    &&& post.held == pre.held
    &&& post.current == pre.current
    &&& post.mapped == pre.mapped
    &&& (d.texture >= pre.textures@.len() ==> {
        &&& r == Err::<Vec<u8>, FrameError>(FrameError::InvariantViolation)
        &&& post.log@ == pre.log@
        &&& post.staging == pre.staging
    })
    &&& (d.texture < pre.textures@.len() ==> match pre.staging_fail {
        Some(code) => {
            &&& r == Err::<Vec<u8>, FrameError>(FrameError::Unexpected(NativeError { code }))
            &&& post.log@ == pre.log@ + seq![CallEvent::CreateStaging]
            &&& post.staging == pre.staging
        },
        None => if pre.staging_missing {
            &&& r == Err::<Vec<u8>, FrameError>(FrameError::InvariantViolation)
            &&& post.log@ == pre.log@ + seq![CallEvent::CreateStaging]
            &&& post.staging == pre.staging
        } else {
            &&& post.staging == Some(pre.textures@[d.texture as int])
            &&& match pre.staging_map_fail {
                Some(code) => {
                    &&& r == Err::<Vec<u8>, FrameError>(
                        FrameError::Unexpected(NativeError { code }),
                    )
                    &&& post.log@ == pre.log@ + seq![
                        CallEvent::CreateStaging,
                        CallEvent::SetPriority,
                        CallEvent::CopyResource,
                        CallEvent::MapStaging,
                    ]
                },
                None => {
                    &&& r matches Ok(buf)
                    &&& buf@ == readback_bytes(pre.textures@[d.texture as int])
                    &&& post.log@ == pre.log@ + seq![
                        CallEvent::CreateStaging,
                        CallEvent::SetPriority,
                        CallEvent::CopyResource,
                        CallEvent::MapStaging,
                        CallEvent::UnmapStaging,
                    ]
                },
            }
        },
    })
}

impl Dx11FrameData {
    pub fn new(device: usize, context: usize, texture: usize) -> (r: Dx11FrameData)
        ensures
            r == (Dx11FrameData { device, context, texture }),
    {
        Dx11FrameData { device, context, texture }
    }

    /// Materialize the frame's bytes by a synchronous readback through a
    /// freshly created staging texture. Each call re-copies; no caching.
    ///
    /// Returns exactly `height * pitch` bytes for the frame's texture.
    /// Failure at any step — an unbacked texture handle, staging-texture
    /// creation failing or returning no resource, the map failing — is fatal
    /// and surfaces; nothing is retried.
    pub fn get_bytes(&self, session: &mut MockDuplication) -> (r: Result<Vec<u8>, FrameError>)
        requires
            old(session).wf(),
        ensures
            readback_result(*self, *old(session), *final(session), r),
    {
        let ghost lg0 = session.log@;
        let desc_h: u32 = match session.texture_desc(self.texture) {
            Some(h) => h,
            None => {
                return Err(FrameError::InvariantViolation);
            },
        };
        let created: bool = match session.create_staging_texture(desc_h) {
            Ok(b) => b,
            Err(e) => {
                proof {
                    assert(session.log@ =~= lg0 + seq![CallEvent::CreateStaging]);
                }
                return Err(FrameError::Unexpected(e));
            },
        };
        if !created {
            proof {
                assert(session.log@ =~= lg0 + seq![CallEvent::CreateStaging]);
            }
            return Err(FrameError::InvariantViolation);
        }
        session.set_staging_priority();
        session.copy_resource(self.texture);
        let rect = match session.map_staging() {
            Ok(rc) => rc,
            Err(e) => {
                proof {
                    assert(session.log@ =~= lg0 + seq![
                        CallEvent::CreateStaging,
                        CallEvent::SetPriority,
                        CallEvent::CopyResource,
                        CallEvent::MapStaging,
                    ]);
                }
                return Err(FrameError::Unexpected(e));
            },
        };
        let h64: u64 = desc_h as u64;
        let p64: u64 = rect.pitch as u64;
        proof {
            assert(h64 * p64 <= 0xffff_ffff * 0xffff_ffffu64) by (nonlinear_arith)
                requires
                    h64 <= 0xffff_ffff,
                    p64 <= 0xffff_ffff,
            ;
        }
        let len64: u64 = h64 * p64;
        let len: usize = len64 as usize;
        let buf = crate::util::filled_vec(len, rect.bits);
        let _ = session.unmap_staging();
        proof {
            assert(session.log@ =~= lg0 + seq![
                CallEvent::CreateStaging,
                CallEvent::SetPriority,
                CallEvent::CopyResource,
                CallEvent::MapStaging,
                CallEvent::UnmapStaging,
            ]);
            assert(buf@ =~= readback_bytes(old(session).textures@[self.texture as int]));
        }
        Ok(buf)
    }
}

} // verus!
