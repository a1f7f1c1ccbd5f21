//! The duplication-based display driver: output enumeration, the capture
//! state machine, and the frame representation.

pub mod capture;
pub mod display;
pub mod errors;
pub mod frame;

use crate::backend::NativeError;
use crate::driver::dxgi::display::{remaining, DxgiDisplay, DxgiDisplays};
use crate::driver::dxgi::errors::EnumerationError;
use crate::topology::{flatten, valid_geometry, MockFactory, OutputSlot};
use vstd::prelude::*;

verus! {

/// A slot the enumerator yields a display for: a scripted output whose
/// descriptor has valid geometry.
pub open spec fn slot_ok(s: OutputSlot) -> bool {
    s matches OutputSlot::Good(ds) && valid_geometry(ds.desc)
}

/// The error the enumerator yields for a bad slot.
pub open spec fn slot_error(s: OutputSlot) -> EnumerationError {
    match s {
        OutputSlot::Faulty(code) => EnumerationError::Backend(NativeError { code }),
        OutputSlot::Good(_) => EnumerationError::InvalidDescriptor,
    }
}

/// The position of the first slot the enumerator fails on, or the sequence's
/// length when it fails on none.
pub open spec fn first_bad(s: Seq<OutputSlot>) -> int
    decreases s.len(),
{
    if s.len() == 0 {
        0
    } else if !slot_ok(s[0]) {
        0
    } else {
        1 + first_bad(s.skip(1))
    }
}

/// The display the enumerator yields for slot `s`: the slot's descriptor, a
/// copy of the slot's session, and no capturer yet.
pub open spec fn display_matches(d: DxgiDisplay, s: OutputSlot) -> bool {
    &&& s matches OutputSlot::Good(ds)
    &&& (s matches OutputSlot::Good(ds) ==> {
        &&& d.desc == ds.desc
        &&& d.source matches Some(ses) && crate::backend::eq_session(ds.session, ses)
        &&& d.capturer is None
        &&& d.wf()
    })
}

/// `first_bad` names the first slot that is not ok.
proof fn lemma_first_bad_at(s: Seq<OutputSlot>, k: int)
    requires
        0 <= k <= s.len(),
        forall|i: int| 0 <= i < k ==> slot_ok(#[trigger] s[i]),
        k < s.len() ==> !slot_ok(s[k]),
    ensures
        first_bad(s) == k,
    decreases k,
{
    if k == 0 {
    } else {
        assert(slot_ok(s[0]));
        lemma_first_bad_at(s.skip(1), k - 1);
    }
}

/// Every slot of the flattening of a topology whose slots are all ok is ok.
proof fn lemma_flatten_from_all_ok(adapters: Seq<crate::topology::MockAdapter>, a: int)
    requires
        forall|i: int, o: int|
            0 <= i < adapters.len() && 0 <= o < adapters[i].outputs@.len() ==> slot_ok(
                #[trigger] adapters[i].outputs@[o],
            ),
    ensures
        forall|k: int|
            0 <= k < crate::topology::flatten_from(adapters, a).len() ==> slot_ok(
                #[trigger] crate::topology::flatten_from(adapters, a)[k],
            ),
    decreases adapters.len() - a,
{
    if a < 0 || a >= adapters.len() {
    } else {
        lemma_flatten_from_all_ok(adapters, a + 1);
        assert forall|k: int|
            0 <= k < crate::topology::flatten_from(adapters, a).len() implies slot_ok(
            #[trigger] crate::topology::flatten_from(adapters, a)[k],
        ) by {
            if k < adapters[a].outputs@.len() {
                assert(crate::topology::flatten_from(adapters, a)[k] == adapters[a].outputs@[k]);
            } else {
                assert(crate::topology::flatten_from(adapters, a)[k]
                    == crate::topology::flatten_from(adapters, a + 1)[k
                    - adapters[a].outputs@.len()]);
            }
        }
    }
}

/// Law: enumerating a topology of `n` adapters with `m` valid outputs each
/// yields exactly `n * m` displays — no slot fails, the flattening has
/// length `n * m`, and the display at position `a * m + o` comes from output
/// `o` of adapter `a`: adapter-major, output-minor order, then termination.
/// Combined with `Dxgi::get_all`'s contract this pins the whole enumeration.
pub proof fn lemma_uniform_enumeration(factory: MockFactory, m: int)
    requires
        m >= 0,
        forall|a: int|
            0 <= a < factory.adapters@.len() ==> (#[trigger] factory.adapters@[a]).outputs@.len()
                == m,
        forall|a: int, o: int|
            0 <= a < factory.adapters@.len() && 0 <= o < m ==> slot_ok(
                #[trigger] factory.adapters@[a].outputs@[o],
            ),
    ensures
        flatten(factory).len() == factory.adapters@.len() * m,
        first_bad(flatten(factory)) == flatten(factory).len(),
        forall|a: int, o: int|
            0 <= a < factory.adapters@.len() && 0 <= o < m ==> flatten(factory)[a * m + o]
                == factory.adapters@[a].outputs@[o],
{
    crate::topology::lemma_uniform_topology(factory.adapters@, m);
    lemma_flatten_from_all_ok(factory.adapters@, 0);
    lemma_first_bad_at(flatten(factory), flatten(factory).len() as int);
}

/// The duplication display driver.
#[derive(Debug, Clone, Copy)]
pub struct Dxgi;

impl Dxgi {
    /// The driver's name.
    pub fn name(&self) -> (r: &'static str)
        ensures
            r@ == "dxgi"@,
    {
        "dxgi"
    }

    /// All displays of the topology, in adapter-major, output-minor order.
    /// The first failing slot — a failed output walk call or an invalid
    /// descriptor — fails the whole enumeration with its error.
    pub fn get_all(&self, factory: MockFactory) -> (r: Result<Vec<DxgiDisplay>, EnumerationError>)
        requires
            factory.wf(),
        ensures
            ({
                let slots = flatten(factory);
                if first_bad(slots) == slots.len() {
                    &&& r matches Ok(v)
                    &&& v@.len() == slots.len()
                    &&& forall|i: int|
                        0 <= i < slots.len() ==> display_matches(#[trigger] v@[i], slots[i])
                } else {
                    r == Err::<Vec<DxgiDisplay>, EnumerationError>(
                        slot_error(slots[first_bad(slots)]),
                    )
                }
            }),
    {
        let ghost slots = flatten(factory);
        let mut displays = DxgiDisplays::new(factory);
        let mut out: Vec<DxgiDisplay> = Vec::new();
        loop
            invariant
                displays.wf(),
                slots == flatten(factory),
                slots == flatten(displays.factory),
                out@.len() <= slots.len(),
                remaining(displays) == slots.skip(out@.len() as int),
                forall|i: int| 0 <= i < out@.len() ==> slot_ok(#[trigger] slots[i]),
                forall|i: int| 0 <= i < out@.len() ==> display_matches(#[trigger] out@[i], slots[i]),
            decreases slots.len() - out@.len(),
        {
            let ghost k = out@.len() as int;
            proof {
                if remaining(displays).len() > 0 {
                    assert(remaining(displays)[0] == slots[k]);
                }
            }
            match displays.next() {
                None => {
                    proof {
                        lemma_first_bad_at(slots, k);
                    }
                    return Ok(out);
                },
                Some(Err(e)) => {
                    proof {
                        lemma_first_bad_at(slots, k);
                    }
                    return Err(e);
                },
                Some(Ok(d)) => {
                    out.push(d);
                    proof {
                        assert(slots.skip(k).skip(1) =~= slots.skip(k + 1));
                    }
                },
            }
        }
    }

    /// The primary display: the first display of the topology, or `None`
    /// when the topology has no outputs at all.
    pub fn get_primary(&self, factory: MockFactory) -> (r: Result<
        Option<DxgiDisplay>,
        EnumerationError,
    >)
        requires
            factory.wf(),
        ensures
            ({
                let slots = flatten(factory);
                if slots.len() == 0 {
                    r matches Ok(o) && o is None
                } else if !slot_ok(slots[0]) {
                    r == Err::<Option<DxgiDisplay>, EnumerationError>(slot_error(slots[0]))
                } else {
                    &&& r matches Ok(o)
                    &&& o matches Some(d)
                    &&& display_matches(d, slots[0])
                }
            }),
    {
        let mut displays = DxgiDisplays::new(factory);
        match displays.next() {
            None => Ok(None),
            Some(Err(e)) => Err(e),
            Some(Ok(d)) => Ok(Some(d)),
        }
    }
}

} // verus!
