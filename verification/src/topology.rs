//! The adapter/output topology the output enumerator walks.
//!
//! A [`MockFactory`] holds adapters in ordinal order; each adapter holds
//! output slots in ordinal order. Enumeration visits the flattening of this
//! topology in adapter-major, output-minor order; [`flatten`] is that order's
//! specification.

use crate::backend::MockDuplication;
use crate::log::acquire_ordered;
use vstd::prelude::*;

verus! {

/// Geometry and identity of one output, as the backend's descriptor reports
/// it. The bounding rectangle is in device coordinates.
#[derive(Debug)]
pub struct OutputDesc {
    pub name: String,
    pub left: i32,
    pub top: i32,
    pub right: i32,
    pub bottom: i32,
}

/// A descriptor is valid when its width and height are non-negative.
pub open spec fn valid_geometry(d: OutputDesc) -> bool {
    &&& d.left <= d.right
    &&& d.top <= d.bottom
}

/// An exact copy of an output descriptor.
pub fn clone_output_desc(d: &OutputDesc) -> (r: OutputDesc)
    ensures
        r == *d,
{
    OutputDesc { name: d.name.clone(), left: d.left, top: d.top, right: d.right, bottom: d.bottom }
}

/// What one output of the topology scripts: its descriptor and the
/// duplication session that duplicating the output yields.
#[derive(Debug)]
pub struct DisplayScript {
    pub desc: OutputDesc,
    pub session: MockDuplication,
}

/// One output slot of an adapter: a scripted output, or a scripted failure
/// status of the output-enumeration call for this ordinal.
#[derive(Debug)]
pub enum OutputSlot {
    Good(DisplayScript),
    Faulty(u32),
}

/// A slot's session must be a fresh well-formed session: idle, with a log
/// that obeys the acquire/release discipline.
pub open spec fn slot_wf(s: OutputSlot) -> bool {
    s matches OutputSlot::Good(ds) ==> {
        &&& ds.session.wf()
        &&& !ds.session.held
        &&& acquire_ordered(ds.session.log@)
    }
}

/// One adapter: its outputs in ordinal order.
#[derive(Debug)]
pub struct MockAdapter {
    pub outputs: Vec<OutputSlot>,
}

pub open spec fn adapter_wf(a: MockAdapter) -> bool {
    &&& a.outputs@.len() < u32::MAX
    &&& (forall|i: int| 0 <= i < a.outputs@.len() ==> slot_wf(#[trigger] a.outputs@[i]))
}

/// The adapter/output topology: adapters in ordinal order.
#[derive(Debug)]
pub struct MockFactory {
    pub adapters: Vec<MockAdapter>,
}

impl MockFactory {
    pub open spec fn wf(&self) -> bool {
        &&& self.adapters@.len() < u32::MAX
        &&& (forall|a: int|
            0 <= a < self.adapters@.len() ==> adapter_wf(#[trigger] self.adapters@[a]))
    }

    /// An empty topology: no adapters.
    pub fn new() -> (r: MockFactory)
        ensures
            r.wf(),
            r.adapters@ == Seq::<MockAdapter>::empty(),
    {
        MockFactory { adapters: Vec::new() }
    }
}

/// The output slots of adapters `a..`, flattened in adapter-major,
/// output-minor order.
pub open spec fn flatten_from(adapters: Seq<MockAdapter>, a: int) -> Seq<OutputSlot>
    decreases adapters.len() - a,
{
    if a < 0 || a >= adapters.len() {
        Seq::empty()
    } else {
        adapters[a].outputs@ + flatten_from(adapters, a + 1)
    }
}

/// The whole topology, flattened in enumeration order.
pub open spec fn flatten(f: MockFactory) -> Seq<OutputSlot> {
    flatten_from(f.adapters@, 0)
}

/// Law: a topology with no adapters flattens to the empty sequence, so
/// enumerating it yields nothing and no error.
pub proof fn lemma_empty_topology(f: MockFactory)
    requires
        f.adapters@.len() == 0,
    ensures
        flatten(f).len() == 0,
{
}

/// Law: flattening a uniform topology of `n` adapters with `m` outputs each
/// yields exactly `n * m` slots, in adapter-major, output-minor order: the
/// slot at position `a * m + o` is output `o` of adapter `a`.
pub proof fn lemma_uniform_topology(adapters: Seq<MockAdapter>, m: int)
    requires
        m >= 0,
        forall|i: int| 0 <= i < adapters.len() ==> (#[trigger] adapters[i]).outputs@.len() == m,
    ensures
        flatten_from(adapters, 0).len() == adapters.len() * m,
        forall|a: int, o: int|
            0 <= a < adapters.len() && 0 <= o < m ==> flatten_from(adapters, 0)[a * m + o]
                == adapters[a].outputs@[o],
{
    lemma_uniform_topology_from(adapters, m, 0);
    assert(adapters.len() * m == (adapters.len() - 0) * m);
    assert forall|a: int, o: int|
        0 <= a < adapters.len() && 0 <= o < m implies flatten_from(adapters, 0)[a * m + o]
        == adapters[a].outputs@[o] by {
        assert((a - 0) * m + o == a * m + o);
    }
}

proof fn lemma_uniform_topology_from(adapters: Seq<MockAdapter>, m: int, from: int)
    requires
        0 <= from <= adapters.len(),
        m >= 0,
        forall|i: int| 0 <= i < adapters.len() ==> (#[trigger] adapters[i]).outputs@.len() == m,
    ensures
        flatten_from(adapters, from).len() == (adapters.len() - from) * m,
        forall|a: int, o: int|
            from <= a < adapters.len() && 0 <= o < m ==> flatten_from(adapters, from)[(a - from) * m
                + o] == adapters[a].outputs@[o],
    decreases adapters.len() - from,
{
    let n = adapters.len() as int;
    if from == n {
        assert((n - from) * m == 0) by (nonlinear_arith)
            requires
                n == from,
        ;
    } else {
        lemma_uniform_topology_from(adapters, m, from + 1);
        assert(m + (n - from - 1) * m == (n - from) * m) by (nonlinear_arith);
        assert forall|a: int, o: int|
            from <= a < n && 0 <= o < m implies flatten_from(adapters, from)[(a - from) * m + o]
            == adapters[a].outputs@[o] by {
            if a == from {
                assert((a - from) * m + o == o) by (nonlinear_arith)
                    requires
                        a == from,
                ;
                assert(flatten_from(adapters, from)[o] == adapters[from].outputs@[o]);
            } else {
                assert((a - from) * m + o - m == (a - from - 1) * m + o) by (nonlinear_arith);
                assert((a - from) * m + o >= m) by (nonlinear_arith)
                    requires
                        a - from >= 1,
                        m >= 1,
                        o >= 0,
                ;
                assert((a - from - 1) * m + o >= 0 && (a - from - 1) * m + o < (n - from - 1) * m)
                    by (nonlinear_arith)
                    requires
                        from < a < n,
                        0 <= o < m,
                ;
                assert(flatten_from(adapters, from + 1)[(a - (from + 1)) * m + o]
                    == adapters[a].outputs@[o]);
                assert(flatten_from(adapters, from)[(a - from) * m + o] == flatten_from(
                    adapters,
                    from + 1,
                )[(a - from) * m + o - m]);
            }
        }
    }
}

} // verus!
