//! The backend call log and the acquire/release ordering discipline.
//!
//! Every protocol call the engine makes against the duplication session is
//! recorded as a [`CallEvent`]. The central ordering property of the capture
//! state machine — after a successful acquire, no further acquire is issued
//! until a release — is stated over this log.

use vstd::prelude::*;

verus! {

/// One call made against the duplication backend, in the order issued.
///
/// `Acquire(produced)` records an acquire-next-frame call; `produced` is true
/// exactly when the backend handed out a frame (as opposed to a timeout or a
/// failure status).
#[derive(Debug, Clone, Copy, PartialEq, Eq, Structural)]
pub enum CallEvent {
    Acquire(bool),
    Release,
    MapDesktop,
    UnmapDesktop,
    CreateStaging,
    SetPriority,
    CopyResource,
    MapStaging,
    UnmapStaging,
    QueryDirty,
    QueryMoved,
}

/// True when a successfully acquired frame is still held at the end of `log`:
/// some `Acquire(true)` event has no `Release` event after it.
pub open spec fn holds_after(log: Seq<CallEvent>) -> bool
    decreases log.len(),
{
    if log.len() == 0 {
        false
    } else {
        match log.last() {
            CallEvent::Acquire(produced) => produced || holds_after(log.drop_last()),
            CallEvent::Release => false,
            _ => holds_after(log.drop_last()),
        }
    }
}

/// The acquire/release discipline: no acquire call is ever issued while a
/// successfully acquired frame is still held.
pub open spec fn acquire_ordered(log: Seq<CallEvent>) -> bool
    decreases log.len(),
{
    if log.len() == 0 {
        true
    } else {
        &&& acquire_ordered(log.drop_last())
        &&& (log.last() matches CallEvent::Acquire(_) ==> !holds_after(log.drop_last()))
    }
}

/// How many times event `e` occurs in `log`.
pub open spec fn count_events(log: Seq<CallEvent>, e: CallEvent) -> int
    decreases log.len(),
{
    if log.len() == 0 {
        0
    } else {
        count_events(log.drop_last(), e) + if log.last() == e {
            1int
        } else {
            0int
        }
    }
}

/// How appending one event changes its count.
pub proof fn lemma_count_push(log: Seq<CallEvent>, x: CallEvent, e: CallEvent)
    ensures
        count_events(log.push(x), e) == count_events(log, e) + if x == e {
            1int
        } else {
            0int
        },
{
    assert(log.push(x).drop_last() =~= log);
    assert(log.push(x).last() == x);
}

/// Event counts add up over concatenation.
pub proof fn lemma_count_concat(a: Seq<CallEvent>, b: Seq<CallEvent>, e: CallEvent)
    ensures
        count_events(a + b, e) == count_events(a, e) + count_events(b, e),
    decreases b.len(),
{
    if b.len() == 0 {
        assert(a + b =~= a);
    } else {
        lemma_count_concat(a, b.drop_last(), e);
        assert((a + b).drop_last() =~= a + b.drop_last());
        assert((a + b).last() == b.last());
    }
}

/// The count of `e` in a one-event log.
pub proof fn lemma_count_one(x: CallEvent, e: CallEvent)
    ensures
        count_events(seq![x], e) == if x == e {
            1int
        } else {
            0int
        },
{
    assert(seq![x] =~= Seq::<CallEvent>::empty().push(x));
    lemma_count_push(Seq::empty(), x, e);
}

/// The count of `e` in a two-event log.
pub proof fn lemma_count_two(x: CallEvent, y: CallEvent, e: CallEvent)
    ensures
        count_events(seq![x, y], e) == (if x == e {
            1int
        } else {
            0int
        }) + (if y == e {
            1int
        } else {
            0int
        }),
{
    assert(seq![x, y] =~= Seq::<CallEvent>::empty().push(x).push(y));
    lemma_count_push(Seq::empty(), x, e);
    lemma_count_push(Seq::<CallEvent>::empty().push(x), y, e);
}

/// How appending one event changes whether a frame is held.
pub proof fn lemma_holds_after_push(log: Seq<CallEvent>, e: CallEvent)
    ensures
        holds_after(log.push(e)) == match e {
            CallEvent::Acquire(produced) => produced || holds_after(log),
            CallEvent::Release => false,
            _ => holds_after(log),
        },
{
    assert(log.push(e).drop_last() =~= log);
    assert(log.push(e).last() == e);
}

/// How appending one event changes the acquire/release discipline.
pub proof fn lemma_acquire_ordered_push(log: Seq<CallEvent>, e: CallEvent)
    ensures
        acquire_ordered(log.push(e)) == (acquire_ordered(log) && (e matches CallEvent::Acquire(
            _,
        ) ==> !holds_after(log))),
{
    assert(log.push(e).drop_last() =~= log);
    assert(log.push(e).last() == e);
}

/// A frame acquired at position `i` and never released afterwards is still
/// held at the end of the log.
proof fn lemma_unreleased_still_held(log: Seq<CallEvent>, i: int)
    requires
        0 <= i < log.len(),
        log[i] == CallEvent::Acquire(true),
        forall|k: int| i < k < log.len() ==> log[k] != CallEvent::Release,
    ensures
        holds_after(log),
    decreases log.len(),
{
    if i == log.len() - 1 {
    } else {
        let prefix = log.drop_last();
        assert(prefix[i] == log[i]);
        lemma_unreleased_still_held(prefix, i);
        assert(log.last() != CallEvent::Release);
    }
}

/// Law: under the acquire/release discipline, between any successful acquire
/// and any later acquire there is an intervening release. This is the
/// call-order guarantee of the frame state machine: it never issues two
/// acquire calls without releasing the successfully acquired frame in
/// between.
pub proof fn lemma_no_double_acquire(log: Seq<CallEvent>, i: int, j: int)
    requires
        acquire_ordered(log),
        0 <= i < j < log.len(),
        log[i] == CallEvent::Acquire(true),
        log[j] matches CallEvent::Acquire(_),
    ensures
        exists|k: int| i < k < j && log[k] == CallEvent::Release,
    decreases log.len(),
{
    if j == log.len() - 1 {
        let prefix = log.drop_last();
        assert(!holds_after(prefix));
        assert(prefix[i] == log[i]);
        if forall|k: int| i < k < j ==> #[trigger] prefix[k] != CallEvent::Release {
            lemma_unreleased_still_held(prefix, i);
            assert(false);
        }
        let k = choose|k: int| i < k < j && prefix[k] == CallEvent::Release;
        assert(log[k] == CallEvent::Release);
    } else {
        let prefix = log.drop_last();
        assert(prefix[i] == log[i]);
        assert(prefix[j] == log[j]);
        lemma_no_double_acquire(prefix, i, j);
        let k = choose|k: int| i < k < j && prefix[k] == CallEvent::Release;
        assert(log[k] == CallEvent::Release);
    }
}

} // verus!
