//! Race freedom of the guarded accesses.
//!
//! The system has one main context and one preemptive interrupt context on
//! a single core.  Every main-context access to the shared button state
//! runs inside a critical section during which the button's interrupt
//! source is masked; the handler, for its part, can only run while the
//! source is unmasked, and it runs to completion before the main context
//! resumes.  This module records accesses as intervals of time and proves
//! that, under exactly that discipline, a main-context access and a
//! handler run can never overlap — so neither context ever observes a
//! partially-updated handle.

use vstd::prelude::*;

verus! {

/// A closed interval of ticks during which something holds or runs.
#[derive(PartialEq, Eq, Structural)]
pub struct Span {
    pub lo: int,
    pub hi: int,
}

/// Two intervals share at least one tick.
pub open spec fn span_overlaps(a: Span, b: Span) -> bool {
    a.lo <= b.hi && b.lo <= a.hi
}

/// `inner` lies entirely within `outer`.
pub open spec fn span_within(inner: Span, outer: Span) -> bool {
    outer.lo <= inner.lo && inner.hi <= outer.hi
}

/// The locking discipline, over a recorded execution: `mains` are the
/// main context's accesses to the shared cell, `isrs` the handler's runs,
/// `masked` the critical sections during which the interrupt source was
/// masked.  The main context touches the cell only from inside a critical
/// section, and the hardware never runs the handler while the source is
/// masked.
pub open spec fn access_discipline(mains: Seq<Span>, isrs: Seq<Span>, masked: Seq<Span>) -> bool {
    &&& forall|i: int|
        0 <= i < mains.len() ==> exists|k: int|
            0 <= k < masked.len() && span_within(#[trigger] mains[i], #[trigger] masked[k])
    &&& forall|j: int, k: int|
        0 <= j < isrs.len() && 0 <= k < masked.len() ==> !span_overlaps(
            #[trigger] isrs[j],
            #[trigger] masked[k],
        )
}

/// No access observes a partially-updated handle: in any execution that
/// keeps the locking discipline, every interrupt-context access either
/// fully precedes or fully follows every main-context access — the two
/// never overlap.
pub proof fn lemma_guarded_accesses_exclude(mains: Seq<Span>, isrs: Seq<Span>, masked: Seq<Span>)
    requires
        access_discipline(mains, isrs, masked),
    ensures
        forall|i: int, j: int|
            0 <= i < mains.len() && 0 <= j < isrs.len() ==> !span_overlaps(
                #[trigger] mains[i],
                #[trigger] isrs[j],
            ),
{
    assert forall|i: int, j: int|
        0 <= i < mains.len() && 0 <= j < isrs.len() implies !span_overlaps(
        mains[i],
        isrs[j],
    ) by {
        let k = choose|k: int|
            0 <= k < masked.len() && span_within(#[trigger] mains[i], #[trigger] masked[k]);
        assert(!span_overlaps(isrs[j], masked[k]));
    }
}

} // verus!
