//! Delivery outcomes and the worst-outcome-wins combination rule.

use vstd::prelude::*;

verus! {

/// Terminal delivery status of an event. When several owners of a fanned-out
/// event report outcomes, the statuses are combined worst-outcome-wins:
/// `Errored` dominates `Dropped`, which dominates `Delivered`.
#[derive(Clone, Copy, Debug, PartialEq, Eq, Structural)]
pub enum EventStatus {
    /// The event reached its destination.
    Delivered,
    /// The event was intentionally discarded (e.g. the destination rejected
    /// the payload permanently).
    Dropped,
    /// Delivery finally failed.
    Errored,
}

/// Severity rank of a status: a higher rank dominates when combined.
pub open spec fn rank(s: EventStatus) -> int {
    match s {
        EventStatus::Delivered => 0,
        EventStatus::Dropped => 1,
        EventStatus::Errored => 2,
    }
}

/// The worse of two outcomes.
pub open spec fn spec_worst(a: EventStatus, b: EventStatus) -> EventStatus {
    if rank(a) >= rank(b) {
        a
    } else {
        b
    }
}

/// The worst outcome of a whole sequence of reports; `Delivered` when none
/// has been reported yet.
pub open spec fn spec_worst_of(s: Seq<EventStatus>) -> EventStatus
    decreases s.len(),
{
    if s.len() == 0 {
        EventStatus::Delivered
    } else {
        spec_worst(spec_worst_of(s.drop_last()), s.last())
    }
}

/// Combine two delivery outcomes, worst-outcome-wins.
pub fn combine_status(a: EventStatus, b: EventStatus) -> (r: EventStatus)
    ensures
        r == spec_worst(a, b),
{
    match (a, b) {
        (EventStatus::Errored, _) => EventStatus::Errored,
        (_, EventStatus::Errored) => EventStatus::Errored,
        (EventStatus::Dropped, _) => EventStatus::Dropped,
        (_, EventStatus::Dropped) => EventStatus::Dropped,
        _ => EventStatus::Delivered,
    }
}

/// Combining outcomes is commutative: concurrent reporters may race, the
/// combined status does not depend on who reports first.
pub proof fn lemma_worst_comm(a: EventStatus, b: EventStatus)
    ensures
        spec_worst(a, b) == spec_worst(b, a),
{
}

/// Combining outcomes is associative: reports may be folded in any grouping.
pub proof fn lemma_worst_assoc(a: EventStatus, b: EventStatus, c: EventStatus)
    ensures
        spec_worst(spec_worst(a, b), c) == spec_worst(a, spec_worst(b, c)),
{
}

/// What the combined status of a set of reports is: `Errored` as soon as any
/// report errored, otherwise `Dropped` as soon as any report dropped,
/// otherwise `Delivered`. Together with commutativity this is the
/// worst-outcome-wins rule for any number of reporters in any order.
pub proof fn lemma_worst_of_characterisation(s: Seq<EventStatus>)
    ensures
        (spec_worst_of(s) == EventStatus::Errored) <==> (exists|i: int|
            0 <= i < s.len() && s[i] == EventStatus::Errored),
        (spec_worst_of(s) == EventStatus::Dropped) <==> ((exists|i: int|
            0 <= i < s.len() && s[i] == EventStatus::Dropped) && (forall|i: int|
            0 <= i < s.len() ==> s[i] != EventStatus::Errored)),
        (spec_worst_of(s) == EventStatus::Delivered) <==> (forall|i: int|
            0 <= i < s.len() ==> s[i] == EventStatus::Delivered),
    decreases s.len(),
{
    if s.len() > 0 {
        lemma_worst_of_characterisation(s.drop_last());
        assert(forall|i: int| 0 <= i < s.len() - 1 ==> s[i] == s.drop_last()[i]);
    }
}

} // verus!
