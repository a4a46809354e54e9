//! The acknowledgement propagator: shared, counted completion records.
//!
//! Every component that takes ownership of a fanned-out copy of an event
//! holds one counted reference to the event's finalizer record and must,
//! before giving that reference up, report an outcome. Outcomes are combined
//! worst-outcome-wins; when the last reference is released the origin's
//! commit callback fires exactly once, with the final status and the opaque
//! sequence/offset token supplied at creation. One registry is explicitly
//! passed per pipeline instance, so instances do not interfere.

use vstd::prelude::*;

use crate::status::{spec_worst, EventStatus};

verus! {

/// One shared completion record.
#[derive(Debug)]
pub struct FinalizerRecord {
    /// Outstanding counted references.
    pub refs: usize,
    /// Worst outcome reported so far; `Delivered` while none has been.
    pub worst: EventStatus,
    /// Opaque token handed back to the origin on completion (e.g. a file
    /// offset to commit).
    pub token: u64,
    /// All references released and the callback fired.
    pub done: bool,
}

/// A fired commit callback: the origin learns the final status of the event
/// identified by its token.
#[derive(Debug)]
pub struct Notification {
    pub token: u64,
    pub status: EventStatus,
}

/// The per-pipeline registry of finalizer records. Fired callbacks are
/// recorded in `notifications`, in firing order; the process around the
/// pipeline drains them to the origin sources.
#[derive(Debug)]
pub struct AckRegistry {
    pub records: Vec<FinalizerRecord>,
    pub notifications: Vec<Notification>,
}

impl AckRegistry {
    /// A record may only be done once no reference to it is left.
    pub open spec fn wf(&self) -> bool {
        forall|i: int|
            0 <= i < self.records@.len() ==> (#[trigger] self.records@[i].done
                ==> self.records@[i].refs == 0)
    }

    pub fn new() -> (r: AckRegistry)
        ensures
            r.wf(),
            r.records@.len() == 0,
            r.notifications@.len() == 0,
    {
        AckRegistry { records: Vec::new(), notifications: Vec::new() }
    }

    /// Create the completion record for a newly ingested event, with one
    /// counted reference (the event itself) and status still pending.
    pub fn new_finalizer(&mut self, token: u64) -> (id: usize)
        requires
            old(self).wf(),
        ensures
            final(self).wf(),
            id == old(self).records@.len(),
            final(self).records@ == old(self).records@.push(
                FinalizerRecord { refs: 1, worst: EventStatus::Delivered, token, done: false },
            ),
            final(self).notifications@ == old(self).notifications@,
    {
        let id = self.records.len();
        self.records.push(
            FinalizerRecord { refs: 1, worst: EventStatus::Delivered, token, done: false },
        );
        id
    }

    /// Acquire one more counted reference, as a component does when it takes
    /// ownership of a fanned-out copy of the event.
    pub fn add_ref(&mut self, id: usize)
        requires
            old(self).wf(),
            id < old(self).records@.len(),
            old(self).records@[id as int].refs >= 1,
            old(self).records@[id as int].refs < usize::MAX,
        ensures
            final(self).wf(),
            final(self).records@ == old(self).records@.update(
                id as int,
                FinalizerRecord {
                    refs: (old(self).records@[id as int].refs + 1) as usize,
                    ..old(self).records@[id as int]
                },
            ),
            final(self).notifications@ == old(self).notifications@,
    {
        let refs = self.records[id].refs;
        let worst = self.records[id].worst;
        let token = self.records[id].token;
        let done = self.records[id].done;
        self.records.set(id, FinalizerRecord { refs: refs + 1, worst, token, done });
    }

    /// Report an outcome for one reference and release it. The record's
    /// status is combined worst-outcome-wins; when this was the last
    /// reference the record becomes done and the origin's callback fires —
    /// exactly once, since a done record has no references left to report
    /// through.
    pub fn report(&mut self, id: usize, status: EventStatus)
        requires
            old(self).wf(),
            id < old(self).records@.len(),
            old(self).records@[id as int].refs >= 1,
        ensures
            final(self).wf(),
            final(self).records@.len() == old(self).records@.len(),
            final(self).records@ == old(self).records@.update(
                id as int,
                FinalizerRecord {
                    refs: (old(self).records@[id as int].refs - 1) as usize,
                    worst: spec_worst(old(self).records@[id as int].worst, status),
                    token: old(self).records@[id as int].token,
                    done: old(self).records@[id as int].refs == 1,
                },
            ),
            final(self).notifications@ == if old(self).records@[id as int].refs == 1 {
                old(self).notifications@.push(
                    Notification {
                        token: old(self).records@[id as int].token,
                        status: spec_worst(old(self).records@[id as int].worst, status),
                    },
                )
            } else {
                old(self).notifications@
            },
    {
        let refs = self.records[id].refs;
        let worst = crate::status::combine_status(self.records[id].worst, status);
        let token = self.records[id].token;
        let last = refs == 1;
        self.records.set(id, FinalizerRecord { refs: refs - 1, worst, token, done: last });
        if last {
            self.notifications.push(Notification { token, status: worst });
        }
    }
}

} // verus!
