//! The batcher: accumulates events popped from one buffer into
//! delivery-sized batches.
//!
//! A batch closes and is emitted when the first of three triggers fires:
//! accumulated event count reaches the configured maximum, accumulated byte
//! size reaches the configured maximum, or the time elapsed since the
//! batch's first event reaches the configured maximum latency (the timer is
//! driven by `tick`, not busy-polled). On upstream closure `flush` emits any
//! partially filled batch at once, so no event is held past shutdown.
//! Batches are never reordered relative to pop order: everything pushed is
//! either already emitted or still pending, in order.

use vstd::prelude::*;

use crate::buffer::{lemma_total_size_push, spec_total_size};
use crate::event::{events_view, Event, EventV};

verus! {

/// Batch-closing thresholds; `None` disables that trigger.
#[derive(Clone, Copy, Debug)]
pub struct BatcherConfig {
    pub max_events: Option<usize>,
    pub max_bytes: Option<usize>,
    pub max_latency_ms: Option<u64>,
}

/// An ordered group of events delivered together, with their accumulated
/// nominal byte size.
#[derive(Debug)]
pub struct Batch {
    pub events: Vec<Event>,
    pub bytes: usize,
}

impl View for Batch {
    type V = Seq<EventV>;

    open spec fn view(&self) -> Seq<EventV> {
        events_view(self.events@)
    }
}

/// Capped at `usize::MAX`, as the machine accounts for sizes.
pub open spec fn sat_usize(n: nat) -> nat {
    if n <= usize::MAX {
        n
    } else {
        usize::MAX as nat
    }
}

/// Did a count trigger fire for a batch of `n` events?
pub open spec fn count_trigger(cfg: BatcherConfig, n: nat) -> bool {
    match cfg.max_events {
        Some(m) => n >= m,
        None => false,
    }
}

/// Did a size trigger fire for a batch of `b` accumulated bytes?
pub open spec fn bytes_trigger(cfg: BatcherConfig, b: nat) -> bool {
    match cfg.max_bytes {
        Some(m) => b >= m,
        None => false,
    }
}

/// Did the latency trigger fire at time `now` for a batch whose first event
/// arrived at `first`?
pub open spec fn latency_trigger(cfg: BatcherConfig, first: Option<u64>, now: u64) -> bool {
    match (cfg.max_latency_ms, first) {
        (Some(l), Some(t)) => now - t >= l,
        _ => false,
    }
}

/// The accumulator. `pushed` and `emitted` are the ghost history of
/// everything accepted and everything already emitted in batches; the
/// well-formedness invariant ties them to the pending events, which is the
/// no-reordering guarantee.
pub struct Batcher {
    cfg: BatcherConfig,
    current: Vec<Event>,
    bytes: usize,
    first_at: Option<u64>,
    pushed: Ghost<Seq<EventV>>,
    emitted: Ghost<Seq<EventV>>,
}

impl Batcher {
    /// The events of the batch being accumulated, in arrival order.
    pub closed spec fn spec_current(&self) -> Seq<EventV> {
        events_view(self.current@)
    }

    /// Every event ever accepted, in arrival order.
    pub closed spec fn spec_pushed(&self) -> Seq<EventV> {
        self.pushed@
    }

    /// The concatenation of every batch emitted so far, in emission order.
    pub closed spec fn spec_emitted(&self) -> Seq<EventV> {
        self.emitted@
    }

    pub closed spec fn spec_config(&self) -> BatcherConfig {
        self.cfg
    }

    /// Arrival time of the current batch's first event.
    pub closed spec fn spec_first_at(&self) -> Option<u64> {
        self.first_at
    }

    /// No event is lost or reordered: what was pushed is what was emitted
    /// followed by what is pending; the byte accounting matches the pending
    /// events; the first-arrival timestamp is present iff a batch is open.
    pub closed spec fn wf(&self) -> bool {
        &&& self.pushed@ == self.emitted@ + self.spec_current()
        &&& self.bytes == sat_usize(spec_total_size(self.spec_current()))
        &&& (self.first_at is Some <==> self.spec_current().len() > 0)
    }

    pub fn new(cfg: BatcherConfig) -> (r: Batcher)
        ensures
            r.wf(),
            r.spec_config() == cfg,
            r.spec_pushed() == Seq::<EventV>::empty(),
            r.spec_emitted() == Seq::<EventV>::empty(),
            r.spec_current() == Seq::<EventV>::empty(),
    {
        let r = Batcher {
            cfg,
            current: Vec::new(),
            bytes: 0,
            first_at: None,
            pushed: Ghost(Seq::empty()),
            emitted: Ghost(Seq::empty()),
        };
        assert(r.spec_current() =~= Seq::<EventV>::empty());
        assert(r.pushed@ =~= r.emitted@ + r.spec_current());
        r
    }

    /// Accept one popped event at time `now`. The event joins the open
    /// batch (opening one if none is); if that makes the first trigger
    /// fire — count, size, or latency — the whole batch is emitted at once,
    /// in arrival order. The clock may not run backwards across one batch.
    pub fn push(&mut self, e: Event, now: u64) -> (r: Option<Batch>)
        requires
            old(self).wf(),
            old(self).spec_first_at() matches Some(t) ==> t <= now,
        ensures
            final(self).wf(),
            final(self).spec_config() == old(self).spec_config(),
            final(self).spec_pushed() == old(self).spec_pushed().push(e@),
            ({
                let grown = old(self).spec_current().push(e@);
                let fires = count_trigger(old(self).spec_config(), grown.len()) || bytes_trigger(
                    old(self).spec_config(),
                    sat_usize(spec_total_size(grown)),
                ) || latency_trigger(
                    old(self).spec_config(),
                    if old(self).spec_first_at() is Some {
                        old(self).spec_first_at()
                    } else {
                        Some(now)
                    },
                    now,
                );
                if fires {
                    &&& r matches Some(b) && b@ == grown
                    &&& final(self).spec_emitted() == old(self).spec_emitted() + grown
                    &&& final(self).spec_current() == Seq::<EventV>::empty()
                    &&& final(self).spec_first_at() is None
                } else {
                    &&& r is None
                    &&& final(self).spec_emitted() == old(self).spec_emitted()
                    &&& final(self).spec_current() == grown
                    &&& final(self).spec_first_at() == (if old(self).spec_first_at() is Some {
                        old(self).spec_first_at()
                    } else {
                        Some(now)
                    })
                }
            }),
    {
        let ghost cur0 = self.spec_current();
        if self.first_at.is_none() {
            self.first_at = Some(now);
        }
        let size = e.byte_size();
        proof {
            lemma_total_size_push(cur0, e@);
        }
        self.bytes = crate::event::sat_add(self.bytes, size);
        self.current.push(e);
        assert(self.spec_current() =~= cur0.push(e@));
        proof {
            self.pushed@ = self.pushed@.push(e@);
            assert(self.pushed@ =~= self.emitted@ + self.spec_current());
        }
        let fires = self.trigger_fired(now);
        if fires {
            let mut taken: Vec<Event> = Vec::new();
            core::mem::swap(&mut taken, &mut self.current);
            let out = Batch { events: taken, bytes: self.bytes };
            self.bytes = 0;
            self.first_at = None;
            proof {
                self.emitted@ = self.emitted@ + out@;
                assert(self.spec_current() =~= Seq::<EventV>::empty());
                assert(self.pushed@ =~= self.emitted@ + self.spec_current());
            }
            Some(out)
        } else {
            None
        }
    }

    /// Whether the open batch must close now.
    fn trigger_fired(&self, now: u64) -> (r: bool)
        requires
            self.bytes == sat_usize(spec_total_size(self.spec_current())),
            self.spec_first_at() matches Some(t) ==> t <= now,
        ensures
            r == (count_trigger(self.spec_config(), self.spec_current().len()) || bytes_trigger(
                self.spec_config(),
                sat_usize(spec_total_size(self.spec_current())),
            ) || latency_trigger(self.spec_config(), self.spec_first_at(), now)),
    {
        let count_hit = match self.cfg.max_events {
            Some(m) => self.current.len() >= m,
            None => false,
        };
        let bytes_hit = match self.cfg.max_bytes {
            Some(m) => self.bytes >= m,
            None => false,
        };
        let latency_hit = match (self.cfg.max_latency_ms, self.first_at) {
            (Some(l), Some(t)) => now - t >= l,
            _ => false,
        };
        count_hit || bytes_hit || latency_hit
    }

    /// Drive the latency timer: at time `now`, emit the open batch if its
    /// first event has waited for the configured maximum latency.
    pub fn tick(&mut self, now: u64) -> (r: Option<Batch>)
        requires
            old(self).wf(),
            old(self).spec_first_at() matches Some(t) ==> t <= now,
        ensures
            final(self).wf(),
            final(self).spec_config() == old(self).spec_config(),
            final(self).spec_pushed() == old(self).spec_pushed(),
            if latency_trigger(old(self).spec_config(), old(self).spec_first_at(), now) && old(self).spec_current().len() > 0 {
                r matches Some(b) && b@ == old(self).spec_current() && final(self).spec_emitted()
                    == old(self).spec_emitted() + old(self).spec_current() && final(self).spec_current() == Seq::<EventV>::empty()
            } else {
                r is None && final(self).spec_emitted() == old(self).spec_emitted() && final(self).spec_current() == old(self).spec_current() && final(self).spec_first_at() == old(self).spec_first_at()
            },
    {
        let fire = match (self.cfg.max_latency_ms, self.first_at) {
            (Some(l), Some(t)) => now - t >= l,
            _ => false,
        };
        if fire && self.current.len() > 0 {
            let mut taken: Vec<Event> = Vec::new();
            core::mem::swap(&mut taken, &mut self.current);
            let out = Batch { events: taken, bytes: self.bytes };
            self.bytes = 0;
            self.first_at = None;
            proof {
                self.emitted@ = self.emitted@ + out@;
                assert(self.spec_current() =~= Seq::<EventV>::empty());
                assert(self.pushed@ =~= self.emitted@ + self.spec_current());
            }
            Some(out)
        } else {
            None
        }
    }

    /// The upstream buffer closed: emit whatever is pending immediately.
    pub fn flush(&mut self) -> (r: Option<Batch>)
        requires
            old(self).wf(),
        ensures
            final(self).wf(),
            final(self).spec_config() == old(self).spec_config(),
            final(self).spec_pushed() == old(self).spec_pushed(),
            final(self).spec_current() == Seq::<EventV>::empty(),
            if old(self).spec_current().len() > 0 {
                r matches Some(b) && b@ == old(self).spec_current() && final(self).spec_emitted()
                    == old(self).spec_emitted() + old(self).spec_current()
            } else {
                r is None && final(self).spec_emitted() == old(self).spec_emitted()
            },
    {
        if self.current.len() > 0 {
            let mut taken: Vec<Event> = Vec::new();
            core::mem::swap(&mut taken, &mut self.current);
            let out = Batch { events: taken, bytes: self.bytes };
            self.bytes = 0;
            self.first_at = None;
            proof {
                self.emitted@ = self.emitted@ + out@;
                assert(self.spec_current() =~= Seq::<EventV>::empty());
                assert(self.pushed@ =~= self.emitted@ + self.spec_current());
            }
            Some(out)
        } else {
            assert(self.spec_current() =~= Seq::<EventV>::empty());
            assert(self.emitted@ + self.spec_current() =~= self.emitted@);
            None
        }
    }
}

} // verus!
