//! The in-memory bounded buffer: an ordered FIFO queue of events between two
//! pipeline stages, bounded by event count and/or byte size.
//!
//! The queue itself never blocks: `try_push` and `try_pop` say exactly when a
//! caller would have to suspend (`Full`, `Pending`), and the task scheduler
//! around the pipeline retries when capacity is freed or an item arrives.
//! Nothing is ever dropped silently: a refused push leaves the buffer
//! unchanged.

use vstd::prelude::*;

use crate::event::{events_view, spec_event_size_sat, Event, EventV};

verus! {

/// Why a push was refused.
#[derive(Clone, Copy, Debug, PartialEq, Eq, Structural)]
pub enum PushError {
    /// The buffer is at capacity; the caller must wait for a pop.
    Full,
    /// The buffer was closed; the producer must stop.
    Closed,
}

/// What a pop attempt found.
#[derive(Debug)]
pub enum PopOutcome {
    /// The oldest queued event.
    Item(Event),
    /// Nothing queued yet, but the buffer is still open: the caller must
    /// wait for a push.
    Pending,
    /// The buffer is closed and drained: no event will ever arrive.
    Done,
}

/// Capacity bounds of one buffer; `None` leaves that dimension unbounded.
#[derive(Clone, Copy, Debug)]
pub struct BufferConfig {
    pub max_events: Option<usize>,
    pub max_bytes: Option<usize>,
}

/// Total nominal size of a queue of events.
pub open spec fn spec_total_size(q: Seq<EventV>) -> nat
    decreases q.len(),
{
    if q.len() == 0 {
        0
    } else {
        spec_event_size_sat(q[0]) + spec_total_size(q.drop_first())
    }
}

pub proof fn lemma_total_size_push(q: Seq<EventV>, e: EventV)
    ensures
        spec_total_size(q.push(e)) == spec_total_size(q) + spec_event_size_sat(e),
    decreases q.len(),
{
    if q.len() == 0 {
        assert(q.push(e)[0] == e);
        assert(q.push(e).drop_first() =~= Seq::<EventV>::empty());
    } else {
        assert(q.push(e)[0] == q[0]);
        assert(q.push(e).drop_first() =~= q.drop_first().push(e));
        lemma_total_size_push(q.drop_first(), e);
    }
}

/// Whether a buffer with bounds `cfg` and contents `q` can accept `e`
/// without exceeding capacity.
pub open spec fn spec_has_room(cfg: BufferConfig, q: Seq<EventV>, e: EventV) -> bool {
    &&& (match cfg.max_events {
        Some(n) => q.len() < n,
        None => true,
    })
    &&& (match cfg.max_bytes {
        Some(m) => spec_total_size(q) + spec_event_size_sat(e) <= m,
        None => true,
    })
}

/// An ordered queue of events with a configured capacity and a closed flag.
#[derive(Debug)]
pub struct Buffer {
    cfg: BufferConfig,
    items: Vec<Event>,
    total_bytes: usize,
    closed: bool,
}

impl View for Buffer {
    type V = Seq<EventV>;

    /// The queued events, oldest first.
    closed spec fn view(&self) -> Seq<EventV> {
        events_view(self.items@)
    }
}

impl Buffer {
    pub closed spec fn spec_config(&self) -> BufferConfig {
        self.cfg
    }

    pub closed spec fn spec_closed(&self) -> bool {
        self.closed
    }

    /// The byte accounting matches the queue whenever a byte bound is
    /// configured, and the configured bounds are respected.
    pub closed spec fn wf(&self) -> bool {
        &&& (match self.cfg.max_bytes {
            Some(m) => self.total_bytes == spec_total_size(self@) && spec_total_size(self@) <= m,
            None => true,
        })
        &&& (match self.cfg.max_events {
            Some(n) => self@.len() <= n,
            None => true,
        })
    }

    pub fn new(cfg: BufferConfig) -> (r: Buffer)
        ensures
            r.wf(),
            r@.len() == 0,
            r.spec_config() == cfg,
            !r.spec_closed(),
    {
        let r = Buffer { cfg, items: Vec::new(), total_bytes: 0, closed: false };
        assert(r@ =~= Seq::<EventV>::empty());
        r
    }

    pub fn len(&self) -> (r: usize)
        ensures
            r == self@.len(),
    {
        self.items.len()
    }

    pub fn is_closed(&self) -> (r: bool)
        ensures
            r == self.spec_closed(),
    {
        self.closed
    }

    /// Read the queued event at position `i` (oldest first) without
    /// removing it.
    pub fn get(&self, i: usize) -> (r: &Event)
        requires
            i < self@.len(),
        ensures
            r@ == self@[i as int],
    {
        &self.items[i]
    }

    /// Offer one event. Exactly one of three things happens: the buffer is
    /// closed and the push is refused; the buffer is at capacity and the
    /// push is refused (the caller suspends until a pop frees capacity);
    /// or the event is appended at the back of the queue. A refused push
    /// changes nothing: bounded non-durable buffers never drop silently.
    pub fn try_push(&mut self, e: Event) -> (r: Result<(), PushError>)
        requires
            old(self).wf(),
        ensures
            final(self).wf(),
            final(self).spec_config() == old(self).spec_config(),
            final(self).spec_closed() == old(self).spec_closed(),
            r == Err::<(), PushError>(PushError::Closed) <==> old(self).spec_closed(),
            r == Err::<(), PushError>(PushError::Full) <==> (!old(self).spec_closed()
                && !spec_has_room(old(self).spec_config(), old(self)@, e@)),
            r == Ok::<(), PushError>(()) <==> (!old(self).spec_closed() && spec_has_room(
                old(self).spec_config(),
                old(self)@,
                e@,
            )),
            r is Ok ==> final(self)@ == old(self)@.push(e@),
            r is Err ==> final(self)@ == old(self)@,
    {
        if self.closed {
            return Err(PushError::Closed);
        }
        if let Some(n) = self.cfg.max_events {
            if self.items.len() >= n {
                return Err(PushError::Full);
            }
        }
        let size = e.byte_size();
        if let Some(m) = self.cfg.max_bytes {
            proof {
                lemma_total_size_push(self@, e@);
            }
            if size > m || self.total_bytes > m - size {
                return Err(PushError::Full);
            }
            self.total_bytes = self.total_bytes + size;
        } else {
            self.total_bytes = crate::event::sat_add(self.total_bytes, size);
        }
        proof {
            lemma_total_size_push(self@, e@);
        }
        let ghost before = self@;
        self.items.push(e);
        assert(self@ =~= before.push(e@));
        Ok(())
    }

    /// Take the oldest event. `Pending` means the caller must suspend until
    /// a push arrives or the buffer closes; `Done` means closed and drained.
    pub fn try_pop(&mut self) -> (r: PopOutcome)
        requires
            old(self).wf(),
        ensures
            final(self).wf(),
            final(self).spec_config() == old(self).spec_config(),
            final(self).spec_closed() == old(self).spec_closed(),
            old(self)@.len() > 0 ==> (r matches PopOutcome::Item(e) && e@ == old(self)@[0]
                && final(self)@ == old(self)@.drop_first()),
            old(self)@.len() == 0 && !old(self).spec_closed() ==> (r is Pending && final(self)@
                == old(self)@),
            old(self)@.len() == 0 && old(self).spec_closed() ==> (r is Done && final(self)@ == old(
                self,
            )@),
    {
        if self.items.len() == 0 {
            if self.closed {
                return PopOutcome::Done;
            }
            return PopOutcome::Pending;
        }
        let ghost before = self@;
        let e = self.items.remove(0);
        assert(self@ =~= before.drop_first());
        let size = e.byte_size();
        proof {
            assert(spec_total_size(before) == spec_event_size_sat(before[0]) + spec_total_size(
                before.drop_first(),
            ));
        }
        if self.total_bytes >= size {
            self.total_bytes = self.total_bytes - size;
        } else {
            self.total_bytes = 0;
        }
        PopOutcome::Item(e)
    }

    /// Signal that no more pushes will arrive. Pending pops observe `Done`
    /// once the queue is drained.
    pub fn close(&mut self)
        requires
            old(self).wf(),
        ensures
            final(self).wf(),
            final(self)@ == old(self)@,
            final(self).spec_config() == old(self).spec_config(),
            final(self).spec_closed(),
    {
        self.closed = true;
    }
}

/// The queue contents after a sequence of accepted pushes, one at a time at
/// the back — the transition `try_push` ensures.
pub open spec fn after_pushes(q: Seq<EventV>, s: Seq<EventV>) -> Seq<EventV>
    decreases s.len(),
{
    if s.len() == 0 {
        q
    } else {
        after_pushes(q.push(s[0]), s.drop_first())
    }
}

/// The events yielded by popping one at a time from the front until empty —
/// the transition `try_pop` ensures.
pub open spec fn drain(q: Seq<EventV>) -> Seq<EventV>
    decreases q.len(),
{
    if q.len() == 0 {
        Seq::<EventV>::empty()
    } else {
        seq![q[0]] + drain(q.drop_first())
    }
}

pub proof fn lemma_after_pushes(q: Seq<EventV>, s: Seq<EventV>)
    ensures
        after_pushes(q, s) == q + s,
    decreases s.len(),
{
    if s.len() == 0 {
        assert(q + s =~= q);
    } else {
        lemma_after_pushes(q.push(s[0]), s.drop_first());
        assert(q.push(s[0]) + s.drop_first() =~= q + s);
    }
}

pub proof fn lemma_drain(q: Seq<EventV>)
    ensures
        drain(q) == q,
    decreases q.len(),
{
    if q.len() > 0 {
        lemma_drain(q.drop_first());
        assert(seq![q[0]] + q.drop_first() =~= q);
    }
}

/// Order preservation: for any sequence of events pushed into an empty
/// buffer without concurrent pops, popping until empty yields exactly that
/// sequence, in order.
pub proof fn lemma_order_preservation(pushed: Seq<EventV>)
    ensures
        drain(after_pushes(Seq::<EventV>::empty(), pushed)) == pushed,
{
    lemma_after_pushes(Seq::<EventV>::empty(), pushed);
    assert(Seq::<EventV>::empty() + pushed =~= pushed);
    lemma_drain(pushed);
}

/// Backpressure: a buffer at its configured event capacity refuses any
/// push (the producer suspends; nothing is dropped), and one pop frees
/// exactly the capacity the refused push needs.
pub proof fn lemma_backpressure(cfg: BufferConfig, q: Seq<EventV>, e: EventV)
    requires
        cfg.max_events matches Some(n) && q.len() == n && n > 0,
        cfg.max_bytes is None,
    ensures
        !spec_has_room(cfg, q, e),
        spec_has_room(cfg, q.drop_first(), e),
{
}

} // verus!
