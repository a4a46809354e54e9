//! Fanout: broadcast of one inbound event stream to N named output buffers.
//!
//! Each registered output receives its own content-equal copy of every sent
//! event, each copy holding its own counted finalizer reference. A send
//! completes only once every open output has accepted its copy; an output
//! whose buffer was closed is permanently dead and the rest keep receiving
//! (one dead destination neither stalls nor loses delivery to healthy ones).

use vstd::prelude::*;

use crate::buffer::{spec_has_room, Buffer, BufferConfig, PopOutcome};
use crate::event::{Event, EventV};
use crate::finalizer::{AckRegistry, FinalizerRecord, Notification};
use crate::status::{spec_worst, EventStatus};

verus! {

/// Why an output could not be registered.
#[derive(Clone, Copy, Debug, PartialEq, Eq, Structural)]
pub enum FanoutError {
    /// An output of that name is already registered.
    DuplicateName,
}

/// One named output of a fanout point.
#[derive(Debug)]
pub struct Output {
    pub name: Vec<u8>,
    pub buffer: Buffer,
}

/// Mathematical model of an output: its name, buffered events, capacity
/// bounds and closed flag.
pub struct OutputV {
    pub name: Seq<u8>,
    pub events: Seq<EventV>,
    pub cfg: BufferConfig,
    pub closed: bool,
}

/// Model of one output.
pub open spec fn output_view(o: Output) -> OutputV {
    OutputV {
        name: o.name@,
        events: o.buffer@,
        cfg: o.buffer.spec_config(),
        closed: o.buffer.spec_closed(),
    }
}

/// The models of a sequence of outputs, elementwise.
pub open spec fn outputs_view(s: Seq<Output>) -> Seq<OutputV> {
    s.map_values(|o: Output| output_view(o))
}

pub proof fn lemma_outputs_view_index(s: Seq<Output>, i: int)
    requires
        0 <= i < s.len(),
    ensures
        outputs_view(s).len() == s.len(),
        outputs_view(s)[i] == output_view(s[i]),
{
}

/// What one broadcast does to one output: a closed output is skipped — it is
/// permanently dead and never receives an event again — every other output
/// receives exactly one copy of the event at the back of its buffer.
pub open spec fn spec_offer(o: OutputV, e: EventV) -> OutputV {
    if o.closed {
        o
    } else {
        OutputV { name: o.name, events: o.events.push(e), cfg: o.cfg, closed: false }
    }
}

/// The outputs after one event is broadcast, in unchanged order.
pub open spec fn spec_broadcast(s: Seq<OutputV>, e: EventV) -> Seq<OutputV> {
    s.map_values(|o: OutputV| spec_offer(o, e))
}

/// How many outputs are still alive and will accept a copy.
pub open spec fn count_open(s: Seq<OutputV>) -> nat
    decreases s.len(),
{
    if s.len() == 0 {
        0
    } else {
        count_open(s.drop_last()) + (if s.last().closed {
            0nat
        } else {
            1nat
        })
    }
}

pub proof fn lemma_count_open_bound(s: Seq<OutputV>)
    ensures
        count_open(s) <= s.len(),
    decreases s.len(),
{
    if s.len() > 0 {
        lemma_count_open_bound(s.drop_last());
    }
}

/// Every copy of the broadcast event fits: each open output has room for it.
pub open spec fn spec_all_have_room(s: Seq<OutputV>, e: EventV) -> bool {
    forall|i: int|
        0 <= i < s.len() ==> (!(#[trigger] s[i]).closed ==> spec_has_room(s[i].cfg, s[i].events, e))
}

/// The broadcaster from one inbound stream to its registered outputs.
#[derive(Debug)]
pub struct Fanout {
    outputs: Vec<Output>,
}

impl View for Fanout {
    type V = Seq<OutputV>;

    /// The registered outputs, in registration order.
    closed spec fn view(&self) -> Seq<OutputV> {
        outputs_view(self.outputs@)
    }
}

impl Fanout {
    /// Names are unique and every output's buffer accounting is sound.
    pub closed spec fn wf(&self) -> bool {
        &&& (forall|i: int, j: int|
            0 <= i < j < self.outputs@.len() ==> self.outputs@[i].name@ != self.outputs@[j].name@)
        &&& (forall|i: int|
            0 <= i < self.outputs@.len() ==> (#[trigger] self.outputs@[i]).buffer.wf())
    }

    pub fn new() -> (r: Fanout)
        ensures
            r.wf(),
            r@.len() == 0,
    {
        let r = Fanout { outputs: Vec::new() };
        assert(r@ =~= Seq::<OutputV>::empty());
        r
    }

    pub fn len(&self) -> (r: usize)
        ensures
            r == self@.len(),
    {
        self.outputs.len()
    }

    /// Read the registered output at position `i`, in registration order.
    pub fn output(&self, i: usize) -> (r: &Output)
        requires
            i < self@.len(),
        ensures
            output_view(*r) == self@[i as int],
    {
        proof {
            lemma_outputs_view_index(self.outputs@, i as int);
        }
        &self.outputs[i]
    }

    /// Take the oldest event buffered for the output at position `i`, as
    /// that output's consumer does; every other output is untouched.
    pub fn pop_from(&mut self, i: usize) -> (r: PopOutcome)
        requires
            old(self).wf(),
            i < old(self)@.len(),
        ensures
            final(self).wf(),
            final(self)@.len() == old(self)@.len(),
            forall|k: int| 0 <= k < old(self)@.len() && k != i ==> final(self)@[k] == old(self)@[k],
            final(self)@[i as int].name == old(self)@[i as int].name,
            final(self)@[i as int].cfg == old(self)@[i as int].cfg,
            final(self)@[i as int].closed == old(self)@[i as int].closed,
            old(self)@[i as int].events.len() > 0 ==> (r matches PopOutcome::Item(e) && e@ == old(
                self,
            )@[i as int].events[0] && final(self)@[i as int].events == old(self)@[i
                as int].events.drop_first()),
            old(self)@[i as int].events.len() == 0 && !old(self)@[i as int].closed ==> (r
                is Pending && final(self)@[i as int].events == old(self)@[i as int].events),
            old(self)@[i as int].events.len() == 0 && old(self)@[i as int].closed ==> (r is Done
                && final(self)@[i as int].events == old(self)@[i as int].events),
    {
        proof {
            lemma_outputs_view_index(self.outputs@, i as int);
        }
        let ghost outs_before = self.outputs@;
        let mut out = self.outputs.remove(i);
        assert(out == outs_before[i as int]);
        let r = out.buffer.try_pop();
        self.outputs.insert(i, out);
        proof {
            outs_before.remove_ensures(i as int);
            assert(self.outputs@ =~= outs_before.update(i as int, out));
            assert forall|k: int| 0 <= k < outs_before.len() implies #[trigger] self@[k]
                == outputs_view(self.outputs@)[k] by {}
            assert forall|k: int| 0 <= k < outs_before.len() && k != i implies self@[k]
                == outputs_view(outs_before)[k] by {
                lemma_outputs_view_index(self.outputs@, k);
                assert(self.outputs@[k] == outs_before[k]);
                lemma_outputs_view_index(outs_before, k);
            }
            lemma_outputs_view_index(self.outputs@, i as int);
            assert forall|a: int, b: int|
                0 <= a < b < self.outputs@.len() implies self.outputs@[a].name@
                != self.outputs@[b].name@ by {
                assert(self.outputs@[a] == if a == i {
                    out
                } else {
                    outs_before[a]
                });
                assert(self.outputs@[b] == if b == i {
                    out
                } else {
                    outs_before[b]
                });
                assert(out.name@ == outs_before[i as int].name@);
            }
        }
        r
    }

    /// Register a named output. Outputs added after the fanout started
    /// receive only events sent thereafter. A name can be registered once.
    pub fn add_output(&mut self, name: Vec<u8>, buffer: Buffer) -> (r: Result<(), FanoutError>)
        requires
            old(self).wf(),
            buffer.wf(),
        ensures
            final(self).wf(),
            r == Ok::<(), FanoutError>(()) <==> (forall|i: int|
                0 <= i < old(self)@.len() ==> (#[trigger] old(self)@[i]).name != name@),
            r is Ok ==> final(self)@ == old(self)@.push(
                OutputV {
                    name: name@,
                    events: buffer@,
                    cfg: buffer.spec_config(),
                    closed: buffer.spec_closed(),
                },
            ),
            r is Err ==> final(self)@ == old(self)@ && r == Err::<(), FanoutError>(
                FanoutError::DuplicateName,
            ),
    {
        let mut i: usize = 0;
        while i < self.outputs.len()
            invariant
                old(self).wf(),
                self.outputs@ == old(self).outputs@,
                0 <= i <= self.outputs@.len(),
                forall|k: int| 0 <= k < i ==> self.outputs@[k].name@ != name@,
            decreases self.outputs@.len() - i,
        {
            if crate::event::bytes_eq(&self.outputs[i].name, &name) {
                proof {
                    lemma_outputs_view_index(self.outputs@, i as int);
                }
                assert(self@[i as int].name == name@);
                return Err(FanoutError::DuplicateName);
            }
            i = i + 1;
        }
        let ghost before_vec = self.outputs@;
        let ghost added = output_view(Output { name, buffer });
        proof {
            assert forall|k: int| 0 <= k < old(self)@.len() implies (#[trigger] old(self)@[k]).name
                != name@ by {
                lemma_outputs_view_index(before_vec, k);
            }
        }
        self.outputs.push(Output { name, buffer });
        proof {
            assert forall|k: int| 0 <= k < self@.len() implies self@[k] == before_vec.push(
                Output { name: name, buffer: buffer },
            ).map_values(|o: Output| output_view(o))[k] by {}
            assert(self@ =~= outputs_view(before_vec).push(added));
            assert forall|a: int, b: int|
                0 <= a < b < self.outputs@.len() implies self.outputs@[a].name@
                != self.outputs@[b].name@ by {
                if b < self.outputs@.len() - 1 {
                } else {
                    lemma_outputs_view_index(before_vec, a);
                }
            }
        }
        Ok(())
    }

    /// Unregister the named output, if present. Events already offered to it
    /// stay in its buffer; it receives nothing sent thereafter.
    pub fn remove_output(&mut self, name: &Vec<u8>) -> (r: bool)
        requires
            old(self).wf(),
        ensures
            final(self).wf(),
            r <==> (exists|i: int| 0 <= i < old(self)@.len() && (#[trigger] old(self)@[i]).name
                == name@),
            r ==> (exists|i: int|
                0 <= i < old(self)@.len() && (#[trigger] old(self)@[i]).name == name@
                    && final(self)@ == old(self)@.remove(i)),
            !r ==> final(self)@ == old(self)@,
    {
        let mut i: usize = 0;
        while i < self.outputs.len()
            invariant
                old(self).wf(),
                self.outputs@ == old(self).outputs@,
                0 <= i <= self.outputs@.len(),
                forall|k: int| 0 <= k < i ==> self.outputs@[k].name@ != name@,
            decreases self.outputs@.len() - i,
        {
            if crate::event::bytes_eq(&self.outputs[i].name, name) {
                let ghost before_vec = self.outputs@;
                let ghost j = i as int;
                self.outputs.remove(i);
                proof {
                    before_vec.remove_ensures(j);
                    lemma_outputs_view_index(before_vec, j);
                    assert(old(self)@[j].name == name@);
                    assert forall|k: int| 0 <= k < self.outputs@.len() implies self@[k]
                        == outputs_view(before_vec).remove(j)[k] by {
                        lemma_outputs_view_index(self.outputs@, k);
                        outputs_view(before_vec).remove_ensures(j);
                        if k < j {
                            lemma_outputs_view_index(before_vec, k);
                        } else {
                            lemma_outputs_view_index(before_vec, k + 1);
                        }
                    }
                    assert(self@ =~= outputs_view(before_vec).remove(j));
                    assert forall|a: int, b: int|
                        0 <= a < b < self.outputs@.len() implies self.outputs@[a].name@
                        != self.outputs@[b].name@ by {
                        before_vec.remove_ensures(j);
                    }
                }
                return true;
            }
            proof {
                lemma_outputs_view_index(self.outputs@, i as int);
            }
            i = i + 1;
        }
        proof {
            assert forall|k: int| 0 <= k < old(self)@.len() implies (#[trigger] old(self)@[k]).name
                != name@ by {
                lemma_outputs_view_index(self.outputs@, k);
            }
        }
        false
    }

    /// Broadcast one event: every open output receives exactly one
    /// content-equal copy at the back of its buffer, each copy holding its
    /// own counted finalizer reference; closed outputs are skipped for good.
    /// The sender's own reference is consumed: forwarded into the copies
    /// when at least one output accepted (reported as the neutral
    /// `Delivered`), reported as `Dropped` when no output was left to
    /// deliver to. The caller must wait until every open output has room —
    /// a slow output backpressures the fanout and, through it, the fanout's
    /// own upstream.
    pub fn send(&mut self, reg: &mut AckRegistry, e: Event)
        requires
            old(self).wf(),
            old(reg).wf(),
            0 <= e.finalizer < old(reg).records@.len(),
            old(reg).records@[e.finalizer as int].refs >= 1,
            old(reg).records@[e.finalizer as int].refs + old(self)@.len() <= usize::MAX,
            spec_all_have_room(old(self)@, e@),
        ensures
            final(self).wf(),
            final(reg).wf(),
            final(self)@ == spec_broadcast(old(self)@, e@),
            final(reg).records@ == old(reg).records@.update(
                e.finalizer as int,
                FinalizerRecord {
                    refs: (old(reg).records@[e.finalizer as int].refs + count_open(old(self)@)
                        - 1) as usize,
                    worst: if count_open(old(self)@) == 0 {
                        spec_worst(old(reg).records@[e.finalizer as int].worst, EventStatus::Dropped)
                    } else {
                        old(reg).records@[e.finalizer as int].worst
                    },
                    token: old(reg).records@[e.finalizer as int].token,
                    done: count_open(old(self)@) == 0 && old(reg).records@[e.finalizer as int].refs
                        == 1,
                },
            ),
            final(reg).notifications@ == if count_open(old(self)@) == 0 && old(
                reg,
            ).records@[e.finalizer as int].refs == 1 {
                old(reg).notifications@.push(
                    Notification {
                        token: old(reg).records@[e.finalizer as int].token,
                        status: spec_worst(
                            old(reg).records@[e.finalizer as int].worst,
                            EventStatus::Dropped,
                        ),
                    },
                )
            } else {
                old(reg).notifications@
            },
    {
        let ghost orig = self@;
        let ghost recs0 = reg.records@;
        let ghost f = e.finalizer as int;
        let ghost refs0 = recs0[f].refs;
        let ghost worst0 = recs0[f].worst;
        let ghost token0 = recs0[f].token;
        assert(!recs0[f].done);
        proof {
            assert(orig.take(0) =~= Seq::<OutputV>::empty());
            assert(count_open(Seq::<OutputV>::empty()) == 0);
            assert(recs0.update(
                f,
                FinalizerRecord { refs: refs0, worst: worst0, token: token0, done: false },
            ) =~= recs0);
        }
        let mut i: usize = 0;
        while i < self.outputs.len()
            invariant
                reg.wf(),
                0 <= i <= orig.len(),
                self.outputs@.len() == orig.len(),
                0 <= f < recs0.len(),
                recs0.len() == reg.records@.len(),
                e.finalizer == f,
                refs0 == recs0[f].refs,
                worst0 == recs0[f].worst,
                token0 == recs0[f].token,
                refs0 >= 1,
                refs0 + orig.len() <= usize::MAX,
                spec_all_have_room(orig, e@),
                forall|k: int| 0 <= k < i ==> self@[k] == spec_offer(orig[k], e@),
                forall|k: int| i <= k < orig.len() ==> self@[k] == orig[k],
                forall|k: int|
                    0 <= k < orig.len() ==> (#[trigger] self.outputs@[k]).buffer.wf(),
                forall|a: int, b: int|
                    0 <= a < b < orig.len() ==> self.outputs@[a].name@ != self.outputs@[b].name@,
                count_open(orig.take(i as int)) <= i,
                reg.records@ == recs0.update(
                    f,
                    FinalizerRecord {
                        refs: (refs0 + count_open(orig.take(i as int))) as usize,
                        worst: worst0,
                        token: token0,
                        done: false,
                    },
                ),
                reg.notifications@ == old(reg).notifications@,
            decreases orig.len() - i,
        {
            proof {
                lemma_count_open_bound(orig.take(i as int));
                assert(orig.take(i + 1).drop_last() =~= orig.take(i as int));
                assert(orig.take(i + 1).last() == orig[i as int]);
                lemma_outputs_view_index(self.outputs@, i as int);
            }
            let open = !self.outputs[i].buffer.is_closed();
            assert(self@[i as int] == orig[i as int]);
            assert(open == !orig[i as int].closed);
            if open {
                reg.add_ref(e.finalizer);
                proof {
                    assert(reg.records@ =~= recs0.update(
                        f,
                        FinalizerRecord {
                            refs: (refs0 + count_open(orig.take(i + 1))) as usize,
                            worst: worst0,
                            token: token0,
                            done: false,
                        },
                    ));
                }
                let copy = e.duplicate();
                let ghost outs_before = self.outputs@;
                let mut out = self.outputs.remove(i);
                assert(out == outs_before[i as int]);
                assert(output_view(out) == orig[i as int]);
                assert(spec_has_room(out.buffer.spec_config(), out.buffer@, e@));
                let res = out.buffer.try_push(copy);
                assert(res is Ok);
                self.outputs.insert(i, out);
                proof {
                    outs_before.remove_ensures(i as int);
                    assert(self.outputs@ =~= outs_before.update(i as int, out));
                    assert forall|k: int| 0 <= k < orig.len() implies self@[k] == (if k < i + 1 {
                        spec_offer(orig[k], e@)
                    } else {
                        orig[k]
                    }) by {
                        lemma_outputs_view_index(self.outputs@, k);
                        if k != i {
                            assert(self.outputs@[k] == outs_before[k]);
                            lemma_outputs_view_index(outs_before, k);
                        } else {
                            assert(self.outputs@[k] == out);
                        }
                    }
                    assert forall|a: int, b: int|
                        0 <= a < b < orig.len() implies self.outputs@[a].name@
                        != self.outputs@[b].name@ by {
                        assert(self.outputs@[a] == if a == i {
                            out
                        } else {
                            outs_before[a]
                        });
                        assert(self.outputs@[b] == if b == i {
                            out
                        } else {
                            outs_before[b]
                        });
                        assert(out.name@ == outs_before[i as int].name@);
                    }
                }
            } else {
                assert(spec_offer(orig[i as int], e@) == orig[i as int]);
                assert(reg.records@ =~= recs0.update(
                    f,
                    FinalizerRecord {
                        refs: (refs0 + count_open(orig.take(i + 1))) as usize,
                        worst: worst0,
                        token: token0,
                        done: false,
                    },
                ));
            }
            i = i + 1;
        }
        proof {
            assert(orig.take(orig.len() as int) =~= orig);
            assert(self@ =~= spec_broadcast(orig, e@));
            lemma_count_open_bound(orig);
        }
        let ghost n = count_open(orig);
        let mut found = false;
        let mut j: usize = 0;
        let ghost mid_outputs = self.outputs@;
        let ghost mid_records = reg.records@;
        while j < self.outputs.len()
            invariant
                self.outputs@ == mid_outputs,
                reg.records@ == mid_records,
                reg.notifications@ == old(reg).notifications@,
                0 <= j <= orig.len(),
                self.outputs@.len() == orig.len(),
                forall|k: int| 0 <= k < orig.len() ==> self@[k] == spec_offer(orig[k], e@),
                found <==> count_open(orig.take(j as int)) > 0,
            decreases orig.len() - j,
        {
            proof {
                assert(orig.take(j + 1).drop_last() =~= orig.take(j as int));
                assert(orig.take(j + 1).last() == orig[j as int]);
                lemma_outputs_view_index(self.outputs@, j as int);
                assert(self@[j as int] == spec_offer(orig[j as int], e@));
            }
            if !self.outputs[j].buffer.is_closed() {
                found = true;
            }
            j = j + 1;
        }
        proof {
            assert(orig.take(0) =~= Seq::<OutputV>::empty());
            assert(orig.take(orig.len() as int) =~= orig);
        }
        let ghost pre_report = reg.records@;
        if found {
            reg.report(e.finalizer, EventStatus::Delivered);
        } else {
            reg.report(e.finalizer, EventStatus::Dropped);
        }
        proof {
            assert(pre_report[f].refs == refs0 + n);
            assert(reg.records@ =~= recs0.update(
                f,
                FinalizerRecord {
                    refs: (refs0 + n - 1) as usize,
                    worst: if n == 0 {
                        spec_worst(worst0, EventStatus::Dropped)
                    } else {
                        worst0
                    },
                    token: token0,
                    done: n == 0 && refs0 == 1,
                },
            ));
        }
    }
}

} // verus!
