//! The dispatcher: turns batches into acknowledged deliveries under a
//! retry/backoff policy, a concurrency limit (fixed or AIMD-adapted) and a
//! windowed rate limit.
//!
//! The transport itself — the network call — is an external collaborator:
//! the process around the pipeline performs each attempt and classifies the
//! response. The policy here is pure: given the classification of each
//! attempt it decides, attempt by attempt, whether to resolve the batch or
//! retry after an exponentially growing backoff, and exactly one terminal
//! outcome is reported per batch, fanned in to every member's finalizer.

use vstd::prelude::*;

use crate::event::EventV;
use crate::finalizer::{AckRegistry, FinalizerRecord, Notification};
use crate::status::{spec_worst, EventStatus};

verus! {

/// How the transport's response to one attempt is classified.
#[derive(Clone, Copy, Debug, PartialEq, Eq, Structural)]
pub enum TransportClass {
    /// The destination accepted the whole batch.
    Success,
    /// A transient failure (network error, 5xx-equivalent, throttling):
    /// worth retrying.
    Retryable,
    /// A permanent failure: retrying cannot succeed, the batch errors.
    PermanentError,
    /// The destination rejects the payload permanently (e.g. malformed
    /// request): the batch is dropped without consuming retry budget.
    PermanentReject,
}

/// Retry policy of one destination.
#[derive(Clone, Copy, Debug)]
pub struct RetryPolicy {
    /// Attempt ceiling, counting the first attempt; at least 1.
    pub max_attempts: usize,
    /// Backoff before the second attempt, in milliseconds.
    pub base_backoff_ms: u64,
    /// Upper bound on any backoff, in milliseconds.
    pub max_backoff_ms: u64,
}

/// What the policy decides after one classified attempt.
#[derive(Clone, Copy, Debug, PartialEq, Eq, Structural)]
pub enum DispatchStep {
    /// The batch resolves with this terminal status.
    Done(EventStatus),
    /// Retry the same batch after this many milliseconds (the runtime may
    /// add jitter on top).
    RetryAfter(u64),
}

/// The backoff before attempt `attempt + 1`, after `attempt` failed
/// attempts: the base backoff doubled per further attempt, capped at the
/// configured maximum.
pub open spec fn spec_backoff(p: RetryPolicy, attempt: nat) -> nat
    decreases attempt,
{
    if attempt <= 1 {
        if p.base_backoff_ms <= p.max_backoff_ms {
            p.base_backoff_ms as nat
        } else {
            p.max_backoff_ms as nat
        }
    } else {
        if 2 * spec_backoff(p, (attempt - 1) as nat) <= p.max_backoff_ms {
            2 * spec_backoff(p, (attempt - 1) as nat)
        } else {
            p.max_backoff_ms as nat
        }
    }
}

pub proof fn lemma_backoff_at_least_base(p: RetryPolicy, attempt: nat)
    requires
        p.base_backoff_ms <= p.max_backoff_ms,
    ensures
        p.base_backoff_ms <= spec_backoff(p, attempt) <= p.max_backoff_ms,
    decreases attempt,
{
    if attempt > 1 {
        lemma_backoff_at_least_base(p, (attempt - 1) as nat);
    }
}

/// Backoff grows monotonically with the attempt number, and strictly while
/// it has not yet hit the configured ceiling.
pub proof fn lemma_backoff_increasing(p: RetryPolicy, attempt: nat)
    requires
        1 <= p.base_backoff_ms <= p.max_backoff_ms,
        attempt >= 1,
    ensures
        spec_backoff(p, attempt) <= spec_backoff(p, attempt + 1),
        spec_backoff(p, attempt + 1) < p.max_backoff_ms ==> spec_backoff(p, attempt)
            < spec_backoff(p, attempt + 1),
{
    lemma_backoff_at_least_base(p, attempt);
}

/// Compute the backoff before attempt `attempt + 1`.
pub fn backoff_for_attempt(p: &RetryPolicy, attempt: usize) -> (r: u64)
    requires
        attempt >= 1,
    ensures
        r == spec_backoff(*p, attempt as nat),
{
    let mut b: u64 = if p.base_backoff_ms <= p.max_backoff_ms {
        p.base_backoff_ms
    } else {
        p.max_backoff_ms
    };
    let mut i: usize = 1;
    while i < attempt
        invariant
            1 <= i <= attempt,
            b == spec_backoff(*p, i as nat),
            b <= p.max_backoff_ms,
        decreases attempt - i,
    {
        if p.max_backoff_ms - b > b {
            b = b + b;
        } else {
            b = p.max_backoff_ms;
        }
        i = i + 1;
    }
    b
}

/// What the policy decides once attempt number `attempt` (1-based) has been
/// classified as `c`.
pub open spec fn spec_next_step(p: RetryPolicy, attempt: nat, c: TransportClass) -> DispatchStep {
    match c {
        TransportClass::Success => DispatchStep::Done(EventStatus::Delivered),
        TransportClass::PermanentReject => DispatchStep::Done(EventStatus::Dropped),
        TransportClass::PermanentError => DispatchStep::Done(EventStatus::Errored),
        TransportClass::Retryable => if attempt < p.max_attempts {
            DispatchStep::RetryAfter(spec_backoff(p, attempt) as u64)
        } else {
            DispatchStep::Done(EventStatus::Errored)
        },
    }
}

/// Decide after one classified attempt: success delivers, a permanent
/// reject drops, a permanent error errors, and a retryable failure retries
/// with backoff until the attempt ceiling is exhausted, at which point the
/// batch errors terminally.
pub fn next_step(p: &RetryPolicy, attempt: usize, c: TransportClass) -> (r: DispatchStep)
    requires
        attempt >= 1,
    ensures
        r == spec_next_step(*p, attempt as nat, c),
{
    match c {
        TransportClass::Success => DispatchStep::Done(EventStatus::Delivered),
        TransportClass::PermanentReject => DispatchStep::Done(EventStatus::Dropped),
        TransportClass::PermanentError => DispatchStep::Done(EventStatus::Errored),
        TransportClass::Retryable => {
            if attempt < p.max_attempts {
                DispatchStep::RetryAfter(backoff_for_attempt(p, attempt))
            } else {
                DispatchStep::Done(EventStatus::Errored)
            }
        },
    }
}

/// The terminal status and attempt count reached by running the policy
/// against the classified responses, starting at attempt `attempt`; `None`
/// when the responses run out before a terminal decision.
pub open spec fn spec_run_from(p: RetryPolicy, rs: Seq<TransportClass>, attempt: nat) -> Option<
    (EventStatus, nat),
>
    decreases rs.len() + 1 - attempt,
    when 1 <= attempt
{
    if attempt > rs.len() {
        None
    } else {
        match spec_next_step(p, attempt, rs[attempt - 1]) {
            DispatchStep::Done(st) => Some((st, attempt)),
            DispatchStep::RetryAfter(_) => spec_run_from(p, rs, attempt + 1),
        }
    }
}

/// One resolved dispatch: the terminal status, how many attempts it took,
/// and the backoff waited before each retry.
#[derive(Debug)]
pub struct DeliveryReport {
    pub status: EventStatus,
    pub attempts: usize,
    pub backoffs: Vec<u64>,
}

/// Run the whole attempt sequence of one batch against the policy, given
/// the classification of each attempt's response in order. Exactly one
/// terminal status results; the `j`-th backoff waited is the policy's
/// backoff for attempt `j + 1`, so backoffs grow strictly while under the
/// ceiling. `None` means the trace ended before the policy resolved — the
/// caller must classify further attempts.
pub fn run_dispatch(p: &RetryPolicy, responses: &Vec<TransportClass>) -> (r: Option<
    DeliveryReport,
>)
    ensures
        r is Some <==> spec_run_from(*p, responses@, 1) is Some,
        r matches Some(rep) ==> {
            &&& spec_run_from(*p, responses@, 1) matches Some(o) && rep.status == o.0
                && rep.attempts == o.1
            &&& rep.backoffs@.len() == rep.attempts - 1
            &&& forall|j: int|
                0 <= j < rep.backoffs@.len() ==> rep.backoffs@[j] == spec_backoff(
                    *p,
                    (j + 1) as nat,
                )
        },
{
    let mut attempt: usize = 1;
    let mut backoffs: Vec<u64> = Vec::new();
    loop
        invariant
            1 <= attempt <= responses@.len() + 1,
            attempt <= usize::MAX,
            spec_run_from(*p, responses@, 1) == spec_run_from(*p, responses@, attempt as nat),
            backoffs@.len() == attempt - 1,
            forall|j: int|
                0 <= j < backoffs@.len() ==> backoffs@[j] == spec_backoff(*p, (j + 1) as nat),
        decreases responses@.len() + 1 - attempt,
    {
        if attempt > responses.len() {
            return None;
        }
        let c = responses[attempt - 1];
        match next_step(p, attempt, c) {
            DispatchStep::Done(st) => {
                return Some(DeliveryReport { status: st, attempts: attempt, backoffs });
            },
            DispatchStep::RetryAfter(d) => {
                backoffs.push(d);
                attempt = attempt + 1;
            },
        }
    }
}

/// The finalizer ids of a batch's members, in batch order.
pub open spec fn finalizer_ids(s: Seq<EventV>) -> Seq<int> {
    s.map_values(|e: EventV| e.finalizer)
}

/// One outcome report applied to the registry state: the record loses one
/// reference, combines the outcome worst-wins, and fires its notification
/// when that was the last reference.
pub open spec fn spec_report_step(
    st: (Seq<FinalizerRecord>, Seq<Notification>),
    id: int,
    status: EventStatus,
) -> (Seq<FinalizerRecord>, Seq<Notification>) {
    let rec = st.0[id];
    let combined = spec_worst(rec.worst, status);
    (
        st.0.update(
            id,
            FinalizerRecord {
                refs: (rec.refs - 1) as usize,
                worst: combined,
                token: rec.token,
                done: rec.refs == 1,
            },
        ),
        if rec.refs == 1 {
            st.1.push(Notification { token: rec.token, status: combined })
        } else {
            st.1
        },
    )
}

/// One outcome fanned in to a whole batch: the report applied to each
/// member's finalizer, in batch order.
pub open spec fn spec_report_all(
    st: (Seq<FinalizerRecord>, Seq<Notification>),
    ids: Seq<int>,
    status: EventStatus,
) -> (Seq<FinalizerRecord>, Seq<Notification>)
    decreases ids.len(),
{
    if ids.len() == 0 {
        st
    } else {
        spec_report_all(spec_report_step(st, ids[0], status), ids.drop_first(), status)
    }
}

pub proof fn lemma_report_all_snoc(
    st: (Seq<FinalizerRecord>, Seq<Notification>),
    ids: Seq<int>,
    x: int,
    status: EventStatus,
)
    ensures
        spec_report_all(st, ids.push(x), status) == spec_report_step(
            spec_report_all(st, ids, status),
            x,
            status,
        ),
    decreases ids.len(),
{
    if ids.len() == 0 {
        assert(ids.push(x)[0] == x);
        assert(ids.push(x).drop_first() =~= Seq::<int>::empty());
        assert(spec_report_all(spec_report_step(st, x, status), Seq::<int>::empty(), status)
            == spec_report_step(st, x, status));
    } else {
        assert(ids.push(x)[0] == ids[0]);
        assert(ids.push(x).drop_first() =~= ids.drop_first().push(x));
        lemma_report_all_snoc(spec_report_step(st, ids[0], status), ids.drop_first(), x, status);
    }
}

/// Reporting through a set of finalizer ids leaves every other record — and
/// the record count — untouched.
pub proof fn lemma_report_all_frame(
    st: (Seq<FinalizerRecord>, Seq<Notification>),
    ids: Seq<int>,
    status: EventStatus,
    j: int,
)
    requires
        forall|k: int| 0 <= k < ids.len() ==> #[trigger] ids[k] != j,
        forall|k: int| 0 <= k < ids.len() ==> 0 <= #[trigger] ids[k] < st.0.len(),
    ensures
        spec_report_all(st, ids, status).0.len() == st.0.len(),
        0 <= j < st.0.len() ==> spec_report_all(st, ids, status).0[j] == st.0[j],
    decreases ids.len(),
{
    if ids.len() > 0 {
        assert(ids[0] != j);
        let st1 = spec_report_step(st, ids[0], status);
        assert(st1.0.len() == st.0.len());
        assert(0 <= j < st.0.len() ==> st1.0[j] == st.0[j]);
        assert(forall|k: int|
            0 <= k < ids.drop_first().len() ==> #[trigger] ids.drop_first()[k] != j);
        assert(forall|k: int|
            0 <= k < ids.drop_first().len() ==> 0 <= #[trigger] ids.drop_first()[k] < st1.0.len());
        lemma_report_all_frame(st1, ids.drop_first(), status, j);
    }
}

/// Report one terminal outcome for a whole batch: the single fan-in of the
/// batch's delivery outcome to every member's finalizer, in batch order.
/// Each member holds its own counted reference, so the members' finalizers
/// are distinct.
pub fn complete_batch(reg: &mut AckRegistry, batch: &crate::batch::Batch, outcome: EventStatus)
    requires
        old(reg).wf(),
        forall|i: int|
            0 <= i < batch@.len() ==> 0 <= #[trigger] batch@[i].finalizer < old(
                reg,
            ).records@.len(),
        forall|i: int|
            0 <= i < batch@.len() ==> old(reg).records@[#[trigger] batch@[i].finalizer].refs >= 1,
        forall|i: int, j: int|
            0 <= i < j < batch@.len() ==> batch@[i].finalizer != batch@[j].finalizer,
    ensures
        final(reg).wf(),
        (final(reg).records@, final(reg).notifications@) == spec_report_all(
            (old(reg).records@, old(reg).notifications@),
            finalizer_ids(batch@),
            outcome,
        ),
{
    let ghost st0 = (reg.records@, reg.notifications@);
    let ghost ids = finalizer_ids(batch@);
    proof {
        assert(ids.len() == batch@.len());
        assert(ids.take(0) =~= Seq::<int>::empty());
    }
    let mut i: usize = 0;
    while i < batch.events.len()
        invariant
            reg.wf(),
            0 <= i <= batch@.len(),
            batch@.len() == batch.events@.len(),
            ids == finalizer_ids(batch@),
            ids.len() == batch@.len(),
            forall|k: int| 0 <= k < batch@.len() ==> #[trigger] ids[k] == batch@[k].finalizer,
            forall|k: int| 0 <= k < batch@.len() ==> 0 <= #[trigger] ids[k] < st0.0.len(),
            forall|k: int| 0 <= k < batch@.len() ==> st0.0[#[trigger] ids[k]].refs >= 1,
            forall|a: int, b: int| 0 <= a < b < batch@.len() ==> ids[a] != ids[b],
            (reg.records@, reg.notifications@) == spec_report_all(st0, ids.take(i as int), outcome),
            reg.records@.len() == st0.0.len(),
        decreases batch@.len() - i,
    {
        let id = batch.events[i].finalizer;
        proof {
            assert(batch@[i as int] == batch.events@[i as int]@);
            assert(ids[i as int] == id as int);
            assert(forall|k: int|
                0 <= k < ids.take(i as int).len() ==> #[trigger] ids.take(i as int)[k] != id
                    as int);
            lemma_report_all_frame(st0, ids.take(i as int), outcome, id as int);
            assert(reg.records@[id as int] == st0.0[id as int]);
        }
        reg.report(id, outcome);
        proof {
            assert(ids.take(i + 1) =~= ids.take(i as int).push(ids[i as int]));
            lemma_report_all_snoc(st0, ids.take(i as int), ids[i as int], outcome);
            let prev = spec_report_all(st0, ids.take(i as int), outcome);
            let next = spec_report_step(prev, id as int, outcome);
            assert(reg.records@ =~= next.0);
            assert(reg.notifications@ =~= next.1);
        }
        i = i + 1;
    }
    proof {
        assert(ids.take(ids.len() as int) =~= ids);
    }
}

/// One additive-increase / multiplicative-decrease adjustment of the
/// in-flight concurrency limit: a success raises the limit by one up to the
/// ceiling, a detected overload halves it, never below one.
pub fn aimd_update(k: usize, overload: bool, ceiling: usize) -> (r: usize)
    requires
        1 <= k <= ceiling,
    ensures
        overload ==> r == (if k / 2 >= 1 {
            k / 2
        } else {
            1
        }),
        !overload ==> r == (if k + 1 <= ceiling {
            k + 1
        } else {
            ceiling as int
        }),
        1 <= r <= ceiling,
{
    if overload {
        let half = k / 2;
        if half >= 1 {
            half
        } else {
            1
        }
    } else {
        if k < ceiling {
            k + 1
        } else {
            ceiling
        }
    }
}

/// A fixed-window rate limiter: at most `limit` dispatch attempts per
/// window; excess attempts are refused and must queue until the next
/// window.
#[derive(Debug)]
pub struct RateLimiter {
    window_ms: u64,
    limit: usize,
    window_start: u64,
    count: usize,
}

impl RateLimiter {
    pub closed spec fn spec_window_ms(&self) -> u64 {
        self.window_ms
    }

    pub closed spec fn spec_limit(&self) -> usize {
        self.limit
    }

    pub closed spec fn spec_window_start(&self) -> u64 {
        self.window_start
    }

    pub closed spec fn spec_count(&self) -> usize {
        self.count
    }

    pub fn new(window_ms: u64, limit: usize, now: u64) -> (r: RateLimiter)
        ensures
            r.spec_window_ms() == window_ms,
            r.spec_limit() == limit,
            r.spec_window_start() == now,
            r.spec_count() == 0,
    {
        RateLimiter { window_ms, limit, window_start: now, count: 0 }
    }

    /// May one more attempt be dispatched at time `now`? A full window that
    /// has elapsed resets the count; within a window, exactly `limit`
    /// attempts are admitted. The clock may not run backwards.
    pub fn allow(&mut self, now: u64) -> (r: bool)
        requires
            old(self).spec_window_start() <= now,
        ensures
            final(self).spec_window_ms() == old(self).spec_window_ms(),
            final(self).spec_limit() == old(self).spec_limit(),
            ({
                let fresh_window = now - old(self).spec_window_start() >= old(
                    self,
                ).spec_window_ms();
                let base_count = if fresh_window {
                    0int
                } else {
                    old(self).spec_count() as int
                };
                &&& final(self).spec_window_start() == (if fresh_window {
                    now as int
                } else {
                    old(self).spec_window_start() as int
                })
                &&& r == (base_count < old(self).spec_limit())
                &&& final(self).spec_count() == (if base_count < old(self).spec_limit() {
                    base_count + 1
                } else {
                    base_count
                })
            }),
    {
        if now - self.window_start >= self.window_ms {
            self.window_start = now;
            self.count = 0;
        }
        if self.count < self.limit {
            self.count = self.count + 1;
            true
        } else {
            false
        }
    }
}

} // verus!
