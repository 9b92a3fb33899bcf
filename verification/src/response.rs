//! The tracked operation: one request's lifecycle and its exactly-once
//! counter emission.
//!
//! A [`MetricsResponse`] moves `NotStarted` → `Started` → `Completed`, each
//! transition at most once, and `Completed` is absorbing. `req_started` is
//! emitted exactly at the first transition, `req_time_ms` and `req_count`
//! exactly at the second. The terminal transition, [`MetricsResponse::complete`],
//! never fails and changes nothing unless the operation is running, so the
//! owner of the operation calls it on every exit path — on a result, and from
//! the destructor of whatever holds the operation. Abandonment before a
//! result then still releases the completion counters, an operation never
//! polled releases nothing, and nothing is ever released twice.

use crate::counters::{
    count_emission, count_of, elapsed_millis, emit, lemma_count_of_push, now_instant,
    started_emission, time_emission, CounterName, Emission,
};
use vstd::prelude::*;

verus! {

/// Where a tracked operation stands in its lifecycle.
#[derive(Clone, Copy, Debug, PartialEq, Eq, Structural)]
pub enum Phase {
    /// Created, never polled; nothing emitted.
    NotStarted,
    /// Polled at least once; `req_started` emitted, timer running.
    Started,
    /// Terminal; all counters emitted. Absorbing: nothing further happens.
    Completed,
}

enum ResponseState {
    NotStarted { route: String },
    Started { start: std::time::Instant, route: String },
    Completed,
}

/// Holds when `post` extends the history `pre` with the two terminal
/// increments for `route`: `req_time_ms` by `elapsed_ms`, then `req_count`
/// by 1.
pub open spec fn completes_history(
    pre: Seq<Emission>,
    route: Seq<char>,
    elapsed_ms: u64,
    post: Seq<Emission>,
) -> bool {
    post =~= pre.push(time_emission(route, elapsed_ms)).push(count_emission(route))
}

/// The in-flight operation tracking one request. It owns the request's
/// lifecycle state and the ghost history of every counter increment it has
/// performed; the route label is captured at creation and immutable.
pub struct MetricsResponse {
    state: ResponseState,
    route: Ghost<Seq<char>>,
    log: Ghost<Seq<Emission>>,
}

impl MetricsResponse {
    /// The route label captured at creation; every emission carries it.
    pub closed spec fn route_id(&self) -> Seq<char> {
        self.route@
    }

    /// Every counter increment this operation has performed, in order.
    pub closed spec fn emitted(&self) -> Seq<Emission> {
        self.log@
    }

    /// The operation's current phase.
    pub closed spec fn lifecycle(&self) -> Phase {
        match self.state {
            ResponseState::NotStarted { .. } => Phase::NotStarted,
            ResponseState::Started { .. } => Phase::Started,
            ResponseState::Completed => Phase::Completed,
        }
    }

    /// Well-formedness: the emission history is exactly what the phase
    /// demands. Nothing before the first poll; precisely one `req_started`
    /// while running; precisely `req_started`, `req_time_ms`, `req_count` —
    /// in that order, all for the captured route — once terminal.
    pub closed spec fn wf(&self) -> bool {
        match self.state {
            ResponseState::NotStarted { route } => {
                &&& route@ == self.route@
                &&& self.log@.len() == 0
            },
            ResponseState::Started { route, .. } => {
                &&& route@ == self.route@
                &&& self.log@.len() == 1
                &&& self.log@[0] == started_emission(self.route@)
            },
            ResponseState::Completed => {
                &&& self.log@.len() == 3
                &&& self.log@[0] == started_emission(self.route@)
                &&& self.log@[1].name == CounterName::ReqTimeMs
                &&& self.log@[1].route == self.route@
                &&& self.log@[2] == count_emission(self.route@)
            },
        }
    }

    /// Begins tracking a request whose route label is `route`: `NotStarted`,
    /// nothing emitted.
    pub fn new(route: String) -> (r: MetricsResponse)
        ensures
            r.wf(),
            r.lifecycle() is NotStarted,
            r.route_id() == route@,
            r.emitted().len() == 0,
    {
        let ghost route_view = route@;
        MetricsResponse {
            state: ResponseState::NotStarted { route },
            route: Ghost(route_view),
            log: Ghost(Seq::empty()),
        }
    }

    /// The first progress step. From `NotStarted` this transitions to
    /// `Started`, records the current instant, and emits `req_started{route}`
    /// += 1 — exactly once, since from any other phase the call changes
    /// nothing at all.
    pub fn start(&mut self)
        ensures
            final(self).route_id() == old(self).route_id(),
            old(self).lifecycle() is NotStarted ==> final(self).lifecycle() is Started,
            !(old(self).lifecycle() is NotStarted) ==> *final(self) == *old(self),
            old(self).emitted().is_prefix_of(final(self).emitted()),
            old(self).wf() && old(self).lifecycle() is NotStarted ==> final(self).emitted()
                =~= old(self).emitted().push(started_emission(old(self).route_id())),
            old(self).wf() ==> final(self).wf(),
    {
        let mut st = ResponseState::Completed;
        core::mem::swap(&mut st, &mut self.state);
        match st {
            ResponseState::NotStarted { route } => {
                emit(CounterName::ReqStarted, &route, 1, &mut self.log);
                let start = now_instant();
                self.state = ResponseState::Started { start, route };
            },
            other => {
                self.state = other;
            },
        }
    }

    /// The terminal transition with a known elapsed time. From `Started`
    /// this transitions to `Completed` and emits `req_time_ms{route}` +=
    /// `elapsed_ms` then `req_count{route}` += 1 — exactly once, since from
    /// any other phase the call changes nothing at all: an operation never
    /// polled releases no counter, and a completed one never emits again.
    pub fn complete_with_elapsed(&mut self, elapsed_ms: u64)
        ensures
            final(self).route_id() == old(self).route_id(),
            old(self).lifecycle() is Started ==> final(self).lifecycle() is Completed,
            !(old(self).lifecycle() is Started) ==> *final(self) == *old(self),
            old(self).emitted().is_prefix_of(final(self).emitted()),
            old(self).wf() && old(self).lifecycle() is Started ==> final(self).emitted()
                =~= old(self).emitted().push(
                time_emission(old(self).route_id(), elapsed_ms),
            ).push(count_emission(old(self).route_id())),
            old(self).wf() ==> final(self).wf(),
        no_unwind
    {
        let mut st = ResponseState::Completed;
        core::mem::swap(&mut st, &mut self.state);
        match st {
            ResponseState::Started { route, .. } => {
                emit(CounterName::ReqTimeMs, &route, elapsed_ms, &mut self.log);
                emit(CounterName::ReqCount, &route, 1, &mut self.log);
            },
            other => {
                self.state = other;
            },
        }
    }

    /// The terminal transition against the live clock: for a `Started`
    /// operation this reads the elapsed milliseconds since its first poll and
    /// performs `complete_with_elapsed` with that value. The amount depends
    /// on the clock, so only the emitted counters and their route are pinned;
    /// from any other phase the call changes nothing at all.
    pub fn complete(&mut self)
        ensures
            final(self).route_id() == old(self).route_id(),
            old(self).lifecycle() is Started ==> final(self).lifecycle() is Completed,
            !(old(self).lifecycle() is Started) ==> *final(self) == *old(self),
            old(self).emitted().is_prefix_of(final(self).emitted()),
            old(self).wf() && old(self).lifecycle() is Started ==> exists|e: u64|
                #[trigger] completes_history(
                    old(self).emitted(),
                    old(self).route_id(),
                    e,
                    final(self).emitted(),
                ),
            old(self).wf() ==> final(self).wf(),
        no_unwind
    {
        let elapsed: Option<u64> = match &self.state {
            ResponseState::Started { start, .. } => Some(elapsed_millis(start)),
            _ => None,
        };
        if let Some(e) = elapsed {
            self.complete_with_elapsed(e);
            proof {
                if old(self).wf() && old(self).lifecycle() is Started {
                    assert(completes_history(
                        old(self).emitted(),
                        old(self).route_id(),
                        e,
                        self.emitted(),
                    ));
                }
            }
        }
    }

    /// The current phase, as a value a caller can branch on.
    pub fn phase(&self) -> (p: Phase)
        ensures
            p == self.lifecycle(),
    {
        match &self.state {
            ResponseState::NotStarted { .. } => Phase::NotStarted,
            ResponseState::Started { .. } => Phase::Started,
            ResponseState::Completed => Phase::Completed,
        }
    }

    /// The captured route, readable while the operation is live; once
    /// `Completed` the label lives on only in the emitted counters.
    pub fn route(&self) -> (r: Option<&String>)
        ensures
            match r {
                Some(s) => !(self.lifecycle() is Completed) && (self.wf() ==> s@
                    == self.route_id()),
                None => self.lifecycle() is Completed,
            },
    {
        match &self.state {
            ResponseState::NotStarted { route } => Some(route),
            ResponseState::Started { route, .. } => Some(route),
            ResponseState::Completed => None,
        }
    }
}

/// Law: an operation polled at least once has incremented `req_started`
/// exactly once, however many further polls occurred; one never polled has
/// not incremented it at all.
pub proof fn lemma_started_exactly_once(op: &MetricsResponse)
    requires
        op.wf(),
    ensures
        count_of(op.emitted(), CounterName::ReqStarted) == if op.lifecycle() is NotStarted {
            0nat
        } else {
            1nat
        },
{
    lemma_counts(op, CounterName::ReqStarted);
}

/// Law: the completion counters move together and exactly once — an
/// operation that reached its terminal state has incremented `req_time_ms`
/// and `req_count` each exactly 1 time, and its `req_started` increment
/// stands before them in its history; one still live has incremented
/// neither.
pub proof fn lemma_completion_exactly_once(op: &MetricsResponse)
    requires
        op.wf(),
    ensures
        count_of(op.emitted(), CounterName::ReqTimeMs) == count_of(
            op.emitted(),
            CounterName::ReqCount,
        ),
        count_of(op.emitted(), CounterName::ReqTimeMs) == if op.lifecycle() is Completed {
            1nat
        } else {
            0nat
        },
        op.lifecycle() is Completed ==> op.emitted().len() == 3 && op.emitted()[0]
            == started_emission(op.route_id()),
{
    lemma_counts(op, CounterName::ReqTimeMs);
    lemma_counts(op, CounterName::ReqCount);
}

/// Law: an operation created but never polled has emitted nothing at all.
pub proof fn lemma_never_started_emits_nothing(op: &MetricsResponse)
    requires
        op.wf(),
        op.lifecycle() is NotStarted,
    ensures
        op.emitted().len() == 0,
{
}

/// Law: every counter this operation has emitted carries the route captured
/// at its creation.
pub proof fn lemma_route_fidelity(op: &MetricsResponse)
    requires
        op.wf(),
    ensures
        forall|i: int|
            0 <= i < op.emitted().len() ==> (#[trigger] op.emitted()[i]).route == op.route_id(),
{
}

/// The counting common to the exactly-once laws: in each phase the history
/// has a known shape, and each counter's count follows from it. Once
/// terminal, the history holds each of the three counters exactly once.
proof fn lemma_counts(op: &MetricsResponse, name: CounterName)
    requires
        op.wf(),
    ensures
        count_of(op.emitted(), name) == match op.lifecycle() {
            Phase::NotStarted => 0nat,
            Phase::Started => if name is ReqStarted {
                1nat
            } else {
                0nat
            },
            Phase::Completed => 1nat,
        },
{
    let l = op.emitted();
    let e = Seq::<Emission>::empty();
    assert(count_of(e, name) == 0);
    match op.lifecycle() {
        Phase::NotStarted => {
            assert(l =~= e);
        },
        Phase::Started => {
            assert(l =~= e.push(l[0]));
            lemma_count_of_push(e, l[0], name);
        },
        Phase::Completed => {
            assert(l =~= e.push(l[0]).push(l[1]).push(l[2]));
            lemma_count_of_push(e.push(l[0]).push(l[1]), l[2], name);
            lemma_count_of_push(e.push(l[0]), l[1], name);
            lemma_count_of_push(e, l[0], name);
        },
    }
}

} // verus!
