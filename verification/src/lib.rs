//! Exactly-once request metrics.
//!
//! Wraps an inbound-request handler so that each request emits three counters
//! for its route: `req_started` once when its processing is first polled, and
//! `req_time_ms` plus `req_count` once when it ends — by a result, by an
//! error, or by being dropped before it finished. The guarantee is carried by
//! a three-state lifecycle, `NotStarted` → `Started` → `Completed`, owned by
//! the in-flight [`MetricsResponse`]; every exit path funnels through the
//! same terminal transition, and `Completed` is absorbing, so no counter is
//! ever emitted twice.

mod counters;
mod response;

pub use counters::{
    count_emission, count_of, emission, lemma_count_of_push, started_emission, time_emission,
    CounterName, Emission,
};
pub use response::{
    completes_history, lemma_completion_exactly_once, lemma_never_started_emits_nothing,
    lemma_route_fidelity, lemma_started_exactly_once, MetricsResponse, Phase,
};

use vstd::prelude::*;

verus! {

/// Creates metrics based on request: the composition root installed into a
/// processing chain. Wrapping a handler is pure and side-effect free; all
/// emission happens through the [`MetricsResponse`] made for each request.
pub struct Metrics;

impl Metrics {
    /// Yields the middleware stage that will track each request. The caller
    /// keeps the wrapped handler; this stage only mints tracked operations.
    pub fn new_transform(&self) -> MetricsMiddleware {
        MetricsMiddleware
    }
}

/// The per-handler middleware stage: mints one tracked operation per request.
pub struct MetricsMiddleware;

impl MetricsMiddleware {
    /// Begins tracking one request whose route label is `route`: the tracked
    /// operation starts in `NotStarted` with nothing emitted, and the route
    /// it will stamp on every counter is fixed here, once and for all.
    pub fn call(&self, route: String) -> (r: MetricsResponse)
        ensures
            r.wf(),
            r.lifecycle() is NotStarted,
            r.route_id() == route@,
            r.emitted().len() == 0,
    {
        MetricsResponse::new(route)
    }
}

} // verus!
