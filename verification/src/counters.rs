//! The emission model and the trusted edge.
//!
//! An operation's effect on the metrics backend is modelled as its *emission
//! history*: the sequence of counter increments it has performed, each
//! carrying the counter's identity, the `route` label and the amount added.
//! The only place a real increment happens is `emit`, which pairs the call
//! into the backend with the record appended to that history.

use vstd::prelude::*;

verus! {

/// The three counters this library maintains per route.
#[derive(Clone, Copy, Debug, PartialEq, Eq, Structural)]
pub enum CounterName {
    /// `req_started`: a request's processing was polled for the first time.
    ReqStarted,
    /// `req_time_ms`: elapsed milliseconds, added when processing ends.
    ReqTimeMs,
    /// `req_count`: one finished request, added when processing ends.
    ReqCount,
}

/// One counter increment: which counter, the `route` label it carried, and
/// the amount added.
#[verifier::ext_equal]
pub struct Emission {
    pub name: CounterName,
    pub route: Seq<char>,
    pub amount: nat,
}

/// An increment of `name` by `amount`, labelled with `route`.
pub open spec fn emission(name: CounterName, route: Seq<char>, amount: nat) -> Emission {
    Emission { name, route, amount }
}

/// The `req_started` increment for a route: always by 1.
pub open spec fn started_emission(route: Seq<char>) -> Emission {
    emission(CounterName::ReqStarted, route, 1)
}

/// The `req_time_ms` increment for a route: by the elapsed milliseconds.
pub open spec fn time_emission(route: Seq<char>, elapsed_ms: u64) -> Emission {
    emission(CounterName::ReqTimeMs, route, elapsed_ms as nat)
}

/// The `req_count` increment for a route: always by 1.
pub open spec fn count_emission(route: Seq<char>) -> Emission {
    emission(CounterName::ReqCount, route, 1)
}

/// How many increments of the counter `name` an emission history holds.
pub open spec fn count_of(log: Seq<Emission>, name: CounterName) -> nat
    decreases log.len(),
{
    if log.len() == 0 {
        0
    } else {
        count_of(log.drop_last(), name) + (if log.last().name == name {
            1nat
        } else {
            0nat
        })
    }
}

/// Appending one emission raises the count of its own counter by 1 and
/// leaves every other counter's count unchanged.
pub proof fn lemma_count_of_push(log: Seq<Emission>, e: Emission, name: CounterName)
    ensures
        count_of(log.push(e), name) == count_of(log, name) + (if e.name == name {
            1nat
        } else {
            0nat
        }),
{
    assert(log.push(e).drop_last() =~= log);
    assert(log.push(e).last() == e);
}

/// `std::time::Instant` is opaque to the verifier; it is declared so a
/// `Started` operation can hold the moment it began.
#[verifier::external_type_specification]
#[verifier::external_body]
pub struct ExInstant(std::time::Instant);

/// Relies on `std::time::Instant::now`: an opaque reading of the monotonic
/// clock. The value depends on the clock, so nothing is promised of it;
/// the documentation gives it no failure case.
#[verifier::external_body]
pub(crate) fn now_instant() -> std::time::Instant
    no_unwind
{
    std::time::Instant::now()
}

/// Relies on `Instant::elapsed` and `Duration::as_millis`: the milliseconds
/// since `start`, truncated to `u64`. The value depends on the clock, so
/// nothing is promised of it; `elapsed` saturates to zero rather than
/// failing when the clock has not advanced.
#[verifier::external_body]
pub(crate) fn elapsed_millis(start: &std::time::Instant) -> u64
    no_unwind
{
    start.elapsed().as_millis() as u64
}

/// Relies on `metrics::Key::from_parts`, `metrics::with_recorder`,
/// `metrics::Recorder::register_counter` and `metrics::Counter::increment`:
/// adds `amount` to the counter `name` with the single label
/// `route` = `route` on the installed recorder. The backend only aggregates,
/// and nothing it returns is used, so nothing is promised of the call. A
/// `Counter` handle swallows the increment when no recorder is installed;
/// a recorder's registration and increment are relied on not to fail, since
/// increments also run on cleanup paths.
#[verifier::external_body]
fn increment_counter(name: &'static str, route: &String, amount: u64)
    no_unwind
{
    let labels = vec![metrics::Label::new("route", route.clone())];
    let key = metrics::Key::from_parts(name, labels);
    let metadata = metrics::Metadata::new("route_metrics", metrics::Level::INFO, None);
    metrics::with_recorder(|r| r.register_counter(&key, &metadata)).increment(amount);
}

/// Performs one counter increment and appends the matching record to the
/// operation's emission history. This is the only pairing of a real
/// increment with its record, so a history entry means exactly one backend
/// increment with that counter, label and amount.
pub(crate) fn emit(name: CounterName, route: &String, amount: u64, log: &mut Ghost<Seq<Emission>>)
    ensures
        final(log)@ =~= old(log)@.push(emission(name, route@, amount as nat)),
    no_unwind
{
    match name {
        CounterName::ReqStarted => increment_counter("req_started", route, amount),
        CounterName::ReqTimeMs => increment_counter("req_time_ms", route, amount),
        CounterName::ReqCount => increment_counter("req_count", route, amount),
    }
    *log = Ghost(log@.push(emission(name, route@, amount as nat)));
}

} // verus!
