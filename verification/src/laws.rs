//! What holds of the orchestrator and of a worker whatever the user types
//! and whatever the engine reports.

use vstd::prelude::*;
use crate::config::SEARCH_MANAGER_FIRST_RESULT_TIMEOUT_MS;
use crate::manager::token_after;
use crate::manager::ActiveSearchState;
use crate::manager::QueryOutcome;
use crate::manager::SearchState;
use crate::results::capped;
use crate::results::descending_by;
use crate::results::FileMatch;
use crate::worker::after_step;
use crate::worker::finishes;
use crate::worker::first_result_due;
use crate::worker::settled;
use crate::worker::should_emit;
use crate::worker::TickReport;
use crate::worker::WorkerState;

verus! {

/// Something that happens to the orchestrator.
pub enum Event {
    /// The user's query has become this text.
    Query(Seq<char>),
    /// The debounce timer has fired, or a poll interval after it has passed.
    DebounceElapsed,
    /// The worker that holds this token has ended.
    Released(u64),
}

/// The state after one event.
pub open spec fn after_event(state: SearchState, event: Event) -> SearchState {
    match event {
        Event::Query(query) => state.after_query(query),
        Event::DebounceElapsed => state.after_debounce(),
        Event::Released(token) => state.after_release(token),
    }
}

/// The state after a run of events, the first of them first.
pub open spec fn after_events(state: SearchState, events: Seq<Event>) -> SearchState
    decreases events.len(),
{
    if events.len() == 0 {
        state
    } else {
        after_event(after_events(state, events.drop_last()), events.last())
    }
}

/// No event leads out of the well-formed states.
pub proof fn law_events_keep_wf(state: SearchState, event: Event)
    requires
        state.wf(),
    ensures
        after_event(state, event).wf(),
{
    assert(token_after(state.next_token) != state.next_token);
}

/// Through the whole life of an orchestrator, whatever happens to it, its
/// state is well formed and at most one search is in flight.
pub proof fn law_lifetime_invariant(events: Seq<Event>)
    ensures
        after_events(SearchState::initial(), events).wf(),
        after_events(SearchState::initial(), events).active_count() <= 1,
    decreases events.len(),
{
    if events.len() > 0 {
        law_lifetime_invariant(events.drop_last());
        law_events_keep_wf(after_events(SearchState::initial(), events.drop_last()), events.last());
    }
}

/// A search starts only when none is in flight: while one is, cancelled or
/// not, a fired timer changes nothing.
pub proof fn law_no_start_while_active(state: SearchState)
    requires
        state.active_search is Some,
    ensures
        state.after_debounce() == state,
        !state.can_start(),
{
}

/// A query that the search in flight is stale for leaves that search
/// cancelled, names it to the caller (unless the query repeats the latest
/// one, in which case it was cancelled before), and no other search starts
/// until its worker has ended.
pub proof fn law_stale_search_is_cancelled(state: SearchState, query: Seq<char>)
    requires
        state.wf(),
        state.is_stale_for(query),
    ensures
        state.after_query(query).active_search is Some,
        state.after_query(query).active_search->0.cancelled,
        state.after_query(query).active_search->0.token == state.active_search->0.token,
        state.after_query(query).active_search->0.query == state.active_search->0.query,
        query != state.latest_query ==> state.query_outcome(query).cancelled == Some(
            state.active_search->0.token,
        ),
        state.after_query(query).is_search_scheduled,
        state.after_query(query).after_debounce() == state.after_query(query),
{
}

/// A query that extends the query of the search in flight lets that search
/// go on: it is neither cancelled nor named to the caller.
pub proof fn law_extension_keeps_search(state: SearchState, query: Seq<char>)
    requires
        state.active_search is Some,
        state.active_search->0.query.is_prefix_of(query),
    ensures
        state.after_query(query).active_search == state.active_search,
        state.query_outcome(query).cancelled is None,
{
}

/// The same query twice in a row: the second call changes nothing and asks
/// for nothing.
pub proof fn law_repeated_query_is_noop(state: SearchState, query: Seq<char>)
    ensures
        state.after_query(query).after_query(query) == state.after_query(query),
        state.after_query(query).query_outcome(query) == (QueryOutcome {
            cancelled: None,
            start_debounce: false,
        }),
{
}

/// However fast the user types, one timer is armed: a query that follows a
/// changed query never asks for another.
pub proof fn law_one_timer_per_burst(state: SearchState, first: Seq<char>, second: Seq<char>)
    requires
        first != state.latest_query,
    ensures
        state.after_query(first).is_search_scheduled,
        !state.after_query(first).query_outcome(second).start_debounce,
{
}

/// The search that a fired timer starts is the one for the latest query,
/// under a token that the next search will not get.
pub proof fn law_start_takes_latest_query(state: SearchState)
    requires
        state.can_start(),
    ensures
        state.after_debounce().active_search is Some,
        state.after_debounce().active_search->0.query == state.latest_query,
        !state.after_debounce().active_search->0.cancelled,
        state.after_debounce().active_search->0.token == state.next_token,
        state.after_debounce().next_token != state.next_token,
        !state.after_debounce().is_search_scheduled,
{
    assert(token_after(state.next_token) != state.next_token);
}

/// The latest text does not go unsearched: whenever a timer is armed, the
/// search that starts once the one in flight has ended and the timer has
/// fired is the search for the latest query.
pub proof fn law_pending_search_is_for_latest_query(state: SearchState)
    requires
        state.is_search_scheduled,
        state.active_search is Some,
    ensures
        state.after_release(state.active_search->0.token).can_start(),
        state.after_release(state.active_search->0.token).after_debounce().active_search
            == Some(
            ActiveSearchState {
                query: state.latest_query,
                token: state.next_token,
                cancelled: false,
            },
        ),
{
}

/// With no timer armed, the search in flight is the search for the latest
/// query and has not been asked to stop.
pub proof fn law_unscheduled_search_is_current(events: Seq<Event>)
    requires
        after_events(SearchState::initial(), events).active_search is Some,
        !after_events(SearchState::initial(), events).is_search_scheduled,
    ensures
        after_events(SearchState::initial(), events).active_search->0.query == after_events(
            SearchState::initial(),
            events,
        ).latest_query,
        !after_events(SearchState::initial(), events).active_search->0.cancelled,
{
    law_lifetime_invariant(events);
}

/// A guard clears its own search and no other.
pub proof fn law_release_clears_own_search(state: SearchState, token: u64)
    ensures
        state.active_search is Some && state.active_search->0.token == token
            ==> state.after_release(token).active_search is None,
        state.active_search is Some && state.active_search->0.token != token
            ==> state.after_release(token) == state,
        state.after_release(token).latest_query == state.latest_query,
        state.after_release(token).is_search_scheduled == state.is_search_scheduled,
{
}

/// A cancelled worker is silent: the pass that is told of the cancellation
/// publishes no event, whatever the engine reports and whatever the worker
/// has published before, leaves the worker's state as it was, and ends the
/// search.
pub proof fn law_cancelled_worker_is_silent(w: WorkerState, tick: TickReport, paths: Seq<Seq<char>>)
    requires
        tick.cancelled,
    ensures
        !should_emit(w, tick, paths),
        after_step(w, tick, paths) == w,
        finishes(w, tick, paths),
{
}

/// What one pass of a worker's loop is given: the report and the paths of
/// the capped snapshot.
pub struct Pass {
    pub tick: TickReport,
    pub paths: Seq<Seq<char>>,
}

/// How many events a worker publishes when its loop is handed these passes,
/// the first of them first: the loop stops at the pass that ends the
/// search, and the passes behind that one are never made.
pub open spec fn events_published(w: WorkerState, passes: Seq<Pass>) -> nat
    decreases passes.len(),
{
    if passes.len() == 0 {
        0
    } else {
        let pass = passes.first();
        let now: nat = if should_emit(w, pass.tick, pass.paths) {
            1
        } else {
            0
        };
        if finishes(w, pass.tick, pass.paths) {
            now
        } else {
            now + events_published(after_step(w, pass.tick, pass.paths), passes.drop_first())
        }
    }
}

/// Once a pass has been told of the cancellation, the worker publishes
/// nothing more: not on that pass, and not on any that might follow.
pub proof fn law_nothing_published_after_cancel(w: WorkerState, passes: Seq<Pass>)
    requires
        passes.len() > 0,
        passes.first().tick.cancelled,
    ensures
        events_published(w, passes) == 0,
{
}

/// A pass that publishes a snapshot does not end the search.
pub proof fn law_publishing_pass_goes_on(w: WorkerState, tick: TickReport, paths: Seq<Seq<char>>)
    requires
        should_emit(w, tick, paths),
    ensures
        !tick.cancelled,
        !finishes(w, tick, paths),
{
}

/// Every search that is not cancelled publishes at least once: the pass
/// that ends it follows a published snapshot.
pub proof fn law_search_publishes_before_it_ends(
    w: WorkerState,
    tick: TickReport,
    paths: Seq<Seq<char>>,
)
    requires
        finishes(w, tick, paths),
        !tick.cancelled,
    ensures
        w.sent_once,
        !should_emit(w, tick, paths),
{
}

/// A snapshot is not sent twice in a row: after a pass that streamed these
/// paths, a pass that sees the same paths publishes nothing.
pub proof fn law_same_paths_not_resent(
    w: WorkerState,
    first: TickReport,
    second: TickReport,
    paths: Seq<Seq<char>>,
)
    requires
        should_emit(w, first, paths),
    ensures
        !should_emit(after_step(w, first, paths), second, paths),
        after_step(after_step(w, first, paths), second, paths) == after_step(w, first, paths),
{
}

/// A worker that has not been cancelled publishes its first snapshot, empty
/// or not, no later than the pass on which the deadline has passed or the
/// engine has stopped.
pub proof fn law_first_result_by_deadline(w: WorkerState, tick: TickReport, paths: Seq<Seq<char>>)
    requires
        !tick.cancelled,
        !w.sent_once,
        first_result_due(tick) || !tick.status.running,
    ensures
        should_emit(w, tick, paths),
        after_step(w, tick, paths).sent_once,
{
}

/// A worker that has published ends once the engine has settled and a full
/// timeout has passed without a new snapshot; until then it goes on unless
/// it is cancelled.
pub proof fn law_worker_ends_when_quiet(w: WorkerState, tick: TickReport, paths: Seq<Seq<char>>)
    requires
        w.sent_once,
        !tick.cancelled,
        paths == w.last_sent_paths,
    ensures
        finishes(w, tick, paths) <==> settled(tick) && tick.elapsed_ms >= w.last_progress_ms
            && tick.elapsed_ms - w.last_progress_ms >= SEARCH_MANAGER_FIRST_RESULT_TIMEOUT_MS,
{
}

/// No capped snapshot holds more than the limit, and it is the ranked list's
/// beginning.
pub proof fn law_cap_bounds_snapshot(ranked: Seq<FileMatch>, limit: nat)
    ensures
        capped(ranked, limit).len() <= limit,
        capped(ranked, limit).len() <= ranked.len(),
        capped(ranked, limit).is_prefix_of(ranked),
        ranked.len() <= limit ==> capped(ranked, limit) == ranked,
{
}

/// Capping keeps the order: a list that is best first under a rank is still
/// best first under it once capped.
pub proof fn law_cap_keeps_rank_order(
    ranked: Seq<FileMatch>,
    limit: nat,
    rank: spec_fn(FileMatch) -> int,
)
    requires
        descending_by(ranked, rank),
    ensures
        descending_by(capped(ranked, limit), rank),
{
}

} // verus!
