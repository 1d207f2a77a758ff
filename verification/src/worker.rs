//! The decisions of one engine search: which snapshots to publish and when
//! to stop.
//!
//! The caller owns the engine and the clock. Once per pass of its loop it
//! ticks the engine, reads the engine's ranked matches, and hands both to
//! [`SearchWorker::step`], which answers with the event to publish, if any,
//! and whether the search is over.

use vstd::prelude::*;
use crate::config::MAX_FILE_SEARCH_RESULTS;
use crate::config::SEARCH_MANAGER_FIRST_RESULT_TIMEOUT_MS;
use crate::results::cap_results;
use crate::results::capped;
use crate::results::match_paths;
use crate::results::paths_of;
use crate::results::same_paths;
use crate::results::FileMatch;
use crate::results::FileSearchResult;

verus! {

/// What the engine reports after one tick.
#[derive(Clone, Copy, Debug, PartialEq, Eq)]
pub struct TickStatus {
    /// The walker or the matcher still has work to do.
    pub running: bool,
    /// The snapshot may differ from the one before this tick.
    pub changed: bool,
}

/// What one pass of the worker's loop observed.
#[derive(Clone, Copy, Debug, PartialEq, Eq)]
pub struct TickReport {
    /// The engine's answer to the tick.
    pub status: TickStatus,
    /// The engine called the notifier since the previous pass.
    pub notified: bool,
    /// The search has been asked to stop.
    pub cancelled: bool,
    /// Milliseconds since the worker started.
    pub elapsed_ms: u64,
}

/// The answer to one pass of the loop.
#[derive(Debug)]
pub struct WorkerStep {
    /// The event to publish now, if any.
    pub event: Option<FileSearchResult>,
    /// The search is over: the caller leaves its loop.
    pub finished: bool,
}

/// The state of a worker as contracts see it.
pub struct WorkerState {
    pub query: Seq<char>,
    pub last_sent_paths: Seq<Seq<char>>,
    pub sent_once: bool,
    pub last_progress_ms: u64,
}

/// The bookkeeping of one engine search.
pub struct SearchWorker {
    query: String,
    last_sent_paths: Vec<String>,
    sent_once: bool,
    last_progress_ms: u64,
}

/// The deadline for the first snapshot has passed.
pub open spec fn first_result_due(tick: TickReport) -> bool {
    tick.elapsed_ms >= SEARCH_MANAGER_FIRST_RESULT_TIMEOUT_MS
}

/// The engine has nothing left to do and has not stirred since the previous
/// pass.
pub open spec fn settled(tick: TickReport) -> bool {
    !tick.status.running && !tick.notified
}

/// The worker last published at least a full timeout ago.
pub open spec fn quiet_since_progress(w: WorkerState, tick: TickReport) -> bool {
    tick.elapsed_ms >= w.last_progress_ms && tick.elapsed_ms - w.last_progress_ms
        >= SEARCH_MANAGER_FIRST_RESULT_TIMEOUT_MS
}

/// Whether the snapshot with these paths is streamed to the consumer: never
/// for a cancelled search; otherwise whenever the paths differ from those
/// last sent, and for the first snapshot as soon as the engine stirs, stops,
/// or the deadline passes.
pub open spec fn should_emit(w: WorkerState, tick: TickReport, paths: Seq<Seq<char>>) -> bool {
    !tick.cancelled && (paths != w.last_sent_paths || (!w.sent_once && (tick.notified
        || tick.status.changed || !tick.status.running || first_result_due(tick))))
}

/// The worker's state after the pass.
pub open spec fn after_step(w: WorkerState, tick: TickReport, paths: Seq<Seq<char>>) -> WorkerState {
    if should_emit(w, tick, paths) {
        WorkerState {
            query: w.query,
            last_sent_paths: paths,
            sent_once: true,
            last_progress_ms: tick.elapsed_ms,
        }
    } else {
        w
    }
}

/// Whether the search is over after this pass: at once for a cancelled
/// search, which leaves without a word; otherwise once a snapshot has been
/// published, the engine has settled, and a full timeout has passed since
/// the last one went out.
pub open spec fn finishes(w: WorkerState, tick: TickReport, paths: Seq<Seq<char>>) -> bool {
    let next = after_step(w, tick, paths);
    tick.cancelled || (next.sent_once && settled(tick) && quiet_since_progress(next, tick))
}

impl SearchWorker {
    /// The worker's state as contracts see it.
    pub closed spec fn view(&self) -> WorkerState {
        WorkerState {
            query: self.query@,
            last_sent_paths: self.last_sent_paths.deep_view(),
            sent_once: self.sent_once,
            last_progress_ms: self.last_progress_ms,
        }
    }

    /// A worker for `query` that has published nothing yet.
    pub fn new(query: String) -> (worker: Self)
        ensures
            worker@ == (WorkerState {
                query: query@,
                last_sent_paths: Seq::empty(),
                sent_once: false,
                last_progress_ms: 0,
            }),
    {
        let worker = SearchWorker {
            query,
            last_sent_paths: Vec::new(),
            sent_once: false,
            last_progress_ms: 0,
        };
        assert(worker.last_sent_paths.deep_view() =~= Seq::<Seq<char>>::empty());
        worker
    }

    /// The query this worker searches for.
    pub fn query(&self) -> (query: &String)
        ensures
            query@ == self@.query,
    {
        &self.query
    }

    /// Whether the worker has streamed a snapshot.
    pub fn sent_once(&self) -> (sent: bool)
        ensures
            sent == self@.sent_once,
    {
        self.sent_once
    }

    /// The event that stands for an engine that could not be started: the
    /// consumer sees no matches for the query.
    pub fn init_failed(self) -> (event: FileSearchResult)
        ensures
            event.query@ == self@.query,
            event.matches@ == Seq::<FileMatch>::empty(),
    {
        FileSearchResult { query: self.query, matches: Vec::new() }
    }

    /// One pass of the loop, after the engine's tick. `ranked` is the
    /// engine's current snapshot, best first; only its first
    /// `MAX_FILE_SEARCH_RESULTS` entries are looked at and published.
    ///
    /// A pass that is told of the cancellation publishes nothing and ends
    /// the search.
    pub fn step(&mut self, tick: TickReport, ranked: Vec<FileMatch>) -> (out: WorkerStep)
        ensures
            final(self)@ == after_step(
                old(self)@,
                tick,
                paths_of(capped(ranked@, MAX_FILE_SEARCH_RESULTS as nat)),
            ),
            out.finished == finishes(
                old(self)@,
                tick,
                paths_of(capped(ranked@, MAX_FILE_SEARCH_RESULTS as nat)),
            ),
            out.event is Some <==> should_emit(
                old(self)@,
                tick,
                paths_of(capped(ranked@, MAX_FILE_SEARCH_RESULTS as nat)),
            ),
            tick.cancelled ==> out.event is None && out.finished,
            out.event is Some ==> out.event->0.query@ == old(self)@.query,
            out.event is Some ==> out.event->0.matches@ == capped(
                ranked@,
                MAX_FILE_SEARCH_RESULTS as nat,
            ),
            out.event is Some ==> out.event->0.matches@.len() <= MAX_FILE_SEARCH_RESULTS,
    {
        let matches = cap_results(ranked, MAX_FILE_SEARCH_RESULTS);
        let paths = match_paths(&matches);

        let paths_changed = !same_paths(&paths, &self.last_sent_paths);
        let timeout_elapsed = tick.elapsed_ms >= SEARCH_MANAGER_FIRST_RESULT_TIMEOUT_MS;

        let should_emit = !tick.cancelled && (paths_changed || (!self.sent_once && (tick.notified
            || tick.status.changed || !tick.status.running || timeout_elapsed)));

        if should_emit {
            self.sent_once = true;
            self.last_sent_paths = paths;
            self.last_progress_ms = tick.elapsed_ms;
            let event = FileSearchResult { query: self.query.clone(), matches };
            return WorkerStep { event: Some(event), finished: false };
        }
        if tick.cancelled {
            // Cancelled work never surfaces: leave without an event.
            return WorkerStep { event: None, finished: true };
        }
        // Nothing new to show. The search is over once the engine has
        // settled and the last snapshot went out a full timeout ago.
        let settled = !tick.status.running && !tick.notified;
        let quiet = tick.elapsed_ms >= self.last_progress_ms && tick.elapsed_ms
            - self.last_progress_ms >= SEARCH_MANAGER_FIRST_RESULT_TIMEOUT_MS;
        WorkerStep { event: None, finished: self.sent_once && settled && quiet }
    }
}

} // verus!
