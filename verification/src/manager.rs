//! The orchestrator between the keystroke stream and the engine.
//!
//! Every change of the query reaches [`FileSearchManager::on_user_query`].
//! The manager tries to ensure that
//!
//! - even when the user types long text quickly, results show up after a
//!   short delay, for an early version of what was typed, and
//! - at most one search is in flight at any time.
//!
//! It works as follows:
//!
//! 1. The first query arms a debounce timer.
//! 2. While the timer is pending, only the latest query is stored.
//! 3. When the timer fires and no search is running, the timer is cleared
//!    and a search starts for the latest query.
//! 4. A running search whose query is not a prefix of the latest query is
//!    asked to stop.
//!
//! The manager keeps the state and takes the decisions. The caller owns the
//! timer and the worker threads: it reports their events and carries out the
//! actions that the manager returns.

use std::path::PathBuf;
use vstd::prelude::*;
use crate::prefix::starts_with;

verus! {

/// `std::path::PathBuf`, carried through as an opaque value.
#[verifier::external_type_specification]
#[verifier::external_body]
pub struct ExPathBuf(std::path::PathBuf);

/// The search in flight, as contracts see it.
pub struct ActiveSearchState {
    pub query: Seq<char>,
    pub token: u64,
    pub cancelled: bool,
}

/// The orchestrator's state, as contracts see it.
pub struct SearchState {
    /// Latest query typed by the user (updated on every keystroke).
    pub latest_query: Seq<char>,
    /// A debounce timer is armed.
    pub is_search_scheduled: bool,
    /// The search in flight, if there is one.
    pub active_search: Option<ActiveSearchState>,
    /// The token that the next search will get.
    pub next_token: u64,
}

/// What the caller does after a keystroke.
#[derive(Clone, Copy, Debug, PartialEq, Eq)]
pub struct QueryOutcome {
    /// The token of the search to signal to stop, if any.
    pub cancelled: Option<u64>,
    /// Arm the debounce timer: no other is pending.
    pub start_debounce: bool,
}

/// The identity of a search that is to start now.
#[derive(Clone, Debug, PartialEq, Eq)]
pub struct SearchStart {
    pub query: String,
    pub token: u64,
}

/// What the caller does when the debounce timer has fired.
#[derive(Clone, Debug, PartialEq, Eq)]
pub enum DebounceOutcome {
    /// No timer was armed: nothing to do.
    NotScheduled,
    /// A search is still in flight: look again after the poll interval.
    Wait,
    /// Start the engine worker for this search.
    Start(SearchStart),
}

/// The token that follows `token`.
pub open spec fn token_after(token: u64) -> u64 {
    if token == u64::MAX {
        0
    } else {
        (token + 1) as u64
    }
}

impl SearchState {
    /// The state of a fresh orchestrator: nothing typed, nothing armed,
    /// nothing running.
    pub open spec fn initial() -> SearchState {
        SearchState {
            latest_query: Seq::empty(),
            is_search_scheduled: false,
            active_search: None,
            next_token: 0,
        }
    }

    /// How many searches are in flight.
    pub open spec fn active_count(self) -> nat {
        if self.active_search is Some {
            1
        } else {
            0
        }
    }

    /// What holds of every state that the orchestrator reaches: a search in
    /// flight that has not been asked to stop searches for a prefix of the
    /// latest query; unless a timer is armed, it searches for the latest
    /// query itself and has not been asked to stop; and the next token is
    /// not the one in use.
    pub open spec fn wf(self) -> bool {
        self.active_search matches Some(active) ==> {
            &&& !active.cancelled ==> active.query.is_prefix_of(self.latest_query)
            &&& !self.is_search_scheduled ==> active.query == self.latest_query
                && !active.cancelled
            &&& active.token != self.next_token
        }
    }

    /// Whether the search in flight is obsolete for `query`: its own query
    /// is not a prefix of it.
    pub open spec fn is_stale_for(self, query: Seq<char>) -> bool {
        self.active_search matches Some(active) && !active.query.is_prefix_of(query)
    }

    /// The state after the user's query has become `query`.
    pub open spec fn after_query(self, query: Seq<char>) -> SearchState {
        if query == self.latest_query {
            self
        } else {
            SearchState {
                latest_query: query,
                is_search_scheduled: true,
                active_search: match self.active_search {
                    Some(active) => Some(
                        ActiveSearchState {
                            query: active.query,
                            token: active.token,
                            cancelled: active.cancelled || self.is_stale_for(query),
                        },
                    ),
                    None => None,
                },
                next_token: self.next_token,
            }
        }
    }

    /// What the caller is told to do after the user's query has become
    /// `query`.
    pub open spec fn query_outcome(self, query: Seq<char>) -> QueryOutcome {
        if query == self.latest_query {
            QueryOutcome { cancelled: None, start_debounce: false }
        } else {
            QueryOutcome {
                cancelled: if self.is_stale_for(query) {
                    Some(self.active_search->0.token)
                } else {
                    None
                },
                start_debounce: !self.is_search_scheduled,
            }
        }
    }

    /// Whether a fired timer starts a search: one is scheduled and none is
    /// in flight.
    pub open spec fn can_start(self) -> bool {
        self.is_search_scheduled && self.active_search is None
    }

    /// The state after the debounce timer has fired.
    pub open spec fn after_debounce(self) -> SearchState {
        if self.can_start() {
            SearchState {
                latest_query: self.latest_query,
                is_search_scheduled: false,
                active_search: Some(
                    ActiveSearchState {
                        query: self.latest_query,
                        token: self.next_token,
                        cancelled: false,
                    },
                ),
                next_token: token_after(self.next_token),
            }
        } else {
            self
        }
    }

    /// The state after the worker that holds `token` has ended.
    pub open spec fn after_release(self, token: u64) -> SearchState {
        if self.active_search matches Some(active) && active.token == token {
            SearchState {
                latest_query: self.latest_query,
                is_search_scheduled: self.is_search_scheduled,
                active_search: None,
                next_token: self.next_token,
            }
        } else {
            self
        }
    }
}

/// The search in flight.
struct ActiveSearch {
    query: String,
    token: u64,
    cancelled: bool,
}

/// State machine for file-search orchestration.
pub struct FileSearchManager {
    latest_query: String,
    is_search_scheduled: bool,
    active_search: Option<ActiveSearch>,
    next_token: u64,
    search_dir: PathBuf,
}

/// Clears the search in flight when its worker ends, unless another search
/// has taken its place.
pub struct ActiveSearchGuard {
    token: u64,
}

impl FileSearchManager {
    /// The orchestrator's state as contracts see it.
    pub closed spec fn view(&self) -> SearchState {
        SearchState {
            latest_query: self.latest_query@,
            is_search_scheduled: self.is_search_scheduled,
            active_search: match self.active_search {
                Some(active) => Some(
                    ActiveSearchState {
                        query: active.query@,
                        token: active.token,
                        cancelled: active.cancelled,
                    },
                ),
                None => None,
            },
            next_token: self.next_token,
        }
    }

    /// The directory that searches walk, as contracts see it.
    pub closed spec fn root(&self) -> PathBuf {
        self.search_dir
    }

    /// An orchestrator for searches below `search_dir`.
    pub fn new(search_dir: PathBuf) -> (manager: Self)
        ensures
            manager@ == SearchState::initial(),
            manager@.wf(),
            manager.root() == search_dir,
    {
        FileSearchManager {
            latest_query: String::new(),
            is_search_scheduled: false,
            active_search: None,
            next_token: 0,
            search_dir,
        }
    }

    /// The directory that searches walk.
    pub fn search_dir(&self) -> (dir: &PathBuf)
        ensures
            *dir == self.root(),
    {
        &self.search_dir
    }

    /// Call whenever the user edits the query.
    ///
    /// A query equal to the latest one changes nothing. Otherwise it becomes
    /// the latest query; the search in flight, if its query is not a prefix
    /// of the new one, is marked as cancelled and named in the outcome; and
    /// the caller is told to arm the debounce timer unless one is pending.
    pub fn on_user_query(&mut self, query: String) -> (outcome: QueryOutcome)
        ensures
            final(self)@ == old(self)@.after_query(query@),
            outcome == old(self)@.query_outcome(query@),
            final(self).root() == old(self).root(),
            old(self)@.wf() ==> final(self)@.wf(),
    {
        if query == self.latest_query {
            // No change, nothing to do.
            return QueryOutcome { cancelled: None, start_debounce: false };
        }
        // If there is an in-flight search that is definitely obsolete,
        // cancel it now.

        let mut cancelled: Option<u64> = None;
        match &mut self.active_search {
            Some(active) => {
                if !starts_with(query.as_str(), active.query.as_str()) {
                    active.cancelled = true;
                    cancelled = Some(active.token);
                }
            },
            None => {},
        }

        // Update latest query.
        self.latest_query = query;

        // Schedule a search to run after debounce.
        let start_debounce = !self.is_search_scheduled;
        self.is_search_scheduled = true;
        QueryOutcome { cancelled, start_debounce }
    }

    /// Call when the debounce delay has passed, and again after each poll
    /// interval for as long as the answer is `Wait`.
    ///
    /// With a search scheduled and none in flight, the search for the latest
    /// query starts: it becomes the search in flight under a fresh token and
    /// the schedule is cleared. Otherwise nothing changes.
    pub fn on_debounce_elapsed(&mut self) -> (outcome: DebounceOutcome)
        ensures
            final(self)@ == old(self)@.after_debounce(),
            final(self).root() == old(self).root(),
            old(self)@.wf() ==> final(self)@.wf(),
            outcome is NotScheduled <==> !old(self)@.is_search_scheduled,
            outcome is Wait <==> old(self)@.is_search_scheduled && old(self)@.active_search is Some,
            outcome is Start <==> old(self)@.can_start(),
            outcome matches DebounceOutcome::Start(start) ==> start.query@ == old(self)@.latest_query
                && start.token == old(self)@.next_token,
    {
        if !self.is_search_scheduled {
            return DebounceOutcome::NotScheduled;
        }
        if self.active_search.is_some() {
            return DebounceOutcome::Wait;
        }
        // The debounce timer has expired, so start a search using the
        // latest query.

        let token = self.next_token;
        let query = self.latest_query.clone();
        self.next_token = if token == u64::MAX {
            0
        } else {
            token + 1
        };
        self.is_search_scheduled = false;
        self.active_search = Some(ActiveSearch { query: query.clone(), token, cancelled: false });
        DebounceOutcome::Start(SearchStart { query, token })
    }

    /// Latest query typed by the user.
    pub fn latest_query(&self) -> (query: &String)
        ensures
            query@ == self@.latest_query,
    {
        &self.latest_query
    }

    /// Whether a debounce timer is armed.
    pub fn is_search_scheduled(&self) -> (scheduled: bool)
        ensures
            scheduled == self@.is_search_scheduled,
    {
        self.is_search_scheduled
    }

    /// The query of the search in flight, if there is one.
    pub fn active_query(&self) -> (query: Option<&String>)
        ensures
            query is Some <==> self@.active_search is Some,
            query matches Some(q) ==> q@ == self@.active_search->0.query,
    {
        match &self.active_search {
            Some(active) => Some(&active.query),
            None => None,
        }
    }

    /// The token of the search in flight, if there is one.
    pub fn active_token(&self) -> (token: Option<u64>)
        ensures
            token is Some <==> self@.active_search is Some,
            token matches Some(t) ==> t == self@.active_search->0.token,
    {
        match &self.active_search {
            Some(active) => Some(active.token),
            None => None,
        }
    }

    /// Whether the search that holds `token` is in flight and has been
    /// asked to stop.
    pub fn is_cancelled(&self, token: u64) -> (cancelled: bool)
        ensures
            cancelled == (self@.active_search matches Some(active) && active.token == token
                && active.cancelled),
    {
        match &self.active_search {
            Some(active) => active.token == token && active.cancelled,
            None => false,
        }
    }
}

impl ActiveSearchGuard {
    /// The token of the search that this guard stands for.
    pub closed spec fn view(&self) -> u64 {
        self.token
    }

    /// A guard for the search that holds `token`.
    pub fn new(token: u64) -> (guard: Self)
        ensures
            guard@ == token,
    {
        Self { token }
    }

    /// The token of the search that this guard stands for.
    pub fn token(&self) -> (token: u64)
        ensures
            token == self@,
    {
        self.token
    }

    /// Call on every way out of the engine worker. Clears the search in
    /// flight if it is still the guard's own; a search that has taken its
    /// place since is left alone.
    pub fn release(self, manager: &mut FileSearchManager)
        ensures
            final(manager)@ == old(manager)@.after_release(self@),
            final(manager).root() == old(manager).root(),
            old(manager)@.wf() ==> final(manager)@.wf(),
    {
        let is_own = match &manager.active_search {
            Some(active) => active.token == self.token,
            None => false,
        };
        if is_own {
            manager.active_search = None;
        }
    }
}

} // verus!
