//! Fixed settings of the search session.

use vstd::prelude::*;

verus! {

/// The most matches that one published snapshot holds.
pub const MAX_FILE_SEARCH_RESULTS: usize = 8;

/// The number of threads the matcher runs on.
pub const NUM_FILE_SEARCH_THREADS: usize = 2;

/// How long to wait after a keystroke before the first search starts when
/// none is running, in milliseconds. Keeps early queries more meaningful.
pub const FILE_SEARCH_DEBOUNCE_MS: u64 = 100;

/// How long to wait between two looks at whether the running search has
/// ended, once the debounce delay has passed, in milliseconds.
pub const ACTIVE_SEARCH_COMPLETE_POLL_INTERVAL_MS: u64 = 20;

/// The longest that one engine tick may block, in milliseconds.
pub const SEARCH_MANAGER_TICK_TIMEOUT_MS: u64 = 16;

/// The deadline for the first published snapshot of a search, and the quiet
/// time after which a search that has published ends, in milliseconds.
pub const SEARCH_MANAGER_FIRST_RESULT_TIMEOUT_MS: u64 = 200;

} // verus!
