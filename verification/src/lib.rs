//! Debounce and cancellation logic for interactive fuzzy file-path search.
//!
//! A user types a query one character at a time. The types here decide when
//! an engine search starts, when a running one has become stale and must be
//! cancelled, and which result snapshots of a running search are published.
//! They hold no threads, clocks or channels: the caller feeds them events
//! (a keystroke, an elapsed timer, one engine tick) and carries out the
//! actions they return.

pub mod config;
pub mod laws;
pub mod manager;
pub mod prefix;
pub mod results;
pub mod worker;
