use std::path::PathBuf;

use search_orchestrator::manager::ActiveSearchGuard;
use search_orchestrator::manager::DebounceOutcome;
use search_orchestrator::manager::FileSearchManager;
use search_orchestrator::manager::QueryOutcome;
use search_orchestrator::manager::SearchStart;

fn manager() -> FileSearchManager {
    FileSearchManager::new(PathBuf::from("/workspace/project"))
}

fn running(query: &str) -> (FileSearchManager, u64) {
    let mut m = manager();
    m.on_user_query(query.to_string());
    match m.on_debounce_elapsed() {
        DebounceOutcome::Start(start) => (m, start.token),
        other => panic!("expected a start, got {other:?}"),
    }
}

#[test]
fn new_manager_is_idle() {
    let m = manager();
    assert_eq!(m.latest_query(), "");
    assert!(!m.is_search_scheduled());
    assert_eq!(m.active_query(), None);
    assert_eq!(m.active_token(), None);
    assert_eq!(m.search_dir(), &PathBuf::from("/workspace/project"));
}

#[test]
fn first_query_arms_the_timer() {
    let mut m = manager();
    let outcome = m.on_user_query("gam".to_string());
    assert_eq!(outcome, QueryOutcome { cancelled: None, start_debounce: true });
    assert_eq!(m.latest_query(), "gam");
    assert!(m.is_search_scheduled());
    assert_eq!(m.active_query(), None);
}

#[test]
fn empty_query_on_fresh_manager_is_no_change() {
    let mut m = manager();
    let outcome = m.on_user_query(String::new());
    assert_eq!(outcome, QueryOutcome { cancelled: None, start_debounce: false });
    assert!(!m.is_search_scheduled());
    assert_eq!(m.on_debounce_elapsed(), DebounceOutcome::NotScheduled);
}

#[test]
fn repeated_query_changes_nothing() {
    let mut m = manager();
    m.on_user_query("abc".to_string());
    let again = m.on_user_query("abc".to_string());
    assert_eq!(again, QueryOutcome { cancelled: None, start_debounce: false });
    assert_eq!(m.latest_query(), "abc");
    assert!(m.is_search_scheduled());
    assert_eq!(m.active_query(), None);
}

#[test]
fn repeated_query_while_running_changes_nothing() {
    let (mut m, token) = running("abc");
    let again = m.on_user_query("abc".to_string());
    assert_eq!(again, QueryOutcome { cancelled: None, start_debounce: false });
    assert!(!m.is_search_scheduled());
    assert_eq!(m.active_token(), Some(token));
    assert!(!m.is_cancelled(token));
}

#[test]
fn rapid_typing_starts_one_search_for_the_last_text() {
    let mut m = manager();
    let a = m.on_user_query("a".to_string());
    let ab = m.on_user_query("ab".to_string());
    let abc = m.on_user_query("abc".to_string());
    assert!(a.start_debounce);
    assert!(!ab.start_debounce);
    assert!(!abc.start_debounce);
    assert_eq!(a.cancelled, None);
    assert_eq!(ab.cancelled, None);
    assert_eq!(abc.cancelled, None);

    let fired = m.on_debounce_elapsed();
    assert_eq!(
        fired,
        DebounceOutcome::Start(SearchStart { query: "abc".to_string(), token: 0 })
    );
    assert_eq!(m.active_query().map(|q| q.as_str()), Some("abc"));
    assert_eq!(m.active_token(), Some(0));
    assert!(!m.is_search_scheduled());
    assert_eq!(m.on_debounce_elapsed(), DebounceOutcome::NotScheduled);
}

#[test]
fn deleting_a_character_cancels_the_running_search() {
    let (mut m, token) = running("abc");
    let outcome = m.on_user_query("ab".to_string());
    assert_eq!(outcome, QueryOutcome { cancelled: Some(token), start_debounce: true });
    assert!(m.is_cancelled(token));
    assert!(m.is_search_scheduled());
    assert_eq!(m.latest_query(), "ab");
}

#[test]
fn prefix_continuation_keeps_the_running_search() {
    let (mut m, token) = running("a");
    let outcome = m.on_user_query("ab".to_string());
    assert_eq!(outcome.cancelled, None);
    assert!(outcome.start_debounce);
    assert!(!m.is_cancelled(token));
    assert_eq!(m.active_query().map(|q| q.as_str()), Some("a"));
    assert_eq!(m.active_token(), Some(token));
    assert_eq!(m.latest_query(), "ab");

    // The search for "a" goes on; the one for "ab" waits for it.
    assert_eq!(m.on_debounce_elapsed(), DebounceOutcome::Wait);
    assert_eq!(m.active_query().map(|q| q.as_str()), Some("a"));
}

#[test]
fn non_prefix_query_cancels_and_a_second_search_follows() {
    let (mut m, first) = running("abc");
    let outcome = m.on_user_query("xy".to_string());
    assert_eq!(outcome, QueryOutcome { cancelled: Some(first), start_debounce: true });
    assert!(m.is_cancelled(first));

    // The timer fires while the first worker is still on its way out.
    assert_eq!(m.on_debounce_elapsed(), DebounceOutcome::Wait);
    assert_eq!(m.on_debounce_elapsed(), DebounceOutcome::Wait);
    assert_eq!(m.active_token(), Some(first));

    ActiveSearchGuard::new(first).release(&mut m);
    assert_eq!(m.active_token(), None);
    assert!(m.is_search_scheduled());

    let second = m.on_debounce_elapsed();
    assert_eq!(
        second,
        DebounceOutcome::Start(SearchStart { query: "xy".to_string(), token: first + 1 })
    );
    assert_eq!(m.active_query().map(|q| q.as_str()), Some("xy"));
    assert!(!m.is_cancelled(first + 1));
    assert!(!m.is_cancelled(first));
}

#[test]
fn empty_active_query_is_a_prefix_of_everything() {
    let mut m = manager();
    m.on_user_query("x".to_string());
    m.on_user_query(String::new());
    let token = match m.on_debounce_elapsed() {
        DebounceOutcome::Start(start) => {
            assert_eq!(start.query, "");
            start.token
        }
        other => panic!("expected a start, got {other:?}"),
    };
    let outcome = m.on_user_query("anything".to_string());
    assert_eq!(outcome, QueryOutcome { cancelled: None, start_debounce: true });
    assert!(!m.is_cancelled(token));
}

#[test]
fn cancelled_search_stays_cancelled_when_extended() {
    let (mut m, token) = running("abc");
    m.on_user_query("x".to_string());
    assert!(m.is_cancelled(token));
    let outcome = m.on_user_query("abcd".to_string());
    assert_eq!(outcome, QueryOutcome { cancelled: None, start_debounce: false });
    assert!(m.is_cancelled(token));
    assert_eq!(m.on_debounce_elapsed(), DebounceOutcome::Wait);
}

#[test]
fn second_stale_query_names_the_search_again() {
    let (mut m, token) = running("abc");
    m.on_user_query("x".to_string());
    let outcome = m.on_user_query("y".to_string());
    assert_eq!(outcome, QueryOutcome { cancelled: Some(token), start_debounce: false });
    assert!(m.is_cancelled(token));
}

#[test]
fn no_search_starts_while_one_is_active() {
    let (mut m, token) = running("abc");
    m.on_user_query("abcd".to_string());
    for _ in 0..5 {
        assert_eq!(m.on_debounce_elapsed(), DebounceOutcome::Wait);
        assert_eq!(m.active_token(), Some(token));
    }
}

#[test]
fn guard_with_another_token_clears_nothing() {
    let (mut m, token) = running("abc");
    let stale = ActiveSearchGuard::new(token + 7);
    assert_eq!(stale.token(), token + 7);
    stale.release(&mut m);
    assert_eq!(m.active_token(), Some(token));
    assert_eq!(m.active_query().map(|q| q.as_str()), Some("abc"));
}

#[test]
fn guard_released_twice_leaves_the_successor_alone() {
    let (mut m, first) = running("abc");
    m.on_user_query("xy".to_string());
    ActiveSearchGuard::new(first).release(&mut m);
    let second = match m.on_debounce_elapsed() {
        DebounceOutcome::Start(start) => start.token,
        other => panic!("expected a start, got {other:?}"),
    };
    assert_ne!(first, second);
    ActiveSearchGuard::new(first).release(&mut m);
    assert_eq!(m.active_token(), Some(second));
}

#[test]
fn release_on_idle_manager_changes_nothing() {
    let mut m = manager();
    ActiveSearchGuard::new(0).release(&mut m);
    assert_eq!(m.active_token(), None);
    assert!(!m.is_search_scheduled());
    assert_eq!(m.latest_query(), "");
}

#[test]
fn finished_search_returns_to_idle() {
    let (mut m, token) = running("gam");
    ActiveSearchGuard::new(token).release(&mut m);
    assert_eq!(m.active_token(), None);
    assert!(!m.is_search_scheduled());
    assert_eq!(m.latest_query(), "gam");
    assert_eq!(m.on_debounce_elapsed(), DebounceOutcome::NotScheduled);
    // The same text again is still no change.
    assert_eq!(
        m.on_user_query("gam".to_string()),
        QueryOutcome { cancelled: None, start_debounce: false }
    );
}

#[test]
fn tokens_count_up_from_zero() {
    let mut m = manager();
    for expected in 0..4u64 {
        m.on_user_query(format!("q{expected}"));
        match m.on_debounce_elapsed() {
            DebounceOutcome::Start(start) => {
                assert_eq!(start.token, expected);
                assert_eq!(start.query, format!("q{expected}"));
            }
            other => panic!("expected a start, got {other:?}"),
        }
        ActiveSearchGuard::new(expected).release(&mut m);
    }
}

#[test]
fn search_dir_survives_every_event() {
    let (mut m, token) = running("abc");
    m.on_user_query("zzz".to_string());
    ActiveSearchGuard::new(token).release(&mut m);
    m.on_debounce_elapsed();
    assert_eq!(m.search_dir(), &PathBuf::from("/workspace/project"));
}
