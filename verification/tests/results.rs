use search_orchestrator::prefix::starts_with;
use search_orchestrator::results::cap_results;
use search_orchestrator::results::match_paths;
use search_orchestrator::results::same_paths;
use search_orchestrator::results::FileMatch;

fn file(path: &str) -> FileMatch {
    FileMatch { path: path.to_string(), indices: None }
}

fn strings(items: &[&str]) -> Vec<String> {
    items.iter().map(|s| s.to_string()).collect()
}

#[test]
fn starts_with_agrees_with_std() {
    let cases = [
        ("", ""),
        ("abc", ""),
        ("", "a"),
        ("abc", "a"),
        ("abc", "ab"),
        ("abc", "abc"),
        ("abc", "abcd"),
        ("ab", "abc"),
        ("abc", "b"),
        ("abc", "abd"),
        ("xy", "abc"),
        ("src/gamma.rs", "src/"),
        ("héllo", "hé"),
        ("héllo", "he"),
        ("日本語", "日本"),
        ("日本語", "本"),
    ];
    for (text, prefix) in cases {
        assert_eq!(starts_with(text, prefix), text.starts_with(prefix), "{text:?} {prefix:?}");
    }
}

#[test]
fn starts_with_exact_values() {
    assert!(starts_with("ab", "a"));
    assert!(starts_with("abc", "abc"));
    assert!(starts_with("anything", ""));
    assert!(!starts_with("ab", "abc"));
    assert!(!starts_with("xy", "abc"));
    assert!(!starts_with("", "a"));
}

#[test]
fn cap_keeps_the_first_entries() {
    let ranked = vec![file("a"), file("b"), file("c")];
    assert_eq!(cap_results(ranked.clone(), 2), vec![file("a"), file("b")]);
    assert_eq!(cap_results(ranked.clone(), 3), ranked);
    assert_eq!(cap_results(ranked.clone(), 10), ranked);
    assert_eq!(cap_results(ranked, 0), Vec::<FileMatch>::new());
    assert_eq!(cap_results(Vec::new(), 8), Vec::<FileMatch>::new());
}

#[test]
fn match_paths_keeps_order() {
    let matches = vec![
        FileMatch { path: "subdir/gamma.rs".to_string(), indices: Some(vec![7]) },
        file("alpha.txt"),
    ];
    assert_eq!(match_paths(&matches), strings(&["subdir/gamma.rs", "alpha.txt"]));
    assert_eq!(match_paths(&Vec::new()), Vec::<String>::new());
}

#[test]
fn same_paths_compares_in_order() {
    assert!(same_paths(&strings(&[]), &strings(&[])));
    assert!(same_paths(&strings(&["a", "b"]), &strings(&["a", "b"])));
    assert!(!same_paths(&strings(&["a", "b"]), &strings(&["b", "a"])));
    assert!(!same_paths(&strings(&["a"]), &strings(&["a", "b"])));
    assert!(!same_paths(&strings(&["a", "b"]), &strings(&["a"])));
    assert!(!same_paths(&strings(&["a", "b"]), &strings(&["a", "c"])));
}
