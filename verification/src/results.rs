//! Result snapshots: ranked matches, their paths, and the cap on their number.

use vstd::prelude::*;

verus! {

/// One ranked match: the path of a file and, where the matcher computed
/// them, the positions within the path that matched the query.
#[derive(Clone, Debug, PartialEq, Eq)]
pub struct FileMatch {
    pub path: String,
    pub indices: Option<Vec<u32>>,
}

/// The event handed to the consumer: the query searched for and the
/// matches found so far, best first.
#[derive(Clone, Debug, PartialEq, Eq)]
pub struct FileSearchResult {
    pub query: String,
    pub matches: Vec<FileMatch>,
}

/// The paths of a sequence of matches, in the same order.
pub open spec fn paths_of(matches: Seq<FileMatch>) -> Seq<Seq<char>> {
    matches.map_values(|m: FileMatch| m.path@)
}

/// The first `limit` matches, or all of them where there are no more.
pub open spec fn capped(ranked: Seq<FileMatch>, limit: nat) -> Seq<FileMatch> {
    if ranked.len() <= limit {
        ranked
    } else {
        ranked.take(limit as int)
    }
}

/// Whether `matches` is ordered best first under `rank`.
pub open spec fn descending_by(matches: Seq<FileMatch>, rank: spec_fn(FileMatch) -> int) -> bool {
    forall|i: int, j: int| 0 <= i <= j < matches.len() ==> rank(matches[i]) >= rank(matches[j])
}

/// Cuts a ranked list down to its `limit` best entries.
pub fn cap_results(ranked: Vec<FileMatch>, limit: usize) -> (kept: Vec<FileMatch>)
    ensures
        kept@ == capped(ranked@, limit as nat),
        kept@.len() <= limit,
{
    let mut kept = ranked;
    if kept.len() > limit {
        kept.truncate(limit);
    }
    kept
}

/// Copies the path out of each match.
pub fn match_paths(matches: &Vec<FileMatch>) -> (paths: Vec<String>)
    ensures
        paths.deep_view() == paths_of(matches@),
{
    let mut paths: Vec<String> = Vec::new();
    let mut i: usize = 0;
    while i < matches.len()
        invariant
            i <= matches.len(),
            paths.len() == i,
            forall|k: int| 0 <= k < i ==> paths[k]@ == matches[k].path@,
        decreases matches.len() - i,
    {
        paths.push(matches[i].path.clone());
        i += 1;
    }
    assert(paths.deep_view() =~= paths_of(matches@));
    paths
}

/// Whether two lists of paths hold the same paths in the same order.
pub fn same_paths(left: &Vec<String>, right: &Vec<String>) -> (same: bool)
    ensures
        same == (left.deep_view() == right.deep_view()),
{
    if left.len() != right.len() {
        assert(left.deep_view().len() != right.deep_view().len());
        return false;
    }
    let mut i: usize = 0;
    while i < left.len()
        invariant
            i <= left.len(),
            left.len() == right.len(),
            forall|k: int| 0 <= k < i ==> left[k]@ == right[k]@,
        decreases left.len() - i,
    {
        if left[i] != right[i] {
            assert(left.deep_view()[i as int] != right.deep_view()[i as int]);
            return false;
        }
        i += 1;
    }
    assert(left.deep_view() =~= right.deep_view());
    true
}

} // verus!
