//! The walk over a repository: every commit reachable from HEAD, each
//! compared with its old side.

use vstd::prelude::*;
use crate::change::{summarize, ChangeKind, DiffStats, FileChange};
use crate::error::HocError;
use crate::git::{
    cause_of, delta_count, diff_trees, find_commit, find_similar, holds_nul, new_walk,
    next_commit_id, open_repository, parent_count, parent_of, patch_at, patch_is_binary,
    patch_kind, patch_line_stats, patch_same_content, push_head, resolve_head, tree_of,
};
use crate::history::{hits_of_code, total_hits, CommitChange, DiffBase};
use crate::settings::DiffSettings;

verus! {

/// Describes one file of a comparison from what its patch holds: the state
/// assigned to the file, whether it is binary, whether both sides hold the
/// same content, and the numbers of context lines, of added lines and of
/// deleted lines, in this order. Where the line statistics could not be had,
/// the traversal has failed.
pub fn describe(
    kind: ChangeKind,
    binary: bool,
    same_content: bool,
    line_stats: Result<(usize, usize, usize), git2::Error>,
) -> (result: Result<FileChange, HocError>)
    ensures
        line_stats matches Ok(lines) ==> result == Ok::<FileChange, HocError>(
            FileChange {
                kind,
                binary,
                content_changed: !same_content,
                insertions: lines.1,
                deletions: lines.2,
            },
        ),
        line_stats is Err ==> result == Err::<FileChange, HocError>(HocError::HistoryTraversal),
{
    match line_stats {
        Ok((_, insertions, deletions)) => Ok(
            FileChange { kind, binary, content_changed: !same_content, insertions, deletions },
        ),
        Err(_) => Err(HocError::HistoryTraversal),
    }
}

/// Lists the files of a diff in the order of the diff, each as `describe`
/// gives it, leaving out those that the engine skips.
///
/// Which files the diff holds, `git2` alone can tell; the contract states
/// what holds of every outcome.
fn file_changes(diff: &git2::Diff<'_>) -> (result: Result<Vec<FileChange>, HocError>)
    ensures
        result matches Err(error) ==> error == HocError::HistoryTraversal,
{
    let count: usize = delta_count(diff);
    let mut files: Vec<FileChange> = Vec::new();
    let mut index: usize = 0;
    while index < count
        invariant
            index <= count,
        decreases count - index,
    {
        match patch_at(diff, index) {
            Ok(Some(patch)) => {
                let described = describe(
                    patch_kind(&patch),
                    patch_is_binary(&patch),
                    patch_same_content(&patch),
                    patch_line_stats(&patch),
                );
                match described {
                    Ok(file) => {
                        files.push(file);
                    },
                    Err(error) => {
                        return Err(error);
                    },
                }
            },
            Ok(None) => {},
            Err(_) => {
                return Err(HocError::HistoryTraversal);
            },
        }
        index += 1;
    }
    Ok(files)
}

/// Compares two trees under the given settings and derives the statistics of
/// the comparison with `summarize`, from the files as the comparison first
/// lists them. The search for similar files runs after that, exactly when
/// the settings ask for it: it relabels files of the diff and moves nothing
/// in or out of what was counted, so that a renamed file stays counted as
/// the deleted and the added file that it was listed as.
///
/// What the trees hold, `git2` alone can tell; the contract states what
/// holds of every outcome: the statistics are those of some list of file
/// changes, and no failure is one of access to the repository.
fn compare<'repo>(
    repo: &'repo git2::Repository,
    old: Option<&git2::Tree<'repo>>,
    new: &git2::Tree<'repo>,
    settings: &DiffSettings,
) -> (result: Result<DiffStats, HocError>)
    ensures
        result matches Ok(stats) ==> stats.is_summary(),
        result matches Err(error) ==> error != HocError::RepositoryAccess,
{
    let mut diff = match diff_trees(repo, old, new, settings) {
        Ok(diff) => diff,
        Err(_) => {
            return Err(HocError::HistoryTraversal);
        },
    };
    let files = match file_changes(&diff) {
        Ok(files) => files,
        Err(error) => {
            return Err(error);
        },
    };
    if settings.searches_similar() {
        match find_similar(&mut diff, settings) {
            Ok(()) => {},
            Err(_) => {
                return Err(HocError::HistoryTraversal);
            },
        }
    }
    match summarize(&files) {
        Some(stats) => Ok(stats),
        None => Err(HocError::Overflow),
    }
}

/// Loads one commit with its tree and records what it changed: a root commit
/// against the empty tree, a commit with one parent against that parent, and
/// a merge not at all, as `DiffBase::for_parents` decides. A commit whose
/// tree cannot be loaded fails the traversal, a merge too.
///
/// What the commit holds, `git2` alone can tell; the contract states what
/// holds of every outcome: the record is well formed, and no failure is one
/// of access to the repository.
fn commit_change(repo: &git2::Repository, id: git2::Oid, settings: &DiffSettings) -> (result:
    Result<CommitChange, HocError>)
    ensures
        result matches Ok(change) ==> change.well_formed(),
        result matches Err(error) ==> error != HocError::RepositoryAccess,
{
    let commit = match find_commit(repo, id) {
        Ok(commit) => commit,
        Err(_) => {
            return Err(HocError::HistoryTraversal);
        },
    };
    let parents: usize = parent_count(&commit);
    let base = DiffBase::for_parents(parents);
    let old = match base {
        DiffBase::Parent => {
            let parent = match parent_of(&commit, 0) {
                Ok(parent) => parent,
                Err(_) => {
                    return Err(HocError::HistoryTraversal);
                },
            };
            match tree_of(&parent) {
                Ok(tree) => Some(tree),
                Err(_) => {
                    return Err(HocError::HistoryTraversal);
                },
            }
        },
        _ => None,
    };
    let new = match tree_of(&commit) {
        Ok(tree) => tree,
        Err(_) => {
            return Err(HocError::HistoryTraversal);
        },
    };
    if let DiffBase::Nothing = base {
        return Ok(CommitChange { parents, stats: DiffStats::zero() });
    }
    match compare(repo, old.as_ref(), &new, settings) {
        Ok(stats) => Ok(CommitChange { parents, stats }),
        Err(error) => Err(error),
    }
}

/// Whether a number is the total of some history as the walk records one:
/// of some list of well-formed records, whichever it is.
pub open spec fn is_total_of_a_walk(total: u64) -> bool {
    exists|history: Seq<CommitChange>|
        (forall|i: int| 0 <= i < history.len() ==> (#[trigger] history[i]).well_formed())
            && total_hits(history) == total
}

/// Walks every commit reachable from the HEAD of the repository at `path`
/// and records what each one changed, in the order of the walk. A repository
/// whose HEAD names a branch without commits has an empty history. Any
/// failure ends the walk: opening the repository fails with
/// `RepositoryAccess`, everything after it with `HistoryTraversal` or
/// `Overflow`.
///
/// What the repository holds decides the result, with one exception: a path
/// that holds a NUL character names no repository, whatever is on the disk.
/// Beyond that the contract states what holds of every history that comes
/// back: every record is well formed.
pub fn read_history(path: &str, settings: &DiffSettings) -> (result: Result<
    Vec<CommitChange>,
    HocError,
>)
    ensures
        holds_nul(path@) ==> result == Err::<Vec<CommitChange>, HocError>(
            HocError::RepositoryAccess,
        ),
        result matches Ok(history) ==> forall|i: int|
            0 <= i < history.len() ==> (#[trigger] history[i]).well_formed(),
{
    let repo = match open_repository(path) {
        Ok(repo) => repo,
        Err(_) => {
            return Err(HocError::RepositoryAccess);
        },
    };
    let mut history: Vec<CommitChange> = Vec::new();
    match resolve_head(&repo) {
        Ok(()) => {},
        Err(error) => {
            return match cause_of(&error).as_failure() {
                None => Ok(history),
                Some(failure) => Err(failure),
            };
        },
    }
    let mut walk = match new_walk(&repo) {
        Ok(walk) => walk,
        Err(_) => {
            return Err(HocError::HistoryTraversal);
        },
    };
    match push_head(&mut walk) {
        Ok(()) => {},
        Err(_) => {
            return Err(HocError::HistoryTraversal);
        },
    }
    while history.len() < usize::MAX
        invariant
            !holds_nul(path@),
            forall|i: int| 0 <= i < history.len() ==> (#[trigger] history[i]).well_formed(),
        decreases usize::MAX - history.len(),
    {
        match next_commit_id(&mut walk) {
            None => {
                return Ok(history);
            },
            Some(Ok(id)) => {
                match commit_change(&repo, id, settings) {
                    Ok(change) => {
                        history.push(change);
                    },
                    Err(error) => {
                        return Err(error);
                    },
                }
            },
            Some(Err(_)) => {
                return Err(HocError::HistoryTraversal);
            },
        }
    }
    Err(HocError::Overflow)
}

/// The hits of code of the repository at `path`: the history is read with
/// the settings that `DiffSettings::new` fixes, then summed by
/// `hits_of_code`. Any failure of either step is returned as it is.
///
/// What the repository holds decides the result, with one exception: a path
/// that holds a NUL character names no repository, whatever is on the disk.
/// What holds of every total that comes back: it is the total of a history
/// as the walk records one. What the total of a given history is,
/// `hits_of_code` states.
pub fn hoc_at(path: &str, find_renames_and_copies: bool) -> (result: Result<u64, HocError>)
    ensures
        holds_nul(path@) ==> result == Err::<u64, HocError>(HocError::RepositoryAccess),
        result matches Ok(total) ==> is_total_of_a_walk(total),
{
    let settings = DiffSettings::new(find_renames_and_copies);
    match read_history(path, &settings) {
        Ok(history) => hits_of_code(&history),
        Err(error) => Err(error),
    }
}

/// The hits of code of the repository in the current directory: `hoc_at` on
/// the path `.`.
///
/// The path is fixed, so the repository alone decides the result. What holds
/// of every total that comes back: it is the total of a history as the walk
/// records one.
pub fn hoc(find_renames_and_copies: bool) -> (result: Result<u64, HocError>)
    ensures
        result matches Ok(total) ==> is_total_of_a_walk(total),
{
    hoc_at(".", find_renames_and_copies)
}

} // verus!
