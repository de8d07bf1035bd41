//! The trusted boundary: every call into `git2` is made here, one small
//! function per call. Verus does not read these bodies and believes their
//! headers. What a repository holds decides the results, so these functions
//! claim nothing about the values they return, but for the one failure that
//! a path alone decides; the code built on them is verified for every value
//! that may come back.

use vstd::prelude::*;
use crate::change::ChangeKind;
use crate::error::Cause;
use crate::settings::DiffSettings;

verus! {

/// An open repository; opaque to Verus.
#[verifier::external_type_specification]
#[verifier::external_body]
pub struct ExRepository(git2::Repository);

/// A failure reported by `git2`; opaque to Verus.
#[verifier::external_type_specification]
#[verifier::external_body]
pub struct ExError(git2::Error);

/// The id of an object; opaque to Verus.
#[verifier::external_type_specification]
#[verifier::external_body]
pub struct ExOid(git2::Oid);

/// A walker over the commit graph; opaque to Verus.
#[verifier::external_type_specification]
#[verifier::external_body]
pub struct ExRevwalk<'repo>(git2::Revwalk<'repo>);

/// A loaded commit; opaque to Verus.
#[verifier::external_type_specification]
#[verifier::external_body]
pub struct ExCommit<'repo>(git2::Commit<'repo>);

/// A loaded tree; opaque to Verus.
#[verifier::external_type_specification]
#[verifier::external_body]
pub struct ExTree<'repo>(git2::Tree<'repo>);

/// The comparison of two trees; opaque to Verus.
#[verifier::external_type_specification]
#[verifier::external_body]
pub struct ExDiff<'repo>(git2::Diff<'repo>);

/// The text changes of one file of a comparison; opaque to Verus.
#[verifier::external_type_specification]
#[verifier::external_body]
pub struct ExPatch<'buffers>(git2::Patch<'buffers>);

/// Whether a path holds a NUL character. Such a path names nothing: it
/// cannot be handed to the operating system.
pub open spec fn holds_nul(path: Seq<char>) -> bool {
    path.contains('\0')
}

/// Calls `git2::Repository::open`, which opens the repository at `path`.
/// The one claim: a path that holds a NUL character fails, as `git2` turns
/// the path into a C string before it looks at the disk and gives up there.
/// For every other path the disk decides, and nothing is claimed.
#[verifier::external_body]
pub(crate) fn open_repository(path: &str) -> (result: Result<git2::Repository, git2::Error>)
    ensures
        holds_nul(path@) ==> result is Err,
{
    git2::Repository::open(path)
}

/// Calls `git2::Repository::head`, which resolves the reference that HEAD
/// points at, and drops the reference. Nothing is claimed of the result.
#[verifier::external_body]
pub(crate) fn resolve_head(repo: &git2::Repository) -> Result<(), git2::Error> {
    match repo.head() {
        Ok(_) => Ok(()),
        Err(error) => Err(error),
    }
}

/// Calls `git2::Error::code` and tells `ErrorCode::UnbornBranch`, the code
/// for a HEAD that names a branch without commits, from every other code.
/// Nothing is claimed of the result.
#[verifier::external_body]
pub(crate) fn cause_of(error: &git2::Error) -> Cause {
    match error.code() {
        git2::ErrorCode::UnbornBranch => Cause::UnbornBranch,
        _ => Cause::Other,
    }
}

/// Calls `git2::Repository::revwalk`, which makes a walker with nothing
/// pushed on it. Nothing is claimed of the result.
#[verifier::external_body]
pub(crate) fn new_walk<'repo>(repo: &'repo git2::Repository) -> Result<
    git2::Revwalk<'repo>,
    git2::Error,
> {
    repo.revwalk()
}

/// Calls `git2::Revwalk::push_head`, which makes HEAD the start of the walk.
/// Nothing is claimed of the result, nor of the walker after the call.
#[verifier::external_body]
pub(crate) fn push_head(walk: &mut git2::Revwalk<'_>) -> Result<(), git2::Error> {
    walk.push_head()
}

/// Calls `next` of the `Iterator` that `git2::Revwalk` is: the id of the
/// next commit of the walk, or `None` once the walk is over. Nothing is
/// claimed of the result, nor of the walker after the call.
#[verifier::external_body]
pub(crate) fn next_commit_id(walk: &mut git2::Revwalk<'_>) -> Option<
    Result<git2::Oid, git2::Error>,
> {
    walk.next()
}

/// Calls `git2::Repository::find_commit`, which loads the commit with the
/// given id. Nothing is claimed of the result.
#[verifier::external_body]
pub(crate) fn find_commit<'repo>(repo: &'repo git2::Repository, id: git2::Oid) -> Result<
    git2::Commit<'repo>,
    git2::Error,
> {
    repo.find_commit(id)
}

/// Calls `git2::Commit::parent_count`, the number of parents of the commit.
/// Nothing is claimed of the result.
#[verifier::external_body]
pub(crate) fn parent_count(commit: &git2::Commit<'_>) -> usize {
    commit.parent_count()
}

/// Calls `git2::Commit::parent`, which loads the parent with the given
/// index. Nothing is claimed of the result.
#[verifier::external_body]
pub(crate) fn parent_of<'repo>(commit: &git2::Commit<'repo>, index: usize) -> Result<
    git2::Commit<'repo>,
    git2::Error,
> {
    commit.parent(index)
}

/// Calls `git2::Commit::tree`, which loads the tree that the commit points
/// to. Nothing is claimed of the result.
#[verifier::external_body]
pub(crate) fn tree_of<'repo>(commit: &git2::Commit<'repo>) -> Result<
    git2::Tree<'repo>,
    git2::Error,
> {
    commit.tree()
}

/// Calls `git2::Repository::diff_tree_to_tree` with the new side always
/// present and `None` standing for an empty old side. The settings are
/// handed over as a `git2::DiffOptions`, flag by flag. Nothing is claimed of
/// the result.
#[verifier::external_body]
pub(crate) fn diff_trees<'repo>(
    repo: &'repo git2::Repository,
    old: Option<&git2::Tree<'repo>>,
    new: &git2::Tree<'repo>,
    settings: &DiffSettings,
) -> Result<git2::Diff<'repo>, git2::Error> {
    let mut options = git2::DiffOptions::new();
    options.ignore_whitespace(settings.ignore_all_space);
    options.ignore_whitespace_change(settings.ignore_space_change);
    options.ignore_submodules(settings.ignore_submodules);
    options.include_unmodified(settings.include_unmodified);
    repo.diff_tree_to_tree(old, Some(new), Some(&mut options))
}

/// Calls `git2::Diff::find_similar`, which changes the diff in place,
/// marking renames and copies. The settings are handed over as a
/// `git2::DiffFindOptions`, flag by flag. Nothing is claimed of the result,
/// nor of the diff after the call.
#[verifier::external_body]
pub(crate) fn find_similar(diff: &mut git2::Diff<'_>, settings: &DiffSettings) -> Result<
    (),
    git2::Error,
> {
    let mut options = git2::DiffFindOptions::new();
    options.renames(settings.find_renames);
    options.copies(settings.find_copies);
    options.copies_from_unmodified(settings.find_copies_harder);
    diff.find_similar(Some(&mut options))
}

/// Calls `git2::Diff::deltas` and takes the length of that iterator: the
/// number of files in the diff. Nothing is claimed of the result.
#[verifier::external_body]
pub(crate) fn delta_count(diff: &git2::Diff<'_>) -> usize {
    diff.deltas().len()
}

/// Calls `git2::Patch::from_diff`: the patch of the file with the given
/// index, `None` where the engine skips the file, an error where the index
/// is out of range. Nothing is claimed of the result.
#[verifier::external_body]
pub(crate) fn patch_at<'repo>(diff: &git2::Diff<'repo>, index: usize) -> Result<
    Option<git2::Patch<'repo>>,
    git2::Error,
> {
    git2::Patch::from_diff(diff, index)
}

/// Calls `git2::Patch::delta` and `git2::DiffDelta::status` on it: the state
/// assigned to the file, carried over variant for variant. Nothing is
/// claimed of the result.
#[verifier::external_body]
pub(crate) fn patch_kind(patch: &git2::Patch<'_>) -> ChangeKind {
    match patch.delta().status() {
        git2::Delta::Unmodified => ChangeKind::Unmodified,
        git2::Delta::Added => ChangeKind::Added,
        git2::Delta::Deleted => ChangeKind::Deleted,
        git2::Delta::Modified => ChangeKind::Modified,
        git2::Delta::Renamed => ChangeKind::Renamed,
        git2::Delta::Copied => ChangeKind::Copied,
        git2::Delta::Ignored => ChangeKind::Ignored,
        git2::Delta::Untracked => ChangeKind::Untracked,
        git2::Delta::Typechange => ChangeKind::TypeChange,
        git2::Delta::Unreadable => ChangeKind::Unreadable,
        git2::Delta::Conflicted => ChangeKind::Conflicted,
    }
}

/// Calls `git2::DiffDelta::flags` on the delta of the patch and
/// `git2::DiffFlags::is_binary` on the flags: whether the file is treated as
/// binary data. Nothing is claimed of the result.
#[verifier::external_body]
pub(crate) fn patch_is_binary(patch: &git2::Patch<'_>) -> bool {
    patch.delta().flags().is_binary()
}

/// Calls `git2::DiffFile::id` on both sides of the delta of the patch and
/// compares the two ids with `==`: whether both sides hold the same content.
/// Nothing is claimed of the result.
#[verifier::external_body]
pub(crate) fn patch_same_content(patch: &git2::Patch<'_>) -> bool {
    let delta = patch.delta();
    delta.old_file().id() == delta.new_file().id()
}

/// Calls `git2::Patch::line_stats`: the numbers of context lines, of added
/// lines and of deleted lines, in this order. Nothing is claimed of the
/// result.
#[verifier::external_body]
pub(crate) fn patch_line_stats(patch: &git2::Patch<'_>) -> Result<
    (usize, usize, usize),
    git2::Error,
> {
    patch.line_stats()
}

} // verus!
