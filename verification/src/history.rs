//! The metric over a history: which comparison a commit calls for, what a
//! commit contributes, and the total.

use vstd::prelude::*;
use crate::change::{
    is_reported, lemma_added_files_all_count, lemma_search_keeps_statistics,
    lemma_unreported_files_count_nothing, lines_added, underlying, DiffStats, FileChange,
};
use crate::error::HocError;

verus! {

/// The old side of the comparison that a commit calls for.
#[derive(Clone, Copy, Debug, PartialEq, Eq, Structural)]
pub enum DiffBase {
    /// A root commit is compared with the empty tree.
    EmptyTree,
    /// A commit with one parent is compared with that parent's tree.
    Parent,
    /// A merge commit is not compared at all.
    Nothing,
}

impl DiffBase {
    /// The old side for a commit with the given number of parents.
    pub open spec fn of(parents: nat) -> DiffBase {
        if parents == 0 {
            DiffBase::EmptyTree
        } else if parents == 1 {
            DiffBase::Parent
        } else {
            DiffBase::Nothing
        }
    }

    /// Decides the old side for a commit with the given number of parents.
    pub fn for_parents(parents: usize) -> (base: DiffBase)
        ensures
            base == DiffBase::of(parents as nat),
    {
        if parents == 0 {
            DiffBase::EmptyTree
        } else if parents == 1 {
            DiffBase::Parent
        } else {
            DiffBase::Nothing
        }
    }
}

/// What the walk records of one commit.
#[derive(Clone, Copy, Debug, PartialEq, Eq, Structural)]
pub struct CommitChange {
    /// The number of parents of the commit.
    pub parents: usize,
    /// The statistics of the commit's comparison with its old side.
    pub stats: DiffStats,
}

impl CommitChange {
    /// Whether the commit is a merge.
    pub open spec fn is_merge(self) -> bool {
        DiffBase::of(self.parents as nat) is Nothing
    }

    /// As the walk records a commit: the statistics are those of some
    /// comparison, and a merge carries none.
    pub open spec fn well_formed(self) -> bool {
        &&& self.stats.is_summary()
        &&& self.is_merge() ==> self.stats == (DiffStats {
            files_changed: 0,
            insertions: 0,
            deletions: 0,
        })
    }

    /// What the commit adds to the total: the hits of its comparison, and
    /// nothing for a merge.
    pub open spec fn hits(self) -> nat {
        if self.is_merge() {
            0
        } else {
            self.stats.hits()
        }
    }

    /// What the commit adds to the total, or `None` where that exceeds 64
    /// bits.
    pub fn checked_hits(&self) -> (hits: Option<u64>)
        ensures
            self.hits() <= u64::MAX ==> hits == Some(self.hits() as u64),
            self.hits() > u64::MAX ==> hits is None,
    {
        match DiffBase::for_parents(self.parents) {
            DiffBase::Nothing => Some(0),
            _ => self.stats.checked_hits(),
        }
    }
}

/// The hits of code of a history: the sum of what its commits contribute.
pub open spec fn total_hits(history: Seq<CommitChange>) -> nat
    decreases history.len(),
{
    if history.len() == 0 {
        0
    } else {
        total_hits(history.drop_last()) + history.last().hits()
    }
}

/// Sums what the commits of a history contribute. The running total starts at
/// zero and never decreases. Fails with `Overflow` exactly where the sum
/// exceeds 64 bits.
pub fn hits_of_code(history: &Vec<CommitChange>) -> (result: Result<u64, HocError>)
    ensures
        total_hits(history@) <= u64::MAX ==> result == Ok::<u64, HocError>(
            total_hits(history@) as u64,
        ),
        total_hits(history@) > u64::MAX ==> result == Err::<u64, HocError>(HocError::Overflow),
{
    let mut total: u64 = 0;
    let mut i: usize = 0;
    while i < history.len()
        invariant
            i <= history.len(),
            total == total_hits(history@.take(i as int)),
        decreases history.len() - i,
    {
        proof {
            assert(history@.take(i + 1).drop_last() =~= history@.take(i as int));
            lemma_total_of_prefix(history@, i + 1);
        }
        let next = match history[i].checked_hits() {
            Some(hits) => total.checked_add(hits),
            None => None,
        };
        match next {
            Some(sum) => {
                total = sum;
            },
            None => {
                return Err(HocError::Overflow);
            },
        }
        i += 1;
    }
    proof {
        assert(history@.take(history.len() as int) =~= history@);
    }
    Ok(total)
}

/// A history without commits has no hits.
pub proof fn lemma_total_of_nothing()
    ensures
        total_hits(Seq::<CommitChange>::empty()) == 0,
{
}

/// A history of one root commit that only adds files totals one hit for
/// each file and one for each line in them: with `F` files that add `N`
/// lines between them, `N + F`.
pub proof fn lemma_total_of_first_commit(files: Seq<FileChange>, stats: DiffStats)
    requires
        stats.summarizes(files),
        forall|i: int|
            0 <= i < files.len() ==> (#[trigger] files[i]).kind is Added && files[i].deletions
                == 0,
    ensures
        stats.files_changed == files.len(),
        stats.insertions == lines_added(files),
        stats.deletions == 0,
        total_hits(seq![CommitChange { parents: 0, stats }]) == lines_added(files)
            + files.len(),
{
    lemma_added_files_all_count(files);
    let history = seq![CommitChange { parents: 0, stats }];
    assert(history.drop_last() =~= Seq::<CommitChange>::empty());
    assert(total_hits(history) == total_hits(history.drop_last()) + history.last().hits());
}

/// A commit whose files changed in whitespace alone contributes nothing.
pub proof fn lemma_whitespace_commit_has_no_hits(
    parents: usize,
    files: Seq<FileChange>,
    stats: DiffStats,
)
    requires
        stats.summarizes(files),
        forall|i: int| 0 <= i < files.len() ==> (#[trigger] files[i]).is_blank(),
    ensures
        (CommitChange { parents, stats }).hits() == 0,
{
    lemma_unreported_files_count_nothing(files);
}

/// A commit whose files changed in whitespace alone leaves the total of the
/// history that it is added to as it was.
pub proof fn lemma_whitespace_commit_keeps_total(
    history: Seq<CommitChange>,
    parents: usize,
    files: Seq<FileChange>,
    stats: DiffStats,
)
    requires
        stats.summarizes(files),
        forall|i: int| 0 <= i < files.len() ==> (#[trigger] files[i]).is_blank(),
    ensures
        stats == (DiffStats { files_changed: 0, insertions: 0, deletions: 0 }),
        total_hits(history.push(CommitChange { parents, stats })) == total_hits(history),
{
    lemma_unreported_files_count_nothing(files);
    lemma_total_of_push(history, CommitChange { parents, stats });
}

/// A search for similar files never lowers the total. `without` is a
/// history as recorded without the search, from the lists `without_files`;
/// `with` is the same history as recorded with the search, commit for
/// commit, from the lists `with_files`. Where each pair of lists holds the
/// same reported files, taken in the forms under which they are reported and
/// in whatever order, the total with the search is the total without it, and
/// so not below it.
pub proof fn lemma_search_never_lowers_total(
    without: Seq<CommitChange>,
    without_files: Seq<Seq<FileChange>>,
    with: Seq<CommitChange>,
    with_files: Seq<Seq<FileChange>>,
)
    requires
        without.len() == with.len(),
        without_files.len() == without.len(),
        with_files.len() == with.len(),
        forall|i: int|
            0 <= i < without.len() ==> {
                &&& (#[trigger] without[i]).parents == with[i].parents
                &&& without[i].stats.summarizes(without_files[i])
                &&& with[i].stats.summarizes(with_files[i])
                &&& underlying(with_files[i]).filter(is_reported()).to_multiset() == underlying(
                    without_files[i],
                ).filter(is_reported()).to_multiset()
            },
    ensures
        total_hits(with) == total_hits(without),
        total_hits(with) >= total_hits(without),
{
    assert forall|i: int| 0 <= i < without.len() implies (#[trigger] without[i]).hits()
        == with[i].hits() by {
        assert(without[i].stats.summarizes(without_files[i]));
        lemma_search_keeps_statistics(without_files[i], with_files[i]);
    }
    lemma_total_is_monotone(without, with);
    lemma_total_is_monotone(with, without);
}

/// One more commit adds exactly its own hits to the total.
pub proof fn lemma_total_of_push(history: Seq<CommitChange>, commit: CommitChange)
    ensures
        total_hits(history.push(commit)) == total_hits(history) + commit.hits(),
{
    assert(history.push(commit).drop_last() =~= history);
}

/// The total of two histories laid end to end is the sum of their totals.
pub proof fn lemma_total_of_concat(first: Seq<CommitChange>, second: Seq<CommitChange>)
    ensures
        total_hits(first + second) == total_hits(first) + total_hits(second),
    decreases second.len(),
{
    if second.len() == 0 {
        assert(first + second =~= first);
    } else {
        assert((first + second).drop_last() =~= first + second.drop_last());
        lemma_total_of_concat(first, second.drop_last());
    }
}

/// The running total never decreases: the total of the first `n` commits is
/// at most the total of the whole history.
pub proof fn lemma_total_of_prefix(history: Seq<CommitChange>, n: int)
    requires
        0 <= n <= history.len(),
    ensures
        total_hits(history.take(n)) <= total_hits(history),
    decreases history.len(),
{
    if n == history.len() {
        assert(history.take(n) =~= history);
    } else {
        assert(history.drop_last().take(n) =~= history.take(n));
        lemma_total_of_prefix(history.drop_last(), n);
    }
}

/// Where every commit of one history contributes at least what the commit at
/// the same place of another contributes, its total is at least the other's.
pub proof fn lemma_total_is_monotone(lower: Seq<CommitChange>, upper: Seq<CommitChange>)
    requires
        lower.len() == upper.len(),
        forall|i: int| 0 <= i < lower.len() ==> lower[i].hits() <= upper[i].hits(),
    ensures
        total_hits(lower) <= total_hits(upper),
    decreases lower.len(),
{
    if lower.len() > 0 {
        lemma_total_is_monotone(lower.drop_last(), upper.drop_last());
    }
}

/// Taking one commit out of a history takes exactly its hits off the total.
pub proof fn lemma_total_of_remove(history: Seq<CommitChange>, i: int)
    requires
        0 <= i < history.len(),
    ensures
        total_hits(history) == total_hits(history.remove(i)) + history[i].hits(),
{
    let before = history.take(i);
    let after = history.skip(i + 1);
    assert(history =~= before.push(history[i]) + after);
    assert(history.remove(i) =~= before + after);
    lemma_total_of_push(before, history[i]);
    lemma_total_of_concat(before.push(history[i]), after);
    lemma_total_of_concat(before, after);
}

/// The order in which the commits are visited does not matter: two
/// histories that hold the same commits, each as often as the other, have
/// the same total.
pub proof fn lemma_total_ignores_order(first: Seq<CommitChange>, second: Seq<CommitChange>)
    requires
        first.to_multiset() == second.to_multiset(),
    ensures
        total_hits(first) == total_hits(second),
    decreases first.len(),
{
    first.to_multiset_ensures();
    second.to_multiset_ensures();
    if first.len() > 0 {
        let last = first.len() - 1;
        let commit = first[last];
        assert(first.contains(commit));
        assert(second.to_multiset().count(commit) > 0);
        let i = choose|i: int| 0 <= i < second.len() && second[i] == commit;
        assert(first.drop_last() =~= first.remove(last));
        assert(first.remove(last).to_multiset() =~= second.remove(i).to_multiset());
        lemma_total_ignores_order(first.drop_last(), second.remove(i));
        lemma_total_of_remove(second, i);
    }
}

} // verus!
