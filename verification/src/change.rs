//! What one comparison of two trees reports: a list of file changes, and the
//! three counts derived from it.

use vstd::prelude::*;

verus! {

/// The state that the diff engine assigns to one file of a comparison.
#[derive(Clone, Copy, Debug, PartialEq, Eq, Structural)]
pub enum ChangeKind {
    /// Nothing changed.
    Unmodified,
    /// The file exists on the new side only.
    Added,
    /// The file exists on the old side only.
    Deleted,
    /// The file exists on both sides and differs.
    Modified,
    /// The file was found on the old side under another name.
    Renamed,
    /// The file was found to be a copy of a file of the old side.
    Copied,
    /// An ignored file of a working directory.
    Ignored,
    /// An untracked file of a working directory.
    Untracked,
    /// The entry changed its type, as from a file to a link.
    TypeChange,
    /// The entry cannot be read.
    Unreadable,
    /// The entry is in conflict in an index.
    Conflicted,
}

impl ChangeKind {
    /// The diff filter: the number of categories under which a file of this
    /// state is reported. There are four categories: added, copied, deleted
    /// and modified. A renamed file is no category of its own; it is reported
    /// under two, as the deleted file and the added file that it stands for.
    /// A file of any other state is not reported.
    pub open spec fn categories(self) -> nat {
        match self {
            ChangeKind::Added | ChangeKind::Copied | ChangeKind::Deleted | ChangeKind::Modified => 1,
            ChangeKind::Renamed => 2,
            _ => 0,
        }
    }

    /// Whether the diff filter lets a file of this state through.
    pub open spec fn passes_filter(self) -> bool {
        self.categories() > 0
    }

    /// Counts the categories under which a file of this state is reported.
    pub fn category_count(&self) -> (count: u64)
        ensures
            count == self.categories(),
    {
        match self {
            ChangeKind::Added | ChangeKind::Copied | ChangeKind::Deleted | ChangeKind::Modified => 1,
            ChangeKind::Renamed => 2,
            _ => 0,
        }
    }

    /// Decides whether the diff filter lets a file of this state through.
    pub fn is_reportable(&self) -> (b: bool)
        ensures
            b == self.passes_filter(),
    {
        self.category_count() > 0
    }
}

/// One file of a comparison, as the diff engine describes it once whitespace
/// has been set aside.
#[derive(Clone, Copy, Debug, PartialEq, Eq, Structural)]
pub struct FileChange {
    /// The state assigned to the file.
    pub kind: ChangeKind,
    /// Whether the file is treated as binary data.
    pub binary: bool,
    /// Whether the two sides hold different content. The file's mode is not
    /// part of its content.
    pub content_changed: bool,
    /// The number of lines that the new side adds.
    pub insertions: usize,
    /// The number of lines that the new side removes.
    pub deletions: usize,
}

impl FileChange {
    /// A modification in which the comparison finds nothing: a text file
    /// whose content changed, yet without a line inserted or deleted. This is
    /// what a change of whitespace alone looks like once whitespace is
    /// ignored.
    pub open spec fn is_blank(self) -> bool {
        &&& self.kind is Modified
        &&& !self.binary
        &&& self.content_changed
        &&& self.insertions == 0
        &&& self.deletions == 0
    }

    /// Whether the file counts as changed: it passes the diff filter and is
    /// not blank.
    pub open spec fn reported(self) -> bool {
        self.kind.passes_filter() && !self.is_blank()
    }

    /// The file's share of the files changed: one for each category under
    /// which it is reported.
    pub open spec fn counted_files(self) -> nat {
        if self.reported() { self.kind.categories() } else { 0 }
    }

    /// The file's share of the lines inserted.
    pub open spec fn counted_insertions(self) -> nat {
        if self.reported() { self.insertions as nat } else { 0 }
    }

    /// The file's share of the lines deleted.
    pub open spec fn counted_deletions(self) -> nat {
        if self.reported() { self.deletions as nat } else { 0 }
    }

    /// The forms under which the file is reported. A renamed file stands for
    /// a deleted file, which carries its deleted lines, and an added file,
    /// which carries its added lines. A copied file stands for an added
    /// file. Every other file is its own form.
    pub open spec fn forms(self) -> Seq<FileChange> {
        match self.kind {
            ChangeKind::Renamed => seq![
                FileChange {
                    kind: ChangeKind::Deleted,
                    binary: self.binary,
                    content_changed: self.content_changed,
                    insertions: 0,
                    deletions: self.deletions,
                },
                FileChange {
                    kind: ChangeKind::Added,
                    binary: self.binary,
                    content_changed: self.content_changed,
                    insertions: self.insertions,
                    deletions: 0,
                },
            ],
            ChangeKind::Copied => seq![
                FileChange {
                    kind: ChangeKind::Added,
                    binary: self.binary,
                    content_changed: self.content_changed,
                    insertions: self.insertions,
                    deletions: self.deletions,
                },
            ],
            _ => seq![self],
        }
    }

    /// Decides whether the file counts as changed.
    pub fn is_reported(&self) -> (b: bool)
        ensures
            b == self.reported(),
    {
        let blank = matches!(self.kind, ChangeKind::Modified) && !self.binary
            && self.content_changed && self.insertions == 0 && self.deletions == 0;
        self.kind.is_reportable() && !blank
    }
}

/// The number of files that a comparison reports as changed.
pub open spec fn files_changed(files: Seq<FileChange>) -> nat
    decreases files.len(),
{
    if files.len() == 0 {
        0
    } else {
        files_changed(files.drop_last()) + files.last().counted_files()
    }
}

/// The number of lines that a comparison reports as inserted.
pub open spec fn lines_inserted(files: Seq<FileChange>) -> nat
    decreases files.len(),
{
    if files.len() == 0 {
        0
    } else {
        lines_inserted(files.drop_last()) + files.last().counted_insertions()
    }
}

/// The number of lines that a comparison reports as deleted.
pub open spec fn lines_deleted(files: Seq<FileChange>) -> nat
    decreases files.len(),
{
    if files.len() == 0 {
        0
    } else {
        lines_deleted(files.drop_last()) + files.last().counted_deletions()
    }
}

/// The number of lines that the files of a list add, reported or not.
pub open spec fn lines_added(files: Seq<FileChange>) -> nat
    decreases files.len(),
{
    if files.len() == 0 {
        0
    } else {
        lines_added(files.drop_last()) + files.last().insertions as nat
    }
}

/// The files of a comparison, each in the forms under which it is reported.
pub open spec fn underlying(files: Seq<FileChange>) -> Seq<FileChange>
    decreases files.len(),
{
    if files.len() == 0 {
        files
    } else {
        underlying(files.drop_last()) + files.last().forms()
    }
}

/// The test of `FileChange::reported`, as a function.
pub open spec fn is_reported() -> spec_fn(FileChange) -> bool {
    |file: FileChange| file.reported()
}

/// The statistics of one comparison.
#[derive(Clone, Copy, Debug, PartialEq, Eq, Structural)]
pub struct DiffStats {
    /// The number of files changed.
    pub files_changed: u64,
    /// The number of lines inserted.
    pub insertions: u64,
    /// The number of lines deleted.
    pub deletions: u64,
}

impl DiffStats {
    /// The hits of one comparison: files changed, plus lines inserted, plus
    /// lines deleted.
    pub open spec fn hits(self) -> nat {
        (self.files_changed + self.insertions + self.deletions) as nat
    }

    /// Whether these are the statistics of the given list of file changes.
    pub open spec fn summarizes(self, files: Seq<FileChange>) -> bool {
        &&& self.files_changed == files_changed(files)
        &&& self.insertions == lines_inserted(files)
        &&& self.deletions == lines_deleted(files)
    }

    /// Whether these are the statistics of some comparison: of some list of
    /// file changes, whichever it is.
    pub open spec fn is_summary(self) -> bool {
        exists|files: Seq<FileChange>| self.summarizes(files)
    }

    /// The statistics of a comparison that reports nothing.
    pub fn zero() -> (stats: DiffStats)
        ensures
            stats == (DiffStats { files_changed: 0, insertions: 0, deletions: 0 }),
            stats.hits() == 0,
            stats.is_summary(),
    {
        let stats = DiffStats { files_changed: 0, insertions: 0, deletions: 0 };
        proof {
            assert(stats.summarizes(Seq::<FileChange>::empty()));
        }
        stats
    }

    /// The hits of the comparison, or `None` where they exceed 64 bits.
    pub fn checked_hits(&self) -> (total: Option<u64>)
        ensures
            self.hits() <= u64::MAX ==> total == Some(self.hits() as u64),
            self.hits() > u64::MAX ==> total is None,
    {
        match self.files_changed.checked_add(self.insertions) {
            Some(partial) => partial.checked_add(self.deletions),
            None => None,
        }
    }
}

/// The counts of a prefix never exceed those of the whole list.
pub proof fn lemma_counts_grow(files: Seq<FileChange>, n: int)
    requires
        0 <= n <= files.len(),
    ensures
        files_changed(files.take(n)) <= files_changed(files),
        lines_inserted(files.take(n)) <= lines_inserted(files),
        lines_deleted(files.take(n)) <= lines_deleted(files),
    decreases files.len(),
{
    if n == files.len() {
        assert(files.take(n) =~= files);
    } else {
        assert(files.drop_last().take(n) =~= files.take(n));
        lemma_counts_grow(files.drop_last(), n);
    }
}

/// No file is reported under more than two categories.
pub proof fn lemma_files_changed_bounded(files: Seq<FileChange>)
    ensures
        files_changed(files) <= 2 * files.len(),
    decreases files.len(),
{
    if files.len() > 0 {
        lemma_files_changed_bounded(files.drop_last());
    }
}

/// Two lists laid end to end count what each counts, added up.
pub proof fn lemma_counts_of_concat(first: Seq<FileChange>, second: Seq<FileChange>)
    ensures
        files_changed(first + second) == files_changed(first) + files_changed(second),
        lines_inserted(first + second) == lines_inserted(first) + lines_inserted(second),
        lines_deleted(first + second) == lines_deleted(first) + lines_deleted(second),
    decreases second.len(),
{
    if second.len() == 0 {
        assert(first + second =~= first);
    } else {
        assert((first + second).drop_last() =~= first + second.drop_last());
        lemma_counts_of_concat(first, second.drop_last());
    }
}

/// Taking one file out of a list takes exactly its share off the counts.
pub proof fn lemma_counts_of_remove(files: Seq<FileChange>, i: int)
    requires
        0 <= i < files.len(),
    ensures
        files_changed(files) == files_changed(files.remove(i)) + files[i].counted_files(),
        lines_inserted(files) == lines_inserted(files.remove(i)) + files[i].counted_insertions(),
        lines_deleted(files) == lines_deleted(files.remove(i)) + files[i].counted_deletions(),
{
    let before = files.take(i);
    let after = files.skip(i + 1);
    assert(files =~= before.push(files[i]) + after);
    assert(files.remove(i) =~= before + after);
    assert(before.push(files[i]).drop_last() =~= before);
    lemma_counts_of_concat(before.push(files[i]), after);
    lemma_counts_of_concat(before, after);
}

/// The order of the files does not matter: two lists that hold the same
/// files, each as often as the other, count the same.
pub proof fn lemma_counts_ignore_order(first: Seq<FileChange>, second: Seq<FileChange>)
    requires
        first.to_multiset() == second.to_multiset(),
    ensures
        files_changed(first) == files_changed(second),
        lines_inserted(first) == lines_inserted(second),
        lines_deleted(first) == lines_deleted(second),
    decreases first.len(),
{
    first.to_multiset_ensures();
    second.to_multiset_ensures();
    if first.len() > 0 {
        let last = first.len() - 1;
        let file = first[last];
        assert(first.contains(file));
        assert(second.to_multiset().count(file) > 0);
        let i = choose|i: int| 0 <= i < second.len() && second[i] == file;
        assert(first.drop_last() =~= first.remove(last));
        assert(first.remove(last).to_multiset() =~= second.remove(i).to_multiset());
        lemma_counts_ignore_order(first.drop_last(), second.remove(i));
        lemma_counts_of_remove(second, i);
    }
}

/// Only the reported files count: a list counts what is left of it once the
/// files that are not reported are taken out.
pub proof fn lemma_only_reported_files_count(files: Seq<FileChange>)
    ensures
        files_changed(files) == files_changed(files.filter(is_reported())),
        lines_inserted(files) == lines_inserted(files.filter(is_reported())),
        lines_deleted(files) == lines_deleted(files.filter(is_reported())),
    decreases files.len(),
{
    reveal(Seq::filter);
    if files.len() > 0 {
        lemma_only_reported_files_count(files.drop_last());
        let kept = files.drop_last().filter(is_reported());
        if files.last().reported() {
            assert(kept.push(files.last()).drop_last() =~= kept);
        }
    }
}

/// A file counts what the forms under which it is reported count: a renamed
/// file as much as a deleted and an added file that carry its lines, a
/// copied file as much as an added one.
pub proof fn lemma_file_counts_as_its_forms(file: FileChange)
    ensures
        files_changed(file.forms()) == file.counted_files(),
        lines_inserted(file.forms()) == file.counted_insertions(),
        lines_deleted(file.forms()) == file.counted_deletions(),
{
    reveal_with_fuel(files_changed, 3);
    reveal_with_fuel(lines_inserted, 3);
    reveal_with_fuel(lines_deleted, 3);
    let forms = file.forms();
    if file.kind is Renamed {
        assert(forms.drop_last() =~= seq![forms[0]]);
        assert(forms.drop_last().drop_last() =~= Seq::<FileChange>::empty());
    } else {
        assert(forms.drop_last() =~= Seq::<FileChange>::empty());
    }
}

/// A list counts what its files count in the forms under which they are
/// reported.
pub proof fn lemma_list_counts_as_its_forms(files: Seq<FileChange>)
    ensures
        files_changed(files) == files_changed(underlying(files)),
        lines_inserted(files) == lines_inserted(underlying(files)),
        lines_deleted(files) == lines_deleted(underlying(files)),
    decreases files.len(),
{
    if files.len() > 0 {
        lemma_list_counts_as_its_forms(files.drop_last());
        lemma_file_counts_as_its_forms(files.last());
        lemma_counts_of_concat(underlying(files.drop_last()), files.last().forms());
    }
}

/// A search for similar files never lowers what a comparison counts.
/// `without` is the list of a comparison as counted without the search,
/// `with` the list as counted with it. The search may have unmodified files
/// listed among the others, may relabel a deleted and an added file as one
/// renamed file that carries the lines of both, and may relabel an added file
/// as a copied one. So both lists hold the same reported files once every
/// file is taken in the forms under which it is reported, in whatever order,
/// and then both count the same.
pub proof fn lemma_search_keeps_statistics(without: Seq<FileChange>, with: Seq<FileChange>)
    requires
        underlying(with).filter(is_reported()).to_multiset() == underlying(without).filter(
            is_reported(),
        ).to_multiset(),
    ensures
        files_changed(with) == files_changed(without),
        lines_inserted(with) == lines_inserted(without),
        lines_deleted(with) == lines_deleted(without),
        files_changed(with) + lines_inserted(with) + lines_deleted(with) >= files_changed(without)
            + lines_inserted(without) + lines_deleted(without),
{
    lemma_list_counts_as_its_forms(with);
    lemma_list_counts_as_its_forms(without);
    lemma_only_reported_files_count(underlying(with));
    lemma_only_reported_files_count(underlying(without));
    lemma_counts_ignore_order(
        underlying(with).filter(is_reported()),
        underlying(without).filter(is_reported()),
    );
}

/// A comparison in which no file is reported counts nothing. So it is with a
/// comparison whose files changed in whitespace alone, and with one whose
/// files the diff filter holds back.
pub proof fn lemma_unreported_files_count_nothing(files: Seq<FileChange>)
    requires
        forall|i: int| 0 <= i < files.len() ==> !(#[trigger] files[i]).reported(),
    ensures
        files_changed(files) == 0,
        lines_inserted(files) == 0,
        lines_deleted(files) == 0,
    decreases files.len(),
{
    if files.len() > 0 {
        lemma_unreported_files_count_nothing(files.drop_last());
    }
}

/// A comparison that only adds files counts every one of them, every line
/// that they add, and no deleted line.
pub proof fn lemma_added_files_all_count(files: Seq<FileChange>)
    requires
        forall|i: int|
            0 <= i < files.len() ==> (#[trigger] files[i]).kind is Added && files[i].deletions
                == 0,
    ensures
        files_changed(files) == files.len(),
        lines_inserted(files) == lines_added(files),
        lines_deleted(files) == 0,
    decreases files.len(),
{
    if files.len() > 0 {
        lemma_added_files_all_count(files.drop_last());
    }
}

/// A comparison that reports no file reports no line either.
pub proof fn lemma_no_file_no_line(files: Seq<FileChange>)
    requires
        files_changed(files) == 0,
    ensures
        lines_inserted(files) == 0,
        lines_deleted(files) == 0,
    decreases files.len(),
{
    if files.len() > 0 {
        lemma_no_file_no_line(files.drop_last());
    }
}

/// The statistics of a comparison count no line without a file.
pub proof fn lemma_summary_counts_lines_in_files(stats: DiffStats)
    requires
        stats.is_summary(),
        stats.files_changed == 0,
    ensures
        stats.insertions == 0,
        stats.deletions == 0,
{
    let files = choose|files: Seq<FileChange>| stats.summarizes(files);
    lemma_no_file_no_line(files);
}

/// Derives the statistics of a comparison from its file changes: the files
/// that are reported, each under its categories, and the lines inserted and
/// deleted in them. Returns `None` exactly where a count exceeds 64 bits.
pub fn summarize(files: &Vec<FileChange>) -> (result: Option<DiffStats>)
    ensures
        result matches Some(stats) ==> stats.summarizes(files@) && stats.is_summary(),
        result is Some <==> files_changed(files@) <= u64::MAX && lines_inserted(files@)
            <= u64::MAX && lines_deleted(files@) <= u64::MAX,
{
    let mut stats = DiffStats::zero();
    let mut i: usize = 0;
    while i < files.len()
        invariant
            i <= files.len(),
            stats.summarizes(files@.take(i as int)),
        decreases files.len() - i,
    {
        let file = files[i];
        proof {
            assert(files@.take(i + 1).drop_last() =~= files@.take(i as int));
            lemma_counts_grow(files@, i + 1);
        }
        if file.is_reported() {
            let counted = stats.files_changed.checked_add(file.kind.category_count());
            let inserted = stats.insertions.checked_add(file.insertions as u64);
            let deleted = stats.deletions.checked_add(file.deletions as u64);
            match (counted, inserted, deleted) {
                (Some(files_changed), Some(insertions), Some(deletions)) => {
                    stats = DiffStats { files_changed, insertions, deletions };
                },
                _ => {
                    return None;
                },
            }
        }
        i += 1;
    }
    proof {
        assert(files@.take(files.len() as int) =~= files@);
    }
    Some(stats)
}

} // verus!
