//! How two trees are compared.

use vstd::prelude::*;

verus! {

/// The comparison rules handed to the diff engine.
#[derive(Clone, Copy, Debug, PartialEq, Eq, Structural)]
pub struct DiffSettings {
    /// Ignore all whitespace when comparing lines.
    pub ignore_all_space: bool,
    /// Ignore changes in the amount of whitespace.
    pub ignore_space_change: bool,
    /// Treat every submodule as unmodified.
    pub ignore_submodules: bool,
    /// List the unmodified files too. The search for copies among unmodified
    /// files needs them in the list.
    pub include_unmodified: bool,
    /// Look for renamed files by similarity.
    pub find_renames: bool,
    /// Look for copied files by similarity.
    pub find_copies: bool,
    /// Take unmodified files as sources of copies too. This is expensive.
    pub find_copies_harder: bool,
}

impl DiffSettings {
    /// Whether the comparison is followed by a search for similar files.
    pub open spec fn detects_similarity(self) -> bool {
        self.find_renames || self.find_copies || self.find_copies_harder
    }

    /// The rules of the metric: whitespace and submodules are always ignored,
    /// and renames and copies are searched for, the expensive way included
    /// and the unmodified files listed for it, exactly when
    /// `find_renames_and_copies` is set.
    pub fn new(find_renames_and_copies: bool) -> (settings: DiffSettings)
        ensures
            settings == (DiffSettings {
                ignore_all_space: true,
                ignore_space_change: true,
                ignore_submodules: true,
                include_unmodified: find_renames_and_copies,
                find_renames: find_renames_and_copies,
                find_copies: find_renames_and_copies,
                find_copies_harder: find_renames_and_copies,
            }),
            settings.detects_similarity() == find_renames_and_copies,
    {
        DiffSettings {
            ignore_all_space: true,
            ignore_space_change: true,
            ignore_submodules: true,
            include_unmodified: find_renames_and_copies,
            find_renames: find_renames_and_copies,
            find_copies: find_renames_and_copies,
            find_copies_harder: find_renames_and_copies,
        }
    }

    /// Decides whether the comparison is followed by a search for similar
    /// files.
    pub fn searches_similar(&self) -> (b: bool)
        ensures
            b == self.detects_similarity(),
    {
        self.find_renames || self.find_copies || self.find_copies_harder
    }
}

} // verus!
