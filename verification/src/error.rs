//! Why a computation of the metric failed.

use vstd::prelude::*;

verus! {

/// The ways in which the computation of the metric can fail.
///
/// Every failure is fatal: no partial total is ever reported.
#[derive(Clone, Copy, Debug, PartialEq, Eq, Structural)]
pub enum HocError {
    /// The directory holds no repository, or the repository cannot be read.
    RepositoryAccess,
    /// HEAD, a commit, a tree or a diff could not be loaded.
    HistoryTraversal,
    /// A count exceeds what 64 bits, or the memory of the machine, can hold.
    Overflow,
}

/// What a failure to resolve HEAD means.
#[derive(Clone, Copy, Debug, PartialEq, Eq, Structural)]
pub enum Cause {
    /// HEAD names a branch that has no commit yet.
    UnbornBranch,
    /// Anything else.
    Other,
}

impl Cause {
    /// The failure that the cause amounts to: none for an unborn branch,
    /// whose history is empty, and a failed traversal for the rest.
    pub open spec fn failure(self) -> Option<HocError> {
        match self {
            Cause::UnbornBranch => None,
            Cause::Other => Some(HocError::HistoryTraversal),
        }
    }

    /// Decides what an unresolved HEAD amounts to.
    pub fn as_failure(&self) -> (failure: Option<HocError>)
        ensures
            failure == self.failure(),
    {
        match self {
            Cause::UnbornBranch => None,
            Cause::Other => Some(HocError::HistoryTraversal),
        }
    }
}

} // verus!
