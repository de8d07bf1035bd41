//! Hits-of-code: the sum, over every commit reachable from HEAD, of the files
//! changed, the lines inserted and the lines deleted by that commit.
//!
//! The counting rules are verified; the repository itself is read through
//! `git2`, whose behaviour is trusted and kept behind the items of [`git`].

pub mod change;
pub mod cli;
pub mod error;
pub mod git;
pub mod history;
pub mod settings;
pub mod walk;

pub use walk::{hoc, hoc_at};
