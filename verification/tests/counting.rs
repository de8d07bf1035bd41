use hoc::change::{summarize, ChangeKind, DiffStats, FileChange};
use hoc::error::{Cause, HocError};
use hoc::history::{hits_of_code, CommitChange, DiffBase};
use hoc::settings::DiffSettings;
use hoc::walk::describe;

fn text(kind: ChangeKind, insertions: usize, deletions: usize) -> FileChange {
    FileChange { kind, binary: false, content_changed: true, insertions, deletions }
}

fn stats(files_changed: u64, insertions: u64, deletions: u64) -> DiffStats {
    DiffStats { files_changed, insertions, deletions }
}

fn commit(parents: usize, files_changed: u64, insertions: u64, deletions: u64) -> CommitChange {
    CommitChange { parents, stats: stats(files_changed, insertions, deletions) }
}

#[test]
fn filter_reports_files_under_four_categories() {
    assert!(ChangeKind::Added.is_reportable());
    assert!(ChangeKind::Copied.is_reportable());
    assert!(ChangeKind::Deleted.is_reportable());
    assert!(ChangeKind::Modified.is_reportable());
    assert_eq!(ChangeKind::Added.category_count(), 1);
    assert_eq!(ChangeKind::Copied.category_count(), 1);
    assert_eq!(ChangeKind::Deleted.category_count(), 1);
    assert_eq!(ChangeKind::Modified.category_count(), 1);
}

#[test]
fn filter_reports_a_renamed_file_as_deleted_and_added() {
    assert!(ChangeKind::Renamed.is_reportable());
    assert_eq!(ChangeKind::Renamed.category_count(), 2);
}

#[test]
fn filter_holds_back_what_is_no_change_between_trees() {
    assert!(!ChangeKind::Unmodified.is_reportable());
    assert!(!ChangeKind::TypeChange.is_reportable());
    assert!(!ChangeKind::Ignored.is_reportable());
    assert!(!ChangeKind::Untracked.is_reportable());
    assert!(!ChangeKind::Unreadable.is_reportable());
    assert!(!ChangeKind::Conflicted.is_reportable());
    assert_eq!(ChangeKind::Unmodified.category_count(), 0);
    assert_eq!(ChangeKind::TypeChange.category_count(), 0);
    assert_eq!(ChangeKind::Ignored.category_count(), 0);
    assert_eq!(ChangeKind::Untracked.category_count(), 0);
    assert_eq!(ChangeKind::Unreadable.category_count(), 0);
    assert_eq!(ChangeKind::Conflicted.category_count(), 0);
}

#[test]
fn modification_without_lines_is_not_reported() {
    assert!(!text(ChangeKind::Modified, 0, 0).is_reported());
    assert!(text(ChangeKind::Modified, 1, 0).is_reported());
    assert!(text(ChangeKind::Modified, 0, 1).is_reported());
}

#[test]
fn binary_modification_is_reported() {
    let change = FileChange {
        kind: ChangeKind::Modified,
        binary: true,
        content_changed: true,
        insertions: 0,
        deletions: 0,
    };
    assert!(change.is_reported());
}

#[test]
fn modification_of_mode_alone_is_reported() {
    let change = FileChange {
        kind: ChangeKind::Modified,
        binary: false,
        content_changed: false,
        insertions: 0,
        deletions: 0,
    };
    assert!(change.is_reported());
}

#[test]
fn empty_added_file_is_reported() {
    assert!(text(ChangeKind::Added, 0, 0).is_reported());
    assert!(text(ChangeKind::Deleted, 0, 0).is_reported());
    assert!(text(ChangeKind::Copied, 0, 0).is_reported());
}

#[test]
fn renamed_file_counts_as_its_deleted_and_added_forms() {
    let renamed = text(ChangeKind::Renamed, 4, 2);
    assert!(renamed.is_reported());
    assert!(text(ChangeKind::Renamed, 0, 0).is_reported());
    let forms = vec![text(ChangeKind::Deleted, 0, 2), text(ChangeKind::Added, 4, 0)];
    assert_eq!(summarize(&vec![renamed]), Some(stats(2, 4, 2)));
    assert_eq!(summarize(&vec![renamed]), summarize(&forms));
}

#[test]
fn copied_file_counts_as_its_added_form() {
    let copied = text(ChangeKind::Copied, 4, 0);
    assert_eq!(summarize(&vec![copied]), Some(stats(1, 4, 0)));
    assert_eq!(summarize(&vec![copied]), summarize(&vec![text(ChangeKind::Added, 4, 0)]));
}

#[test]
fn relabelled_list_counts_what_the_plain_list_counts() {
    let plain = vec![
        text(ChangeKind::Added, 4, 0),
        text(ChangeKind::Deleted, 0, 4),
        text(ChangeKind::Added, 3, 0),
        text(ChangeKind::Modified, 1, 1),
    ];
    let unmodified = FileChange {
        kind: ChangeKind::Unmodified,
        binary: false,
        content_changed: false,
        insertions: 0,
        deletions: 0,
    };
    let listed_for_the_search = vec![
        unmodified,
        text(ChangeKind::Added, 4, 0),
        text(ChangeKind::Deleted, 0, 4),
        unmodified,
        text(ChangeKind::Added, 3, 0),
        text(ChangeKind::Modified, 1, 1),
        unmodified,
    ];
    let relabelled = vec![
        text(ChangeKind::Modified, 1, 1),
        text(ChangeKind::Copied, 3, 0),
        unmodified,
        text(ChangeKind::Renamed, 4, 4),
    ];
    assert_eq!(summarize(&plain), Some(stats(4, 8, 5)));
    assert_eq!(summarize(&listed_for_the_search), summarize(&plain));
    assert_eq!(summarize(&relabelled), summarize(&plain));
}

#[test]
fn summarize_of_nothing_is_zero() {
    assert_eq!(summarize(&vec![]), Some(stats(0, 0, 0)));
    assert_eq!(DiffStats::zero(), stats(0, 0, 0));
}

#[test]
fn summarize_counts_reported_files_only() {
    let files = vec![
        text(ChangeKind::Added, 3, 0),
        text(ChangeKind::Modified, 0, 0),
        text(ChangeKind::Renamed, 5, 1),
        text(ChangeKind::Deleted, 0, 7),
        text(ChangeKind::Modified, 2, 1),
        text(ChangeKind::Copied, 1, 0),
        text(ChangeKind::TypeChange, 9, 9),
    ];
    assert_eq!(summarize(&files), Some(stats(6, 11, 9)));
}

#[test]
fn summarize_of_added_files_counts_each_file_and_line() {
    let files = vec![text(ChangeKind::Added, 3, 0), text(ChangeKind::Added, 2, 0)];
    let summary = summarize(&files).unwrap();
    assert_eq!(summary, stats(2, 5, 0));
    assert_eq!(summary.checked_hits(), Some(5 + 2));
}

#[test]
fn summarize_of_whitespace_changes_is_zero() {
    let files = vec![text(ChangeKind::Modified, 0, 0), text(ChangeKind::Modified, 0, 0)];
    assert_eq!(summarize(&files), Some(stats(0, 0, 0)));
}

#[test]
fn summarize_reports_overflow_of_insertions() {
    let files = vec![
        text(ChangeKind::Added, usize::MAX, 0),
        text(ChangeKind::Added, usize::MAX, 0),
        text(ChangeKind::Added, usize::MAX, 0),
    ];
    if usize::MAX as u128 * 3 > u64::MAX as u128 {
        assert_eq!(summarize(&files), None);
    } else {
        assert_eq!(summarize(&files), Some(stats(3, 3 * usize::MAX as u64, 0)));
    }
}

#[test]
fn summarize_reports_overflow_of_deletions() {
    let files = vec![
        text(ChangeKind::Deleted, 0, usize::MAX),
        text(ChangeKind::Unmodified, usize::MAX, usize::MAX),
        text(ChangeKind::Deleted, 0, 1),
    ];
    if usize::MAX as u128 + 1 > u64::MAX as u128 {
        assert_eq!(summarize(&files), None);
    } else {
        assert_eq!(summarize(&files), Some(stats(2, 0, usize::MAX as u64 + 1)));
    }
}

#[test]
fn summarize_ignores_lines_of_unreported_files_for_overflow() {
    let files = vec![
        text(ChangeKind::TypeChange, usize::MAX, usize::MAX),
        text(ChangeKind::Unmodified, usize::MAX, usize::MAX),
        text(ChangeKind::Modified, 1, 1),
    ];
    assert_eq!(summarize(&files), Some(stats(1, 1, 1)));
}

#[test]
fn hits_add_the_three_counts() {
    assert_eq!(stats(1, 2, 1).checked_hits(), Some(4));
    assert_eq!(stats(0, 0, 0).checked_hits(), Some(0));
    assert_eq!(stats(u64::MAX, 0, 0).checked_hits(), Some(u64::MAX));
    assert_eq!(stats(u64::MAX - 2, 1, 1).checked_hits(), Some(u64::MAX));
}

#[test]
fn hits_beyond_64_bits_are_none() {
    assert_eq!(stats(u64::MAX, 1, 0).checked_hits(), None);
    assert_eq!(stats(u64::MAX - 1, 1, 1).checked_hits(), None);
    assert_eq!(stats(1, u64::MAX, u64::MAX).checked_hits(), None);
}

#[test]
fn diff_base_follows_parent_count() {
    assert_eq!(DiffBase::for_parents(0), DiffBase::EmptyTree);
    assert_eq!(DiffBase::for_parents(1), DiffBase::Parent);
    assert_eq!(DiffBase::for_parents(2), DiffBase::Nothing);
    assert_eq!(DiffBase::for_parents(3), DiffBase::Nothing);
    assert_eq!(DiffBase::for_parents(usize::MAX), DiffBase::Nothing);
}

#[test]
fn merge_commit_has_no_hits() {
    assert_eq!(commit(2, 4, 10, 3).checked_hits(), Some(0));
    assert_eq!(commit(8, u64::MAX, u64::MAX, u64::MAX).checked_hits(), Some(0));
    assert_eq!(commit(1, 4, 10, 3).checked_hits(), Some(17));
    assert_eq!(commit(0, 4, 10, 0).checked_hits(), Some(14));
    assert_eq!(commit(1, u64::MAX, 1, 0).checked_hits(), None);
}

#[test]
fn history_without_commits_totals_zero() {
    assert_eq!(hits_of_code(&vec![]), Ok(0));
}

#[test]
fn history_of_one_root_commit_totals_lines_plus_files() {
    assert_eq!(hits_of_code(&vec![commit(0, 2, 5, 0)]), Ok(5 + 2));
}

#[test]
fn history_of_two_commits_adds_the_second_to_the_first() {
    let creation = commit(0, 1, 3, 0);
    let alone = hits_of_code(&vec![creation]).unwrap();
    assert_eq!(alone, 4);
    assert_eq!(hits_of_code(&vec![commit(1, 1, 2, 1), creation]), Ok(alone + 1 + 2 + 1));
}

#[test]
fn history_skips_merges() {
    let history = vec![commit(2, 3, 3, 0), commit(1, 1, 1, 0), commit(1, 1, 1, 0), commit(0, 1, 1, 0)];
    assert_eq!(hits_of_code(&history), Ok(6));
}

#[test]
fn total_does_not_depend_on_order() {
    let a = commit(0, 1, 3, 0);
    let b = commit(1, 1, 2, 1);
    let c = commit(2, 5, 5, 5);
    let d = commit(1, 2, 0, 9);
    assert_eq!(hits_of_code(&vec![a, b, c, d]), Ok(19));
    assert_eq!(hits_of_code(&vec![d, c, b, a]), Ok(19));
    assert_eq!(hits_of_code(&vec![c, a, d, b]), Ok(19));
}

#[test]
fn total_grows_with_each_contribution() {
    let lower = vec![commit(0, 1, 3, 0), commit(1, 0, 0, 0), commit(1, 1, 1, 1)];
    let upper = vec![commit(0, 1, 3, 0), commit(1, 2, 4, 4), commit(1, 1, 1, 1)];
    assert_eq!(hits_of_code(&lower), Ok(7));
    assert_eq!(hits_of_code(&upper), Ok(17));
    assert_eq!(hits_of_code(&lower[..2].to_vec()), Ok(4));
    assert_eq!(hits_of_code(&lower[..1].to_vec()), Ok(4));
}

#[test]
fn total_up_to_the_limit_is_exact() {
    let history = vec![commit(1, u64::MAX - 10, 0, 0), commit(2, 100, 100, 100), commit(0, 4, 3, 3)];
    assert_eq!(hits_of_code(&history), Ok(u64::MAX));
}

#[test]
fn total_beyond_64_bits_is_an_overflow() {
    let history = vec![commit(1, u64::MAX - 10, 0, 0), commit(0, 4, 4, 3)];
    assert_eq!(hits_of_code(&history), Err(HocError::Overflow));
    assert_eq!(hits_of_code(&vec![commit(0, u64::MAX, 1, 0)]), Err(HocError::Overflow));
    assert_eq!(
        hits_of_code(&vec![commit(0, u64::MAX, 0, 0), commit(1, 0, 0, 1), commit(1, 0, 0, 0)]),
        Err(HocError::Overflow)
    );
}

#[test]
fn settings_always_ignore_whitespace_and_submodules() {
    let plain = DiffSettings::new(false);
    assert_eq!(
        plain,
        DiffSettings {
            ignore_all_space: true,
            ignore_space_change: true,
            ignore_submodules: true,
            include_unmodified: false,
            find_renames: false,
            find_copies: false,
            find_copies_harder: false,
        }
    );
    assert!(!plain.searches_similar());
}

#[test]
fn settings_with_detection_search_renames_and_copies() {
    let detecting = DiffSettings::new(true);
    assert_eq!(
        detecting,
        DiffSettings {
            ignore_all_space: true,
            ignore_space_change: true,
            ignore_submodules: true,
            include_unmodified: true,
            find_renames: true,
            find_copies: true,
            find_copies_harder: true,
        }
    );
    assert!(detecting.searches_similar());
}

#[test]
fn settings_search_when_any_detection_is_on() {
    let mut settings = DiffSettings::new(false);
    settings.find_copies = true;
    assert!(settings.searches_similar());
    let mut settings = DiffSettings::new(false);
    settings.find_renames = true;
    assert!(settings.searches_similar());
    let mut settings = DiffSettings::new(false);
    settings.find_copies_harder = true;
    assert!(settings.searches_similar());
}

#[test]
fn unborn_branch_is_no_failure() {
    assert_eq!(Cause::UnbornBranch.as_failure(), None);
    assert_eq!(Cause::Other.as_failure(), Some(HocError::HistoryTraversal));
}

#[test]
fn description_takes_added_and_deleted_lines_from_the_line_statistics() {
    assert_eq!(
        describe(ChangeKind::Modified, false, false, Ok((7, 2, 1))),
        Ok(FileChange {
            kind: ChangeKind::Modified,
            binary: false,
            content_changed: true,
            insertions: 2,
            deletions: 1,
        })
    );
    assert_eq!(
        describe(ChangeKind::Added, true, false, Ok((0, 0, 0))),
        Ok(FileChange {
            kind: ChangeKind::Added,
            binary: true,
            content_changed: true,
            insertions: 0,
            deletions: 0,
        })
    );
}

#[test]
fn description_of_equal_sides_has_unchanged_content() {
    assert_eq!(
        describe(ChangeKind::Modified, false, true, Ok((0, 0, 0))),
        Ok(FileChange {
            kind: ChangeKind::Modified,
            binary: false,
            content_changed: false,
            insertions: 0,
            deletions: 0,
        })
    );
    assert_eq!(
        describe(ChangeKind::Copied, false, true, Ok((4, 0, 3))),
        Ok(FileChange {
            kind: ChangeKind::Copied,
            binary: false,
            content_changed: false,
            insertions: 0,
            deletions: 3,
        })
    );
}

#[test]
fn description_without_line_statistics_is_a_traversal_failure() {
    let failure = git2::Error::from_str("no statistics");
    assert_eq!(
        describe(ChangeKind::Modified, false, false, Err(failure)),
        Err(HocError::HistoryTraversal)
    );
}

#[test]
fn summary_counts_no_line_without_a_file() {
    let held_back = vec![
        text(ChangeKind::Untracked, 4, 2),
        text(ChangeKind::Modified, 0, 0),
        text(ChangeKind::TypeChange, 1, 1),
        text(ChangeKind::Unmodified, 0, 3),
    ];
    assert_eq!(summarize(&held_back), Some(stats(0, 0, 0)));
    let one_let_through = vec![text(ChangeKind::Ignored, 4, 2), text(ChangeKind::Deleted, 0, 3)];
    assert_eq!(summarize(&one_let_through), Some(stats(1, 0, 3)));
}

#[test]
fn summarize_counts_two_files_for_each_renamed_file() {
    let renamed = text(ChangeKind::Renamed, 0, 0);
    assert_eq!(summarize(&vec![renamed; 3]), Some(stats(6, 0, 0)));
}
