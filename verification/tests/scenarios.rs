use cleaner::args::{build_cleaner, Args};
use cleaner::cleaner::{
    Cleaner, CleanerCondition, Decision, Entry, EntryAction, ExclusionFilter,
    LastModifiedIsOlderThan,
};
use cleaner::errors::CleanError;
use cleaner::paths::EntryPath;
use cleaner::time::{Duration, Timestamp};

fn named(path: &str, name: &str) -> EntryPath {
    EntryPath {
        text: Some(path.to_string()),
        name: Some(name.to_string()),
    }
}

/// Scenario: a file two hours old against a threshold of 1 h 59 min is a
/// deletion candidate, and a real (non-dry) run moves it to the trash.
#[test]
fn old_file_is_trashed() {
    let now = Timestamp::from_secs(1_000_000);
    let modified = Timestamp::from_secs(1_000_000 - 2 * 60 * 60);
    let threshold = Duration::from_secs(60 * 60 + 59 * 60);
    let cond = LastModifiedIsOlderThan::new(threshold, now);

    assert_eq!(cond.test(named("./old.txt", "old.txt"), modified), Ok(true));

    let c = Cleaner::new(
        named(".", "."),
        false,
        vec![cond],
        ExclusionFilter::new(vec![]),
    );
    let entries = vec![Entry {
        path: named("./old.txt", "old.txt"),
        modified,
    }];
    let actions = c.clean(&entries).unwrap();
    assert_eq!(actions, vec![EntryAction::Trash]);
}

/// Scenario: a file only ten seconds old against a sixty-second threshold
/// is retained.
#[test]
fn young_file_is_retained() {
    let now = Timestamp::from_secs(1_000_000);
    let modified = Timestamp::from_secs(1_000_000 - 10);
    let cond = LastModifiedIsOlderThan::new(Duration::from_secs(60), now);

    assert_eq!(cond.test(named("./new.txt", "new.txt"), modified), Ok(false));

    let c = Cleaner::new(
        named(".", "."),
        false,
        vec![cond],
        ExclusionFilter::new(vec![]),
    );
    let entries = vec![Entry {
        path: named("./new.txt", "new.txt"),
        modified,
    }];
    let actions = c.clean(&entries).unwrap();
    assert_eq!(actions, vec![EntryAction::Keep]);
}

/// Scenario: a modified time five minutes in the future is a fatal
/// clock-inconsistency error carrying the path and both timestamps, and it
/// aborts the whole run.
#[test]
fn future_mtime_is_fatal() {
    let now = Timestamp::from_secs(1_000_000);
    let modified = Timestamp::from_secs(1_000_000 + 5 * 60);
    let cond = LastModifiedIsOlderThan::new(Duration::from_secs(60), now);

    match cond.test(named("./future.txt", "future.txt"), modified) {
        Err(CleanError::ClockSkew {
            path,
            now: seen_now,
            modified: seen_modified,
        }) => {
            assert_eq!(path.name.as_deref(), Some("future.txt"));
            assert_eq!(seen_now, now);
            assert_eq!(seen_modified, modified);
        }
        other => panic!("expected a clock-skew error, got {other:?}"),
    }

    let c = Cleaner::new(
        named(".", "."),
        false,
        vec![cond],
        ExclusionFilter::new(vec![]),
    );
    let entries = vec![Entry {
        path: named("./future.txt", "future.txt"),
        modified,
    }];
    assert!(matches!(
        c.clean(&entries),
        Err(CleanError::ClockSkew { .. })
    ));
}

/// Scenario: `.DS_Store` aged ten days against a one-day threshold is
/// protected while the default exclusions are in, and trashed once they are
/// disabled.
#[test]
fn default_exclusions_protect_junk_names() {
    let now = Timestamp::from_secs(10_000_000);
    let modified = Timestamp::from_secs(10_000_000 - 10 * 24 * 60 * 60);
    let entries = vec![Entry {
        path: named("./.DS_Store", ".DS_Store"),
        modified,
    }];

    let args = |no_defaults: bool| Args {
        path: named(".", "."),
        dry_run: false,
        not_modified_within: Some("1d".to_string()),
        exclude: vec![],
        no_default_exclusions: no_defaults,
    };

    let with_defaults = build_cleaner(args(false), now).unwrap();
    assert_eq!(with_defaults.clean(&entries).unwrap(), vec![EntryAction::Skip]);

    let without_defaults = build_cleaner(args(true), now).unwrap();
    assert_eq!(
        without_defaults.clean(&entries).unwrap(),
        vec![EntryAction::Trash]
    );
}

/// Scenario: a run with zero configured conditions is a configuration
/// error, raised before any entry is looked at.
#[test]
fn zero_conditions_is_a_configuration_error() {
    let entries = vec![Entry {
        path: named("./a.txt", "a.txt"),
        modified: Timestamp::from_secs(0),
    }];
    let c: Cleaner<LastModifiedIsOlderThan> = Cleaner::new(
        named(".", "."),
        false,
        vec![],
        ExclusionFilter::new(vec![]),
    );
    assert!(matches!(c.clean(&entries), Err(CleanError::NoConditions)));

    let args = Args {
        path: named(".", "."),
        dry_run: false,
        not_modified_within: None,
        exclude: vec![],
        no_default_exclusions: false,
    };
    assert!(matches!(
        build_cleaner(args, Timestamp::from_secs(0)),
        Err(CleanError::NoConditions)
    ));
}

/// A file whose age is exactly the threshold is retained: the comparison is
/// strict.
#[test]
fn age_exactly_at_threshold_retains() {
    let now = Timestamp::from_secs(1_000_000);
    let cond = LastModifiedIsOlderThan::new(Duration::from_secs(100), now);

    let exactly = Timestamp::from_secs(1_000_000 - 100);
    assert_eq!(cond.test(named("./f", "f"), exactly), Ok(false));

    let just_older = Timestamp::new(1_000_000 - 101, 999_999_999);
    assert_eq!(cond.test(named("./f", "f"), just_older), Ok(true));
}

/// An excluded entry matching an age condition is never deleted and never
/// reported: exclusion is checked before any condition.
#[test]
fn exclusion_wins_over_matching_condition() {
    let now = Timestamp::from_secs(1_000_000);
    let cond = LastModifiedIsOlderThan::new(Duration::from_secs(1), now);
    let c = Cleaner::new(
        named(".", "."),
        false,
        vec![cond],
        ExclusionFilter::new(vec!["keep.me".to_string()]),
    );
    let e = Entry {
        path: named("./keep.me", "keep.me"),
        modified: Timestamp::from_secs(0),
    };
    assert_eq!(c.decide_entry(&e), Ok(Decision::Excluded));
    let actions = c.clean(&vec![e]).unwrap();
    assert_eq!(actions, vec![EntryAction::Skip]);
}

/// A dry run never produces a trash action, and a second identical run
/// yields identical output.
#[test]
fn dry_run_reports_and_repeats() {
    let now = Timestamp::from_secs(1_000_000);
    let cond = LastModifiedIsOlderThan::new(Duration::from_secs(10), now);
    let c = Cleaner::new(
        named(".", "."),
        true,
        vec![cond],
        ExclusionFilter::new(vec![]),
    );
    let entries = vec![
        Entry {
            path: named("./old.txt", "old.txt"),
            modified: Timestamp::from_secs(0),
        },
        Entry {
            path: named("./new.txt", "new.txt"),
            modified: now,
        },
    ];
    let first = c.clean(&entries).unwrap();
    let second = c.clean(&entries).unwrap();
    assert_eq!(first, vec![EntryAction::Report, EntryAction::Keep]);
    assert_eq!(first, second);
    assert!(first.iter().all(|a| *a != EntryAction::Trash));
}

/// With several conditions matching the same entry, evaluation stops at the
/// first match: the entry still gets exactly one action.
#[test]
fn first_matching_condition_wins() {
    let now = Timestamp::from_secs(1_000_000);
    let first = LastModifiedIsOlderThan::new(Duration::from_secs(10), now);
    let second = LastModifiedIsOlderThan::new(Duration::from_secs(20), now);
    let c = Cleaner::new(
        named(".", "."),
        false,
        vec![first, second],
        ExclusionFilter::new(vec![]),
    );
    let entries = vec![Entry {
        path: named("./old.txt", "old.txt"),
        modified: Timestamp::from_secs(0),
    }];
    let actions = c.clean(&entries).unwrap();
    assert_eq!(actions, vec![EntryAction::Trash]);
}

/// Conditions run in configured order: when the first cannot decide the
/// entry, its error aborts the run even though a later one would match.
#[test]
fn first_condition_error_aborts_before_later_match() {
    let early = Timestamp::from_secs(1_000);
    let late = Timestamp::from_secs(2_000_000);
    let skewed = LastModifiedIsOlderThan::new(Duration::from_secs(10), early);
    let matching = LastModifiedIsOlderThan::new(Duration::from_secs(10), late);
    let c = Cleaner::new(
        named(".", "."),
        false,
        vec![skewed, matching],
        ExclusionFilter::new(vec![]),
    );
    let entries = vec![Entry {
        path: named("./f", "f"),
        modified: Timestamp::from_secs(1_000_000),
    }];
    assert!(matches!(
        c.clean(&entries),
        Err(CleanError::ClockSkew { .. })
    ));
}

/// The first entry that cannot be decided aborts the batch: later entries
/// are not processed, earlier decisions are discarded.
#[test]
fn bad_entry_aborts_the_batch() {
    let now = Timestamp::from_secs(1_000_000);
    let cond = LastModifiedIsOlderThan::new(Duration::from_secs(10), now);
    let c = Cleaner::new(
        named(".", "."),
        false,
        vec![cond],
        ExclusionFilter::new(vec![]),
    );
    let entries = vec![
        Entry {
            path: named("./ok.txt", "ok.txt"),
            modified: Timestamp::from_secs(0),
        },
        Entry {
            path: named("./future.txt", "future.txt"),
            modified: Timestamp::from_secs(2_000_000),
        },
    ];
    match c.clean(&entries) {
        Err(CleanError::ClockSkew { path, .. }) => {
            assert_eq!(path.name.as_deref(), Some("future.txt"));
        }
        other => panic!("expected a clock-skew error, got {other:?}"),
    }
}
