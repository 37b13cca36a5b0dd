use cccs::watcher::{checksum, scan, FileObservation, FileWatcher, ScanState};
use cccs::{ChangeType, FileMetadata, FileTime};

fn at(secs: u64) -> FileTime {
    FileTime { secs, nanos: 0 }
}

fn present(secs: u64, size: u64, content: &[u8]) -> FileObservation {
    FileObservation::Present { modified_time: at(secs), size, checksum: Some(checksum(content)) }
}

fn seen(secs: u64, size: u64) -> FileObservation {
    FileObservation::Present { modified_time: at(secs), size, checksum: None }
}

fn running(paths: &[&str], max_scan_errors: u32) -> FileWatcher {
    let mut watcher = FileWatcher::new(5, max_scan_errors, 100);
    for path in paths {
        watcher.add_file(path);
    }
    watcher.start(5);
    watcher
}

fn kinds(changes: &[cccs::ConfigFileChange]) -> Vec<(String, ChangeType)> {
    changes.iter().map(|c| (c.file_path.clone(), c.change_type)).collect()
}

#[test]
fn checksum_of_known_contents() {
    assert_eq!(checksum(b""), 0);
    assert_eq!(checksum(b"a"), 97);
    assert_eq!(checksum(b"ab"), 97 * 31 + 98);
    assert_eq!(checksum(b"abc"), (97 * 31 + 98) * 31 + 99);
    assert_eq!(checksum(&[0, 0, 0]), 0);
    assert_eq!(checksum(&[255]), 255);
}

#[test]
fn checksum_wraps_at_32_bits() {
    let content = b"{\"model\":\"a\",\"theme\":\"dark\"}";
    let mut expected: u32 = 0;
    for byte in content.iter() {
        expected = expected.wrapping_mul(31).wrapping_add(*byte as u32);
    }
    assert_eq!(checksum(content), expected);
    assert_eq!(checksum(&[255; 64]), {
        let mut sum: u32 = 0;
        for _ in 0..64 {
            sum = sum.wrapping_mul(31).wrapping_add(255);
        }
        sum
    });
    assert_ne!(checksum(b"ab"), checksum(b"ba"));
}

#[test]
fn a_new_watcher_monitors_nothing_and_is_stopped() {
    let watcher = FileWatcher::new(7, 3, 50);
    let stats = watcher.get_stats();
    assert_eq!(stats.monitored_files_count, 0);
    assert_eq!(stats.cached_metadata_count, 0);
    assert_eq!(stats.current_error_count, 0);
    assert!(!stats.is_running);
    assert_eq!(stats.interval_minutes, 7);
    assert_eq!(stats.cache_size_limit, 50);
    assert_eq!(stats.max_scan_errors, 3);
    assert!(!watcher.is_running());
    assert_eq!(watcher.file_count(), 0);
    assert!(watcher.file_at(0).is_none());
}

#[test]
fn adding_a_file_twice_registers_it_once() {
    let mut watcher = FileWatcher::new(5, 3, 100);
    watcher.add_file("/c/settings.json");
    watcher.add_file("/c/work.settings.json");
    watcher.add_file("/c/settings.json");
    assert_eq!(watcher.file_count(), 2);
    assert_eq!(watcher.file_at(0).unwrap().path, "/c/settings.json");
    assert_eq!(watcher.file_at(1).unwrap().path, "/c/work.settings.json");
    assert_eq!(watcher.find("/c/work.settings.json"), Some(1));
    assert_eq!(watcher.find("/c/other"), None);
}

#[test]
fn removing_and_clearing() {
    let mut watcher = FileWatcher::new(5, 3, 100);
    watcher.add_file("a");
    watcher.add_file("b");
    watcher.add_file("c");
    assert!(watcher.remove_file("b"));
    assert!(!watcher.remove_file("b"));
    assert_eq!(watcher.file_count(), 2);
    assert_eq!(watcher.file_at(1).unwrap().path, "c");
    watcher.clear();
    assert_eq!(watcher.file_count(), 0);
    assert_eq!(watcher.interval_minutes(), 5);
}

#[test]
fn start_stop_and_interval() {
    let mut watcher = FileWatcher::new(5, 3, 100);
    watcher.add_file("a");
    watcher.stop();
    assert!(!watcher.is_running());
    watcher.start(10);
    assert!(watcher.is_running());
    assert_eq!(watcher.interval_minutes(), 10);
    watcher.set_interval(2);
    assert!(watcher.is_running());
    assert_eq!(watcher.interval_minutes(), 2);
    assert_eq!(watcher.file_count(), 1);
    watcher.stop();
    watcher.stop();
    assert!(!watcher.is_running());
    assert_eq!(watcher.interval_minutes(), 2);
}

#[test]
fn a_new_file_is_created_once() {
    let mut watcher = running(&["a"], 3);
    let changes = watcher.tick(&vec![present(10, 2, b"{}")]);
    assert_eq!(kinds(&changes), vec![("a".to_string(), ChangeType::Created)]);
    let file = watcher.file_at(0).unwrap();
    assert_eq!(
        file.cache,
        Some(FileMetadata { modified_time: at(10), checksum: checksum(b"{}"), size: 2 })
    );
    assert_eq!(file.error_count, 0);
    let changes = watcher.tick(&vec![present(10, 2, b"{}")]);
    assert!(changes.is_empty());
}

#[test]
fn an_unchanged_file_reports_nothing_however_often_it_is_scanned() {
    let mut watcher = running(&["a"], 3);
    watcher.tick(&vec![present(10, 2, b"{}")]);
    let before = watcher.file_at(0).unwrap().cache.unwrap();
    for _ in 0..25 {
        assert!(watcher.tick(&vec![seen(10, 2)]).is_empty());
        assert!(watcher.tick(&vec![present(10, 2, b"{}")]).is_empty());
    }
    let after = watcher.file_at(0).unwrap().cache.unwrap();
    assert_eq!(after, before);
}

#[test]
fn an_absent_file_that_was_never_seen_reports_nothing() {
    let mut watcher = running(&["a"], 3);
    for _ in 0..5 {
        assert!(watcher.tick(&vec![FileObservation::Missing]).is_empty());
    }
    let file = watcher.file_at(0).unwrap();
    assert_eq!(file.cache, None);
    assert_eq!(file.error_count, 0);
}

#[test]
fn a_deleted_file_is_deleted_once() {
    let mut watcher = running(&["a"], 3);
    watcher.tick(&vec![present(10, 2, b"{}")]);
    let changes = watcher.tick(&vec![FileObservation::Missing]);
    assert_eq!(kinds(&changes), vec![("a".to_string(), ChangeType::Deleted)]);
    assert_eq!(watcher.file_at(0).unwrap().cache, None);
    assert!(watcher.tick(&vec![FileObservation::Missing]).is_empty());
    let changes = watcher.tick(&vec![present(20, 2, b"{}")]);
    assert_eq!(kinds(&changes), vec![("a".to_string(), ChangeType::Created)]);
}

#[test]
fn an_edited_file_is_modified_once() {
    let mut watcher = running(&["a"], 3);
    watcher.tick(&vec![present(10, 7, b"{\"a\":1}")]);
    let changes = watcher.tick(&vec![present(11, 7, b"{\"a\":2}")]);
    assert_eq!(kinds(&changes), vec![("a".to_string(), ChangeType::Modified)]);
    assert_eq!(
        watcher.file_at(0).unwrap().cache,
        Some(FileMetadata { modified_time: at(11), checksum: checksum(b"{\"a\":2}"), size: 7 })
    );
    assert!(watcher.tick(&vec![present(11, 7, b"{\"a\":2}")]).is_empty());
    let changes = watcher.tick(&vec![present(11, 8, b"{\"a\":22}")]);
    assert_eq!(kinds(&changes), vec![("a".to_string(), ChangeType::Modified)]);
}

#[test]
fn a_touched_file_reports_nothing_and_refreshes_the_cache() {
    let mut watcher = running(&["a"], 3);
    watcher.tick(&vec![present(10, 2, b"{}")]);
    assert!(watcher.needs_content(0, at(99), 2));
    let changes = watcher.tick(&vec![present(99, 2, b"{}")]);
    assert!(changes.is_empty());
    assert_eq!(
        watcher.file_at(0).unwrap().cache,
        Some(FileMetadata { modified_time: at(99), checksum: checksum(b"{}"), size: 2 })
    );
    assert!(!watcher.needs_content(0, at(99), 2));
}

#[test]
fn content_is_needed_only_when_time_or_size_changed() {
    let mut watcher = running(&["a"], 3);
    assert!(watcher.needs_content(0, at(10), 2));
    assert!(!watcher.needs_content(1, at(10), 2));
    watcher.tick(&vec![present(10, 2, b"{}")]);
    assert!(!watcher.needs_content(0, at(10), 2));
    assert!(watcher.needs_content(0, at(11), 2));
    assert!(watcher.needs_content(0, at(10), 3));
    assert!(watcher.needs_content(0, FileTime { secs: 10, nanos: 1 }, 2));
}

#[test]
fn a_change_seen_without_its_content_counts_as_a_failure() {
    let mut watcher = running(&["a"], 3);
    assert!(watcher.tick(&vec![seen(10, 2)]).is_empty());
    let file = watcher.file_at(0).unwrap();
    assert_eq!(file.cache, None);
    assert_eq!(file.error_count, 1);
}

#[test]
fn one_tick_reports_all_changes_as_one_batch_in_the_order_of_the_files() {
    let mut watcher = running(&["a", "b", "c", "d"], 3);
    watcher.tick(&vec![
        present(1, 1, b"a"),
        present(1, 1, b"b"),
        FileObservation::Missing,
        present(1, 1, b"d"),
    ]);
    let changes = watcher.tick(&vec![
        present(2, 1, b"x"),
        FileObservation::Missing,
        present(2, 1, b"c"),
        present(1, 1, b"d"),
    ]);
    assert_eq!(
        kinds(&changes),
        vec![
            ("a".to_string(), ChangeType::Modified),
            ("b".to_string(), ChangeType::Deleted),
            ("c".to_string(), ChangeType::Created),
        ]
    );
}

#[test]
fn files_without_an_observation_are_left_alone() {
    let mut watcher = running(&["a", "b"], 3);
    let changes = watcher.tick(&vec![present(1, 1, b"a")]);
    assert_eq!(kinds(&changes), vec![("a".to_string(), ChangeType::Created)]);
    assert_eq!(watcher.file_at(1).unwrap().cache, None);
    let changes = watcher.tick(&vec![
        present(1, 1, b"a"),
        present(1, 1, b"b"),
        present(1, 1, b"c"),
    ]);
    assert_eq!(kinds(&changes), vec![("b".to_string(), ChangeType::Created)]);
    assert!(watcher.tick(&vec![]).is_empty());
}

#[test]
fn a_stopped_watcher_does_nothing() {
    let mut watcher = FileWatcher::new(5, 3, 100);
    watcher.add_file("a");
    assert!(watcher.tick(&vec![present(1, 1, b"a")]).is_empty());
    assert_eq!(watcher.file_at(0).unwrap().cache, None);
    watcher.start(5);
    watcher.tick(&vec![present(1, 1, b"a")]);
    watcher.stop();
    assert!(watcher.tick(&vec![FileObservation::Missing]).is_empty());
    assert!(watcher.file_at(0).unwrap().cache.is_some());
    watcher.start(5);
    let changes = watcher.tick(&vec![FileObservation::Missing]);
    assert_eq!(kinds(&changes), vec![("a".to_string(), ChangeType::Deleted)]);
}

#[test]
fn a_failure_leaves_the_cache_and_a_success_resets_the_count() {
    let mut watcher = running(&["a"], 3);
    watcher.tick(&vec![present(10, 2, b"{}")]);
    let cached = watcher.file_at(0).unwrap().cache;
    assert!(watcher.tick(&vec![FileObservation::Failed]).is_empty());
    assert!(watcher.tick(&vec![FileObservation::Failed]).is_empty());
    let file = watcher.file_at(0).unwrap();
    assert_eq!(file.cache, cached);
    assert_eq!(file.error_count, 2);
    assert_eq!(watcher.get_stats().current_error_count, 2);
    assert!(!watcher.budget_exceeded("a"));
    assert!(watcher.tick(&vec![seen(10, 2)]).is_empty());
    assert_eq!(watcher.file_at(0).unwrap().error_count, 0);
}

#[test]
fn the_budget_is_spent_after_more_failures_than_allowed() {
    let mut watcher = running(&["a", "b"], 3);
    watcher.tick(&vec![present(10, 2, b"{}"), present(10, 2, b"{}")]);
    for _ in 0..3 {
        watcher.tick(&vec![FileObservation::Failed, seen(10, 2)]);
    }
    assert!(!watcher.budget_exceeded("a"));
    watcher.tick(&vec![FileObservation::Failed, seen(10, 2)]);
    assert!(watcher.budget_exceeded("a"));
    assert!(!watcher.budget_exceeded("b"));
    assert!(!watcher.budget_exceeded("unknown"));
    assert_eq!(watcher.file_at(0).unwrap().error_count, 4);
}

#[test]
fn a_file_whose_budget_is_spent_is_not_scanned_until_it_is_added_again() {
    let mut watcher = running(&["a"], 1);
    watcher.tick(&vec![present(10, 2, b"{}")]);
    watcher.tick(&vec![FileObservation::Failed]);
    watcher.tick(&vec![FileObservation::Failed]);
    assert!(watcher.budget_exceeded("a"));
    let cached = watcher.file_at(0).unwrap().cache;
    assert!(watcher.tick(&vec![present(20, 3, b"new")]).is_empty());
    assert!(watcher.tick(&vec![FileObservation::Missing]).is_empty());
    assert!(watcher.tick(&vec![FileObservation::Failed]).is_empty());
    let file = watcher.file_at(0).unwrap();
    assert_eq!(file.cache, cached);
    assert_eq!(file.error_count, 2);
    watcher.add_file("a");
    assert!(!watcher.budget_exceeded("a"));
    assert_eq!(watcher.file_at(0).unwrap().cache, cached);
    assert_eq!(watcher.file_count(), 1);
    let changes = watcher.tick(&vec![present(20, 3, b"new")]);
    assert_eq!(kinds(&changes), vec![("a".to_string(), ChangeType::Modified)]);
}

#[test]
fn with_no_failures_allowed_the_first_failure_spends_the_budget() {
    let mut watcher = running(&["a"], 0);
    assert!(!watcher.budget_exceeded("a"));
    watcher.tick(&vec![FileObservation::Failed]);
    assert!(watcher.budget_exceeded("a"));
}

#[test]
fn stats_count_files_caches_and_failures() {
    let mut watcher = running(&["a", "b", "c"], 5);
    watcher.tick(&vec![present(1, 1, b"a"), FileObservation::Failed, present(1, 1, b"c")]);
    watcher.tick(&vec![FileObservation::Failed, FileObservation::Failed, seen(1, 1)]);
    let stats = watcher.get_stats();
    assert_eq!(stats.monitored_files_count, 3);
    assert_eq!(stats.cached_metadata_count, 2);
    assert_eq!(stats.current_error_count, 3);
    assert!(stats.is_running);
    assert_eq!(stats.interval_minutes, 5);
    assert_eq!(stats.cache_size_limit, 100);
    assert_eq!(stats.max_scan_errors, 5);
}

#[test]
fn one_scan_in_every_case() {
    let fresh = ScanState { cache: None, error_count: 0 };
    let meta = FileMetadata { modified_time: at(1), checksum: 7, size: 3 };
    let cached = ScanState { cache: Some(meta), error_count: 2 };
    let obs = |secs: u64, size: u64, sum: Option<u32>| FileObservation::Present {
        modified_time: at(secs),
        size,
        checksum: sum,
    };

    let (next, event) = scan(fresh, FileObservation::Missing, 3);
    assert_eq!((next.cache, next.error_count, event), (None, 0, None));
    let (next, event) = scan(fresh, FileObservation::Failed, 3);
    assert_eq!((next.cache, next.error_count, event), (None, 1, None));
    let (next, event) = scan(fresh, obs(1, 3, Some(7)), 3);
    assert_eq!((next.cache, next.error_count, event), (Some(meta), 0, Some(ChangeType::Created)));
    let (next, event) = scan(cached, FileObservation::Missing, 3);
    assert_eq!((next.cache, next.error_count, event), (None, 0, Some(ChangeType::Deleted)));
    let (next, event) = scan(cached, FileObservation::Failed, 3);
    assert_eq!((next.cache, next.error_count, event), (Some(meta), 3, None));
    let (next, event) = scan(cached, obs(1, 3, Some(9)), 3);
    assert_eq!((next.cache, next.error_count, event), (Some(meta), 0, None));
    let (next, event) = scan(cached, obs(2, 3, Some(7)), 3);
    assert_eq!(next.cache, Some(FileMetadata { modified_time: at(2), checksum: 7, size: 3 }));
    assert_eq!((next.error_count, event), (0, None));
    let (next, event) = scan(cached, obs(2, 4, Some(9)), 3);
    assert_eq!(next.cache, Some(FileMetadata { modified_time: at(2), checksum: 9, size: 4 }));
    assert_eq!((next.error_count, event), (0, Some(ChangeType::Modified)));
    let (next, event) = scan(cached, obs(2, 4, None), 3);
    assert_eq!((next.cache, next.error_count, event), (Some(meta), 3, None));

    let failing = ScanState { cache: None, error_count: 2 };
    let (next, event) = scan(failing, FileObservation::Missing, 3);
    assert_eq!((next.cache, next.error_count, event), (None, 2, None));

    let spent = ScanState { cache: Some(meta), error_count: 4 };
    let (next, event) = scan(spent, obs(2, 4, Some(9)), 3);
    assert_eq!((next.cache, next.error_count, event), (Some(meta), 4, None));
    let (next, event) = scan(spent, FileObservation::Missing, 3);
    assert_eq!((next.cache, next.error_count, event), (Some(meta), 4, None));

    let full = ScanState { cache: None, error_count: u64::MAX };
    let (next, _) = scan(full, FileObservation::Failed, u32::MAX);
    assert_eq!(next.error_count, u64::MAX);
}
