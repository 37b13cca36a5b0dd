use cccs::comparator::parse_configuration;
use cccs::store::{
    is_current, join_path, plan_after_validation, profile_file_name, profile_name_of, FileAction,
    ProfileStore, ScannedFile, SwitchPlan,
};
use cccs::watcher::{checksum, FileObservation, FileWatcher};
use cccs::{AppError, FileTime, ProfileStatus};

const WORK: &str = r#"{"model":"b","theme":"dark"}"#;
const HOME: &str = r#"{"model":"a","theme":"light"}"#;
const LIVE: &str = r#"{"model":"a","theme":"dark"}"#;

fn file(name: &str, content: Option<&str>) -> ScannedFile {
    ScannedFile { file_name: name.to_string(), content: content.map(|c| c.to_string()) }
}

fn ignoring(fields: &[&str]) -> Vec<String> {
    fields.iter().map(|f| f.to_string()).collect()
}

fn scanned() -> (ProfileStore, FileWatcher) {
    let mut store = ProfileStore::new("/c");
    let mut watcher = FileWatcher::new(5, 2, 100);
    let listing = vec![
        file("settings.json", Some(LIVE)),
        file("work.settings.json", Some(WORK)),
        file("notes.txt", Some("hello")),
        file("home.settings.json", Some(HOME)),
    ];
    store.scan(Ok(listing), &mut watcher).unwrap();
    store.set_live_content(Some(LIVE.to_string()));
    (store, watcher)
}

fn names(store: &ProfileStore) -> Vec<String> {
    store.get_profiles().iter().map(|p| p.name.clone()).collect()
}

fn active(store: &ProfileStore) -> Vec<String> {
    store.get_profiles().iter().filter(|p| p.is_active).map(|p| p.name.clone()).collect()
}

#[test]
fn profile_files_are_known_by_their_suffix() {
    assert_eq!(profile_name_of("work.settings.json"), Some("work".to_string()));
    assert_eq!(profile_name_of("a.b.settings.json"), Some("a.b".to_string()));
    assert_eq!(profile_name_of(".settings.json"), Some(String::new()));
    assert_eq!(profile_name_of("settings.json"), None);
    assert_eq!(profile_name_of("work.settings.json.bak"), None);
    assert_eq!(profile_name_of("work.json"), None);
    assert_eq!(profile_file_name("work"), "work.settings.json");
    assert_eq!(join_path("/c", "work.settings.json"), "/c/work.settings.json");
    assert!(is_current("current"));
    assert!(!is_current("Current"));
    assert!(!is_current("work"));
}

#[test]
fn a_new_store_has_read_nothing() {
    let store = ProfileStore::new("/home/u/.tool");
    assert_eq!(store.directory(), "/home/u/.tool");
    assert_eq!(store.live_path(), "/home/u/.tool/settings.json");
    assert!(store.get_profiles().is_empty());
    assert_eq!(store.get_monitored_files(), vec!["/home/u/.tool/settings.json".to_string()]);
    assert_eq!(
        store.read_content("current"),
        Err(AppError::IoError("live configuration is not available".to_string()))
    );
    assert_eq!(store.active_profile_name(), None);
}

#[test]
fn a_scan_lists_the_profile_files_in_order() {
    let (store, watcher) = scanned();
    assert_eq!(names(&store), vec!["work", "home"]);
    let profiles = store.get_profiles();
    assert_eq!(profiles[0].path, "/c/work.settings.json");
    assert_eq!(profiles[0].content, WORK);
    assert!(!profiles[0].is_active);
    assert_eq!(profiles[1].path, "/c/home.settings.json");
    assert_eq!(profiles[1].content, HOME);
    assert_eq!(watcher.file_count(), 2);
    assert_eq!(watcher.find("/c/work.settings.json"), Some(0));
    assert_eq!(watcher.find("/c/home.settings.json"), Some(1));
    assert_eq!(
        store.get_monitored_files(),
        vec![
            "/c/settings.json".to_string(),
            "/c/work.settings.json".to_string(),
            "/c/home.settings.json".to_string(),
        ]
    );
}

#[test]
fn a_failed_scan_changes_nothing() {
    let (mut store, mut watcher) = scanned();
    let result = store.scan(Err("permission denied".to_string()), &mut watcher);
    assert_eq!(result, Err(AppError::IoError("permission denied".to_string())));
    assert_eq!(names(&store), vec!["work", "home"]);
    assert_eq!(store.get_profiles()[0].content, WORK);
    assert_eq!(watcher.file_count(), 2);
    assert_eq!(store.read_content("current"), Ok(LIVE.to_string()));
}

#[test]
fn a_scan_replaces_the_profiles_and_keeps_the_registered_paths() {
    let (mut store, mut watcher) = scanned();
    let listing = vec![file("play.settings.json", Some("{}")), file("work.settings.json", Some("{}"))];
    store.scan(Ok(listing), &mut watcher).unwrap();
    assert_eq!(names(&store), vec!["play", "work"]);
    assert_eq!(store.get_profiles()[1].content, "{}");
    assert_eq!(watcher.file_count(), 3);
    assert_eq!(watcher.find("/c/home.settings.json"), Some(1));
    assert_eq!(watcher.find("/c/play.settings.json"), Some(2));
}

#[test]
fn a_scan_passes_over_a_second_file_of_one_name() {
    let mut store = ProfileStore::new("/c");
    let mut watcher = FileWatcher::new(5, 2, 100);
    let listing = vec![file("a.settings.json", Some("1")), file("a.settings.json", Some("2"))];
    store.scan(Ok(listing), &mut watcher).unwrap();
    assert_eq!(names(&store), vec!["a"]);
    assert_eq!(store.get_profiles()[0].content, "1");
    assert_eq!(watcher.file_count(), 1);
}

#[test]
fn an_unreadable_profile_is_listed_and_has_an_error_for_its_status() {
    let mut store = ProfileStore::new("/c");
    let mut watcher = FileWatcher::new(5, 2, 100);
    let listing = vec![file("bad.settings.json", None), file("work.settings.json", Some(WORK))];
    store.scan(Ok(listing), &mut watcher).unwrap();
    store.set_live_content(Some(LIVE.to_string()));
    assert_eq!(names(&store), vec!["bad", "work"]);
    assert_eq!(store.get_profiles()[0].content, "");
    let statuses = store.compare_all(&watcher, &ignoring(&["model"]));
    assert!(matches!(statuses[0], ProfileStatus::Error(_)));
    assert_eq!(statuses[1], ProfileStatus::PartialMatch);
}

#[test]
fn read_content_by_id() {
    let (store, _) = scanned();
    assert_eq!(store.read_content("work"), Ok(WORK.to_string()));
    assert_eq!(store.read_content("home"), Ok(HOME.to_string()));
    assert_eq!(store.read_content("current"), Ok(LIVE.to_string()));
    assert_eq!(store.read_content("nope"), Err(AppError::ProfileNotFound("nope".to_string())));
}

#[test]
fn statuses_of_all_profiles_are_aligned_with_the_profiles() {
    let (store, watcher) = scanned();
    assert_eq!(
        store.compare_all(&watcher, &ignoring(&["model"])),
        vec![ProfileStatus::PartialMatch, ProfileStatus::NoMatch]
    );
    assert_eq!(
        store.compare_all(&watcher, &ignoring(&["theme"])),
        vec![ProfileStatus::NoMatch, ProfileStatus::PartialMatch]
    );
    assert_eq!(
        store.compare_all(&watcher, &ignoring(&[])),
        vec![ProfileStatus::NoMatch, ProfileStatus::NoMatch]
    );
    assert!(ProfileStore::new("/c").compare_all(&watcher, &ignoring(&[])).is_empty());
}

#[test]
fn status_under_an_id() {
    let (store, watcher) = scanned();
    let ignored = ignoring(&["model"]);
    assert_eq!(store.status_for("current", &watcher, &ignored), None);
    assert_eq!(store.status_for("work", &watcher, &ignored), Some(ProfileStatus::PartialMatch));
    assert_eq!(store.status_for("home", &watcher, &ignored), Some(ProfileStatus::NoMatch));
    assert_eq!(
        store.status_for("nope", &watcher, &ignored),
        Some(ProfileStatus::Error("profile not found".to_string()))
    );
}

#[test]
fn without_the_live_configuration_every_status_is_an_error() {
    let (mut store, watcher) = scanned();
    store.set_live_content(None);
    let expected = ProfileStatus::Error("live configuration is not available".to_string());
    assert_eq!(
        store.compare_all(&watcher, &ignoring(&[])),
        vec![
            ProfileStatus::Error("live configuration is not available".to_string()),
            ProfileStatus::Error("live configuration is not available".to_string()),
        ]
    );
    assert_eq!(store.status_for("work", &watcher, &ignoring(&[])), Some(expected));
}

#[test]
fn a_live_configuration_that_is_not_json_is_an_error_for_every_profile() {
    let (mut store, watcher) = scanned();
    store.set_live_content(Some("not json".to_string()));
    let statuses = store.compare_all(&watcher, &ignoring(&[]));
    assert_eq!(statuses.len(), 2);
    for status in statuses {
        assert_eq!(status, ProfileStatus::Error("expected ident at line 1 column 2".to_string()));
    }
}

#[test]
fn a_spent_budget_is_an_error_for_that_profile_only() {
    let (mut store, mut watcher) = scanned();
    store.set_live_content(Some(WORK.to_string()));
    watcher.start(5);
    let ok = FileObservation::Present {
        modified_time: FileTime { secs: 1, nanos: 0 },
        size: HOME.len() as u64,
        checksum: Some(checksum(HOME.as_bytes())),
    };
    let before = store.compare_all(&watcher, &ignoring(&["model"]));
    assert_eq!(before, vec![ProfileStatus::FullMatch, ProfileStatus::NoMatch]);
    for _ in 0..2 {
        watcher.tick(&vec![FileObservation::Failed, ok]);
    }
    assert_eq!(store.compare_all(&watcher, &ignoring(&["model"])), before);
    watcher.tick(&vec![FileObservation::Failed, ok]);
    assert_eq!(
        store.compare_all(&watcher, &ignoring(&["model"])),
        vec![
            ProfileStatus::Error("Too many failed scans of /c/work.settings.json".to_string()),
            ProfileStatus::NoMatch,
        ]
    );
    assert_eq!(
        store.status_for("work", &watcher, &ignoring(&["model"])),
        Some(ProfileStatus::Error("Too many failed scans of /c/work.settings.json".to_string()))
    );
    assert_eq!(
        watcher.check_budget("/c/work.settings.json"),
        Err(AppError::ScanErrorBudgetExceeded("/c/work.settings.json".to_string()))
    );
    assert_eq!(watcher.check_budget("/c/home.settings.json"), Ok(()));
    let listing = vec![file("work.settings.json", Some(WORK)), file("home.settings.json", Some(HOME))];
    store.scan(Ok(listing), &mut watcher).unwrap();
    assert_eq!(store.compare_all(&watcher, &ignoring(&["model"])), before);
    assert_eq!(watcher.check_budget("/c/work.settings.json"), Ok(()));
}

#[test]
fn saving_is_planned_as_a_write() {
    let (store, _) = scanned();
    assert_eq!(
        store.save_content("work", "{}"),
        Ok(FileAction::Write { path: "/c/work.settings.json".to_string(), content: "{}".to_string() })
    );
    assert_eq!(
        store.save_content("current", "{\"a\":1}"),
        Ok(FileAction::Write {
            path: "/c/settings.json".to_string(),
            content: "{\"a\":1}".to_string()
        })
    );
    assert_eq!(
        store.save_content("nope", "{}"),
        Err(AppError::ProfileNotFound("nope".to_string()))
    );
    assert_eq!(store.read_content("work"), Ok(WORK.to_string()));
}

#[test]
fn creating_is_planned_as_a_write_to_a_new_file() {
    let (store, _) = scanned();
    assert_eq!(
        store.create("play", "{}"),
        Ok(FileAction::Write { path: "/c/play.settings.json".to_string(), content: "{}".to_string() })
    );
    assert_eq!(
        store.create("work", "{}"),
        Err(AppError::ProfileAlreadyExists("work".to_string()))
    );
    assert_eq!(
        store.create("current", "{}"),
        Err(AppError::ProfileAlreadyExists("current".to_string()))
    );
    assert_eq!(names(&store), vec!["work", "home"]);
}

#[test]
fn deleting_is_planned_as_a_removal() {
    let (store, _) = scanned();
    assert_eq!(
        store.delete("home"),
        Ok(FileAction::Remove { path: "/c/home.settings.json".to_string() })
    );
    assert_eq!(store.delete("nope"), Err(AppError::ProfileNotFound("nope".to_string())));
    assert_eq!(store.delete("current"), Err(AppError::ProfileNotFound("current".to_string())));
    assert_eq!(names(&store), vec!["work", "home"]);
}

#[test]
fn a_switch_is_planned_as_a_write_by_way_of_a_temporary_file() {
    let (store, _) = scanned();
    assert_eq!(
        store.begin_switch("work"),
        Ok(SwitchPlan {
            profile_name: "work".to_string(),
            content: WORK.to_string(),
            live_path: "/c/settings.json".to_string(),
            temp_path: "/c/settings.json.tmp".to_string(),
        })
    );
    assert_eq!(store.read_content("current"), Ok(LIVE.to_string()));
    assert!(active(&store).is_empty());
}

#[test]
fn after_a_switch_the_live_configuration_reads_as_the_profile_did() {
    let (mut store, watcher) = scanned();
    let before = store.read_content("work").unwrap();
    let plan = store.begin_switch("work").unwrap();
    assert_eq!(store.finish_switch(&plan, Ok(())), Ok(()));
    assert_eq!(store.read_content("current").unwrap(), before);
    assert_eq!(store.read_content("work").unwrap(), before);
    assert_eq!(active(&store), vec!["work"]);
    assert_eq!(store.active_profile_name(), Some("work".to_string()));
    assert_eq!(
        store.compare_all(&watcher, &ignoring(&[])),
        vec![ProfileStatus::FullMatch, ProfileStatus::NoMatch]
    );
}

#[test]
fn a_second_switch_moves_the_active_mark() {
    let (mut store, _) = scanned();
    let plan = store.begin_switch("work").unwrap();
    store.finish_switch(&plan, Ok(())).unwrap();
    let plan = store.begin_switch("home").unwrap();
    store.finish_switch(&plan, Ok(())).unwrap();
    assert_eq!(active(&store), vec!["home"]);
    assert_eq!(store.read_content("current"), Ok(HOME.to_string()));
}

#[test]
fn a_switch_to_an_unknown_profile_is_refused_and_nothing_changes() {
    let (mut store, _) = scanned();
    let plan = store.begin_switch("work").unwrap();
    store.finish_switch(&plan, Ok(())).unwrap();
    assert_eq!(
        store.begin_switch("nonexistent"),
        Err(AppError::ProfileNotFound("nonexistent".to_string()))
    );
    assert_eq!(
        store.begin_switch("current"),
        Err(AppError::ProfileNotFound("current".to_string()))
    );
    assert_eq!(store.read_content("current"), Ok(WORK.to_string()));
    assert_eq!(active(&store), vec!["work"]);
}

#[test]
fn a_profile_that_is_not_json_has_an_error_and_cannot_be_switched_to() {
    let mut store = ProfileStore::new("/c");
    let mut watcher = FileWatcher::new(5, 2, 100);
    store.scan(Ok(vec![file("bad.settings.json", Some("not json"))]), &mut watcher).unwrap();
    store.set_live_content(Some(LIVE.to_string()));
    assert_eq!(
        store.compare_all(&watcher, &ignoring(&["model"])),
        vec![ProfileStatus::Error("expected ident at line 1 column 2".to_string())]
    );
    assert_eq!(
        store.begin_switch("bad"),
        Err(AppError::InvalidProfileContent("expected ident at line 1 column 2".to_string()))
    );
    assert_eq!(store.read_content("current"), Ok(LIVE.to_string()));
}

#[test]
fn a_switch_whose_write_failed_leaves_everything_as_it_was() {
    let (mut store, _) = scanned();
    let plan = store.begin_switch("home").unwrap();
    store.finish_switch(&plan, Ok(())).unwrap();
    let plan = store.begin_switch("work").unwrap();
    assert_eq!(
        store.finish_switch(&plan, Err("disk full".to_string())),
        Err(AppError::SwitchFailed("disk full".to_string()))
    );
    assert_eq!(store.read_content("current"), Ok(HOME.to_string()));
    assert_eq!(active(&store), vec!["home"]);
}

#[test]
fn the_active_mark_survives_a_scan() {
    let (mut store, mut watcher) = scanned();
    let plan = store.begin_switch("home").unwrap();
    store.finish_switch(&plan, Ok(())).unwrap();
    let listing = vec![
        file("home.settings.json", Some(HOME)),
        file("new.settings.json", Some("{}")),
        file("work.settings.json", Some(WORK)),
    ];
    store.scan(Ok(listing), &mut watcher).unwrap();
    assert_eq!(names(&store), vec!["home", "new", "work"]);
    assert_eq!(active(&store), vec!["home"]);
    store.scan(Ok(vec![file("work.settings.json", Some(WORK))]), &mut watcher).unwrap();
    assert!(active(&store).is_empty());
}

#[test]
fn find_profile_by_name() {
    let (store, _) = scanned();
    assert_eq!(store.find_profile("work"), Some(0));
    assert_eq!(store.find_profile("home"), Some(1));
    assert_eq!(store.find_profile("Work"), None);
    assert_eq!(store.find_profile(""), None);
}

#[test]
fn the_profile_list_starts_with_the_live_configuration() {
    let (store, mut watcher) = scanned();
    watcher.add_file("/c/settings.json");
    watcher.start(5);
    let seen = |secs: u64, content: &str| FileObservation::Present {
        modified_time: FileTime { secs, nanos: 7 },
        size: content.len() as u64,
        checksum: Some(checksum(content.as_bytes())),
    };
    watcher.tick(&vec![seen(10, WORK), FileObservation::Missing, seen(30, LIVE)]);
    let rows = store.list_profiles(&watcher);
    assert_eq!(rows.len(), 3);
    assert_eq!(rows[0].id, "current");
    assert_eq!(rows[0].display_name, "current");
    assert_eq!(rows[0].file_path, "/c/settings.json");
    assert!(rows[0].is_default);
    assert_eq!(rows[0].last_modified, FileTime { secs: 30, nanos: 7 });
    assert_eq!(rows[0].file_size, LIVE.len() as u64);
    assert_eq!(rows[1].id, "work");
    assert_eq!(rows[1].display_name, "work");
    assert_eq!(rows[1].file_path, "/c/work.settings.json");
    assert!(!rows[1].is_default);
    assert_eq!(rows[1].last_modified, FileTime { secs: 10, nanos: 7 });
    assert_eq!(rows[1].file_size, WORK.len() as u64);
    assert_eq!(rows[2].id, "home");
    assert_eq!(rows[2].last_modified, FileTime { secs: 0, nanos: 0 });
    assert_eq!(rows[2].file_size, 0);
    assert_eq!(watcher.metadata_of("/c/home.settings.json"), None);
    assert_eq!(watcher.metadata_of("/c/unknown"), None);
    assert_eq!(watcher.metadata_of("/c/work.settings.json").unwrap().size, WORK.len() as u64);
}

#[test]
fn every_error_has_its_message() {
    let text = |s: &str| s.to_string();
    assert_eq!(AppError::IoError(text("denied")).message(), "I/O error: denied");
    assert_eq!(AppError::ParseError(text("bad")).message(), "Parse error: bad");
    assert_eq!(AppError::ProfileNotFound(text("x")).message(), "Profile not found: x");
    assert_eq!(AppError::ProfileAlreadyExists(text("x")).message(), "Profile already exists: x");
    assert_eq!(
        AppError::InvalidProfileContent(text("eof")).message(),
        "Invalid profile content: eof"
    );
    assert_eq!(AppError::SwitchFailed(text("full")).message(), "Switch failed: full");
    assert_eq!(AppError::Busy.message(), "The configuration is in use");
    assert_eq!(AppError::Busy.detail(), "");
    assert_eq!(AppError::IoError(text("denied")).detail(), "denied");
    assert_eq!(AppError::ParseError(text("bad")).detail(), "bad");
    assert_eq!(AppError::ProfileNotFound(text("x")).detail(), "x");
    assert_eq!(AppError::ProfileAlreadyExists(text("y")).detail(), "y");
    assert_eq!(AppError::InvalidProfileContent(text("eof")).detail(), "eof");
    assert_eq!(AppError::SwitchFailed(text("full")).detail(), "full");
    assert_eq!(AppError::ScanErrorBudgetExceeded(text("/c/a")).detail(), "/c/a");
    assert_eq!(
        AppError::ScanErrorBudgetExceeded(text("/c/a")).message(),
        "Too many failed scans of /c/a"
    );
}

#[test]
fn a_switch_plan_follows_the_validation() {
    let profile = cccs::Profile {
        name: "work".to_string(),
        path: "/c/work.settings.json".to_string(),
        content: WORK.to_string(),
        is_active: false,
    };
    assert_eq!(
        plan_after_validation(&profile, "/c/settings.json".to_string(), parse_configuration(WORK)),
        Ok(SwitchPlan {
            profile_name: "work".to_string(),
            content: WORK.to_string(),
            live_path: "/c/settings.json".to_string(),
            temp_path: "/c/settings.json.tmp".to_string(),
        })
    );
    assert_eq!(
        plan_after_validation(
            &profile,
            "/c/settings.json".to_string(),
            Err(AppError::ParseError("bad".to_string()))
        ),
        Err(AppError::InvalidProfileContent("bad".to_string()))
    );
}
