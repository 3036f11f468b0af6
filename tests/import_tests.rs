use anitrack::{
    ConflictResolution, EntryAction, EntryFault, EntryProblem, ExportData, ExportMetadata,
    ImportError, ImportOptions, ImportSession, MemoryStore, MergeStrategy, StoreRequest, UserAnime,
};

fn entry(anime_id: i64, status: &str, end_date: Option<&str>) -> UserAnime {
    UserAnime {
        id: None,
        anime_id,
        status: status.to_string(),
        score: 7,
        progress: 12,
        notes: format!("notes {}", anime_id),
        favorite: false,
        start_date: Some("2023-01-01".to_string()),
        end_date: end_date.map(|d| d.to_string()),
        image_url: format!("img/{}.jpg", anime_id),
        title: format!("Title {}", anime_id),
    }
}

fn options(strategy: &str, resolution: &str, scope: &str) -> ImportOptions {
    ImportOptions {
        import_path: "snapshot.json".to_string(),
        merge_strategy: strategy.to_string(),
        conflict_resolution: resolution.to_string(),
        import_type: scope.to_string(),
    }
}

fn snapshot(entries: Vec<UserAnime>, version: &str) -> ExportData {
    ExportData {
        version: version.to_string(),
        timestamp: "2024-05-01T10:00:00+00:00".to_string(),
        metadata: ExportMetadata {
            app_version: "0.1.0".to_string(),
            os: "linux".to_string(),
            device_name: "desk".to_string(),
            export_type: "full".to_string(),
            entry_count: entries.len(),
        },
        anime_list: entries,
    }
}

fn store_with(entries: Vec<UserAnime>) -> MemoryStore {
    let mut store = MemoryStore::new();
    for e in entries {
        store.upsert(e).unwrap();
    }
    store
}

fn sorted(mut v: Vec<UserAnime>) -> Vec<UserAnime> {
    v.sort_by_key(|e| e.anime_id);
    v
}

fn same_contents(a: &UserAnime, b: &UserAnime) -> bool {
    a.anime_id == b.anime_id
        && a.status == b.status
        && a.score == b.score
        && a.progress == b.progress
        && a.notes == b.notes
        && a.favorite == b.favorite
        && a.start_date == b.start_date
        && a.end_date == b.end_date
        && a.image_url == b.image_url
        && a.title == b.title
}

fn balanced(r: &anitrack::ImportResult) -> bool {
    r.total_entries == r.imported_entries + r.updated_entries + r.skipped_entries + r.errors.len()
}

#[test]
fn keep_newer_later_incoming_date_updates() {
    let mut store = store_with(vec![entry(1, "watching", Some("2023-09-01"))]);
    let mut incoming = entry(1, "completed", Some("2023-12-01"));
    incoming.score = 9;
    let data = snapshot(vec![incoming], "1.1");
    let r = store.import_snapshot(&data, &options("merge", "keep_newer", "all")).unwrap();
    assert_eq!(r.updated_entries, 1);
    assert_eq!(r.skipped_entries, 0);
    let stored = store.get(1).unwrap();
    assert_eq!(stored.end_date.as_deref(), Some("2023-12-01"));
    assert_eq!(stored.status, "completed");
    assert_eq!(stored.score, 9);
}

#[test]
fn keep_newer_absent_incoming_date_skips() {
    let mut store = store_with(vec![entry(1, "watching", Some("2023-09-01"))]);
    let data = snapshot(vec![entry(1, "completed", None)], "1.1");
    let r = store.import_snapshot(&data, &options("merge", "keep_newer", "all")).unwrap();
    assert_eq!(r.skipped_entries, 1);
    assert_eq!(r.conflict_entries, 1);
    assert_eq!(r.updated_entries, 0);
    assert_eq!(store.get(1).unwrap().status, "watching");
}

#[test]
fn keep_newer_year_boundary_and_malformed_dates() {
    let mut store = store_with(vec![
        entry(1, "watching", Some("2023-12-31")),
        entry(2, "watching", None),
        entry(3, "watching", Some("2023-05-05")),
        entry(4, "watching", Some("not a date")),
    ]);
    let data = snapshot(
        vec![
            entry(1, "completed", Some("2024-01-01")),
            entry(2, "completed", Some("2020-01-01")),
            entry(3, "completed", Some("2023-05-05")),
            entry(4, "completed", Some("also bad")),
        ],
        "1.1",
    );
    let r = store.import_snapshot(&data, &options("merge", "keep_newer", "all")).unwrap();
    // 1: later date wins; 2: only the incoming date parses; 3: equal dates keep
    // the stored entry; 4: neither parses, the stored entry stays.
    assert_eq!(r.updated_entries, 2);
    assert_eq!(r.skipped_entries, 2);
    assert_eq!(store.get(1).unwrap().status, "completed");
    assert_eq!(store.get(2).unwrap().status, "completed");
    assert_eq!(store.get(3).unwrap().status, "watching");
    assert_eq!(store.get(4).unwrap().status, "watching");
}

#[test]
fn scope_completed_counts_only_completed_entries() {
    let statuses = [
        "completed", "watching", "completed", "planned", "dropped", "completed", "on_hold",
        "watching", "completed", "planned",
    ];
    let entries: Vec<UserAnime> =
        statuses.iter().enumerate().map(|(i, s)| entry(i as i64 + 1, s, None)).collect();
    let mut store = MemoryStore::new();
    let r = store.import_snapshot(&snapshot(entries, "1.1"), &options("merge", "use_imported", "completed")).unwrap();
    assert_eq!(r.total_entries, 4);
    assert_eq!(r.imported_entries, 4);
    let listed = store.list(None);
    assert_eq!(listed.len(), 4);
    assert!(listed.iter().all(|e| e.status == "completed"));
}

#[test]
fn scope_ignores_case_of_the_scope_name() {
    let mut store = MemoryStore::new();
    let data = snapshot(vec![entry(1, "completed", None), entry(2, "watching", None)], "1.1");
    let r = store.import_snapshot(&data, &options("merge", "use_imported", "COMPLETED")).unwrap();
    assert_eq!(r.total_entries, 1);
    assert_eq!(r.imported_entries, 1);
    assert!(store.get(1).is_some());
    assert!(store.get(2).is_none());
}

#[test]
fn second_import_with_use_imported_updates_all() {
    let entries = vec![entry(1, "watching", None), entry(2, "completed", Some("2023-02-02")), entry(3, "planned", None)];
    let mut store = store_with(vec![entry(9, "dropped", None)]);
    let opts = options("merge", "use_imported", "all");
    let first = store.import_snapshot(&snapshot(entries.iter().map(|e| clone_entry(e)).collect(), "1.1"), &opts).unwrap();
    assert_eq!(first.imported_entries, 3);
    let second = store.import_snapshot(&snapshot(entries, "1.1"), &opts).unwrap();
    assert_eq!(second.imported_entries, 0);
    assert_eq!(second.updated_entries, second.total_entries);
    assert_eq!(second.total_entries, 3);
}

#[test]
fn second_import_with_keep_existing_skips_all() {
    let entries = vec![entry(1, "watching", None), entry(2, "completed", None)];
    let mut store = MemoryStore::new();
    let opts = options("merge", "keep_existing", "all");
    store.import_snapshot(&snapshot(entries.iter().map(|e| clone_entry(e)).collect(), "1.1"), &opts).unwrap();
    let second = store.import_snapshot(&snapshot(entries, "1.1"), &opts).unwrap();
    assert_eq!(second.skipped_entries, second.total_entries);
    assert_eq!(second.conflict_entries, 2);
    assert_eq!(second.imported_entries, 0);
}

#[test]
fn skip_existing_leaves_stored_entries() {
    let mut store = store_with(vec![entry(1, "watching", None)]);
    let data = snapshot(vec![entry(1, "completed", None), entry(2, "planned", None)], "1.1");
    let r = store.import_snapshot(&data, &options("skip_existing", "use_imported", "all")).unwrap();
    assert_eq!(r.skipped_entries, 1);
    assert_eq!(r.conflict_entries, 0);
    assert_eq!(r.imported_entries, 1);
    assert_eq!(store.get(1).unwrap().status, "watching");
}

#[test]
fn replace_keeps_exactly_the_snapshot() {
    let mut store = store_with(vec![entry(100, "dropped", None), entry(101, "planned", None)]);
    let data = snapshot(vec![entry(1, "watching", None), entry(2, "completed", None), entry(3, "on_hold", None)], "1.1");
    let r = store.import_snapshot(&data, &options("replace", "keep_existing", "all")).unwrap();
    assert_eq!(r.imported_entries, 3);
    assert_eq!(r.total_entries, 3);
    let ids: Vec<i64> = sorted(store.list(None)).iter().map(|e| e.anime_id).collect();
    assert_eq!(ids, vec![1, 2, 3]);
}

#[test]
fn export_then_import_changes_nothing() {
    let mut store = store_with(vec![
        entry(1, "watching", Some("2023-03-03")),
        entry(2, "completed", None),
        entry(3, "planned", Some("2022-01-01")),
    ]);
    let before = sorted(store.list(None));
    let data = store.export(None, "stamp".to_string(), "0.1.0".to_string(), "linux".to_string(), "desk".to_string());
    assert_eq!(data.metadata.entry_count, 3);
    let r = store.import_snapshot(&data, &options("merge", "use_imported", "all")).unwrap();
    assert_eq!(r.imported_entries, 0);
    assert_eq!(r.updated_entries, r.total_entries);
    assert_eq!(r.skipped_entries, 0);
    let after = sorted(store.list(None));
    assert_eq!(before.len(), after.len());
    for (a, b) in before.iter().zip(after.iter()) {
        assert!(same_contents(a, b));
    }
}

#[test]
fn invalid_entries_are_reported_and_the_rest_applied() {
    let mut bad_score = entry(2, "watching", None);
    bad_score.score = 11;
    let mut bad_progress = entry(3, "watching", None);
    bad_progress.progress = -1;
    let bad_status = entry(4, "finished", None);
    let data = snapshot(vec![entry(1, "watching", None), bad_score, bad_progress, bad_status, entry(5, "planned", None)], "1.1");
    let mut store = MemoryStore::new();
    let r = store.import_snapshot(&data, &options("merge", "use_imported", "all")).unwrap();
    assert_eq!(r.total_entries, 5);
    assert_eq!(r.imported_entries, 2);
    assert_eq!(r.errors.len(), 3);
    assert!(balanced(&r));
    assert_eq!(r.errors[0].index, 1);
    assert_eq!(r.errors[0].anime_id, 2);
    assert!(matches!(r.errors[0].fault, EntryFault::Invalid(EntryProblem::ScoreOutOfRange)));
    assert!(matches!(r.errors[1].fault, EntryFault::Invalid(EntryProblem::NegativeProgress)));
    assert_eq!(r.errors[2].index, 3);
    assert!(matches!(r.errors[2].fault, EntryFault::Invalid(EntryProblem::UnknownStatus)));
    assert!(store.get(2).is_none());
    assert!(store.get(5).is_some());
}

#[test]
fn unsupported_major_version_is_refused_untouched() {
    let mut store = store_with(vec![entry(1, "watching", None)]);
    let data = snapshot(vec![entry(2, "watching", None)], "2.0");
    match store.import_snapshot(&data, &options("replace", "use_imported", "all")) {
        Err(ImportError::UnsupportedVersion(v)) => assert_eq!(v, "2.0"),
        other => panic!("unexpected {:?}", other),
    }
    assert_eq!(store.list(None).len(), 1);
    assert!(store.import_snapshot(&snapshot(vec![], "1.7"), &options("merge", "x", "all")).is_ok());
    assert!(store.import_snapshot(&snapshot(vec![], "1"), &options("merge", "x", "all")).is_ok());
    assert!(store.import_snapshot(&snapshot(vec![], "10.0"), &options("merge", "x", "all")).is_err());
    assert!(store.import_snapshot(&snapshot(vec![], ""), &options("merge", "x", "all")).is_err());
}

#[test]
fn mixed_outcomes_balance() {
    let mut store = store_with(vec![entry(1, "watching", None), entry(2, "watching", None)]);
    let mut bad = entry(5, "watching", None);
    bad.score = -3;
    let data = snapshot(vec![entry(1, "completed", None), entry(3, "planned", None), bad, entry(2, "dropped", None)], "1.1");
    let r = store.import_snapshot(&data, &options("merge", "use_imported", "all")).unwrap();
    assert_eq!((r.imported_entries, r.updated_entries, r.skipped_entries, r.errors.len()), (1, 2, 0, 1));
    assert!(balanced(&r));
    assert_eq!(r.import_type, "all");
    assert_eq!(r.merge_strategy, "merge");
}

#[test]
fn session_records_store_failures_and_continues() {
    let data = snapshot(vec![entry(1, "watching", None), entry(2, "completed", None)], "1.1");
    let mut session = anitrack::open_import(&data, &options("merge", "use_imported", "all")).unwrap();
    let mut steps = 0;
    loop {
        steps += 1;
        match session.request() {
            StoreRequest::Lookup(id) => session.looked_up(if id == 1 { Err("disk full".to_string()) } else { Ok(None) }),
            StoreRequest::Write(e) => {
                assert_eq!(e.anime_id, 2);
                session.written(Ok(()))
            }
            StoreRequest::Clear => panic!("merge never clears"),
            StoreRequest::Done => break,
        }
    }
    assert_eq!(steps, 4);
    let r = session.finish();
    assert_eq!(r.imported_entries, 1);
    assert_eq!(r.errors.len(), 1);
    assert_eq!(r.errors[0].anime_id, 1);
    assert!(matches!(&r.errors[0].fault, EntryFault::Store(m) if m == "disk full"));
    assert!(balanced(&r));
}

#[test]
fn session_replace_clears_then_writes_without_lookups() {
    let entries = vec![entry(1, "watching", None), entry(1, "completed", None)];
    let mut session = ImportSession::start(&entries, &options("replace", "keep_existing", "all"));
    assert!(session.needs_clear());
    assert!(matches!(session.request(), StoreRequest::Clear));
    session.cleared();
    let mut writes = 0;
    loop {
        match session.request() {
            StoreRequest::Write(_) => {
                writes += 1;
                session.written(if writes == 2 { Err("locked".to_string()) } else { Ok(()) });
            }
            StoreRequest::Done => break,
            other => panic!("unexpected {:?}", other),
        }
    }
    let r = session.finish();
    assert_eq!(writes, 2);
    assert_eq!(r.imported_entries, 1);
    assert_eq!(r.errors.len(), 1);
    assert_eq!(r.errors[0].index, 1);
}

#[test]
fn session_clear_failure_aborts() {
    let entries = vec![entry(1, "watching", None)];
    let session = ImportSession::start(&entries, &options("replace", "use_imported", "all"));
    match session.clear_failed("busy".to_string()) {
        ImportError::ClearFailed(m) => assert_eq!(m, "busy"),
        other => panic!("unexpected {:?}", other),
    }
}

#[test]
fn decision_table() {
    let stored = entry(1, "watching", Some("2023-09-01"));
    let newer = entry(1, "completed", Some("2023-12-01"));
    let older = entry(1, "completed", Some("2023-01-01"));
    let m = MergeStrategy::Merge;
    assert_eq!(anitrack::decide(None, &newer, m, ConflictResolution::KeepExisting), EntryAction::Insert);
    assert_eq!(anitrack::decide(Some(&stored), &newer, MergeStrategy::Replace, ConflictResolution::KeepExisting), EntryAction::Insert);
    assert_eq!(anitrack::decide(Some(&stored), &newer, MergeStrategy::SkipExisting, ConflictResolution::UseImported), EntryAction::Skip);
    assert_eq!(anitrack::decide(Some(&stored), &newer, m, ConflictResolution::KeepExisting), EntryAction::KeepExisting);
    assert_eq!(anitrack::decide(Some(&stored), &older, m, ConflictResolution::UseImported), EntryAction::Overwrite);
    assert_eq!(anitrack::decide(Some(&stored), &newer, m, ConflictResolution::KeepNewer), EntryAction::Overwrite);
    assert_eq!(anitrack::decide(Some(&stored), &older, m, ConflictResolution::KeepNewer), EntryAction::KeepExisting);
    let undated = entry(1, "watching", None);
    assert_eq!(anitrack::decide(Some(&undated), &older, m, ConflictResolution::KeepNewer), EntryAction::Overwrite);
    assert_eq!(anitrack::decide(Some(&stored), &undated, m, ConflictResolution::KeepNewer), EntryAction::KeepExisting);
}

#[test]
fn policy_names() {
    assert_eq!(MergeStrategy::from_name("replace"), MergeStrategy::Replace);
    assert_eq!(MergeStrategy::from_name("skip_existing"), MergeStrategy::SkipExisting);
    assert_eq!(MergeStrategy::from_name("merge"), MergeStrategy::Merge);
    assert_eq!(MergeStrategy::from_name("anything"), MergeStrategy::Merge);
    assert_eq!(ConflictResolution::from_name("keep_existing"), ConflictResolution::KeepExisting);
    assert_eq!(ConflictResolution::from_name("keep_newer"), ConflictResolution::KeepNewer);
    assert_eq!(ConflictResolution::from_name("use_imported"), ConflictResolution::UseImported);
    assert_eq!(ConflictResolution::from_name(""), ConflictResolution::UseImported);
}

fn clone_entry(e: &UserAnime) -> UserAnime {
    e.duplicate()
}
