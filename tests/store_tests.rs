use anitrack::{
    build_export, export_file_name, export_filter, export_response, scope_entries, summarize,
    EntryProblem, MemoryStore, UserAnime, FORMAT_VERSION,
};

fn entry(anime_id: i64, status: &str, score: i64, progress: i64) -> UserAnime {
    UserAnime {
        id: Some(anime_id * 10),
        anime_id,
        status: status.to_string(),
        score,
        progress,
        notes: String::new(),
        favorite: true,
        start_date: None,
        end_date: None,
        image_url: String::new(),
        title: format!("T{}", anime_id),
    }
}

#[test]
fn upsert_get_delete_clear() {
    let mut store = MemoryStore::new();
    let stored = store.upsert(entry(1, "watching", 5, 3)).unwrap();
    assert_eq!(stored.anime_id, 1);
    assert_eq!(stored.id, Some(10));
    let mut changed = entry(1, "completed", 8, 24);
    changed.id = Some(77);
    let after = store.upsert(changed).unwrap();
    assert_eq!(after.status, "completed");
    assert_eq!(after.id, Some(10));
    assert_eq!(store.get(1).unwrap().score, 8);
    assert_eq!(store.list(None).len(), 1);
    store.upsert(entry(2, "planned", 0, 0)).unwrap();
    assert_eq!(store.list(Some("planned")).len(), 1);
    assert_eq!(store.list(Some("dropped")).len(), 0);
    assert!(store.delete(1));
    assert!(!store.delete(1));
    assert!(store.get(1).is_none());
    store.clear();
    assert!(store.list(None).is_empty());
}

#[test]
fn upsert_refuses_invalid_entries() {
    let mut store = MemoryStore::new();
    assert!(matches!(store.upsert(entry(1, "watching", 11, 0)), Err(EntryProblem::ScoreOutOfRange)));
    assert!(matches!(store.upsert(entry(1, "watching", 3, -2)), Err(EntryProblem::NegativeProgress)));
    assert!(matches!(store.upsert(entry(1, "Watching", 3, 2)), Err(EntryProblem::UnknownStatus)));
    assert!(store.upsert(entry(1, "watching", 10, 0)).is_ok());
    assert!(store.upsert(entry(2, "watching", 0, 0)).is_ok());
    assert_eq!(store.list(None).len(), 2);
}

#[test]
fn export_of_one_status() {
    let mut store = MemoryStore::new();
    store.upsert(entry(1, "watching", 5, 3)).unwrap();
    store.upsert(entry(2, "completed", 5, 3)).unwrap();
    store.upsert(entry(3, "completed", 5, 3)).unwrap();
    let data = store.export(Some("completed".to_string()), "t".to_string(), "1.0".to_string(), "os".to_string(), "dev".to_string());
    assert_eq!(data.metadata.entry_count, 2);
    assert_eq!(data.metadata.export_type, "completed");
    assert_eq!(data.version, FORMAT_VERSION);
    let all = store.export(Some("everything".to_string()), "t".to_string(), "1.0".to_string(), "os".to_string(), "dev".to_string());
    assert_eq!(all.metadata.entry_count, 3);
    assert_eq!(all.metadata.export_type, "everything");
}

#[test]
fn building_an_export_counts_entries() {
    let data = build_export(vec![entry(1, "watching", 1, 1), entry(2, "planned", 1, 1)], None, "ts".to_string(), "0.1.0".to_string(), "linux".to_string(), "host".to_string());
    assert_eq!(data.version, "1.1");
    assert_eq!(data.metadata.entry_count, 2);
    assert_eq!(data.metadata.export_type, "full");
    assert_eq!(data.metadata.device_name, "host");
    let resp = export_response(&data, "/tmp/x.json".to_string());
    assert_eq!(resp.entry_count, 2);
    assert_eq!(resp.export_type, "full");
    assert_eq!(resp.timestamp, "ts");
    assert_eq!(resp.path, "/tmp/x.json");
}

#[test]
fn export_names_and_filters() {
    assert_eq!(export_file_name(&None, "20240101_101010"), "anitrack_export_full_20240101_101010.json");
    assert_eq!(export_file_name(&Some("watching".to_string()), "s"), "anitrack_export_watching_s.json");
    assert_eq!(export_filter(&Some("on_hold".to_string())), Some("on_hold"));
    assert_eq!(export_filter(&Some("full".to_string())), None);
    assert_eq!(export_filter(&None), None);
}

#[test]
fn scope_filter_keeps_order() {
    let v = vec![entry(1, "completed", 1, 1), entry(2, "watching", 1, 1), entry(3, "Completed", 1, 1)];
    let kept = scope_entries(&v, "completed");
    assert_eq!(kept.iter().map(|e| e.anime_id).collect::<Vec<_>>(), vec![1, 3]);
    assert_eq!(scope_entries(&v, "all").len(), 3);
    assert_eq!(scope_entries(&v, "dropped").len(), 0);
}

#[test]
fn summary_counts_and_sums() {
    let v = vec![
        entry(1, "watching", 8, 10),
        entry(2, "completed", 0, 24),
        entry(3, "completed", 6, 12),
        entry(4, "planned", 0, 0),
        entry(5, "on_hold", 9, 5),
        entry(6, "dropped", 2, 1),
        entry(7, "unknown", 4, 2),
    ];
    let s = summarize(&v);
    assert_eq!((s.watching, s.completed, s.on_hold, s.dropped, s.plan_to_watch), (1, 2, 1, 1, 1));
    assert_eq!(s.total, 6);
    assert_eq!(s.total_episodes, 54);
    assert_eq!(s.rated_total, 29);
    assert_eq!(s.rated_count, 5);
}
