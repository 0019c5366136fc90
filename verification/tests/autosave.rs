use notetui::autosave::{
    AutoSaveError, AutoSaveEvent, AutoSaveRuntime, AutoSaveStatus, Clock, FlushRequest,
};
use notetui::config::AutoSaveConfig;
use notetui::journal::{
    entry_kind, final_name, snapshot_name, snapshot_time, sort_by_recency, temp_name, EntryKind,
    Journal, JournalFile, JournalOp, RecoverySnapshot, SnapshotRecord,
};

const SECOND: i128 = 1_000_000_000;

fn clock(seconds: i64) -> Clock {
    Clock { wall_nanos: seconds as i128 * SECOND, mono_nanos: seconds as u64 * 1_000_000_000 }
}

fn config(debounce_ms: u64, retention_hours: u64) -> AutoSaveConfig {
    AutoSaveConfig {
        debounce_ms,
        enabled: true,
        crash_recovery: true,
        snapshot_retention_hours: retention_hours,
    }
}

fn snapshot_file(name: &str, note_id: i64, saved_at: i64, body: &str) -> JournalFile {
    JournalFile {
        name: name.to_string(),
        is_file: true,
        record: Some(SnapshotRecord { note_id, saved_at, body: body.to_string() }),
    }
}

fn listing(runtime: &AutoSaveRuntime) -> Vec<JournalFile> {
    runtime.journal().files().iter().map(|file| file.duplicate()).collect()
}

fn op_names(ops: &[JournalOp]) -> Vec<String> {
    ops.iter()
        .map(|op| match op {
            JournalOp::EnsureDir => "ensure".to_string(),
            JournalOp::Write { name, .. } => format!("write {name}"),
            JournalOp::Rename { from, to } => format!("rename {from} {to}"),
            JournalOp::Remove { name } => format!("remove {name}"),
        })
        .collect()
}

#[test]
fn autosave_flushes_to_storage_and_clears_snapshot() {
    let note_id = 4;
    let mut stored_body = "original".to_string();
    let now = clock(1_700_000_000);
    let mut runtime =
        AutoSaveRuntime::new("autosave".to_string(), &config(0, 0), Vec::new(), now).unwrap();

    runtime.start_session(note_id, "original", now).unwrap();
    assert!(runtime.update_buffer(note_id, "updated body", now));

    assert!(runtime.journal().contains("note-4.json"));

    let request = runtime.poll(now).expect("a body to commit");
    assert_eq!(request.note_id, note_id);
    stored_body = request.body.clone();
    let event = runtime.complete_flush(&request, Ok(()), now);
    match event {
        Some(AutoSaveEvent::Saved { .. }) => {}
        other => panic!("expected saved event, got {other:?}"),
    }

    assert!(!runtime.journal().contains("note-4.json"));
    assert_eq!(stored_body, "updated body");
    assert_eq!(
        op_names(&runtime.take_journal_ops()),
        vec![
            "ensure",
            "ensure",
            "write note-4.json.tmp",
            "rename note-4.json.tmp note-4.json",
            "remove note-4.json",
        ]
    );
}

#[test]
fn autosave_reports_recovery_snapshots() {
    let note_id = 9;
    let settings = config(0, 0);
    let now = clock(1_700_000_000);

    let files = {
        let mut runtime =
            AutoSaveRuntime::new("autosave".to_string(), &settings, Vec::new(), now).unwrap();
        runtime.start_session(note_id, "initial", now).unwrap();
        runtime.update_buffer(note_id, "pending body", now);
        // Dropped without flushing to simulate a crash.
        listing(&runtime)
    };

    let later = clock(1_700_000_100);
    let mut runtime = AutoSaveRuntime::new("autosave".to_string(), &settings, files, later).unwrap();
    let snapshots = runtime.list_recovery(later);
    assert_eq!(snapshots.len(), 1);
    assert_eq!(snapshots[0].note_id, note_id);
    assert_eq!(snapshots[0].body, "pending body");
    assert_eq!(snapshots[0].saved_at, 1_700_000_000 * SECOND);

    let recovered = runtime.start_session(note_id, "initial", later).unwrap();
    assert!(recovered.is_some());
    assert_eq!(recovered.unwrap().body, "pending body");
    assert!(runtime.has_dirty_changes());
    let request = runtime.flush_now(later).expect("recovered draft is due");
    assert_eq!(request.body, "pending body");
}

#[test]
fn autosave_retention_prunes_expired_snapshots() {
    let retention_hours = 1;
    let now = clock(1_700_000_000);
    let files = vec![
        snapshot_file("note-1.json", 1, 1_700_000_000 - 2 * 3600, "stale body"),
        snapshot_file("note-2.json", 2, 1_700_000_000, "fresh body"),
    ];

    let mut runtime =
        AutoSaveRuntime::new("autosave".to_string(), &config(0, retention_hours), files, now)
            .unwrap();

    let snapshots = runtime.list_recovery(now);
    assert_eq!(snapshots.len(), 1);
    assert_eq!(snapshots[0].note_id, 2);
    assert_eq!(snapshots[0].body, "fresh body");
    assert!(!runtime.journal().contains("note-1.json"));
    assert!(runtime.journal().contains("note-2.json"));
    assert_eq!(op_names(&runtime.take_journal_ops()), vec!["ensure", "remove note-1.json"]);
}

#[test]
fn autosave_poll_triggers_periodic_prune() {
    let note_id = 3;
    let start = clock(1_700_000_000);
    let mut runtime =
        AutoSaveRuntime::new("autosave".to_string(), &config(0, 1), Vec::new(), start).unwrap();
    runtime.start_session(note_id, "body", start).unwrap();
    runtime.end_session(note_id, false);

    runtime.reload_journal(vec![snapshot_file(
        "note-99.json",
        99,
        1_700_000_000 - 4 * 3600,
        "orphaned",
    )]);

    // Not yet due: the journal stays as it is.
    assert!(runtime.poll(clock(1_700_000_000 + 299)).is_none());
    assert!(runtime.journal().contains("note-99.json"));

    assert!(runtime.poll(clock(1_700_000_000 + 301)).is_none());
    assert!(
        !runtime.journal().contains("note-99.json"),
        "expected periodic prune to remove expired snapshot"
    );
}

#[test]
fn status_follows_the_session() {
    let now = clock(100);
    let mut runtime =
        AutoSaveRuntime::new("dir".to_string(), &config(800, 0), Vec::new(), now).unwrap();
    assert_eq!(runtime.journal_dir(), "dir");
    assert!(matches!(runtime.status(), AutoSaveStatus::Inactive));
    assert!(!runtime.has_active_session());

    assert!(runtime.start_session(5, "text", now).unwrap().is_none());
    assert!(runtime.has_active_session());
    assert!(!runtime.has_dirty_changes());
    assert!(matches!(
        runtime.status(),
        AutoSaveStatus::Idle { note_id: 5, last_saved_at: None }
    ));

    assert!(!runtime.update_buffer(5, "text", now));
    assert!(!runtime.update_buffer(6, "other", now));
    assert!(runtime.update_buffer(5, "text!", clock(101)));
    assert!(runtime.has_dirty_changes());
    match runtime.status() {
        AutoSaveStatus::Pending { note_id, since } => {
            assert_eq!(note_id, 5);
            assert_eq!(since, 101 * SECOND);
        }
        other => panic!("expected pending, got {other:?}"),
    }

    let request = runtime.flush_now(clock(101)).unwrap();
    let event = runtime.complete_flush(&request, Ok(()), clock(102));
    assert!(matches!(
        event,
        Some(AutoSaveEvent::Saved { note_id: 5, timestamp }) if timestamp == 102 * SECOND
    ));
    assert!(matches!(
        runtime.status(),
        AutoSaveStatus::Idle { note_id: 5, last_saved_at: Some(at) } if at == 102 * SECOND
    ));
    assert!(runtime.flush_now(clock(103)).is_none());
}

#[test]
fn disabled_runtime_reports_disabled_and_never_polls() {
    let settings = AutoSaveConfig {
        debounce_ms: 0,
        enabled: false,
        crash_recovery: false,
        snapshot_retention_hours: 0,
    };
    let now = clock(10);
    let mut runtime = AutoSaveRuntime::new("dir".to_string(), &settings, Vec::new(), now).unwrap();
    assert!(matches!(runtime.status(), AutoSaveStatus::Disabled));
    runtime.start_session(1, "a", now).unwrap();
    assert!(runtime.update_buffer(1, "b", now));
    assert!(runtime.poll(clock(1000)).is_none());
    assert!(runtime.take_journal_ops().is_empty());
    // A manual save still goes through.
    let request = runtime.flush_now(clock(1000)).unwrap();
    assert_eq!(request.body, "b");
    assert!(runtime.list_recovery(now).is_empty());
}

#[test]
fn poll_waits_for_the_debounce_window() {
    let mut runtime =
        AutoSaveRuntime::new("dir".to_string(), &config(800, 0), Vec::new(), clock(0)).unwrap();
    runtime.start_session(1, "a", clock(0)).unwrap();
    let at = Clock { wall_nanos: 0, mono_nanos: 5_000_000_000 };
    assert!(runtime.update_buffer(1, "b", at));
    let early = Clock { wall_nanos: 0, mono_nanos: 5_799_999_999 };
    assert!(runtime.poll(early).is_none());
    let due = Clock { wall_nanos: 0, mono_nanos: 5_800_000_000 };
    let request = runtime.poll(due).expect("window has passed");
    assert_eq!(request.note_id, 1);
    assert_eq!(request.body, "b");
    // An immediate flush does not wait.
    assert!(runtime.flush_now(early).is_some());
}

#[test]
fn failed_flush_keeps_snapshot_and_reports_error() {
    let now = clock(1_700_000_000);
    let mut runtime =
        AutoSaveRuntime::new("dir".to_string(), &config(0, 0), Vec::new(), now).unwrap();
    runtime.start_session(2, "a", now).unwrap();
    runtime.update_buffer(2, "draft", now);
    runtime.take_journal_ops();
    let request = runtime.poll(now).unwrap();
    let later = clock(1_700_000_005);
    let event = runtime.complete_flush(&request, Err("note 2 not found".to_string()), later);
    match event {
        Some(AutoSaveEvent::Error { note_id, message }) => {
            assert_eq!(note_id, 2);
            assert_eq!(message, "note 2 not found");
        }
        other => panic!("expected error event, got {other:?}"),
    }
    match runtime.status() {
        AutoSaveStatus::Error { note_id, message, occurred_at } => {
            assert_eq!(note_id, 2);
            assert_eq!(message, "note 2 not found");
            assert_eq!(occurred_at, 1_700_000_005 * SECOND);
        }
        other => panic!("expected error status, got {other:?}"),
    }
    let file = runtime.journal().find("note-2.json").expect("snapshot kept");
    let record = file.record.expect("readable");
    assert_eq!(record.note_id, 2);
    assert_eq!(record.body, "draft");
    assert_eq!(record.saved_at, 1_700_000_005);
    assert_eq!(
        op_names(&runtime.take_journal_ops()),
        vec!["ensure", "write note-2.json.tmp", "rename note-2.json.tmp note-2.json"]
    );
    assert!(runtime.has_dirty_changes());
    // The next tick retries, and an update clears the failure.
    assert!(runtime.poll(later).is_some());
    runtime.update_buffer(2, "draft 2", later);
    assert!(matches!(runtime.status(), AutoSaveStatus::Pending { .. }));
}

#[test]
fn stale_completion_changes_nothing() {
    let now = clock(50);
    let mut runtime =
        AutoSaveRuntime::new("dir".to_string(), &config(0, 0), Vec::new(), now).unwrap();
    runtime.start_session(2, "a", now).unwrap();
    runtime.update_buffer(2, "first", now);
    let request = runtime.flush_now(now).unwrap();
    runtime.update_buffer(2, "second", now);
    assert!(runtime.complete_flush(&request, Ok(()), now).is_none());
    assert!(runtime.has_dirty_changes());
    assert!(runtime.journal().contains("note-2.json"));
    let other = FlushRequest { note_id: 3, body: "second".to_string() };
    assert!(runtime.complete_flush(&other, Ok(()), now).is_none());
}

#[test]
fn end_session_clears_the_snapshot_only_when_asked() {
    let now = clock(50);
    let mut runtime =
        AutoSaveRuntime::new("dir".to_string(), &config(0, 0), Vec::new(), now).unwrap();
    runtime.start_session(2, "a", now).unwrap();
    runtime.update_buffer(2, "b", now);
    runtime.end_session(3, true);
    assert!(runtime.has_active_session());
    runtime.end_session(2, false);
    assert!(!runtime.has_active_session());
    assert!(runtime.journal().contains("note-2.json"));

    runtime.start_session(2, "a", now).unwrap();
    runtime.end_session(2, true);
    assert!(!runtime.journal().contains("note-2.json"));

    runtime.reload_journal(vec![snapshot_file("note-8.json", 8, 40, "x")]);
    runtime.discard_snapshot(8);
    assert!(!runtime.journal().contains("note-8.json"));
}

#[test]
fn start_session_fails_on_an_unreadable_snapshot() {
    let now = clock(50);
    let files = vec![JournalFile { name: "note-2.json".to_string(), is_file: true, record: None }];
    let mut runtime =
        AutoSaveRuntime::new("dir".to_string(), &config(0, 0), files, now).unwrap();
    assert_eq!(
        runtime.start_session(2, "a", now).unwrap_err(),
        AutoSaveError::SnapshotUnreadable
    );
    assert!(!runtime.has_active_session());
    assert!(runtime.start_session(3, "a", now).unwrap().is_none());
}

#[test]
fn retention_out_of_range_is_refused() {
    let settings = config(0, 2_562_047_788_015_216);
    let made = AutoSaveRuntime::new("dir".to_string(), &settings, Vec::new(), clock(0));
    assert_eq!(made.unwrap_err(), AutoSaveError::RetentionOutOfRange);
    let settings = config(0, 2_562_047_788_015_215);
    assert!(AutoSaveRuntime::new("dir".to_string(), &settings, Vec::new(), clock(0)).is_ok());
    assert_eq!(settings.snapshot_retention(), Some(2_562_047_788_015_215 * 3600));
    assert_eq!(config(0, 0).snapshot_retention(), None);
    assert_eq!(AutoSaveConfig::default().debounce_duration(), 800);
    assert_eq!(AutoSaveConfig::default().snapshot_retention(), Some(604_800));
}

#[test]
fn list_recovery_orders_newest_first_then_by_note_id() {
    let now = clock(1_000_000);
    let files = vec![
        snapshot_file("note-5.json", 5, 100, "five"),
        snapshot_file("note-3.json", 3, 300, "three"),
        snapshot_file("note-4.json", 4, 300, "four"),
        snapshot_file("note-1.json", 1, 200, "one"),
        JournalFile { name: "note-7.json".to_string(), is_file: true, record: None },
        JournalFile { name: "notes.txt".to_string(), is_file: true, record: None },
        JournalFile { name: "dir.json".to_string(), is_file: false, record: None },
        snapshot_file("stray.json.tmp", 6, 400, "temp"),
    ];
    let mut runtime =
        AutoSaveRuntime::new("dir".to_string(), &config(0, 0), files, now).unwrap();
    runtime.start_session(1, "one", now).unwrap();
    let ids: Vec<i64> = runtime.list_recovery(now).iter().map(|s| s.note_id).collect();
    assert_eq!(ids, vec![3, 4, 5]);
    assert!(!runtime.journal().contains("note-7.json"));
    assert!(!runtime.journal().contains("stray.json.tmp"));
    assert!(runtime.journal().contains("notes.txt"));
    assert!(runtime.journal().contains("dir.json"));
    assert!(runtime.journal().contains("note-1.json"));
}

#[test]
fn scan_finalises_temporary_files() {
    let files = vec![
        snapshot_file("note-1.json.tmp", 1, 10, "from temp"),
        snapshot_file("note-2.json.tmp", 2, 20, "ignored temp"),
        snapshot_file("note-2.json", 2, 30, "final"),
        JournalFile { name: "note-3.json.tmp".to_string(), is_file: true, record: None },
    ];
    let mut journal = Journal::new(files);
    let found = journal.scan(None, 0);
    let bodies: Vec<&str> = found.iter().map(|s| s.body.as_str()).collect();
    assert_eq!(bodies, vec!["from temp", "final", "final"]);
    assert!(journal.contains("note-1.json"));
    assert!(!journal.contains("note-1.json.tmp"));
    assert!(journal.contains("note-2.json.tmp"));
    assert!(journal.contains("note-2.json"));
    assert!(!journal.contains("note-3.json"));
    assert!(!journal.contains("note-3.json.tmp"));
    assert_eq!(
        op_names(&journal.take_pending()),
        vec![
            "rename note-1.json.tmp note-1.json",
            "rename note-3.json.tmp note-3.json",
            "remove note-3.json",
        ]
    );
}

#[test]
fn names_and_kinds_of_journal_files() {
    assert_eq!(snapshot_name(12), "note-12.json");
    assert_eq!(snapshot_name(-3), "note--3.json");
    assert_eq!(temp_name("note-12.json"), "note-12.json.tmp");
    assert_eq!(final_name("note-12.json.tmp"), "note-12.json");
    assert_eq!(entry_kind("note-12.json"), EntryKind::Snapshot);
    assert_eq!(entry_kind("note-12.json.tmp"), EntryKind::SnapshotTemp);
    assert_eq!(entry_kind("x.tmp"), EntryKind::Temp);
    assert_eq!(entry_kind(".tmp"), EntryKind::Other);
    assert_eq!(entry_kind(".json"), EntryKind::Other);
    assert_eq!(entry_kind("json"), EntryKind::Other);
    assert_eq!(entry_kind("notes.txt"), EntryKind::Other);
}

#[test]
fn snapshot_time_falls_back_to_now_out_of_range() {
    assert_eq!(snapshot_time(0, 77), 0);
    assert_eq!(snapshot_time(5, 77), 5 * SECOND);
    assert_eq!(snapshot_time(253_402_300_799, 77), 253_402_300_799 * SECOND);
    assert_eq!(snapshot_time(253_402_300_800, 77), 77);
    assert_eq!(snapshot_time(-377_705_116_800, 77), -377_705_116_800 * SECOND);
    assert_eq!(snapshot_time(-377_705_116_801, 77), 77);
}

#[test]
fn sort_is_stable_for_equal_snapshots() {
    let make = |note_id: i64, saved_at: i128, body: &str| RecoverySnapshot {
        note_id,
        saved_at,
        body: body.to_string(),
    };
    let sorted = sort_by_recency(vec![
        make(2, 5, "a"),
        make(1, 5, "b"),
        make(2, 5, "c"),
        make(9, 7, "d"),
    ]);
    let bodies: Vec<&str> = sorted.iter().map(|s| s.body.as_str()).collect();
    assert_eq!(bodies, vec!["d", "b", "a", "c"]);
}

#[test]
fn closing_waits_for_a_successful_save() {
    let now = clock(50);
    let mut runtime =
        AutoSaveRuntime::new("dir".to_string(), &config(0, 0), Vec::new(), now).unwrap();
    runtime.start_session(2, "a", now).unwrap();
    runtime.update_buffer(2, "b", now);
    let request = runtime.flush_now(now).unwrap();
    let failed = runtime.complete_flush(&request, Err("locked".to_string()), now);
    assert!(!runtime.close_session(2, &failed));
    assert!(runtime.has_active_session());
    assert!(runtime.journal().contains("note-2.json"));
    assert!(!runtime.prune_due(clock(50 + 299)));
    assert!(runtime.prune_due(clock(50 + 300)));

    let request = runtime.flush_now(now).unwrap();
    let saved = runtime.complete_flush(&request, Ok(()), now);
    assert!(runtime.close_session(2, &saved));
    assert!(!runtime.has_active_session());
    assert!(!runtime.journal().contains("note-2.json"));
    assert!(runtime.close_session(2, &None));
}

#[test]
fn retention_zero_keeps_snapshots_but_never_temporary_files() {
    let now = clock(1_700_000_000);
    let files = vec![
        snapshot_file("note-1.json", 1, 0, "ancient"),
        JournalFile { name: "note-2.json".to_string(), is_file: true, record: None },
        snapshot_file("note-3.json.tmp", 3, 1_700_000_000, "half written"),
        JournalFile { name: "other.tmp".to_string(), is_file: true, record: None },
        JournalFile { name: "kept.tmp".to_string(), is_file: false, record: None },
    ];
    let mut runtime =
        AutoSaveRuntime::new("dir".to_string(), &config(0, 0), files.clone(), now).unwrap();
    assert!(runtime.journal().contains("note-1.json"));
    assert!(runtime.journal().contains("note-2.json"));
    assert!(!runtime.journal().contains("note-3.json.tmp"));
    assert!(!runtime.journal().contains("other.tmp"));
    assert!(runtime.journal().contains("kept.tmp"));
    assert_eq!(
        op_names(&runtime.take_journal_ops()),
        vec!["ensure", "remove note-3.json.tmp", "remove other.tmp"]
    );

    let mut bounded =
        AutoSaveRuntime::new("dir".to_string(), &config(0, 1), files, now).unwrap();
    assert!(!bounded.journal().contains("note-1.json"));
    assert!(!bounded.journal().contains("note-2.json"));
    bounded.discard_snapshot(1);
    bounded.discard_snapshot(1);
    assert!(!bounded.journal().contains("note-1.json"));
}

#[test]
fn journal_store_replaces_snapshot_and_temp() {
    let mut journal = Journal::new(vec![
        snapshot_file("note-1.json", 1, 5, "old"),
        snapshot_file("note-1.json.tmp", 1, 6, "stale temp"),
    ]);
    journal.store("note-1.json", SnapshotRecord { note_id: 1, saved_at: 7, body: "new".into() });
    assert!(!journal.contains("note-1.json.tmp"));
    let file = journal.find("note-1.json").unwrap();
    assert_eq!(file.record.unwrap().body, "new");
    assert_eq!(journal.files().len(), 1);
    journal.discard("note-1.json");
    assert!(journal.find("note-1.json").is_none());
    journal.reload(vec![snapshot_file("x.json", 2, 1, "x")]);
    assert!(journal.contains("x.json"));
    assert_eq!(
        op_names(&journal.take_pending()),
        vec![
            "ensure",
            "write note-1.json.tmp",
            "rename note-1.json.tmp note-1.json",
            "remove note-1.json",
        ]
    );
    assert!(journal.take_pending().is_empty());
}
