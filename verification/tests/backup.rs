use nettune_core::backup::{BackupManager, BackupRecord, BackupState, Timestamp};
use std::path::PathBuf;

#[test]
fn test_backup_manager() {
    let manager = BackupManager::new(PathBuf::from("backup.json"));
    let mut state = BackupState::new();

    // Record a backup
    assert!(manager.record_backup(&mut state, "tweak1", "orig1"));

    assert!(state.contains_key("tweak1"));
    assert_eq!(state.get("tweak1").unwrap().original_value, "orig1");

    // Try recording again, should not overwrite
    assert!(!manager.record_backup(&mut state, "tweak1", "changed_orig"));
    assert_eq!(state.get("tweak1").unwrap().original_value, "orig1");

    // Remove backup
    assert!(manager.remove_backup(&mut state, "tweak1"));
    assert!(!state.contains_key("tweak1"));
}

#[test]
fn record_backup_at_stores_the_record() {
    let manager = BackupManager::new(PathBuf::from("/tmp/b.json"));
    assert_eq!(manager.backup_file_path(), &PathBuf::from("/tmp/b.json"));
    let mut state = BackupState::new();
    let ts = Timestamp { secs: 1_700_000_000, nanos: 5 };
    assert!(manager.record_backup_at(&mut state, "a", "1", ts));
    let rec = state.get("a").unwrap();
    assert_eq!(rec.tweak_id, "a");
    assert_eq!(rec.original_value, "1");
    assert_eq!(rec.timestamp, ts);
    assert!(state.get("b").is_none());
}

#[test]
fn remove_of_missing_backup_changes_nothing() {
    let manager = BackupManager::new(PathBuf::from("x"));
    let mut state = BackupState::new();
    manager.record_backup(&mut state, "a", "1");
    assert!(!manager.remove_backup(&mut state, "b"));
    assert!(state.contains_key("a"));
    assert_eq!(state.entries().len(), 1);
}

#[test]
fn state_insert_replaces_and_remove_returns() {
    let mut state = BackupState::new();
    assert!(state.is_empty());
    let ts = Timestamp { secs: 0, nanos: 0 };
    state.insert(
        "k".to_string(),
        BackupRecord { tweak_id: "k".to_string(), original_value: "v1".to_string(), timestamp: ts },
    );
    state.insert(
        "k".to_string(),
        BackupRecord { tweak_id: "k".to_string(), original_value: "v2".to_string(), timestamp: ts },
    );
    assert!(!state.is_empty());
    assert_eq!(state.entries().len(), 1);
    assert_eq!(state.get("k").unwrap().original_value, "v2");
    let removed = state.remove("k").unwrap();
    assert_eq!(removed.original_value, "v2");
    assert!(state.remove("k").is_none());
    assert!(state.is_empty());
}

#[test]
fn from_entries_keeps_the_last_of_a_key() {
    let ts = Timestamp { secs: 1, nanos: 2 };
    let rec = |id: &str, v: &str| BackupRecord {
        tweak_id: id.to_string(),
        original_value: v.to_string(),
        timestamp: ts,
    };
    let state = BackupState::from_entries(vec![
        ("a".to_string(), rec("a", "1")),
        ("b".to_string(), rec("b", "2")),
        ("a".to_string(), rec("a", "3")),
    ]);
    assert_eq!(state.entries().len(), 2);
    assert_eq!(state.get("a").unwrap().original_value, "3");
    assert_eq!(state.get("b").unwrap().original_value, "2");
}

#[test]
fn default_state_is_empty() {
    let state = BackupState::default();
    assert!(state.is_empty());
    assert!(!state.contains_key("tweak1"));
}
