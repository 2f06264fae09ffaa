use nettune_core::backup::{BackupManager, BackupState};
use nettune_core::info::{apply_message, revert_all_message, tweak_infos};
use nettune_core::session::{
    apply_allowed, apply_tweak, find_tweak, revert_all_step, revert_finished, revert_tweak,
    tweak_name_or_unknown, ApplyStep, RevertStep,
};
use nettune_core::tweaks::mock::MockTweak;
use nettune_core::tweaks::NetworkTweak;
use std::path::PathBuf;

#[test]
fn apply_then_revert_restores_the_original() {
    let manager = BackupManager::new(PathBuf::from("b.json"));
    let mut state = BackupState::new();
    let tweak = NetworkTweak::TcpLowLatency;

    match apply_tweak(&tweak, &manager, &mut state, Some("0".to_string()), false) {
        ApplyStep::Apply { state_changed } => assert!(state_changed),
        _ => panic!("expected Apply"),
    }
    // A second apply keeps the first backup.
    match apply_tweak(&tweak, &manager, &mut state, Some("1".to_string()), false) {
        ApplyStep::Apply { state_changed } => assert!(!state_changed),
        _ => panic!("expected Apply"),
    }
    match revert_tweak(&tweak, &state, false) {
        RevertStep::Revert { original } => assert_eq!(original, "0"),
        _ => panic!("expected Revert"),
    }
    assert!(manager.remove_backup(&mut state, "linux_tcp_low_latency"));
    assert!(matches!(revert_tweak(&tweak, &state, false), RevertStep::NoBackup));
}

#[test]
fn dry_run_and_unreadable_change_nothing() {
    let manager = BackupManager::new(PathBuf::from("b.json"));
    let mut state = BackupState::new();
    let tweak = MockTweak::new("m", "M", "v");
    match apply_tweak(&tweak, &manager, &mut state, Some("v".to_string()), true) {
        ApplyStep::DryRun { original } => assert_eq!(original, "v"),
        _ => panic!("expected DryRun"),
    }
    assert!(matches!(apply_tweak(&tweak, &manager, &mut state, None, false), ApplyStep::Unreadable));
    assert!(state.is_empty());
    manager.record_backup(&mut state, "m", "old");
    match revert_tweak(&tweak, &state, true) {
        RevertStep::DryRun { original } => assert_eq!(original, "old"),
        _ => panic!("expected DryRun"),
    }
    assert!(state.contains_key("m"));
}

#[test]
fn lookup_by_id() {
    let tweaks = vec![NetworkTweak::DelayedAck, NetworkTweak::TcpWindowSize];
    assert_eq!(find_tweak(&tweaks, "macos_tcp_window_size"), Some(1));
    assert_eq!(find_tweak(&tweaks, "nope"), None);
    assert_eq!(tweak_name_or_unknown(&tweaks, "macos_delayed_ack"), "Desabilitar TCP Delayed ACK");
    assert_eq!(tweak_name_or_unknown(&tweaks, "nope"), "Desconhecido");
}

#[test]
fn infos_and_messages() {
    let manager = BackupManager::new(PathBuf::from("b.json"));
    let mut state = BackupState::new();
    manager.record_backup(&mut state, "win_nagle_algorithm", "0:0");
    let tweaks = vec![NetworkTweak::NetworkThrottling, NetworkTweak::NagleAlgorithm];
    let infos = tweak_infos(&tweaks, &state);
    assert_eq!(infos.len(), 2);
    assert_eq!(infos[0].id, "win_network_throttling");
    assert!(!infos[0].active);
    assert_eq!(infos[1].name, "Desabilitar Nagle's Algorithm (TcpAckFrequency & TCPNoDelay)");
    assert!(infos[1].active);
    assert_eq!(apply_message(true, false), "Aplicado com sucesso. (Requer reinicialização)");
    assert_eq!(apply_message(true, true), "Aplicado com sucesso.");
    assert_eq!(apply_message(false, false), "Aplicado com sucesso.");
    assert_eq!(revert_all_message(3), "3 ajustes revertidos.");
}

#[test]
fn restore_all_steps() {
    let none = RevertStep::NoBackup;
    let dry = RevertStep::DryRun { original: "1".to_string() };
    let real = RevertStep::Revert { original: "1".to_string() };
    assert_eq!(revert_all_step(2, &none, true), (2, false));
    assert_eq!(revert_all_step(2, &dry, false), (3, false));
    assert_eq!(revert_all_step(2, &real, true), (3, true));
    assert_eq!(revert_all_step(2, &real, false), (2, false));
    assert!(revert_finished(&real, true));
    assert!(!revert_finished(&real, false));
    assert!(!revert_finished(&dry, true));
    assert!(!revert_finished(&none, true));
}

#[test]
fn apply_only_after_the_backup_is_saved() {
    let changed = ApplyStep::Apply { state_changed: true };
    let unchanged = ApplyStep::Apply { state_changed: false };
    assert!(apply_allowed(&changed, true));
    assert!(!apply_allowed(&changed, false));
    assert!(apply_allowed(&unchanged, false));
    assert!(!apply_allowed(&ApplyStep::Unreadable, true));
    assert!(!apply_allowed(&ApplyStep::DryRun { original: "x".to_string() }, true));
}
