use rsm::controller::{AppController, AppEvent, Command, ControllerError, CopyPurpose};
use rsm::fs_util::SaveManagerError;
use rsm::model::AppState;
use rsm::save_bundle::SaveBundle;
use rsm::view::{FocusTracker, SaveDirType};

fn bundle(location: &str, name: &str, level: i32) -> SaveBundle {
    SaveBundle { location: location.to_string(), name: name.to_string(), level, players: Vec::new() }
}

fn controller() -> AppController {
    let mut state = AppState::new("/saves".to_string(), "/backups".to_string());
    state.refresh_save_bundles(
        vec![bundle("/saves/S", "S", 7)],
        vec![bundle("/backups/S", "S", 2), bundle("/backups/T", "T", 4)],
    );
    AppController::new(state)
}

#[test]
fn restore_request_then_confirm_replaces_active_save() {
    let mut c = controller();
    assert!(c.state.confirm_restore_backup_name.is_none());

    let job = match c.handle_events(AppEvent::RequestRestoreBackup("S".to_string())) {
        Ok(Command::Copy(job)) => job,
        _ => panic!("expected a copy"),
    };
    assert_eq!(job.purpose, CopyPurpose::RestoreRequest);
    assert_eq!(job.source, "/backups/S");
    assert_eq!(job.destination_root, "/saves");
    assert!(!job.overwrite);

    let reply = c.on_copy_finished(&job, &Err(SaveManagerError::SaveExists));
    assert!(matches!(reply, Ok(Command::Rescan)));
    assert_eq!(c.state.confirm_restore_backup_name.as_deref(), Some("S"));
    assert_eq!(c.state.restore_prompt(), Some((0, 0)));

    let game = c.state.game_save_bundles.clone();
    let backups = c.state.backup_save_bundles.clone();
    c.on_rescanned(game, backups);
    assert_eq!(c.state.confirm_restore_backup_name.as_deref(), Some("S"));

    let job = match c.handle_events(AppEvent::ConfirmRestoreBackup("S".to_string())) {
        Ok(Command::Copy(job)) => job,
        _ => panic!("expected a copy"),
    };
    assert_eq!(job.purpose, CopyPurpose::RestoreConfirm);
    assert_eq!(job.source, "/backups/S");
    assert_eq!(job.destination_root, "/saves");
    assert!(job.overwrite);

    assert!(matches!(c.on_copy_finished(&job, &Ok(())), Ok(Command::Rescan)));
    assert!(c.state.confirm_restore_backup_name.is_none());
}

#[test]
fn restore_without_existing_save_needs_no_confirmation() {
    let mut c = controller();
    let job = match c.handle_events(AppEvent::RequestRestoreBackup("T".to_string())) {
        Ok(Command::Copy(job)) => job,
        _ => panic!("expected a copy"),
    };
    assert!(matches!(c.on_copy_finished(&job, &Ok(())), Ok(Command::Rescan)));
    assert!(c.state.confirm_restore_backup_name.is_none());
}

#[test]
fn failed_confirm_clears_pending_restore() {
    let mut c = controller();
    c.state.confirm_restore_backup("S".to_string());
    let job = match c.handle_events(AppEvent::ConfirmRestoreBackup("S".to_string())) {
        Ok(Command::Copy(job)) => job,
        _ => panic!("expected a copy"),
    };
    match c.on_copy_finished(&job, &Err(SaveManagerError::IOError("disk full".to_string()))) {
        Err(ControllerError::RestoreBackupFailed(m)) => assert_eq!(m, "IO error: disk full"),
        _ => panic!("expected a restore failure"),
    }
    assert!(c.state.confirm_restore_backup_name.is_none());
}

#[test]
fn cancel_restore_clears_pending_name() {
    let mut c = controller();
    c.state.confirm_restore_backup("S".to_string());
    assert!(matches!(c.handle_events(AppEvent::CancelRestoreBackup), Ok(Command::Nothing)));
    assert!(c.state.confirm_restore_backup_name.is_none());
}

#[test]
fn restore_of_unknown_backup_fails() {
    let mut c = controller();
    match c.handle_events(AppEvent::RequestRestoreBackup("X".to_string())) {
        Err(ControllerError::RestoreBackupFailed(m)) => {
            assert_eq!(m, "Backup Save bundle with name `X` not found")
        }
        _ => panic!("expected a restore failure"),
    }
}

#[test]
fn backup_copies_active_save_with_overwrite() {
    let mut c = controller();
    for _ in 0..2 {
        let job = match c.handle_events(AppEvent::BackupSave("S".to_string())) {
            Ok(Command::Copy(job)) => job,
            _ => panic!("expected a copy"),
        };
        assert_eq!(job.purpose, CopyPurpose::Backup);
        assert_eq!(job.source, "/saves/S");
        assert_eq!(job.destination_root, "/backups");
        assert!(job.overwrite);
        assert!(matches!(c.on_copy_finished(&job, &Ok(())), Ok(Command::Rescan)));
    }
}

#[test]
fn backup_of_unknown_save_fails() {
    let mut c = controller();
    match c.handle_events(AppEvent::BackupSave("Q".to_string())) {
        Err(e) => {
            assert_eq!(e.message(), "Backup failed: Game Save bundle with name `Q` not found")
        }
        _ => panic!("expected a backup failure"),
    }
}

#[test]
fn failed_backup_reports_copy_error() {
    let mut c = controller();
    let job = match c.handle_events(AppEvent::BackupSave("S".to_string())) {
        Ok(Command::Copy(job)) => job,
        _ => panic!("expected a copy"),
    };
    match c.on_copy_finished(&job, &Err(SaveManagerError::FsExtraError("x".to_string()))) {
        Err(ControllerError::BackupFailed(m)) => assert_eq!(m, "FsExtra error: x"),
        _ => panic!("expected a backup failure"),
    }
}

#[test]
fn delete_request_confirm_and_cancel() {
    let mut c = controller();
    assert!(matches!(c.handle_events(AppEvent::RequestDeleteBackup("T".to_string())), Ok(Command::Nothing)));
    assert_eq!(c.state.confirm_backup_deletion_name.as_deref(), Some("T"));
    assert_eq!(c.state.delete_prompt(), Some(1));
    match c.handle_events(AppEvent::ConfirmDeleteBackup("T".to_string())) {
        Ok(Command::Delete(job)) => {
            assert_eq!(job.location, "/backups/T");
            assert_eq!(job.name, "T");
        }
        _ => panic!("expected a delete"),
    }
    assert!(matches!(c.on_delete_finished(&Ok(())), Ok(Command::Rescan)));
    assert!(c.state.confirm_backup_deletion_name.is_none());

    assert!(matches!(c.handle_events(AppEvent::RequestDeleteBackup("S".to_string())), Ok(Command::Nothing)));
    assert!(matches!(c.handle_events(AppEvent::CancelDeleteBackup), Ok(Command::Nothing)));
    assert!(c.state.confirm_backup_deletion_name.is_none());
}

#[test]
fn second_delete_request_replaces_the_first() {
    let mut c = controller();
    let _ = c.handle_events(AppEvent::RequestDeleteBackup("S".to_string()));
    let _ = c.handle_events(AppEvent::RequestDeleteBackup("T".to_string()));
    assert_eq!(c.state.confirm_backup_deletion_name.as_deref(), Some("T"));
}

#[test]
fn failed_delete_reports_and_clears() {
    let mut c = controller();
    let _ = c.handle_events(AppEvent::RequestDeleteBackup("T".to_string()));
    match c.on_delete_finished(&Err("busy".to_string())) {
        Err(ControllerError::DeleteBackupFailed(m)) => assert_eq!(m, "busy"),
        _ => panic!("expected a delete failure"),
    }
    assert!(c.state.confirm_backup_deletion_name.is_none());
}

#[test]
fn delete_request_for_unlisted_backup_fails() {
    let mut c = controller();
    assert!(matches!(
        c.handle_events(AppEvent::RequestDeleteBackup("Q".to_string())),
        Err(ControllerError::DeleteBackupFailed(_))
    ));
    assert!(c.state.confirm_backup_deletion_name.is_none());
}

#[test]
fn scan_clears_pending_names_of_vanished_backups() {
    let mut c = controller();
    c.state.confirm_restore_backup("S".to_string());
    c.state.confirm_delete_backup("T".to_string());
    c.on_rescanned(Vec::new(), vec![bundle("/backups/T", "T", 4)]);
    assert!(c.state.confirm_restore_backup_name.is_none());
    assert_eq!(c.state.confirm_backup_deletion_name.as_deref(), Some("T"));
}

#[test]
fn directory_changes_and_refresh_ask_for_a_scan() {
    let mut c = controller();
    assert!(matches!(c.handle_events(AppEvent::UpdateSaveDirectory("/other".to_string())), Ok(Command::Rescan)));
    assert_eq!(c.state.save_directory, "/other");
    assert!(matches!(c.handle_events(AppEvent::UpdateBackupDirectory("/bk".to_string())), Ok(Command::Rescan)));
    assert_eq!(c.state.backup_directory, "/bk");
    assert!(matches!(c.handle_events(AppEvent::RefreshSaves), Ok(Command::Rescan)));
    assert!(matches!(c.handle_events(AppEvent::Exit), Ok(Command::Stop)));
}

#[test]
fn panels_and_focus() {
    let c = controller();
    assert_eq!(c.state.save_bundles(SaveDirType::GameSave).len(), 1);
    assert_eq!(c.state.save_bundles(SaveDirType::BackupSave).len(), 2);
    assert!(c.state.restore_prompt().is_none());
    assert!(c.state.delete_prompt().is_none());

    let mut focus = FocusTracker::new();
    assert!(focus.on_frame(true));
    assert!(!focus.on_frame(true));
    assert!(!focus.on_frame(false));
    assert!(focus.on_frame(true));
}

#[test]
fn controller_error_messages() {
    assert_eq!(ControllerError::DeleteBackupFailed("a".to_string()).message(), "Delete backup failed: a");
    assert_eq!(ControllerError::RestoreBackupFailed("b".to_string()).message(), "Restore backup failed: b");
}
