use flowlink::platform::macos_permissions::{next_settings_step, SettingsStep};
use flowlink::storage::files::{next_backup_step, BackupOutcome, BackupStep, StorageError};

#[test]
fn settings_panes_are_tried_until_one_opens() {
    assert!(matches!(next_settings_step(2, 0, None), SettingsStep::TryPane(0)));
    assert!(matches!(
        next_settings_step(2, 1, Some(Err("boom".to_string()))),
        SettingsStep::TryPane(1)
    ));
    assert!(matches!(next_settings_step(2, 1, Some(Ok(()))), SettingsStep::Done(Ok(()))));
    match next_settings_step(2, 2, Some(Err("last".to_string()))) {
        SettingsStep::Done(Err(message)) => assert_eq!(message, "last"),
        other => panic!("unexpected {other:?}"),
    }
    match next_settings_step(0, 0, None) {
        SettingsStep::Done(Err(message)) => assert_eq!(message, "no settings pane URL configured"),
        other => panic!("unexpected {other:?}"),
    }
}

#[test]
fn backup_names_are_tried_until_one_is_free() {
    assert!(matches!(next_backup_step(0, None), BackupStep::TryAttempt(0)));
    assert!(matches!(
        next_backup_step(5, Some(BackupOutcome::NameTaken)),
        BackupStep::TryAttempt(5)
    ));
    assert!(matches!(next_backup_step(5, Some(BackupOutcome::Moved)), BackupStep::Done(Ok(()))));
    match next_backup_step(3, Some(BackupOutcome::Failed("denied".to_string()))) {
        BackupStep::Done(Err(StorageError::Io(message))) => assert_eq!(message, "denied"),
        other => panic!("unexpected {other:?}"),
    }
    match next_backup_step(100, Some(BackupOutcome::NameTaken)) {
        BackupStep::Done(Err(StorageError::Io(message))) => {
            assert_eq!(message, "unable to create corrupt backup")
        }
        other => panic!("unexpected {other:?}"),
    }
}
