use flowlink::platform::{
    macos_permissions::settings_pane_urls,
    windows_permissions::{classify_integrity_rid, permission_status, WindowsIntegrityLevel},
    PermissionState, PermissionStatus,
};

const SECURITY_MANDATORY_LOW_RID: u32 = 0x1000;
const SECURITY_MANDATORY_MEDIUM_RID: u32 = 0x2000;
const SECURITY_MANDATORY_HIGH_RID: u32 = 0x3000;
const SECURITY_MANDATORY_SYSTEM_RID: u32 = 0x4000;

#[test]
fn accessibility_settings_urls_target_accessibility_first() {
    let urls = settings_pane_urls("accessibility");

    assert_eq!(
        urls[0],
        "x-apple.systempreferences:com.apple.preference.security?Privacy_Accessibility"
    );
    assert!(urls.contains(&"x-apple.systempreferences:com.apple.preference.security?Privacy"));
}

#[test]
fn input_monitoring_settings_urls_target_listen_event_first() {
    let urls = settings_pane_urls("input_monitoring");

    assert_eq!(
        urls[0],
        "x-apple.systempreferences:com.apple.preference.security?Privacy_ListenEvent"
    );
    assert!(urls.contains(&"x-apple.systempreferences:com.apple.preference.security?Privacy"));
}

#[test]
fn classifies_integrity_rids() {
    let low = SECURITY_MANDATORY_LOW_RID;
    let medium = SECURITY_MANDATORY_MEDIUM_RID;
    let high = SECURITY_MANDATORY_HIGH_RID;
    let system = SECURITY_MANDATORY_SYSTEM_RID;

    assert_eq!(
        classify_integrity_rid(low, low, medium, high, system),
        WindowsIntegrityLevel::Low
    );
    assert_eq!(
        classify_integrity_rid(medium, low, medium, high, system),
        WindowsIntegrityLevel::Medium
    );
    assert_eq!(
        classify_integrity_rid(high, low, medium, high, system),
        WindowsIntegrityLevel::High
    );
    assert_eq!(
        classify_integrity_rid(system, low, medium, high, system),
        WindowsIntegrityLevel::System
    );
    assert_eq!(
        classify_integrity_rid(low - 1, low, medium, high, system),
        WindowsIntegrityLevel::Unknown
    );
}

#[test]
fn unknown_settings_kind_opens_privacy_pane() {
    let urls = settings_pane_urls("screen_recording");
    assert_eq!(urls, vec!["x-apple.systempreferences:com.apple.preference.security?Privacy"]);
}

#[test]
fn unsupported_status_grants_nothing() {
    let permissions = PermissionStatus::unsupported();

    assert_eq!(permissions.accessibility, PermissionState::Unsupported);
    assert_eq!(permissions.input_monitoring, PermissionState::Unsupported);
    assert_eq!(permissions.screen_recording, PermissionState::Unsupported);
    assert_eq!(permissions.windows_input, PermissionState::Unsupported);
    assert_eq!(permissions.windows_integrity_level, None);
    assert!(!permissions.can_capture_mouse);
    assert!(!permissions.can_inject_mouse);
}

#[test]
fn windows_status_reports_integrity_level_label() {
    let status = permission_status(Ok(WindowsIntegrityLevel::High));
    assert_eq!(status.windows_integrity_level.as_deref(), Some("high"));
    assert_eq!(status.windows_input, PermissionState::Granted);
    assert!(status.can_capture_mouse && status.can_inject_mouse);

    let status = permission_status(Err("no token".into()));
    assert_eq!(status.windows_integrity_level, None);
}

#[test]
fn permission_state_labels() {
    assert_eq!(PermissionState::NotDetermined.as_str(), "not_determined");
    assert_eq!(PermissionState::Granted.as_str(), "granted");
    assert_eq!(WindowsIntegrityLevel::System.as_str(), "system");
}
