use flowlink::{
    app::context::AppError,
    config::LayoutConfig,
    discovery::DiscoveredPeer,
    input::types::InputError,
    platform::PermissionStatus,
    protocol::messages::{ArchType, DiscoverySource, LayoutDirection, OsType},
    session::state::{ControlOwner, SessionSnapshot, SessionState},
    ui_api::{
        commands::{app_error, layout_from_ui, lock_error, permission_kind},
        models::{
            control_owner_label, session_state_label, UiDevice, UiError, UiLayoutConfig,
            UiPermissionStatus, UiSessionStatus,
        },
    },
    input::types::PermissionKind,
};

#[test]
fn input_errors_map_to_recoverable_ui_codes() {
    let unsupported = UiError::from(InputError::Unsupported);
    assert_eq!(unsupported.code, "input_unsupported");
    assert!(unsupported.recoverable);

    let denied = UiError::from(InputError::PermissionDenied("input_monitoring"));
    assert_eq!(denied.code, "input_permission_denied");
    assert!(denied.message.contains("input_monitoring"));
    assert!(denied.recoverable);

    let running = UiError::from(InputError::CaptureAlreadyRunning);
    assert_eq!(running.code, "input_capture_already_running");
    assert!(running.recoverable);

    let platform = UiError::from(InputError::Platform("hook failed".into()));
    assert_eq!(platform.code, "input_platform_error");
    assert!(platform.message.contains("hook failed"));
    assert!(platform.recoverable);
}

#[test]
fn input_error_messages() {
    assert_eq!(InputError::Unsupported.message(), "input platform is unsupported");
    assert_eq!(
        InputError::PermissionDenied("accessibility").message(),
        "permission is not granted: accessibility"
    );
    assert_eq!(InputError::Platform("x".into()).message(), "platform error: x");
}

#[test]
fn discovered_peer_row_uses_first_address_and_pairing_state() {
    let mut peer = DiscoveredPeer::demo_peer();
    let row = UiDevice::from_peer(&peer);
    assert_eq!(row.address_label, "192.168.1.42:42424");
    assert_eq!(row.status, "available");
    assert_eq!(row.last_seen_label, "recently");

    peer.addresses.clear();
    peer.pairing_available = false;
    let row = UiDevice::from_peer(&peer);
    assert_eq!(row.address_label, "-");
    assert_eq!(row.status, "stale");
}

#[test]
fn session_and_permission_labels() {
    let session = SessionSnapshot::default();
    let ui = UiSessionStatus::from_snapshot(&session);
    assert_eq!(ui.state, "disconnected");
    assert_eq!(ui.control_owner, "local");
    assert_eq!(session_state_label(&SessionState::ControlledByRemote), "controlled_by_remote");
    assert_eq!(control_owner_label(&ControlOwner::NoOwner), "none");

    let ui = UiPermissionStatus::from_status(&PermissionStatus::unsupported());
    assert_eq!(ui.accessibility, "unsupported");
    assert_eq!(ui.windows_integrity_level, None);
}

#[test]
fn command_helpers() {
    assert_eq!(permission_kind("accessibility"), Some(PermissionKind::Accessibility));
    assert_eq!(permission_kind("input_monitoring"), Some(PermissionKind::InputMonitoring));
    assert_eq!(permission_kind("windows_input"), Some(PermissionKind::WindowsInput));
    assert_eq!(permission_kind("camera"), None);

    let err = lock_error();
    assert_eq!(err.code, "lock_failed");
    assert!(err.recoverable);

    let err = app_error(AppError::Validation("listen_port must be non-zero".into()));
    assert_eq!(err.code, "app_error");
    assert_eq!(err.message, "validation error: listen_port must be non-zero");

    let layout: LayoutConfig = layout_from_ui(
        UiLayoutConfig { peer_id: "peer-1".into(), direction: LayoutDirection::Left, enabled: true },
        5,
    );
    assert_eq!(layout.edge_thickness_px, 1);
    assert_eq!(layout.corner_guard_px, 32);
    assert_eq!(layout.updated_at_ms, 5);
}

#[test]
fn demo_peer_is_a_windows_pc() {
    let peer = DiscoveredPeer::demo_peer();
    assert_eq!(peer.device_id, "peer-demo-device");
    assert_eq!(peer.os, OsType::Windows);
    assert_eq!(peer.arch, ArchType::X86_64);
    assert_eq!(peer.source, DiscoverySource::Mdns);
}

#[test]
fn from_input_error_matches_from() {
    let via_from = UiError::from(InputError::Platform("x".into()));
    let named = UiError::from_input_error(InputError::Platform("x".into()));
    assert_eq!(via_from.code, named.code);
    assert_eq!(via_from.message, named.message);
    assert_eq!(via_from.message, "platform error: x");
}
