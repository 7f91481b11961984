use flowlink::input::macos::{
    capture_action, captured_button, mac_button_event, mac_button_number, macos_permission_status,
    CaptureAction, MacEventKind, MacMouseButton,
};
use flowlink::platform::PermissionState;
use flowlink::protocol::messages::MouseButton;

#[test]
fn buttons_post_with_their_event_types() {
    assert_eq!(
        mac_button_event(MouseButton::Left, true),
        (MacEventKind::LeftMouseDown, MacMouseButton::Left)
    );
    assert_eq!(
        mac_button_event(MouseButton::Right, false),
        (MacEventKind::RightMouseUp, MacMouseButton::Right)
    );
    assert_eq!(
        mac_button_event(MouseButton::Forward, true),
        (MacEventKind::OtherMouseDown, MacMouseButton::Center)
    );
    assert_eq!(mac_button_number(MouseButton::Back), 3);
    assert_eq!(mac_button_number(MouseButton::Other(7)), 7);
}

#[test]
fn captured_events_become_actions() {
    assert_eq!(capture_action(MacEventKind::MouseMoved, 0), Some(CaptureAction::Move));
    assert_eq!(
        capture_action(MacEventKind::OtherMouseDown, 2),
        Some(CaptureAction::Down(MouseButton::Middle))
    );
    assert_eq!(
        capture_action(MacEventKind::OtherMouseUp, 3),
        Some(CaptureAction::Up(MouseButton::Other(3)))
    );
    assert_eq!(capture_action(MacEventKind::ScrollWheel, 0), Some(CaptureAction::Wheel));
    assert_eq!(capture_action(MacEventKind::Other, 0), None);
    assert_eq!(captured_button(MacEventKind::LeftMouseUp, 9), MouseButton::Left);
    assert_eq!(captured_button(MacEventKind::OtherMouseDown, 258), MouseButton::Other(2));
}

#[test]
fn back_button_comes_back_as_a_numbered_button() {
    let (kind, _) = mac_button_event(MouseButton::Back, true);
    assert_eq!(
        capture_action(kind, mac_button_number(MouseButton::Back)),
        Some(CaptureAction::Down(MouseButton::Other(3)))
    );
    let (kind, _) = mac_button_event(MouseButton::Middle, false);
    assert_eq!(
        capture_action(kind, mac_button_number(MouseButton::Middle)),
        Some(CaptureAction::Up(MouseButton::Middle))
    );
}

#[test]
fn macos_capture_needs_input_monitoring_and_injection_needs_accessibility() {
    let status = macos_permission_status(PermissionState::Granted, PermissionState::NotDetermined);
    assert!(status.can_inject_mouse);
    assert!(!status.can_capture_mouse);
    assert_eq!(status.accessibility, PermissionState::Granted);
    assert_eq!(status.input_monitoring, PermissionState::NotDetermined);
    assert_eq!(status.screen_recording, PermissionState::Unsupported);
    assert_eq!(status.windows_input, PermissionState::Unsupported);
    assert_eq!(status.windows_integrity_level, None);

    let status = macos_permission_status(PermissionState::Denied, PermissionState::Granted);
    assert!(!status.can_inject_mouse);
    assert!(status.can_capture_mouse);
}
