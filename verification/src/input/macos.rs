use vstd::prelude::*;
use crate::platform::{PermissionState, PermissionStatus};
use crate::protocol::messages::MouseButton;
use crate::storage::files::now_ms;

verus! {

pub fn platform_name() -> (name: &'static str)
    ensures
        name@ == "macos"@,
{
    "macos"
}

/// The macOS input platform (Core Graphics event taps and posted events).
#[derive(Debug, Clone, Copy)]
pub struct MacInputPlatform;

impl MacInputPlatform {
    pub fn new() -> Self {
        MacInputPlatform
    }
}

/// The button number Core Graphics expects for a mouse button.
pub open spec fn mac_button_value(button: MouseButton) -> i64 {
    match button {
        MouseButton::Left => 0,
        MouseButton::Right => 1,
        MouseButton::Middle => 2,
        MouseButton::Back => 3,
        MouseButton::Forward => 4,
        MouseButton::Other(value) => value as i64,
    }
}

pub fn mac_button_number(button: MouseButton) -> (number: i64)
    ensures
        number == mac_button_value(button),
{
    match button {
        MouseButton::Left => 0,
        MouseButton::Right => 1,
        MouseButton::Middle => 2,
        MouseButton::Back => 3,
        MouseButton::Forward => 4,
        MouseButton::Other(value) => value as i64,
    }
}

/// The macOS permission status from the two privacy checks: capturing needs
/// Input Monitoring, injecting needs Accessibility.
/// The Core Graphics event types the macOS back end captures and posts
/// (`Other` for any type it ignores).
#[derive(Debug, Clone, Copy, PartialEq, Eq, Structural)]
pub enum MacEventKind {
    MouseMoved,
    LeftMouseDown,
    LeftMouseUp,
    RightMouseDown,
    RightMouseUp,
    OtherMouseDown,
    OtherMouseUp,
    ScrollWheel,
    Other,
}

/// The Core Graphics mouse buttons a posted event can name.
#[derive(Debug, Clone, Copy, PartialEq, Eq, Structural)]
pub enum MacMouseButton {
    Left,
    Right,
    Center,
}

/// The event type and Core Graphics button used to post a press (`down`) or
/// a release of `button`: the left and right buttons have their own types,
/// every other button is posted as an "other" button.
pub open spec fn mac_button_event_of(button: MouseButton, down: bool) -> (MacEventKind, MacMouseButton) {
    match button {
        MouseButton::Left => (
            if down { MacEventKind::LeftMouseDown } else { MacEventKind::LeftMouseUp },
            MacMouseButton::Left,
        ),
        MouseButton::Right => (
            if down { MacEventKind::RightMouseDown } else { MacEventKind::RightMouseUp },
            MacMouseButton::Right,
        ),
        _ => (
            if down { MacEventKind::OtherMouseDown } else { MacEventKind::OtherMouseUp },
            MacMouseButton::Center,
        ),
    }
}

pub fn mac_button_event(button: MouseButton, down: bool) -> (event: (MacEventKind, MacMouseButton))
    ensures
        event == mac_button_event_of(button, down),
{
    match button {
        MouseButton::Left => (
            if down { MacEventKind::LeftMouseDown } else { MacEventKind::LeftMouseUp },
            MacMouseButton::Left,
        ),
        MouseButton::Right => (
            if down { MacEventKind::RightMouseDown } else { MacEventKind::RightMouseUp },
            MacMouseButton::Right,
        ),
        _ => (
            if down { MacEventKind::OtherMouseDown } else { MacEventKind::OtherMouseUp },
            MacMouseButton::Center,
        ),
    }
}

/// The button a captured press or release is about: left and right by their
/// event type, otherwise by the event's button number (2 is the middle button).
pub open spec fn captured_button_of(kind: MacEventKind, button_number: i64) -> MouseButton {
    if kind == MacEventKind::LeftMouseDown || kind == MacEventKind::LeftMouseUp {
        MouseButton::Left
    } else if kind == MacEventKind::RightMouseDown || kind == MacEventKind::RightMouseUp {
        MouseButton::Right
    } else if button_number == 2 {
        MouseButton::Middle
    } else {
        MouseButton::Other(button_number as u8)
    }
}

pub fn captured_button(kind: MacEventKind, button_number: i64) -> (button: MouseButton)
    ensures
        button == captured_button_of(kind, button_number),
{
    match kind {
        MacEventKind::LeftMouseDown | MacEventKind::LeftMouseUp => MouseButton::Left,
        MacEventKind::RightMouseDown | MacEventKind::RightMouseUp => MouseButton::Right,
        _ => if button_number == 2 {
            MouseButton::Middle
        } else {
            MouseButton::Other(button_number as u8)
        },
    }
}

/// What a captured event reports, apart from positions and distances.
#[derive(Debug, Clone, Copy, PartialEq, Eq, Structural)]
pub enum CaptureAction {
    Move,
    Down(MouseButton),
    Up(MouseButton),
    Wheel,
}

/// Which event types are captured, and as what; other types are not.
pub open spec fn capture_action_of(kind: MacEventKind, button_number: i64) -> Option<CaptureAction> {
    match kind {
        MacEventKind::MouseMoved => Some(CaptureAction::Move),
        MacEventKind::LeftMouseDown | MacEventKind::RightMouseDown | MacEventKind::OtherMouseDown => Some(
            CaptureAction::Down(captured_button_of(kind, button_number)),
        ),
        MacEventKind::LeftMouseUp | MacEventKind::RightMouseUp | MacEventKind::OtherMouseUp => Some(
            CaptureAction::Up(captured_button_of(kind, button_number)),
        ),
        MacEventKind::ScrollWheel => Some(CaptureAction::Wheel),
        MacEventKind::Other => None,
    }
}

pub fn capture_action(kind: MacEventKind, button_number: i64) -> (action: Option<CaptureAction>)
    ensures
        action == capture_action_of(kind, button_number),
{
    match kind {
        MacEventKind::MouseMoved => Some(CaptureAction::Move),
        MacEventKind::LeftMouseDown | MacEventKind::RightMouseDown | MacEventKind::OtherMouseDown => Some(
            CaptureAction::Down(captured_button(kind, button_number)),
        ),
        MacEventKind::LeftMouseUp | MacEventKind::RightMouseUp | MacEventKind::OtherMouseUp => Some(
            CaptureAction::Up(captured_button(kind, button_number)),
        ),
        MacEventKind::ScrollWheel => Some(CaptureAction::Wheel),
        MacEventKind::Other => None,
    }
}

/// A press or release posted for a button is captured back as the same
/// action on the same button, for the left, right and middle buttons and
/// for numbered buttons other than 2 (the back and forward buttons are
/// posted as numbers 3 and 4 and come back as those numbered buttons).
pub proof fn lemma_posted_button_captured_back(button: MouseButton, down: bool)
    requires
        match button {
            MouseButton::Back | MouseButton::Forward => false,
            MouseButton::Other(n) => n != 2,
            _ => true,
        },
    ensures
        capture_action_of(mac_button_event_of(button, down).0, mac_button_value(button)) == if down {
            Some(CaptureAction::Down(button))
        } else {
            Some(CaptureAction::Up(button))
        },
{
}

pub fn macos_permission_status(accessibility: PermissionState, input_monitoring: PermissionState) -> (status: PermissionStatus)
    ensures
        status.accessibility == accessibility,
        status.input_monitoring == input_monitoring,
        status.screen_recording == PermissionState::Unsupported,
        status.windows_input == PermissionState::Unsupported,
        status.windows_integrity_level is None,
        status.can_capture_mouse == (input_monitoring == PermissionState::Granted),
        status.can_inject_mouse == (accessibility == PermissionState::Granted),
{
    PermissionStatus {
        accessibility,
        input_monitoring,
        screen_recording: PermissionState::Unsupported,
        windows_input: PermissionState::Unsupported,
        windows_integrity_level: None,
        can_capture_mouse: input_monitoring == PermissionState::Granted,
        can_inject_mouse: accessibility == PermissionState::Granted,
        updated_at_ms: now_ms(),
    }
}

/// Core Graphics numbers the named buttons by their place in the order
/// left, right, middle, back, forward, counting from 0, and every other
/// button keeps its own number; the middle button's number is the one that
/// capture reads back as the middle button.
pub proof fn lemma_mac_button_numbers_follow_core_graphics_order(button: MouseButton)
    ensures
        match button {
            MouseButton::Other(n) => mac_button_value(button) == n as i64,
            _ => 0 <= mac_button_value(button) < 5 && seq![
                MouseButton::Left,
                MouseButton::Right,
                MouseButton::Middle,
                MouseButton::Back,
                MouseButton::Forward,
            ][mac_button_value(button) as int] == button,
        },
        captured_button_of(MacEventKind::OtherMouseDown, mac_button_value(MouseButton::Middle))
            == MouseButton::Middle,
{
}

} // verus!
