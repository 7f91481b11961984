//! Input permissions as the operating system reports them.
pub mod macos_permissions;
pub mod windows_permissions;

use vstd::prelude::*;
use crate::storage::files::now_ms;

verus! {

#[derive(Debug, Clone, Copy, PartialEq, Eq, Structural)]
pub enum PermissionState {
    Granted,
    Denied,
    NotDetermined,
    Unsupported,
    Unknown,
}

/// The text form of a permission state.
pub open spec fn permission_state_text(s: PermissionState) -> Seq<char> {
    match s {
        PermissionState::Granted => "granted"@,
        PermissionState::Denied => "denied"@,
        PermissionState::NotDetermined => "not_determined"@,
        PermissionState::Unsupported => "unsupported"@,
        PermissionState::Unknown => "unknown"@,
    }
}

impl PermissionState {
    pub fn as_str(&self) -> (text: &'static str)
        ensures
            text@ == permission_state_text(*self),
    {
        match self {
            PermissionState::Granted => "granted",
            PermissionState::Denied => "denied",
            PermissionState::NotDetermined => "not_determined",
            PermissionState::Unsupported => "unsupported",
            PermissionState::Unknown => "unknown",
        }
    }
}

#[derive(Debug, Clone)]
pub struct PermissionStatus {
    pub accessibility: PermissionState,
    pub input_monitoring: PermissionState,
    pub screen_recording: PermissionState,
    pub windows_input: PermissionState,
    pub windows_integrity_level: Option<String>,
    pub can_capture_mouse: bool,
    pub can_inject_mouse: bool,
    pub updated_at_ms: u64,
}

impl PermissionStatus {
    /// The status on a platform without input control: everything
    /// unsupported, nothing possible.
    pub fn unsupported() -> (status: Self)
        ensures
            status.accessibility == PermissionState::Unsupported,
            status.input_monitoring == PermissionState::Unsupported,
            status.screen_recording == PermissionState::Unsupported,
            status.windows_input == PermissionState::Unsupported,
            status.windows_integrity_level is None,
            !status.can_capture_mouse,
            !status.can_inject_mouse,
    {
        PermissionStatus {
            accessibility: PermissionState::Unsupported,
            input_monitoring: PermissionState::Unsupported,
            screen_recording: PermissionState::Unsupported,
            windows_input: PermissionState::Unsupported,
            windows_integrity_level: None,
            can_capture_mouse: false,
            can_inject_mouse: false,
            updated_at_ms: now_ms(),
        }
    }
}

} // verus!
