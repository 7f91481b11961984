//! Windows input control: the process integrity level and what it allows.
use vstd::prelude::*;
use crate::platform::{PermissionState, PermissionStatus};
use crate::storage::files::now_ms;

verus! {

#[derive(Debug, Clone, Copy, PartialEq, Eq, Structural)]
pub enum WindowsIntegrityLevel {
    Low,
    Medium,
    High,
    System,
    Unknown,
}

pub open spec fn integrity_level_text(level: WindowsIntegrityLevel) -> Seq<char> {
    match level {
        WindowsIntegrityLevel::Low => "low"@,
        WindowsIntegrityLevel::Medium => "medium"@,
        WindowsIntegrityLevel::High => "high"@,
        WindowsIntegrityLevel::System => "system"@,
        WindowsIntegrityLevel::Unknown => "unknown"@,
    }
}

impl WindowsIntegrityLevel {
    pub fn as_str(&self) -> (text: &'static str)
        ensures
            text@ == integrity_level_text(*self),
    {
        match self {
            WindowsIntegrityLevel::Low => "low",
            WindowsIntegrityLevel::Medium => "medium",
            WindowsIntegrityLevel::High => "high",
            WindowsIntegrityLevel::System => "system",
            WindowsIntegrityLevel::Unknown => "unknown",
        }
    }
}

pub fn settings_label() -> (label: &'static str)
    ensures
        label@ == "Windows Input Control"@,
{
    "Windows Input Control"
}

/// Low-level mouse hooks and `SendInput` work for ordinary desktop programs,
/// so input control counts as granted (elevated windows may still refuse it).
pub fn input_status() -> (state: PermissionState)
    ensures
        state == PermissionState::Granted,
{
    PermissionState::Granted
}

/// The level that the token's mandatory-label RID stands for, given the
/// thresholds of the four named levels: the highest threshold the RID
/// reaches, or `Unknown` below all of them.
pub open spec fn integrity_level_of(rid: u32, low_rid: u32, medium_rid: u32, high_rid: u32, system_rid: u32) -> WindowsIntegrityLevel {
    if rid >= system_rid {
        WindowsIntegrityLevel::System
    } else if rid >= high_rid {
        WindowsIntegrityLevel::High
    } else if rid >= medium_rid {
        WindowsIntegrityLevel::Medium
    } else if rid >= low_rid {
        WindowsIntegrityLevel::Low
    } else {
        WindowsIntegrityLevel::Unknown
    }
}

pub fn classify_integrity_rid(
    rid: u32,
    low_rid: u32,
    medium_rid: u32,
    high_rid: u32,
    system_rid: u32,
) -> (level: WindowsIntegrityLevel)
    ensures
        level == integrity_level_of(rid, low_rid, medium_rid, high_rid, system_rid),
{
    if rid >= system_rid {
        WindowsIntegrityLevel::System
    } else if rid >= high_rid {
        WindowsIntegrityLevel::High
    } else if rid >= medium_rid {
        WindowsIntegrityLevel::Medium
    } else if rid >= low_rid {
        WindowsIntegrityLevel::Low
    } else {
        WindowsIntegrityLevel::Unknown
    }
}

/// With ordered thresholds, a higher RID never gives a lower level.
pub proof fn lemma_integrity_level_monotone(r1: u32, r2: u32, low: u32, medium: u32, high: u32, system: u32)
    requires
        low <= medium <= high <= system,
        r1 <= r2,
    ensures
        level_rank(integrity_level_of(r1, low, medium, high, system)) <= level_rank(
            integrity_level_of(r2, low, medium, high, system),
        ),
{
}

/// Levels in increasing order of privilege (`Unknown` lowest).
pub open spec fn level_rank(level: WindowsIntegrityLevel) -> int {
    match level {
        WindowsIntegrityLevel::Unknown => 0,
        WindowsIntegrityLevel::Low => 1,
        WindowsIntegrityLevel::Medium => 2,
        WindowsIntegrityLevel::High => 3,
        WindowsIntegrityLevel::System => 4,
    }
}

/// The Windows permission status, given what reading the process's
/// integrity level gave (an error leaves the level out).
pub fn permission_status(integrity_level: Result<WindowsIntegrityLevel, String>) -> (status: PermissionStatus)
    ensures
        status.accessibility == PermissionState::Unsupported,
        status.input_monitoring == PermissionState::Unsupported,
        status.screen_recording == PermissionState::Unsupported,
        status.windows_input == PermissionState::Granted,
        match integrity_level {
            Ok(level) => status.windows_integrity_level matches Some(text) && text@ == integrity_level_text(level),
            Err(_) => status.windows_integrity_level is None,
        },
        status.can_capture_mouse,
        status.can_inject_mouse,
{
    let windows_input = input_status();
    let windows_integrity_level = match integrity_level {
        Ok(level) => Some(String::from_str(level.as_str())),
        Err(_) => None,
    };
    PermissionStatus {
        accessibility: PermissionState::Unsupported,
        input_monitoring: PermissionState::Unsupported,
        screen_recording: PermissionState::Unsupported,
        windows_input,
        windows_integrity_level,
        can_capture_mouse: windows_input == PermissionState::Granted,
        can_inject_mouse: windows_input == PermissionState::Granted,
        updated_at_ms: now_ms(),
    }
}

} // verus!
