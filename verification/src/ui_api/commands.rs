//! The decisions behind the panel's commands.
use vstd::prelude::*;
use crate::app::context::AppError;
use crate::config::LayoutConfig;
use crate::input::types::PermissionKind;
use crate::text::str_eq;
use crate::ui_api::models::{UiError, UiLayoutConfig};

verus! {

/// The permission kind a panel request names, if any.
pub open spec fn permission_kind_of(value: Seq<char>) -> Option<PermissionKind> {
    if value == "accessibility"@ {
        Some(PermissionKind::Accessibility)
    } else if value == "input_monitoring"@ {
        Some(PermissionKind::InputMonitoring)
    } else if value == "windows_input"@ {
        Some(PermissionKind::WindowsInput)
    } else {
        None
    }
}

pub fn permission_kind(value: &str) -> (kind: Option<PermissionKind>)
    ensures
        kind == permission_kind_of(value@),
{
    if str_eq(value, "accessibility") {
        Some(PermissionKind::Accessibility)
    } else if str_eq(value, "input_monitoring") {
        Some(PermissionKind::InputMonitoring)
    } else if str_eq(value, "windows_input") {
        Some(PermissionKind::WindowsInput)
    } else {
        None
    }
}

/// The error reported when the shared state cannot be locked.
pub fn lock_error() -> (err: UiError)
    ensures
        err.code@ == "lock_failed"@,
        err.message@ == "Shared application state is unavailable"@,
        err.recoverable,
{
    UiError {
        code: String::from_str("lock_failed"),
        message: String::from_str("Shared application state is unavailable"),
        recoverable: true,
    }
}

/// An application error as the panel reports it.
pub fn app_error(err: AppError) -> (ui: UiError)
    ensures
        ui.code@ == "app_error"@,
        ui.message@ == match err {
            AppError::Storage(detail) => "storage error: "@ + detail@,
            AppError::Validation(detail) => "validation error: "@ + detail@,
        },
        ui.recoverable,
{
    UiError { code: String::from_str("app_error"), message: err.message(), recoverable: true }
}

/// The layout saved for a panel request: a one-pixel edge and a 32-pixel
/// corner guard.
pub fn layout_from_ui(layout: UiLayoutConfig, updated_at_ms: u64) -> (config: LayoutConfig)
    ensures
        config.peer_id == layout.peer_id,
        config.direction == layout.direction,
        config.edge_thickness_px == 1,
        config.corner_guard_px == 32,
        config.enabled == layout.enabled,
        config.updated_at_ms == updated_at_ms,
{
    LayoutConfig {
        peer_id: layout.peer_id,
        direction: layout.direction,
        edge_thickness_px: 1,
        corner_guard_px: 32,
        enabled: layout.enabled,
        updated_at_ms,
    }
}

} // verus!
