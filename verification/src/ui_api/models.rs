//! What the control panel is shown, and how each record is turned into it.
use vstd::prelude::*;
use crate::config::LayoutConfig;
use crate::discovery::DiscoveredPeer;
use crate::identity::DeviceIdentity;
use crate::input::types::{input_error_text, InputError};
use crate::platform::{permission_state_text, PermissionStatus};
use crate::protocol::messages::{ArchType, LayoutDirection, OsType};
use crate::session::state::{ControlOwner, SessionSnapshot, SessionState};
use crate::telemetry::metrics::DiagnosticsSnapshot;

verus! {

#[derive(Debug)]
pub struct UiDevice {
    pub device_id: String,
    pub name: String,
    pub os: OsType,
    pub arch: ArchType,
    pub app_version: String,
    pub protocol_version: u16,
    pub address_label: String,
    pub status: String,
    pub last_seen_label: String,
}

#[derive(Debug)]
pub struct UiPermissionStatus {
    pub accessibility: String,
    pub input_monitoring: String,
    pub screen_recording: String,
    pub windows_input: String,
    pub windows_integrity_level: Option<String>,
    pub can_capture_mouse: bool,
    pub can_inject_mouse: bool,
    pub updated_at_ms: u64,
}

#[derive(Debug)]
pub struct UiSessionStatus {
    pub state: String,
    pub control_owner: String,
    pub peer_name: Option<String>,
    pub last_heartbeat_rtt_ms: Option<u32>,
    pub connected_since_ms: Option<u64>,
    pub updated_at_ms: u64,
}

#[derive(Debug)]
pub struct UiLayoutConfig {
    pub peer_id: String,
    pub direction: LayoutDirection,
    pub enabled: bool,
}

#[derive(Debug)]
pub struct UiDiagnostics {
    pub discovered_peer_count: usize,
    pub trusted_peer_count: usize,
    pub layout_count: usize,
    pub config_path: String,
}

#[derive(Debug)]
pub struct UiAppStatus {
    pub local_device: UiDevice,
    pub permission: UiPermissionStatus,
    pub session: UiSessionStatus,
    pub discovered_devices: Vec<UiDevice>,
    pub saved_layouts: Vec<UiLayoutConfig>,
    pub diagnostics: UiDiagnostics,
}

#[derive(Debug)]
pub struct UiError {
    pub code: String,
    pub message: String,
    pub recoverable: bool,
}

/// The text of an optional string.
pub open spec fn opt_text(o: Option<String>) -> Option<Seq<char>> {
    match o {
        Some(s) => Some(s@),
        None => None,
    }
}

fn clone_opt_string(o: &Option<String>) -> (c: Option<String>)
    ensures
        opt_text(c) == opt_text(*o),
{
    match o {
        Some(s) => Some(s.clone()),
        None => None,
    }
}

/// The error code for each kind of input error.
pub open spec fn input_error_code(e: &InputError) -> Seq<char> {
    match e {
        InputError::Unsupported => "input_unsupported"@,
        InputError::PermissionDenied(_) => "input_permission_denied"@,
        InputError::CaptureAlreadyRunning => "input_capture_already_running"@,
        InputError::Platform(_) => "input_platform_error"@,
    }
}

impl UiError {
    /// An input error as the panel reports it: a code per kind, the error's
    /// text, and always recoverable.
    pub fn from_input_error(value: InputError) -> (ui: UiError)
        ensures
            ui.code@ == input_error_code(&value),
            ui.message@ == input_error_text(&value),
            ui.recoverable,
    {
        let code = match &value {
            InputError::Unsupported => "input_unsupported",
            InputError::PermissionDenied(_) => "input_permission_denied",
            InputError::CaptureAlreadyRunning => "input_capture_already_running",
            InputError::Platform(_) => "input_platform_error",
        };
        UiError { code: String::from_str(code), message: value.message(), recoverable: true }
    }
}

/// What the panel shows for an input error: its kind's code, its text, and
/// that it is recoverable.
pub open spec fn shows_input_error(ui: UiError, value: InputError) -> bool {
    &&& ui.code@ == input_error_code(&value)
    &&& ui.message@ == input_error_text(&value)
    &&& ui.recoverable
}

impl From<InputError> for UiError {
    fn from(value: InputError) -> (ui: UiError)
        ensures
            shows_input_error(ui, value),
    {
        UiError::from_input_error(value)
    }
}

impl vstd::std_specs::convert::FromSpecImpl<InputError> for UiError {
    /// Two texts with the same characters need not be the same `String`
    /// value, so `from` is described by `shows_input_error` instead of one
    /// fixed result.
    open spec fn obeys_from_spec() -> bool {
        false
    }

    open spec fn from_spec(v: InputError) -> UiError {
        choose|ui: UiError| shows_input_error(ui, v)
    }
}

/// The label of a session state.
pub open spec fn session_state_text(s: SessionState) -> Seq<char> {
    match s {
        SessionState::Disconnected => "disconnected"@,
        SessionState::Discovered => "discovered"@,
        SessionState::Pairing => "pairing"@,
        SessionState::Paired => "paired"@,
        SessionState::Connecting => "connecting"@,
        SessionState::ConnectedIdle => "connected_idle"@,
        SessionState::ControllingRemote => "controlling_remote"@,
        SessionState::ControlledByRemote => "controlled_by_remote"@,
        SessionState::Reconnecting => "reconnecting"@,
        SessionState::Error => "error"@,
    }
}

/// The label of a control owner.
pub open spec fn control_owner_text(o: ControlOwner) -> Seq<char> {
    match o {
        ControlOwner::Local => "local"@,
        ControlOwner::Remote => "remote"@,
        ControlOwner::NoOwner => "none"@,
    }
}

pub fn session_state_label(value: &SessionState) -> (label: String)
    ensures
        label@ == session_state_text(*value),
{
    String::from_str(
        match value {
            SessionState::Disconnected => "disconnected",
            SessionState::Discovered => "discovered",
            SessionState::Pairing => "pairing",
            SessionState::Paired => "paired",
            SessionState::Connecting => "connecting",
            SessionState::ConnectedIdle => "connected_idle",
            SessionState::ControllingRemote => "controlling_remote",
            SessionState::ControlledByRemote => "controlled_by_remote",
            SessionState::Reconnecting => "reconnecting",
            SessionState::Error => "error",
        },
    )
}

pub fn control_owner_label(value: &ControlOwner) -> (label: String)
    ensures
        label@ == control_owner_text(*value),
{
    String::from_str(
        match value {
            ControlOwner::Local => "local",
            ControlOwner::Remote => "remote",
            ControlOwner::NoOwner => "none",
        },
    )
}

/// This device's row: its id, name, platform and versions, on the loopback
/// address, connected, seen just now.
pub open spec fn identity_row(ui: UiDevice, value: &DeviceIdentity) -> bool {
    &&& ui.device_id@ == value.device_id@
    &&& ui.name@ == value.device_name@
    &&& ui.os == value.os
    &&& ui.arch == value.arch
    &&& ui.app_version@ == value.app_version@
    &&& ui.protocol_version == value.protocol_version
    &&& ui.address_label@ == "127.0.0.1:42424"@
    &&& ui.status@ == "connected"@
    &&& ui.last_seen_label@ == "just now"@
}

/// A discovered peer's row: its id, name, platform and versions, its first
/// address (or "-"), "available" when it accepts pairing and "stale"
/// otherwise, seen recently.
pub open spec fn peer_row(ui: UiDevice, value: &DiscoveredPeer) -> bool {
    &&& ui.device_id@ == value.device_id@
    &&& ui.name@ == value.device_name@
    &&& ui.os == value.os
    &&& ui.arch == value.arch
    &&& ui.app_version@ == value.app_version@
    &&& ui.protocol_version == value.protocol_version
    &&& ui.address_label@ == if value@.addresses.len() > 0 {
        value@.addresses[0]
    } else {
        "-"@
    }
    &&& ui.status@ == if value.pairing_available {
        "available"@
    } else {
        "stale"@
    }
    &&& ui.last_seen_label@ == "recently"@
}

/// The permission panel: each state as its label, the rest as it is.
pub open spec fn permission_row(ui: UiPermissionStatus, value: &PermissionStatus) -> bool {
    &&& ui.accessibility@ == permission_state_text(value.accessibility)
    &&& ui.input_monitoring@ == permission_state_text(value.input_monitoring)
    &&& ui.screen_recording@ == permission_state_text(value.screen_recording)
    &&& ui.windows_input@ == permission_state_text(value.windows_input)
    &&& opt_text(ui.windows_integrity_level) == opt_text(value.windows_integrity_level)
    &&& ui.can_capture_mouse == value.can_capture_mouse
    &&& ui.can_inject_mouse == value.can_inject_mouse
    &&& ui.updated_at_ms == value.updated_at_ms
}

/// The session panel: state and owner as labels, the rest as it is.
pub open spec fn session_row(ui: UiSessionStatus, value: &SessionSnapshot) -> bool {
    &&& ui.state@ == session_state_text(value.state)
    &&& ui.control_owner@ == control_owner_text(value.control_owner)
    &&& opt_text(ui.peer_name) == opt_text(value.peer_name)
    &&& ui.last_heartbeat_rtt_ms == value.last_heartbeat_rtt_ms
    &&& ui.connected_since_ms == value.connected_since_ms
    &&& ui.updated_at_ms == value.updated_at_ms
}

impl UiDevice {
    /// This device as the panel shows it: on the loopback address, connected,
    /// seen just now.
    pub fn from_identity(value: &DeviceIdentity) -> (ui: UiDevice)
        ensures
            identity_row(ui, value),
    {
        UiDevice {
            device_id: value.device_id.clone(),
            name: value.device_name.clone(),
            os: value.os,
            arch: value.arch,
            app_version: value.app_version.clone(),
            protocol_version: value.protocol_version,
            address_label: String::from_str("127.0.0.1:42424"),
            status: String::from_str("connected"),
            last_seen_label: String::from_str("just now"),
        }
    }

    /// A discovered peer as the panel shows it: its first address (or "-"),
    /// "available" when it accepts pairing and "stale" otherwise.
    pub fn from_peer(value: &DiscoveredPeer) -> (ui: UiDevice)
        ensures
            peer_row(ui, value),
    {
        let address_label = if value.addresses.len() > 0 {
            value.addresses[0].clone()
        } else {
            String::from_str("-")
        };
        let status = if value.pairing_available {
            String::from_str("available")
        } else {
            String::from_str("stale")
        };
        UiDevice {
            device_id: value.device_id.clone(),
            name: value.device_name.clone(),
            os: value.os,
            arch: value.arch,
            app_version: value.app_version.clone(),
            protocol_version: value.protocol_version,
            address_label,
            status,
            last_seen_label: String::from_str("recently"),
        }
    }
}

impl UiPermissionStatus {
    /// Permission states written as their labels; the rest copied.
    pub fn from_status(value: &PermissionStatus) -> (ui: UiPermissionStatus)
        ensures
            permission_row(ui, value),
    {
        UiPermissionStatus {
            accessibility: String::from_str(value.accessibility.as_str()),
            input_monitoring: String::from_str(value.input_monitoring.as_str()),
            screen_recording: String::from_str(value.screen_recording.as_str()),
            windows_input: String::from_str(value.windows_input.as_str()),
            windows_integrity_level: clone_opt_string(&value.windows_integrity_level),
            can_capture_mouse: value.can_capture_mouse,
            can_inject_mouse: value.can_inject_mouse,
            updated_at_ms: value.updated_at_ms,
        }
    }
}

impl UiSessionStatus {
    pub fn from_snapshot(value: &SessionSnapshot) -> (ui: UiSessionStatus)
        ensures
            session_row(ui, value),
    {
        UiSessionStatus {
            state: session_state_label(&value.state),
            control_owner: control_owner_label(&value.control_owner),
            peer_name: clone_opt_string(&value.peer_name),
            last_heartbeat_rtt_ms: value.last_heartbeat_rtt_ms,
            connected_since_ms: value.connected_since_ms,
            updated_at_ms: value.updated_at_ms,
        }
    }
}

impl UiLayoutConfig {
    pub fn from_layout(value: &LayoutConfig) -> (ui: UiLayoutConfig)
        ensures
            ui.peer_id@ == value.peer_id@,
            ui.direction == value.direction,
            ui.enabled == value.enabled,
    {
        UiLayoutConfig { peer_id: value.peer_id.clone(), direction: value.direction, enabled: value.enabled }
    }
}

impl UiDiagnostics {
    pub fn from_snapshot(value: DiagnosticsSnapshot) -> (ui: UiDiagnostics)
        ensures
            ui.discovered_peer_count == value.discovered_peer_count,
            ui.trusted_peer_count == value.trusted_peer_count,
            ui.layout_count == value.layout_count,
            ui.config_path == value.config_path,
    {
        UiDiagnostics {
            discovered_peer_count: value.discovered_peer_count,
            trusted_peer_count: value.trusted_peer_count,
            layout_count: value.layout_count,
            config_path: value.config_path,
        }
    }
}

/// The panel's rows for the discovered peers, in the order given.
pub fn ui_devices(peers: &Vec<DiscoveredPeer>) -> (devices: Vec<UiDevice>)
    ensures
        devices@.len() == peers@.len(),
        forall|i: int| 0 <= i < peers@.len() ==> peer_row(#[trigger] devices@[i], &peers@[i]),
{
    let mut devices: Vec<UiDevice> = Vec::new();
    let mut i: usize = 0;
    while i < peers.len()
        invariant
            i <= peers@.len(),
            devices@.len() == i,
            forall|k: int| 0 <= k < i ==> peer_row(#[trigger] devices@[k], &peers@[k]),
        decreases peers@.len() - i,
    {
        devices.push(UiDevice::from_peer(&peers[i]));
        i = i + 1;
    }
    devices
}

/// A panel row shows a layout's peer, direction and switch.
pub open spec fn row_shows(row: UiLayoutConfig, layout: LayoutConfig) -> bool {
    &&& row.peer_id@ == layout.peer_id@
    &&& row.direction == layout.direction
    &&& row.enabled == layout.enabled
}

/// The panel's rows for the saved layouts, in the order given.
pub fn ui_layouts(layouts: &Vec<LayoutConfig>) -> (rows: Vec<UiLayoutConfig>)
    ensures
        rows@.len() == layouts@.len(),
        forall|i: int| 0 <= i < layouts@.len() ==> row_shows(#[trigger] rows@[i], layouts@[i]),
{
    let mut rows: Vec<UiLayoutConfig> = Vec::new();
    let mut i: usize = 0;
    while i < layouts.len()
        invariant
            i <= layouts@.len(),
            rows@.len() == i,
            forall|k: int| 0 <= k < i ==> row_shows(#[trigger] rows@[k], layouts@[k]),
        decreases layouts@.len() - i,
    {
        rows.push(UiLayoutConfig::from_layout(&layouts[i]));
        i = i + 1;
    }
    rows
}

impl UiAppStatus {
    /// Everything the panel shows at once: this device, its permissions and
    /// session, the peers and layouts in the order given, and the counts.
    pub fn compose(
        identity: &DeviceIdentity,
        permissions: &PermissionStatus,
        session: &SessionSnapshot,
        discovered: &Vec<DiscoveredPeer>,
        layouts: &Vec<LayoutConfig>,
        diagnostics: DiagnosticsSnapshot,
    ) -> (status: UiAppStatus)
        ensures
            identity_row(status.local_device, identity),
            permission_row(status.permission, permissions),
            session_row(status.session, session),
            status.discovered_devices@.len() == discovered@.len(),
            forall|i: int| 0 <= i < discovered@.len() ==> peer_row(
                #[trigger] status.discovered_devices@[i],
                &discovered@[i],
            ),
            status.saved_layouts@.len() == layouts@.len(),
            forall|i: int| 0 <= i < layouts@.len() ==> row_shows(#[trigger] status.saved_layouts@[i], layouts@[i]),
            status.diagnostics.discovered_peer_count == diagnostics.discovered_peer_count,
            status.diagnostics.trusted_peer_count == diagnostics.trusted_peer_count,
            status.diagnostics.layout_count == diagnostics.layout_count,
            status.diagnostics.config_path == diagnostics.config_path,
    {
        UiAppStatus {
            local_device: UiDevice::from_identity(identity),
            permission: UiPermissionStatus::from_status(permissions),
            session: UiSessionStatus::from_snapshot(session),
            discovered_devices: ui_devices(discovered),
            saved_layouts: ui_layouts(layouts),
            diagnostics: UiDiagnostics::from_snapshot(diagnostics),
        }
    }
}

} // verus!
