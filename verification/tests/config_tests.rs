use flowlink::{
    config::{
        defaults::default_app_config,
        validate::{validate_app_config, ValidationError},
        AppConfig, LayoutConfig,
    },
    network::reconnect::next_backoff_ms,
    protocol::messages::LayoutDirection,
    session::{
        controller::emergency_disconnect,
        state::{ControlOwner, SessionSnapshot, SessionState},
    },
    storage::files::{backup_file_name, load_step, LoadStep, StoredParse},
};

fn layout(peer_id: &str, direction: LayoutDirection) -> LayoutConfig {
    LayoutConfig {
        peer_id: peer_id.into(),
        direction,
        edge_thickness_px: 1,
        corner_guard_px: 32,
        enabled: true,
        updated_at_ms: 1,
    }
}

#[test]
fn default_config_values() {
    let config = AppConfig::default();
    assert_eq!(config.schema_version, 1);
    assert_eq!(config.network.listen_port, 42424);
    assert_eq!(config.network.heartbeat_timeout_ms, 3000);
    assert_eq!(config.discovery.udp_port, 42425);
    assert_eq!(config.discovery.stale_after_ms, 10_000);
    assert!(config.layouts.is_empty());
    assert!(validate_app_config(&config).is_ok());
}

#[test]
fn validation_checks_port_then_heartbeat_window() {
    let mut config = default_app_config();
    config.network.listen_port = 0;
    config.network.heartbeat_timeout_ms = 1;
    assert_eq!(validate_app_config(&config), Err(ValidationError::InvalidPort));

    config.network.listen_port = 1;
    assert_eq!(validate_app_config(&config), Err(ValidationError::InvalidHeartbeatWindow));

    config.network.heartbeat_timeout_ms = config.network.heartbeat_interval_ms;
    assert_eq!(validate_app_config(&config), Err(ValidationError::InvalidHeartbeatWindow));
    assert_eq!(
        ValidationError::InvalidHeartbeatWindow.message(),
        "heartbeat timeout must be greater than interval"
    );
}

#[test]
fn upsert_layout_replaces_same_peer_and_appends_new() {
    let mut config = default_app_config();
    config.upsert_layout(layout("peer-1", LayoutDirection::Right));
    config.upsert_layout(layout("peer-2", LayoutDirection::Left));
    config.upsert_layout(layout("peer-1", LayoutDirection::Top));

    assert_eq!(config.layouts.len(), 2);
    assert_eq!(config.layouts[0].peer_id, "peer-1");
    assert_eq!(config.layouts[0].direction, LayoutDirection::Top);
    assert_eq!(config.layouts[1].direction, LayoutDirection::Left);
}

#[test]
fn backoff_doubles_and_caps() {
    assert_eq!(next_backoff_ms(0, 500, 10_000), 500);
    assert_eq!(next_backoff_ms(1, 500, 10_000), 1_000);
    assert_eq!(next_backoff_ms(4, 500, 10_000), 8_000);
    assert_eq!(next_backoff_ms(5, 500, 10_000), 10_000);
    assert_eq!(next_backoff_ms(40, 1, u64::MAX), 1_024);
    assert_eq!(next_backoff_ms(10, u64::MAX / 2, u64::MAX), u64::MAX);
}

#[test]
fn emergency_disconnect_returns_control_locally() {
    let mut session = SessionSnapshot::default();
    session.state = SessionState::ControllingRemote;
    session.control_owner = ControlOwner::Remote;
    session.peer_id = Some("peer-1".into());
    session.peer_name = Some("Office".into());
    session.connected_since_ms = Some(10);
    session.session_id = Some("s-1".into());

    emergency_disconnect(&mut session);

    assert_eq!(session.state, SessionState::Disconnected);
    assert_eq!(session.control_owner, ControlOwner::Local);
    assert_eq!(session.peer_id, None);
    assert_eq!(session.peer_name, None);
    assert_eq!(session.connected_since_ms, None);
    assert_eq!(session.session_id.as_deref(), Some("s-1"));
}

#[test]
fn stored_record_recovery_policy() {
    assert_eq!(load_step(false, StoredParse::Malformed), LoadStep::WriteDefault);
    assert_eq!(load_step(true, StoredParse::Parsed), LoadStep::UseStored);
    assert_eq!(load_step(true, StoredParse::Malformed), LoadStep::BackUpAndUseDefault);
    assert_eq!(load_step(true, StoredParse::Mismatched), LoadStep::Reject);
    assert_eq!(backup_file_name("config.json", 1700, 0), "config.json.corrupt.1700");
    assert_eq!(backup_file_name("config.json", 1700, 12), "config.json.corrupt.1700.12");
}

#[test]
fn heartbeat_interval_is_one_second() {
    assert_eq!(
        flowlink::network::heartbeat::default_heartbeat_interval(),
        std::time::Duration::from_millis(1000)
    );
}
