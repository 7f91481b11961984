use vstd::prelude::*;
use crate::config::{AppConfig, DiscoveryConfig, NetworkConfig, UiConfig};
use crate::storage::files::now_ms;

verus! {

/// The settings a fresh installation starts from (the time stamp aside).
pub open spec fn is_default_config(c: &AppConfig) -> bool {
    &&& c.schema_version == 1
    &&& c.local_device_name_override is None
    &&& c.network == NetworkConfig {
        listen_port: 42424,
        connect_timeout_ms: 3000,
        heartbeat_interval_ms: 1000,
        heartbeat_timeout_ms: 3000,
        reconnect_min_delay_ms: 500,
        reconnect_max_delay_ms: 10_000,
    }
    &&& c.discovery == DiscoveryConfig {
        mdns_enabled: true,
        udp_broadcast_enabled: true,
        udp_port: 42425,
        announce_interval_ms: 1500,
        stale_after_ms: 10_000,
    }
    &&& c.layouts@.len() == 0
    &&& !c.ui.start_minimized
    &&& c.ui.show_diagnostics
    &&& c.ui.last_selected_peer_id is None
}

/// The default settings, stamped with the current time.
pub fn default_app_config() -> (config: AppConfig)
    ensures
        is_default_config(&config),
{
    AppConfig {
        schema_version: 1,
        local_device_name_override: None,
        network: NetworkConfig {
            listen_port: 42424,
            connect_timeout_ms: 3000,
            heartbeat_interval_ms: 1000,
            heartbeat_timeout_ms: 3000,
            reconnect_min_delay_ms: 500,
            reconnect_max_delay_ms: 10_000,
        },
        discovery: DiscoveryConfig {
            mdns_enabled: true,
            udp_broadcast_enabled: true,
            udp_port: 42425,
            announce_interval_ms: 1500,
            stale_after_ms: 10_000,
        },
        layouts: Vec::new(),
        ui: UiConfig { start_minimized: false, show_diagnostics: true, last_selected_peer_id: None },
        updated_at_ms: now_ms(),
    }
}

} // verus!
