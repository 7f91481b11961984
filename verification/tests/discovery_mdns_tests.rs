use flowlink::{
    discovery::mdns::{
        mdns_host_name, sanitize_dns_label, service_info_to_peer, should_ignore_peer,
        txt_properties, ResolvedService, ServiceTxt, FLOWLINK_MDNS_SERVICE_TYPE,
    },
    discovery::DiscoveryError,
    identity::{DeviceIdentity, PrivateKeyRef},
    protocol::messages::{ArchType, DiscoverySource, OsType},
};

fn txt_value(properties: &[(String, String)], key: &str) -> Option<String> {
    properties
        .iter()
        .find(|(k, _)| k.eq_ignore_ascii_case(key))
        .map(|(_, v)| v.clone())
}

/// What a resolver hands back for a service published with this identity.
fn resolved(identity: &DeviceIdentity, port: u16, addresses: &[&str]) -> ResolvedService {
    let properties = txt_properties(identity);
    ResolvedService {
        service_type: FLOWLINK_MDNS_SERVICE_TYPE.into(),
        port,
        addresses: addresses.iter().map(|a| a.to_string()).collect(),
        txt: ServiceTxt {
            device_id: txt_value(&properties, "device_id"),
            device_name: txt_value(&properties, "device_name"),
            os: txt_value(&properties, "os"),
            arch: txt_value(&properties, "arch"),
            app_version: txt_value(&properties, "app_version"),
            protocol_version: txt_value(&properties, "protocol_version"),
            pairing: txt_value(&properties, "pairing"),
        },
    }
}

#[test]
fn mdns_service_info_contains_flowlink_txt_fields() {
    let identity = test_identity("device-a");
    let properties = txt_properties(&identity);

    assert_eq!(txt_value(&properties, "device_id").as_deref(), Some("device-a"));
    assert_eq!(txt_value(&properties, "device_name").as_deref(), Some("FlowLink Test"));
    assert_eq!(txt_value(&properties, "os").as_deref(), Some("windows"));
    assert_eq!(txt_value(&properties, "arch").as_deref(), Some("x86_64"));
    assert_eq!(txt_value(&properties, "app_version").as_deref(), Some("0.1.0"));
    assert_eq!(txt_value(&properties, "protocol_version").as_deref(), Some("1"));
    assert_eq!(txt_value(&properties, "pairing").as_deref(), Some("true"));
}

#[test]
fn resolved_mdns_service_becomes_discovered_peer() {
    let identity = test_identity("peer-a");
    let service = resolved(&identity, 42424, &["192.168.1.21"]);

    let peer = service_info_to_peer(&service).expect("peer");

    assert_eq!(peer.device_id, "peer-a");
    assert_eq!(peer.device_name, "FlowLink Test");
    assert_eq!(peer.os, OsType::Windows);
    assert_eq!(peer.arch, ArchType::X86_64);
    assert_eq!(peer.app_version, "0.1.0");
    assert_eq!(peer.protocol_version, 1);
    assert_eq!(peer.service_port, 42424);
    assert!(peer.pairing_available);
    assert_eq!(peer.source, DiscoverySource::Mdns);
    assert_eq!(peer.addresses, vec!["192.168.1.21:42424"]);
}

#[test]
fn mdns_self_filter_uses_device_id() {
    let peer_identity = test_identity("local-device");
    let service = resolved(&peer_identity, 42424, &["192.168.1.22"]);
    let peer = service_info_to_peer(&service).expect("peer");

    assert!(should_ignore_peer(&peer, "local-device"));
    assert!(!should_ignore_peer(&peer, "other-device"));
}

#[test]
fn resolved_addresses_are_sorted() {
    let identity = test_identity("peer-a");
    let service = resolved(&identity, 7, &["192.168.1.9", "10.0.0.2", "fe80::1", "192.168.1.10"]);

    let peer = service_info_to_peer(&service).expect("peer");

    assert_eq!(
        peer.addresses,
        vec!["10.0.0.2:7", "192.168.1.10:7", "192.168.1.9:7", "fe80::1:7"]
    );
}

#[test]
fn service_refusals_name_the_problem() {
    let identity = test_identity("peer-a");

    let mut wrong_type = resolved(&identity, 1, &["10.0.0.1"]);
    wrong_type.service_type = "_http._tcp.local.".into();
    assert_eq!(
        refusal(service_info_to_peer(&wrong_type)),
        "unexpected service type _http._tcp.local."
    );

    let mut missing = resolved(&identity, 1, &["10.0.0.1"]);
    missing.txt.os = None;
    assert_eq!(refusal(service_info_to_peer(&missing)), "missing TXT field os");

    let mut bad_version = resolved(&identity, 1, &["10.0.0.1"]);
    bad_version.txt.protocol_version = Some("70000".into());
    assert_eq!(refusal(service_info_to_peer(&bad_version)), "invalid protocol_version");

    let no_addresses = resolved(&identity, 1, &[]);
    assert_eq!(
        refusal(service_info_to_peer(&no_addresses)),
        "resolved service has no addresses"
    );
}

#[test]
fn protocol_version_accepts_plus_sign_and_pairing_accepts_yes() {
    let identity = test_identity("peer-a");
    let mut service = resolved(&identity, 1, &["10.0.0.1"]);
    service.txt.protocol_version = Some("+65535".into());
    service.txt.pairing = Some("yes".into());

    let peer = service_info_to_peer(&service).expect("peer");

    assert_eq!(peer.protocol_version, 65535);
    assert!(peer.pairing_available);

    service.txt.pairing = Some("no".into());
    assert!(!service_info_to_peer(&service).expect("peer").pairing_available);
}

#[test]
fn dns_labels_keep_letters_digits_and_dashes() {
    assert_eq!(sanitize_dns_label("FlowLink Test"), "flowlink-test");
    assert_eq!(sanitize_dns_label("--Ünïcode PC--"), "n-code-pc");
    assert_eq!(sanitize_dns_label("***"), "flowlink");
    assert_eq!(sanitize_dns_label(""), "flowlink");
    assert_eq!(mdns_host_name("Office Mac"), "office-mac.local.");
}

#[test]
fn dns_labels_are_always_valid() {
    for name in ["", "-", "a", "Z-", "-x-", "Büro PC 2", "ÄÖÜ", "host.name", "a--b"] {
        let label = sanitize_dns_label(name);
        assert!(!label.is_empty());
        assert!(label
            .chars()
            .all(|c| c.is_ascii_lowercase() || c.is_ascii_digit() || c == '-'));
        assert!(!label.starts_with('-'));
        assert!(!label.ends_with('-'));
    }
    assert_eq!(sanitize_dns_label("a--b"), "a--b");
    assert_eq!(sanitize_dns_label("host.name"), "host-name");
}

fn refusal(result: Result<flowlink::discovery::DiscoveredPeer, DiscoveryError>) -> String {
    match result {
        Err(DiscoveryError::InvalidRecord(message)) => message,
        other => panic!("unexpected {other:?}"),
    }
}

fn test_identity(device_id: &str) -> DeviceIdentity {
    DeviceIdentity {
        schema_version: 1,
        device_id: device_id.into(),
        device_name: "FlowLink Test".into(),
        os: OsType::Windows,
        arch: ArchType::X86_64,
        app_version: "0.1.0".into(),
        protocol_version: 1,
        public_key: vec![1, 2, 3],
        private_key_ref: PrivateKeyRef::FileEncrypted {
            path: "identity.key".into(),
        },
        created_at_ms: 1,
    }
}
