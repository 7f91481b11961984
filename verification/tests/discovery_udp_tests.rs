use flowlink::discovery::udp::broadcast_targets;
use flowlink::{
    discovery::udp::{accept_announce, build_announce, peer_from_announce, should_ignore_announce},
    discovery::DiscoveryError,
    identity::{DeviceIdentity, PrivateKeyRef},
    protocol::messages::{ArchType, DiscoverySource, OsType},
};

#[test]
fn udp_announce_json_contains_identity_and_port() {
    let identity = test_identity("device-a");

    let announce = build_announce(&identity, 42424);

    assert_eq!(announce.v, 1);
    assert_eq!(announce.id, "device-a");
    assert_eq!(announce.name, "FlowLink Test");
    assert_eq!(announce.os, "windows");
    assert_eq!(announce.arch, "x86_64");
    assert_eq!(announce.app_version, "0.1.0");
    assert_eq!(announce.protocol_version, 1);
    assert_eq!(announce.port, 42424);
    assert!(announce.pairing);
}

#[test]
fn udp_announce_becomes_discovered_peer() {
    let identity = test_identity("peer-a");
    let announce = build_announce(&identity, 42424);

    let peer = peer_from_announce(&announce, [192, 168, 1, 33]).expect("peer");

    assert_eq!(peer.device_id, "peer-a");
    assert_eq!(peer.device_name, "FlowLink Test");
    assert_eq!(peer.os, OsType::Windows);
    assert_eq!(peer.arch, ArchType::X86_64);
    assert_eq!(peer.app_version, "0.1.0");
    assert_eq!(peer.protocol_version, 1);
    assert_eq!(peer.addresses, vec!["192.168.1.33:42424"]);
    assert_eq!(peer.service_port, 42424);
    assert!(peer.pairing_available);
    assert_eq!(peer.source, DiscoverySource::UdpBroadcast);
}

#[test]
fn udp_self_filter_uses_device_id() {
    let identity = test_identity("local-device");
    let announce = build_announce(&identity, 42424);

    assert!(should_ignore_announce(&announce, "local-device"));
    assert!(!should_ignore_announce(&announce, "other-device"));
}

#[test]
fn udp_announce_rejects_unspecified_source_address() {
    let identity = test_identity("peer-a");
    let announce = build_announce(&identity, 42424);

    assert!(peer_from_announce(&announce, [0, 0, 0, 0]).is_err());
}

#[test]
fn announce_of_other_version_is_refused_with_its_version() {
    let mut announce = build_announce(&test_identity("peer-a"), 42424);
    announce.v = 7;

    match accept_announce(announce) {
        Err(DiscoveryError::InvalidRecord(message)) => {
            assert_eq!(message, "unsupported UDP announce version 7")
        }
        other => panic!("unexpected {other:?}"),
    }
}

#[test]
fn announce_of_current_version_is_accepted_unchanged() {
    let announce = build_announce(&test_identity("peer-a"), 1);
    let copy = build_announce(&test_identity("peer-a"), 1);
    assert_eq!(accept_announce(announce).expect("accepted"), copy);
}

#[test]
fn unknown_platform_labels_parse_as_unknown() {
    let mut announce = build_announce(&test_identity("peer-a"), 9);
    announce.os = "plan9".into();
    announce.arch = "riscv64".into();

    let peer = peer_from_announce(&announce, [10, 0, 0, 255]).expect("peer");

    assert_eq!(peer.os, OsType::Unknown);
    assert_eq!(peer.arch, ArchType::Unknown);
    assert_eq!(peer.addresses, vec!["10.0.0.255:9"]);
}

fn test_identity(device_id: &str) -> DeviceIdentity {
    DeviceIdentity {
        schema_version: 1,
        device_id: device_id.into(),
        device_name: "FlowLink Test".into(),
        os: OsType::Windows,
        arch: ArchType::X86_64,
        app_version: "0.1.0".into(),
        protocol_version: 1,
        public_key: vec![1, 2, 3],
        private_key_ref: PrivateKeyRef::FileEncrypted {
            path: "identity.key".into(),
        },
        created_at_ms: 1,
    }
}

#[test]
fn broadcast_targets_are_sorted_unique_and_include_limited_broadcast() {
    let targets = broadcast_targets(&vec![
        [192, 168, 1, 255],
        [10, 0, 0, 255],
        [192, 168, 1, 255],
        [255, 255, 255, 255],
    ]);
    assert_eq!(
        targets,
        vec![[10, 0, 0, 255], [192, 168, 1, 255], [255, 255, 255, 255]]
    );
    assert_eq!(broadcast_targets(&Vec::new()), vec![[255, 255, 255, 255]]);
}
