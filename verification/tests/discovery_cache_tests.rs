use flowlink::{
    discovery::{cache::DiscoveryCache, DiscoveredPeer},
    protocol::messages::{ArchType, DiscoverySource, OsType},
    storage::files::now_ms,
};

#[test]
fn discovery_cache_evicts_stale_peers_and_returns_them() {
    let mut cache = DiscoveryCache::new(10_000);
    cache.upsert(discovered_peer("stale-peer", 1_000));
    cache.upsert(discovered_peer("fresh-peer", 11_000));

    let evicted = cache.evict_stale(12_000);

    assert_eq!(evicted.len(), 1);
    assert_eq!(evicted[0].device_id, "stale-peer");
    let remaining = cache.list_at(12_000);
    assert_eq!(remaining.len(), 1);
    assert_eq!(remaining[0].device_id, "fresh-peer");
}

#[test]
fn discovery_cache_keeps_peer_at_stale_boundary() {
    let mut cache = DiscoveryCache::new(10_000);
    cache.upsert(discovered_peer("boundary-peer", 2_000));

    let evicted = cache.evict_stale(12_000);

    assert!(evicted.is_empty());
    assert_eq!(cache.list_at(12_000).len(), 1);
}

#[test]
fn upsert_reports_new_only_for_unknown_ids_and_replaces_entry() {
    let mut cache = DiscoveryCache::new(10_000);
    assert!(cache.upsert(discovered_peer("peer-a", 10_000)).is_new);
    assert!(!cache.upsert(discovered_peer("peer-a", 11_000)).is_new);

    let listed = cache.list_at(11_000);
    assert_eq!(listed.len(), 1);
    assert_eq!(listed[0].last_seen_ms, 11_000);
}

#[test]
fn list_at_orders_newest_first_and_hides_stale() {
    let mut cache = DiscoveryCache::new(1_000);
    cache.upsert(discovered_peer("a", 5_000));
    cache.upsert(discovered_peer("b", 5_900));
    cache.upsert(discovered_peer("c", 3_000));
    cache.upsert(discovered_peer("d", 5_500));

    let listed = cache.list_at(6_000);

    let ids: Vec<&str> = listed.iter().map(|p| p.device_id.as_str()).collect();
    assert_eq!(ids, vec!["b", "d", "a"]);
}

#[test]
fn cutoff_saturates_at_zero() {
    let mut cache = DiscoveryCache::new(10_000);
    cache.upsert(discovered_peer("early", 0));

    assert!(cache.evict_stale(5_000).is_empty());
    assert_eq!(cache.list_at(5_000).len(), 1);
}

#[test]
fn record_discovery_announces_only_unknown_ids() {
    let mut cache = DiscoveryCache::new(10_000);

    let first = cache.record_discovery(discovered_peer("peer-a", 10_000));
    let second = cache.record_discovery(discovered_peer("peer-a", 11_000));
    let third = cache.record_discovery(discovered_peer("peer-b", 11_500));

    assert_eq!(first.map(|peer| peer.device_id), Some("peer-a".to_string()));
    assert!(second.is_none());
    assert_eq!(third.map(|peer| peer.last_seen_ms), Some(11_500));
    let listed = cache.list_at(12_000);
    assert_eq!(listed.len(), 2);
    assert_eq!(listed[0].device_id, "peer-b");
    assert_eq!(listed[1].last_seen_ms, 11_000);
}

#[test]
fn new_cache_lists_no_peer() {
    let cache = DiscoveryCache::new(10_000);
    assert!(cache.list().is_empty());
    assert!(cache.list_at(now_ms()).is_empty());
}

#[test]
fn record_discovery_reports_only_new_peers() {
    let mut cache = DiscoveryCache::new(10_000);

    let first = cache.record_discovery(discovered_peer("peer-a", 10_000));
    let second = cache.record_discovery(discovered_peer("peer-a", 11_000));

    assert_eq!(first.map(|peer| peer.device_id), Some("peer-a".to_string()));
    assert!(second.is_none());
}

#[test]
fn evict_stale_reports_the_stale_peer() {
    let mut cache = DiscoveryCache::new(10_000);
    let now = now_ms();
    cache.record_discovery(discovered_peer("peer-a", now - 11_000));
    cache.record_discovery(discovered_peer("peer-b", now));

    let stale = cache.evict_stale(now);

    assert_eq!(stale.len(), 1);
    assert_eq!(stale[0].device_id, "peer-a");
    assert_eq!(cache.list().len(), 1);
}

#[test]
fn upsert_from_discovery_marks_new_then_updates() {
    let mut cache = DiscoveryCache::new(10_000);
    let outcome = cache.upsert(discovered_peer("peer-a", now_ms()));
    assert!(outcome.is_new);
    assert_eq!(cache.list().len(), 1);

    let updated_at = now_ms() + 1;
    let outcome = cache.upsert(discovered_peer("peer-a", updated_at));
    assert!(!outcome.is_new);
    let peers = cache.list();
    assert_eq!(peers.len(), 1);
    assert_eq!(peers[0].last_seen_ms, updated_at);
}

#[test]
fn list_is_list_at_now_with_ties_in_cache_order() {
    let mut cache = DiscoveryCache::new(1_000_000_000);
    let seen = now_ms();
    cache.upsert(discovered_peer("first", seen));
    cache.upsert(discovered_peer("older", seen - 5));
    cache.upsert(discovered_peer("second", seen));

    let listed: Vec<String> = cache.list().into_iter().map(|p| p.device_id).collect();
    let at: Vec<String> = cache.list_at(seen).into_iter().map(|p| p.device_id).collect();

    assert_eq!(listed, at);
    assert_eq!(at, vec!["first", "second", "older"]);
}

fn discovered_peer(device_id: &str, last_seen_ms: u64) -> DiscoveredPeer {
    DiscoveredPeer {
        device_id: device_id.into(),
        device_name: "Office PC".into(),
        os: OsType::Windows,
        arch: ArchType::X86_64,
        app_version: "0.1.0".into(),
        protocol_version: 1,
        addresses: vec!["192.168.1.42:42424".into()],
        service_port: 42424,
        pairing_available: true,
        last_seen_ms,
        source: DiscoverySource::UdpBroadcast,
    }
}
