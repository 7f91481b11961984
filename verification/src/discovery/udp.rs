//! The UDP broadcast fallback: the announce record a device sends and how a
//! received record becomes a discovered peer. Sockets, interfaces and the
//! JSON encoding stay with the caller.
use vstd::prelude::*;
use crate::discovery::{
    arch_label, arch_of_text, arch_text, os_label, os_of_text, os_text, parse_arch, parse_os,
    DiscoveredPeer, DiscoveredPeerView, DiscoveryError,
};
use crate::identity::DeviceIdentity;
use crate::protocol::messages::DiscoverySource;
use crate::storage::files::now_ms;
use crate::text::{append_decimal, decimal_chars, str_eq};

verus! {

pub const UDP_ANNOUNCE_VERSION: u16 = 1;

#[derive(Debug, PartialEq, Eq)]
pub struct UdpAnnounce {
    pub v: u16,
    pub id: String,
    pub name: String,
    pub os: String,
    pub arch: String,
    pub app_version: String,
    pub protocol_version: u16,
    pub port: u16,
    pub pairing: bool,
}

/// The record this device announces: its identity and the port of its service.
pub fn build_announce(identity: &DeviceIdentity, service_port: u16) -> (announce: UdpAnnounce)
    ensures
        announce.v == UDP_ANNOUNCE_VERSION,
        announce.id@ == identity.device_id@,
        announce.name@ == identity.device_name@,
        announce.os@ == os_text(identity.os),
        announce.arch@ == arch_text(identity.arch),
        announce.app_version@ == identity.app_version@,
        announce.protocol_version == identity.protocol_version,
        announce.port == service_port,
        announce.pairing,
{
    UdpAnnounce {
        v: UDP_ANNOUNCE_VERSION,
        id: identity.device_id.clone(),
        name: identity.device_name.clone(),
        os: String::from_str(os_label(identity.os)),
        arch: String::from_str(arch_label(identity.arch)),
        app_version: identity.app_version.clone(),
        protocol_version: identity.protocol_version,
        port: service_port,
        pairing: true,
    }
}

/// The message of a record with another version.
pub open spec fn unsupported_version_message(v: u16) -> Seq<char> {
    "unsupported UDP announce version "@ + decimal_chars(v as nat)
}

/// Accepts a decoded record of the supported version.
pub fn accept_announce(announce: UdpAnnounce) -> (res: Result<UdpAnnounce, DiscoveryError>)
    ensures
        announce.v == UDP_ANNOUNCE_VERSION ==> res == Ok::<UdpAnnounce, DiscoveryError>(announce),
        announce.v != UDP_ANNOUNCE_VERSION ==> (res matches Err(DiscoveryError::InvalidRecord(m))
            && m@ == unsupported_version_message(announce.v)),
{
    if announce.v != UDP_ANNOUNCE_VERSION {
        let mut message = String::from_str("unsupported UDP announce version ");
        append_decimal(&mut message, announce.v as u64);
        return Err(DiscoveryError::InvalidRecord(message));
    }
    Ok(announce)
}

/// Whether a record came from this device itself.
pub fn should_ignore_announce(announce: &UdpAnnounce, local_device_id: &str) -> (ignore: bool)
    ensures
        ignore == (announce.id@ == local_device_id@),
{
    str_eq(announce.id.as_str(), local_device_id)
}

/// Dotted-decimal text of an IPv4 address.
pub open spec fn ipv4_text(ip: Seq<u8>) -> Seq<char> {
    decimal_chars(ip[0] as nat) + "."@ + decimal_chars(ip[1] as nat) + "."@ + decimal_chars(
        ip[2] as nat,
    ) + "."@ + decimal_chars(ip[3] as nat)
}

/// `ip:port` for an IPv4 address.
pub open spec fn ipv4_endpoint_text(ip: Seq<u8>, port: u16) -> Seq<char> {
    ipv4_text(ip) + ":"@ + decimal_chars(port as nat)
}

/// Appends `a.b.c.d:port`.
pub fn append_ipv4_endpoint(text: &mut String, ip: &[u8; 4], port: u16)
    ensures
        final(text)@ == old(text)@ + ipv4_endpoint_text(ip@, port),
{
    append_decimal(text, ip[0] as u64);
    text.append(".");
    append_decimal(text, ip[1] as u64);
    text.append(".");
    append_decimal(text, ip[2] as u64);
    text.append(".");
    append_decimal(text, ip[3] as u64);
    text.append(":");
    append_decimal(text, port as u64);
    assert(final(text)@ =~= old(text)@ + ipv4_endpoint_text(ip@, port));
}

/// Whether an IPv4 address is `0.0.0.0`.
pub open spec fn ipv4_unspecified(ip: Seq<u8>) -> bool {
    ip[0] == 0 && ip[1] == 0 && ip[2] == 0 && ip[3] == 0
}

/// The peer described by a record received from the IPv4 address
/// `source_ip`; a record from the unspecified address is refused.
pub fn peer_from_announce(announce: &UdpAnnounce, source_ip: [u8; 4]) -> (res: Result<DiscoveredPeer, DiscoveryError>)
    ensures
        ipv4_unspecified(source_ip@) ==> (res matches Err(DiscoveryError::InvalidRecord(m)) && m@
            == "announce source address is unspecified"@),
        !ipv4_unspecified(source_ip@) ==> (res matches Ok(peer) && peer@.device_id == announce.id@
            && peer@.device_name == announce.name@ && peer.os == os_of_text(announce.os@) && peer.arch
            == arch_of_text(announce.arch@) && peer@.app_version == announce.app_version@
            && peer.protocol_version == announce.protocol_version && peer@.addresses == seq![
            ipv4_endpoint_text(source_ip@, announce.port)] && peer.service_port == announce.port
            && peer.pairing_available == announce.pairing && peer.source
            == DiscoverySource::UdpBroadcast),
{
    if source_ip[0] == 0 && source_ip[1] == 0 && source_ip[2] == 0 && source_ip[3] == 0 {
        return Err(DiscoveryError::InvalidRecord(String::from_str("announce source address is unspecified")));
    }
    let mut address = String::new();
    append_ipv4_endpoint(&mut address, &source_ip, announce.port);
    let addresses = vec![address];
    proof {
        assert(addresses.deep_view() =~= seq![ipv4_endpoint_text(source_ip@, announce.port)]);
    }
    Ok(DiscoveredPeer {
        device_id: announce.id.clone(),
        device_name: announce.name.clone(),
        os: parse_os(announce.os.as_str()),
        arch: parse_arch(announce.arch.as_str()),
        app_version: announce.app_version.clone(),
        protocol_version: announce.protocol_version,
        addresses,
        service_port: announce.port,
        pairing_available: announce.pairing,
        last_seen_ms: now_ms(),
        source: DiscoverySource::UdpBroadcast,
    })
}

/// Strict byte-wise order of IPv4 addresses (the order of `Ipv4Addr`).
pub open spec fn ipv4_before(a: Seq<u8>, b: Seq<u8>) -> bool {
    a[0] < b[0] || (a[0] == b[0] && (a[1] < b[1] || (a[1] == b[1] && (a[2] < b[2] || (a[2]
        == b[2] && a[3] < b[3])))))
}

/// Whether `addrs` holds the address `ip`.
pub open spec fn has_ipv4(addrs: Seq<[u8; 4]>, ip: Seq<u8>) -> bool {
    exists|k: int| 0 <= k < addrs.len() && #[trigger] addrs[k]@ == ip
}

/// Addresses in increasing order, so none occurs twice.
pub open spec fn ipv4_ascending(addrs: Seq<[u8; 4]>) -> bool {
    forall|i: int, j: int| 0 <= i < j < addrs.len() ==> ipv4_before(#[trigger] addrs[i]@, #[trigger] addrs[j]@)
}

/// The limited broadcast address 255.255.255.255.
pub open spec fn limited_broadcast() -> Seq<u8> {
    seq![255u8, 255u8, 255u8, 255u8]
}

fn ipv4_lt(a: &[u8; 4], b: &[u8; 4]) -> (lt: bool)
    ensures
        lt == ipv4_before(a@, b@),
{
    a[0] < b[0] || (a[0] == b[0] && (a[1] < b[1] || (a[1] == b[1] && (a[2] < b[2] || (a[2] == b[2]
        && a[3] < b[3])))))
}

/// Adds `ip` to ascending addresses unless it is there already.
fn insert_ipv4(addrs: &mut Vec<[u8; 4]>, ip: [u8; 4])
    requires
        ipv4_ascending(old(addrs)@),
    ensures
        ipv4_ascending(final(addrs)@),
        forall|y: Seq<u8>| has_ipv4(final(addrs)@, y) <==> (has_ipv4(old(addrs)@, y) || y == ip@),
{
    let ghost before = addrs@;
    let mut j: usize = 0;
    while j < addrs.len() && ipv4_lt(&addrs[j], &ip)
        invariant
            j <= addrs@.len(),
            addrs@ == before,
            forall|k: int| 0 <= k < j ==> ipv4_before(#[trigger] before[k]@, ip@),
        decreases addrs@.len() - j,
    {
        j = j + 1;
    }
    if j < addrs.len() && addrs[j][0] == ip[0] && addrs[j][1] == ip[1] && addrs[j][2] == ip[2]
        && addrs[j][3] == ip[3] {
        assert(addrs@[j as int]@ =~= ip@);
        return;
    }
    proof {
        if j < before.len() {
            assert(before[j as int]@ != ip@ ==> ipv4_before(ip@, before[j as int]@));
        }
    }
    addrs.insert(j, ip);
    let ghost after = addrs@;
    assert(after == before.insert(j as int, ip));
    assert forall|a: int, b: int| 0 <= a < b < after.len() implies ipv4_before(
        #[trigger] after[a]@,
        #[trigger] after[b]@,
    ) by {
        if b < j {
            assert(after[a] == before[a] && after[b] == before[b]);
        } else if b == j {
            assert(after[a] == before[a]);
        } else if a < j {
            assert(after[a] == before[a] && after[b] == before[b - 1]);
            assert(ipv4_before(before[a]@, ip@));
            assert(ipv4_before(ip@, before[j as int]@));
            if b - 1 > j {
                assert(ipv4_before(before[j as int]@, before[b - 1]@));
            }
        } else if a == j {
            assert(after[b] == before[b - 1]);
            if b - 1 > j {
                assert(ipv4_before(before[j as int]@, before[b - 1]@));
            }
        } else {
            assert(after[a] == before[a - 1] && after[b] == before[b - 1]);
        }
    }
    assert forall|y: Seq<u8>| has_ipv4(after, y) <==> (has_ipv4(before, y) || y == ip@) by {
        if has_ipv4(after, y) {
            let k = choose|k: int| 0 <= k < after.len() && #[trigger] after[k]@ == y;
            if k < j {
                assert(after[k] == before[k]);
            } else if k > j {
                assert(after[k] == before[k - 1]);
            }
        }
        if has_ipv4(before, y) {
            let k = choose|k: int| 0 <= k < before.len() && #[trigger] before[k]@ == y;
            if k < j {
                assert(after[k] == before[k]);
            } else {
                assert(after[k + 1] == before[k]);
            }
        }
        if y == ip@ {
            assert(after[j as int] == ip);
        }
    }
}

/// Where announces are sent: the limited broadcast address and each given
/// interface broadcast address, in increasing order, each once.
pub fn broadcast_targets(addrs: &Vec<[u8; 4]>) -> (targets: Vec<[u8; 4]>)
    ensures
        ipv4_ascending(targets@),
        forall|y: Seq<u8>| has_ipv4(targets@, y) <==> (y == limited_broadcast() || has_ipv4(addrs@, y)),
{
    let mut targets: Vec<[u8; 4]> = Vec::new();
    insert_ipv4(&mut targets, [255u8, 255u8, 255u8, 255u8]);
    proof {
        assert([255u8, 255u8, 255u8, 255u8]@ =~= limited_broadcast());
    }
    let mut i: usize = 0;
    while i < addrs.len()
        invariant
            i <= addrs@.len(),
            ipv4_ascending(targets@),
            forall|y: Seq<u8>| has_ipv4(targets@, y) <==> (y == limited_broadcast() || has_ipv4(
                addrs@.take(i as int),
                y,
            )),
        decreases addrs@.len() - i,
    {
        let ghost prev = targets@;
        insert_ipv4(&mut targets, addrs[i]);
        assert forall|y: Seq<u8>| has_ipv4(addrs@.take(i + 1), y) <==> (has_ipv4(addrs@.take(i as int), y)
            || y == addrs@[i as int]@) by {
            if has_ipv4(addrs@.take(i + 1), y) {
                let k = choose|k: int| 0 <= k < i + 1 && #[trigger] addrs@.take(i + 1)[k]@ == y;
                if k < i {
                    assert(addrs@.take(i as int)[k] == addrs@.take(i + 1)[k]);
                }
            }
            if has_ipv4(addrs@.take(i as int), y) {
                let k = choose|k: int| 0 <= k < i && #[trigger] addrs@.take(i as int)[k]@ == y;
                assert(addrs@.take(i + 1)[k] == addrs@.take(i as int)[k]);
            }
            if y == addrs@[i as int]@ {
                assert(addrs@.take(i + 1)[i as int] == addrs@[i as int]);
            }
        }
        assert forall|y: Seq<u8>| has_ipv4(targets@, y) <==> (y == limited_broadcast() || has_ipv4(
            addrs@.take(i + 1),
            y,
        )) by {
            assert(has_ipv4(targets@, y) <==> (has_ipv4(prev, y) || y == addrs@[i as int]@));
            assert(has_ipv4(prev, y) <==> (y == limited_broadcast() || has_ipv4(addrs@.take(i as int), y)));
        }
        i = i + 1;
    }
    assert(addrs@.take(addrs@.len() as int) =~= addrs@);
    targets
}

/// A peer read from this device's own announce describes this device: when
/// `announce` is what `build_announce` gives for `identity` and `service_port`,
/// and `peer` is what `peer_from_announce` gives for it from a specified
/// address, the peer has the identity's id, name, platform and versions, the
/// service port, and open pairing.
pub proof fn lemma_announce_round_trip(
    identity: DeviceIdentity,
    service_port: u16,
    announce: UdpAnnounce,
    source_ip: Seq<u8>,
    peer: DiscoveredPeerView,
)
    requires
        announce.id@ == identity.device_id@,
        announce.name@ == identity.device_name@,
        announce.os@ == os_text(identity.os),
        announce.arch@ == arch_text(identity.arch),
        announce.app_version@ == identity.app_version@,
        announce.protocol_version == identity.protocol_version,
        announce.port == service_port,
        announce.pairing,
        peer.device_id == announce.id@,
        peer.device_name == announce.name@,
        peer.os == os_of_text(announce.os@),
        peer.arch == arch_of_text(announce.arch@),
        peer.app_version == announce.app_version@,
        peer.protocol_version == announce.protocol_version,
        peer.addresses == seq![ipv4_endpoint_text(source_ip, announce.port)],
        peer.service_port == announce.port,
        peer.pairing_available == announce.pairing,
    ensures
        peer.device_id == identity.device_id@,
        peer.device_name == identity.device_name@,
        peer.os == identity.os,
        peer.arch == identity.arch,
        peer.app_version == identity.app_version@,
        peer.protocol_version == identity.protocol_version,
        peer.service_port == service_port,
        peer.addresses == seq![ipv4_endpoint_text(source_ip, service_port)],
        peer.pairing_available,
{
    crate::discovery::lemma_labels_round_trip(identity.os, identity.arch);
}

} // verus!
