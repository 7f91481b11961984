//! Peers found on the local network, and the text forms of the platform
//! fields that discovery records carry.
pub mod cache;
pub mod udp;
pub mod mdns;

use vstd::prelude::*;
use crate::protocol::messages::{ArchType, DiscoverySource, OsType, TimestampMs};
use crate::storage::files::now_ms;
use crate::text::{decimal_chars, digit_char, is_ascii_digit, str_eq};

verus! {

#[derive(Debug)]
pub struct DiscoveredPeer {
    pub device_id: String,
    pub device_name: String,
    pub os: OsType,
    pub arch: ArchType,
    pub app_version: String,
    pub protocol_version: u16,
    pub addresses: Vec<String>,
    pub service_port: u16,
    pub pairing_available: bool,
    pub last_seen_ms: TimestampMs,
    pub source: DiscoverySource,
}

/// A discovered peer as a mathematical value.
pub struct DiscoveredPeerView {
    pub device_id: Seq<char>,
    pub device_name: Seq<char>,
    pub os: OsType,
    pub arch: ArchType,
    pub app_version: Seq<char>,
    pub protocol_version: u16,
    pub addresses: Seq<Seq<char>>,
    pub service_port: u16,
    pub pairing_available: bool,
    pub last_seen_ms: TimestampMs,
    pub source: DiscoverySource,
}

impl View for DiscoveredPeer {
    type V = DiscoveredPeerView;

    open spec fn view(&self) -> DiscoveredPeerView {
        DiscoveredPeerView {
            device_id: self.device_id@,
            device_name: self.device_name@,
            os: self.os,
            arch: self.arch,
            app_version: self.app_version@,
            protocol_version: self.protocol_version,
            addresses: self.addresses.deep_view(),
            service_port: self.service_port,
            pairing_available: self.pairing_available,
            last_seen_ms: self.last_seen_ms,
            source: self.source,
        }
    }
}

impl Clone for DiscoveredPeer {
    fn clone(&self) -> (res: Self)
        ensures
            res@ == self@,
    {
        let addresses = self.addresses.clone();
        proof {
            assert(addresses.deep_view() =~= self.addresses.deep_view());
        }
        DiscoveredPeer {
            device_id: self.device_id.clone(),
            device_name: self.device_name.clone(),
            os: self.os,
            arch: self.arch,
            app_version: self.app_version.clone(),
            protocol_version: self.protocol_version,
            addresses,
            service_port: self.service_port,
            pairing_available: self.pairing_available,
            last_seen_ms: self.last_seen_ms,
            source: self.source,
        }
    }
}

#[derive(Debug, Clone, PartialEq, Eq)]
pub enum DiscoveryError {
    Mdns(String),
    InvalidRecord(String),
    ChannelClosed,
}

impl DiscoveredPeer {
    /// A sample peer, seen now, for demonstrations.
    pub fn demo_peer() -> (peer: Self)
        ensures
            peer@.device_id == "peer-demo-device"@,
            peer@.device_name == "Office Windows PC"@,
            peer.os == OsType::Windows,
            peer.arch == ArchType::X86_64,
            peer@.app_version == "0.1.0"@,
            peer.protocol_version == 1,
            peer@.addresses == seq!["192.168.1.42:42424"@],
            peer.service_port == 42424,
            peer.pairing_available,
            peer.source == DiscoverySource::Mdns,
    {
        let addresses = vec![String::from_str("192.168.1.42:42424")];
        assert(addresses.deep_view() =~= seq!["192.168.1.42:42424"@]);
        DiscoveredPeer {
            device_id: String::from_str("peer-demo-device"),
            device_name: String::from_str("Office Windows PC"),
            os: OsType::Windows,
            arch: ArchType::X86_64,
            app_version: String::from_str("0.1.0"),
            protocol_version: 1,
            addresses,
            service_port: 42424,
            pairing_available: true,
            last_seen_ms: now_ms(),
            source: DiscoverySource::Mdns,
        }
    }
}

/// The text form of an operating system in discovery records.
pub open spec fn os_text(os: OsType) -> Seq<char> {
    match os {
        OsType::Macos => "macos"@,
        OsType::Windows => "windows"@,
        OsType::Unknown => "unknown"@,
    }
}

/// The operating system a discovery record's text names; anything else is `Unknown`.
pub open spec fn os_of_text(value: Seq<char>) -> OsType {
    if value == "macos"@ {
        OsType::Macos
    } else if value == "windows"@ {
        OsType::Windows
    } else {
        OsType::Unknown
    }
}

/// The text form of a CPU architecture in discovery records.
pub open spec fn arch_text(arch: ArchType) -> Seq<char> {
    match arch {
        ArchType::X86_64 => "x86_64"@,
        ArchType::Aarch64 => "aarch64"@,
        ArchType::Unknown => "unknown"@,
    }
}

/// The architecture a discovery record's text names; anything else is `Unknown`.
pub open spec fn arch_of_text(value: Seq<char>) -> ArchType {
    if value == "x86_64"@ {
        ArchType::X86_64
    } else if value == "aarch64"@ {
        ArchType::Aarch64
    } else {
        ArchType::Unknown
    }
}

/// Whether a record's text means "yes".
pub open spec fn bool_of_text(value: Seq<char>) -> bool {
    value == "true"@ || value == "1"@ || value == "yes"@
}

pub fn os_label(os: OsType) -> (label: &'static str)
    ensures
        label@ == os_text(os),
{
    match os {
        OsType::Macos => "macos",
        OsType::Windows => "windows",
        OsType::Unknown => "unknown",
    }
}

pub fn parse_os(value: &str) -> (os: OsType)
    ensures
        os == os_of_text(value@),
{
    if str_eq(value, "macos") {
        OsType::Macos
    } else if str_eq(value, "windows") {
        OsType::Windows
    } else {
        OsType::Unknown
    }
}

pub fn arch_label(arch: ArchType) -> (label: &'static str)
    ensures
        label@ == arch_text(arch),
{
    match arch {
        ArchType::X86_64 => "x86_64",
        ArchType::Aarch64 => "aarch64",
        ArchType::Unknown => "unknown",
    }
}

pub fn parse_arch(value: &str) -> (arch: ArchType)
    ensures
        arch == arch_of_text(value@),
{
    if str_eq(value, "x86_64") {
        ArchType::X86_64
    } else if str_eq(value, "aarch64") {
        ArchType::Aarch64
    } else {
        ArchType::Unknown
    }
}

pub fn parse_bool(value: &str) -> (b: bool)
    ensures
        b == bool_of_text(value@),
{
    str_eq(value, "true") || str_eq(value, "1") || str_eq(value, "yes")
}

/// Reading back a written label gives the value that was written.
pub proof fn lemma_labels_round_trip(os: OsType, arch: ArchType)
    ensures
        os_of_text(os_text(os)) == os,
        arch_of_text(arch_text(arch)) == arch,
{
    reveal_strlit("macos");
    reveal_strlit("windows");
    reveal_strlit("unknown");
    reveal_strlit("x86_64");
    reveal_strlit("aarch64");
    assert("macos"@[0] != "windows"@[0]);
    assert("unknown"@[0] != "macos"@[0]);
    assert("unknown"@[0] != "windows"@[0]);
    assert("x86_64"@[0] != "aarch64"@[0]);
    assert("unknown"@[0] != "x86_64"@[0]);
    assert("unknown"@[0] != "aarch64"@[0]);
}

/// A pairing flag reads as on for "true" and "yes" and, among numbers
/// written in decimal, for 1 alone; "false", "no" and "0" leave it off.
pub proof fn lemma_pairing_flag_texts(n: nat)
    ensures
        bool_of_text("true"@),
        bool_of_text("yes"@),
        !bool_of_text("false"@),
        !bool_of_text("no"@),
        bool_of_text(decimal_chars(n)) <==> n == 1,
{
    reveal_strlit("true");
    reveal_strlit("yes");
    reveal_strlit("1");
    reveal_strlit("false");
    reveal_strlit("no");
    assert("false"@[0] != "true"@[0] && "false"@[0] != "1"@[0] && "false"@[0] != "yes"@[0]);
    assert("no"@[0] != "true"@[0] && "no"@[0] != "1"@[0] && "no"@[0] != "yes"@[0]);
    crate::text::lemma_decimal_digits(n);
    crate::text::lemma_decimal_injective(n, 1);
    assert(decimal_chars(1) == seq![digit_char(1)]);
    assert(decimal_chars(1) =~= "1"@);
    let d = decimal_chars(n);
    assert(is_ascii_digit(d[0]));
    if d == "true"@ {
        assert(d[0] == 't');
    }
    if d == "yes"@ {
        assert(d[0] == 'y');
    }
}

} // verus!
