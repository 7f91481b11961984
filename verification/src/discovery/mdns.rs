//! mDNS discovery: the TXT record this device publishes, the host label it
//! uses, and how a resolved service becomes a discovered peer. The daemon,
//! the sockets and the TXT lookups themselves stay with the caller.
use vstd::prelude::*;
use crate::discovery::{
    arch_label, arch_of_text, arch_text, bool_of_text, os_label, os_of_text, os_text, parse_arch,
    parse_bool, parse_os, DiscoveredPeer, DiscoveryError,
};
use crate::identity::DeviceIdentity;
use crate::protocol::messages::DiscoverySource;
use crate::storage::files::now_ms;
use crate::text::{
    append_decimal, ascii_lowercase, decimal_chars, decimal_string, is_ascii_alphanumeric,
    parse_u16, parse_u16_text, push_char, sort_texts, str_eq, text_le, texts_sorted,
};

verus! {

pub const FLOWLINK_MDNS_SERVICE_TYPE: &'static str = "_mac22win._tcp.local.";

/// The TXT entries this device publishes, as (key, value) pairs.
pub open spec fn txt_entries(identity: &DeviceIdentity) -> Seq<(Seq<char>, Seq<char>)> {
    seq![
        ("device_id"@, identity.device_id@),
        ("device_name"@, identity.device_name@),
        ("os"@, os_text(identity.os)),
        ("arch"@, arch_text(identity.arch)),
        ("app_version"@, identity.app_version@),
        ("protocol_version"@, decimal_chars(identity.protocol_version as nat)),
        ("pairing"@, "true"@),
    ]
}

pub open spec fn pair_views(v: Seq<(String, String)>) -> Seq<(Seq<char>, Seq<char>)> {
    v.map_values(|p: (String, String)| (p.0@, p.1@))
}

/// The TXT record: id, name, platform, versions, and that pairing is open.
pub fn txt_properties(identity: &DeviceIdentity) -> (properties: Vec<(String, String)>)
    ensures
        pair_views(properties@) == txt_entries(identity),
{
    let properties = vec![
        (String::from_str("device_id"), identity.device_id.clone()),
        (String::from_str("device_name"), identity.device_name.clone()),
        (String::from_str("os"), String::from_str(os_label(identity.os))),
        (String::from_str("arch"), String::from_str(arch_label(identity.arch))),
        (String::from_str("app_version"), identity.app_version.clone()),
        (String::from_str("protocol_version"), decimal_string(identity.protocol_version as u64)),
        (String::from_str("pairing"), String::from_str("true")),
    ];
    assert(pair_views(properties@) =~= txt_entries(identity));
    properties
}

/// What a host label keeps of a character: ASCII letters and digits (made
/// small) and `-`; anything else becomes `-`.
pub open spec fn dns_label_char(c: char) -> char {
    if is_ascii_alphanumeric(c) || c == '-' {
        ascii_lowercase(c)
    } else {
        '-'
    }
}

pub open spec fn trim_leading_dashes(s: Seq<char>) -> Seq<char>
    decreases s.len(),
{
    if s.len() > 0 && s[0] == '-' {
        trim_leading_dashes(s.drop_first())
    } else {
        s
    }
}

pub open spec fn trim_trailing_dashes(s: Seq<char>) -> Seq<char>
    decreases s.len(),
{
    if s.len() > 0 && s.last() == '-' {
        trim_trailing_dashes(s.drop_last())
    } else {
        s
    }
}

/// The DNS label for a device name: characters mapped by `dns_label_char`,
/// dashes trimmed from both ends, and "flowlink" if nothing is left.
pub open spec fn dns_label_text(value: Seq<char>) -> Seq<char> {
    let trimmed = trim_trailing_dashes(trim_leading_dashes(value.map_values(|c: char| dns_label_char(c))));
    if trimmed.len() == 0 {
        "flowlink"@
    } else {
        trimmed
    }
}

fn dns_char(c: char) -> (d: char)
    ensures
        d == dns_label_char(c),
{
    if ('0' <= c && c <= '9') || ('a' <= c && c <= 'z') || c == '-' {
        c
    } else if 'A' <= c && c <= 'Z' {
        let small = ((c as u8) + 32) as char;
        assert(small == ascii_lowercase(c));
        small
    } else {
        '-'
    }
}

/// A DNS label made from a device name.
pub fn sanitize_dns_label(value: &str) -> (label: String)
    ensures
        label@ == dns_label_text(value@),
{
    let n = value.unicode_len();
    let ghost mapped_spec = value@.map_values(|c: char| dns_label_char(c));
    let mut mapped: Vec<char> = Vec::new();
    let mut i: usize = 0;
    while i < n
        invariant
            i <= n,
            n == value@.len(),
            mapped@ == mapped_spec.take(i as int),
            mapped_spec == value@.map_values(|c: char| dns_label_char(c)),
        decreases n - i,
    {
        let c = value.get_char(i);
        mapped.push(dns_char(c));
        assert(mapped_spec.take(i + 1) =~= mapped_spec.take(i as int).push(mapped_spec[i as int]));
        i = i + 1;
    }
    assert(mapped_spec.take(n as int) =~= mapped_spec);
    let ghost m = mapped@;

    let mut start: usize = 0;
    assert(m.skip(0) =~= m);
    while start < n && mapped[start] == '-'
        invariant
            start <= n,
            n == m.len(),
            mapped@ == m,
            trim_leading_dashes(m) == trim_leading_dashes(m.skip(start as int)),
        decreases n - start,
    {
        assert(m.skip(start as int).drop_first() =~= m.skip(start + 1));
        start = start + 1;
    }
    let ghost lead = m.skip(start as int);
    assert(trim_leading_dashes(lead) == lead);

    let mut end: usize = n;
    assert(m.subrange(start as int, n as int) =~= lead);
    while end > start && mapped[end - 1] == '-'
        invariant
            start <= end <= n,
            n == m.len(),
            mapped@ == m,
            trim_trailing_dashes(lead) == trim_trailing_dashes(m.subrange(start as int, end as int)),
        decreases end - start,
    {
        assert(m.subrange(start as int, end as int).drop_last() =~= m.subrange(start as int, end - 1));
        end = end - 1;
    }
    let ghost trimmed = m.subrange(start as int, end as int);
    assert(trim_trailing_dashes(trimmed) == trimmed);

    if start == end {
        proof {
            reveal_strlit("flowlink");
        }
        return String::from_str("flowlink");
    }
    let mut label = String::new();
    let mut k: usize = start;
    while k < end
        invariant
            start <= k <= end <= n,
            n == m.len(),
            mapped@ == m,
            label@ == m.subrange(start as int, k as int),
        decreases end - k,
    {
        push_char(&mut label, mapped[k]);
        assert(m.subrange(start as int, k + 1) =~= m.subrange(start as int, k as int).push(m[k as int]));
        k = k + 1;
    }
    label
}

/// The mDNS host name of a device: its DNS label under `.local.`.
pub fn mdns_host_name(device_name: &str) -> (host: String)
    ensures
        host@ == dns_label_text(device_name@) + ".local."@,
{
    let mut host = sanitize_dns_label(device_name);
    host.append(".local.");
    host
}

/// Whether a discovered peer is this device itself.
pub fn should_ignore_peer(peer: &DiscoveredPeer, local_device_id: &str) -> (ignore: bool)
    ensures
        ignore == (peer@.device_id == local_device_id@),
{
    str_eq(peer.device_id.as_str(), local_device_id)
}

/// The TXT values of a resolved service, each as its lookup found it.
#[derive(Debug)]
pub struct ServiceTxt {
    pub device_id: Option<String>,
    pub device_name: Option<String>,
    pub os: Option<String>,
    pub arch: Option<String>,
    pub app_version: Option<String>,
    pub protocol_version: Option<String>,
    pub pairing: Option<String>,
}

/// A resolved mDNS service: its type, port, addresses (as text) and TXT values.
#[derive(Debug)]
pub struct ResolvedService {
    pub service_type: String,
    pub port: u16,
    pub addresses: Vec<String>,
    pub txt: ServiceTxt,
}

/// Why a resolved service is refused, if it is: the first failing check in
/// the order type, TXT fields, protocol version, addresses.
pub open spec fn service_refusal(s: &ResolvedService) -> Option<Seq<char>> {
    if s.service_type@ != FLOWLINK_MDNS_SERVICE_TYPE@ {
        Some("unexpected service type "@ + s.service_type@)
    } else if s.txt.device_id is None {
        Some("missing TXT field "@ + "device_id"@)
    } else if s.txt.device_name is None {
        Some("missing TXT field "@ + "device_name"@)
    } else if s.txt.os is None {
        Some("missing TXT field "@ + "os"@)
    } else if s.txt.arch is None {
        Some("missing TXT field "@ + "arch"@)
    } else if s.txt.app_version is None {
        Some("missing TXT field "@ + "app_version"@)
    } else if s.txt.protocol_version is None {
        Some("missing TXT field "@ + "protocol_version"@)
    } else if parse_u16_text(s.txt.protocol_version->0@) is None {
        Some("invalid protocol_version"@)
    } else if s.txt.pairing is None {
        Some("missing TXT field "@ + "pairing"@)
    } else if s.addresses@.len() == 0 {
        Some("resolved service has no addresses"@)
    } else {
        None
    }
}

/// The endpoints of a service: each address followed by `:port`.
pub open spec fn endpoint_texts(addresses: Seq<Seq<char>>, port: u16) -> Seq<Seq<char>> {
    addresses.map_values(|a: Seq<char>| a + ":"@ + decimal_chars(port as nat))
}

fn missing_field(key: &str) -> (err: DiscoveryError)
    ensures
        err matches DiscoveryError::InvalidRecord(m) && m@ == "missing TXT field "@ + key@,
{
    let mut message = String::from_str("missing TXT field ");
    message.append(key);
    DiscoveryError::InvalidRecord(message)
}

/// The peer a resolved FlowLink service describes, with its endpoints in
/// byte order; or the reason the service is refused.
pub fn service_info_to_peer(service: &ResolvedService) -> (res: Result<DiscoveredPeer, DiscoveryError>)
    ensures
        service_refusal(service) matches Some(reason) ==> (res matches Err(
            DiscoveryError::InvalidRecord(m),
        ) && m@ == reason),
        service_refusal(service) is None ==> (res matches Ok(peer) && peer@.device_id
            == service.txt.device_id->0@ && peer@.device_name == service.txt.device_name->0@
            && peer.os == os_of_text(service.txt.os->0@) && peer.arch == arch_of_text(
            service.txt.arch->0@,
        ) && peer@.app_version == service.txt.app_version->0@ && Some(peer.protocol_version)
            == parse_u16_text(service.txt.protocol_version->0@) && peer.service_port == service.port
            && peer.pairing_available == bool_of_text(service.txt.pairing->0@) && peer.source
            == DiscoverySource::Mdns && peer@.addresses.to_multiset() == endpoint_texts(
            service.addresses.deep_view(),
            service.port,
        ).to_multiset() && texts_sorted(peer@.addresses)),
{
    if !str_eq(service.service_type.as_str(), FLOWLINK_MDNS_SERVICE_TYPE) {
        let mut message = String::from_str("unexpected service type ");
        message.append(service.service_type.as_str());
        return Err(DiscoveryError::InvalidRecord(message));
    }

    let service_port = service.port;
    let device_id = match &service.txt.device_id {
        Some(v) => v.clone(),
        None => return Err(missing_field("device_id")),
    };
    let device_name = match &service.txt.device_name {
        Some(v) => v.clone(),
        None => return Err(missing_field("device_name")),
    };
    let os = match &service.txt.os {
        Some(v) => parse_os(v.as_str()),
        None => return Err(missing_field("os")),
    };
    let arch = match &service.txt.arch {
        Some(v) => parse_arch(v.as_str()),
        None => return Err(missing_field("arch")),
    };
    let app_version = match &service.txt.app_version {
        Some(v) => v.clone(),
        None => return Err(missing_field("app_version")),
    };
    let protocol_version = match &service.txt.protocol_version {
        Some(v) => match parse_u16(v.as_str()) {
            Some(p) => p,
            None => return Err(DiscoveryError::InvalidRecord(String::from_str("invalid protocol_version"))),
        },
        None => return Err(missing_field("protocol_version")),
    };
    let pairing_available = match &service.txt.pairing {
        Some(v) => parse_bool(v.as_str()),
        None => return Err(missing_field("pairing")),
    };

    let mut endpoints: Vec<String> = Vec::new();
    let mut i: usize = 0;
    let ghost target = endpoint_texts(service.addresses.deep_view(), service_port);
    while i < service.addresses.len()
        invariant
            i <= service.addresses@.len(),
            target == endpoint_texts(service.addresses.deep_view(), service_port),
            endpoints.deep_view() == target.take(i as int),
            endpoints@.len() == i,
        decreases service.addresses@.len() - i,
    {
        let mut endpoint = service.addresses[i].clone();
        assert(endpoint@ == service.addresses.deep_view()[i as int]);
        endpoint.append(":");
        append_decimal(&mut endpoint, service_port as u64);
        assert(endpoint@ == target[i as int]);
        let ghost before = endpoints.deep_view();
        let ghost old_view = endpoints@;
        endpoints.push(endpoint);
        assert(endpoints@[i as int]@ == target[i as int]);
        assert forall|k: int| 0 <= k < i implies endpoints.deep_view()[k] == before[k] by {
            assert(endpoints@[k] == old_view[k]);
        }
        assert(endpoints.deep_view() =~= target.take(i + 1));
        i = i + 1;
    }
    assert(target.take(service.addresses@.len() as int) =~= target);
    let addresses = sort_texts(&endpoints);
    proof {
        addresses.deep_view().to_multiset_ensures();
        target.to_multiset_ensures();
        assert(addresses.deep_view().len() == addresses@.len());
        assert(addresses.deep_view().len() == target.len());
    }

    if addresses.len() == 0 {
        proof {
            assert(service.addresses.deep_view().len() == 0);
        }
        return Err(DiscoveryError::InvalidRecord(String::from_str("resolved service has no addresses")));
    }

    Ok(DiscoveredPeer {
        device_id,
        device_name,
        os,
        arch,
        app_version,
        protocol_version,
        addresses,
        service_port,
        pairing_available,
        last_seen_ms: now_ms(),
        source: DiscoverySource::Mdns,
    })
}

/// A character a DNS label may hold: a small ASCII letter, a digit or `-`.
pub open spec fn is_dns_label_char(c: char) -> bool {
    ('a' <= c && c <= 'z') || ('0' <= c && c <= '9') || c == '-'
}

proof fn lemma_trim_leading(s: Seq<char>)
    ensures
        exists|k: int| 0 <= k <= s.len() && #[trigger] s.skip(k) == trim_leading_dashes(s),
        trim_leading_dashes(s).len() == 0 || trim_leading_dashes(s)[0] != '-',
    decreases s.len(),
{
    if s.len() > 0 && s[0] == '-' {
        lemma_trim_leading(s.drop_first());
        let k = choose|k: int| 0 <= k <= s.drop_first().len() && #[trigger] s.drop_first().skip(k)
            == trim_leading_dashes(s.drop_first());
        assert(s.skip(k + 1) =~= s.drop_first().skip(k));
    } else {
        assert(s.skip(0) =~= s);
    }
}

proof fn lemma_trim_trailing(s: Seq<char>)
    ensures
        exists|k: int| 0 <= k <= s.len() && #[trigger] s.take(k) == trim_trailing_dashes(s),
        trim_trailing_dashes(s).len() == 0 || trim_trailing_dashes(s).last() != '-',
        s.len() > 0 && s[0] != '-' ==> trim_trailing_dashes(s).len() > 0,
    decreases s.len(),
{
    if s.len() > 0 && s.last() == '-' {
        lemma_trim_trailing(s.drop_last());
        let k = choose|k: int| 0 <= k <= s.drop_last().len() && #[trigger] s.drop_last().take(k)
            == trim_trailing_dashes(s.drop_last());
        assert(s.take(k) =~= s.drop_last().take(k));
        if s.len() > 1 && s[0] != '-' {
            assert(s.drop_last()[0] == s[0]);
        }
    } else {
        assert(s.take(s.len() as int) =~= s);
    }
}

/// The host label made from any device name is a valid DNS label: not
/// empty, made of small letters, digits and dashes, and neither starting
/// nor ending with a dash.
pub proof fn lemma_dns_label_is_valid(value: Seq<char>)
    ensures
        dns_label_text(value).len() > 0,
        forall|i: int| 0 <= i < dns_label_text(value).len() ==> is_dns_label_char(
            #[trigger] dns_label_text(value)[i],
        ),
        dns_label_text(value)[0] != '-',
        dns_label_text(value).last() != '-',
{
    let mapped = value.map_values(|c: char| dns_label_char(c));
    assert forall|i: int| 0 <= i < mapped.len() implies is_dns_label_char(#[trigger] mapped[i]) by {
        let c = value[i];
        assert(mapped[i] == dns_label_char(c));
        if 'A' <= c && c <= 'Z' {
            assert('a' <= ascii_lowercase(c) && ascii_lowercase(c) <= 'z');
        }
    }
    let lead = trim_leading_dashes(mapped);
    lemma_trim_leading(mapped);
    let k1 = choose|k: int| 0 <= k <= mapped.len() && #[trigger] mapped.skip(k) == lead;
    let trimmed = trim_trailing_dashes(lead);
    lemma_trim_trailing(lead);
    let k2 = choose|k: int| 0 <= k <= lead.len() && #[trigger] lead.take(k) == trimmed;
    if trimmed.len() == 0 {
        reveal_strlit("flowlink");
    } else {
        assert forall|i: int| 0 <= i < trimmed.len() implies is_dns_label_char(#[trigger] trimmed[i]) by {
            assert(trimmed[i] == lead[i]);
            assert(lead[i] == mapped[k1 + i]);
        }
        assert(trimmed[0] == lead[0]);
    }
}

/// How each character of a device name appears in its host label: digits,
/// small letters and dashes as themselves, capital letters as the small
/// letter 32 code points on, and anything else as a dash.
pub proof fn lemma_dns_label_char_cases(c: char)
    ensures
        ('0' <= c && c <= '9') || ('a' <= c && c <= 'z') || c == '-' ==> dns_label_char(c) == c,
        'A' <= c && c <= 'Z' ==> dns_label_char(c) as int == c as int + 32,
        !(('0' <= c && c <= '9') || ('a' <= c && c <= 'z') || ('A' <= c && c <= 'Z') || c == '-')
            ==> dns_label_char(c) == '-',
{
}

/// A device name that is already a valid DNS label (small letters, digits
/// and dashes, not empty, no dash at either end) is its own host label, so
/// names that differ only in digits, such as "pc-1" and "pc-2", get
/// different labels.
pub proof fn lemma_valid_label_is_kept(value: Seq<char>)
    requires
        value.len() > 0,
        forall|i: int| 0 <= i < value.len() ==> is_dns_label_char(#[trigger] value[i]),
        value[0] != '-',
        value.last() != '-',
    ensures
        dns_label_text(value) == value,
{
    let mapped = value.map_values(|c: char| dns_label_char(c));
    assert(mapped =~= value);
    assert(trim_leading_dashes(value) == value);
    assert(trim_trailing_dashes(value) == value);
}

/// The host label does not depend on letter case: a name and the same name
/// with its capitals made small get the same label.
pub proof fn lemma_dns_label_ignores_case(value: Seq<char>)
    ensures
        dns_label_text(value.map_values(|c: char| ascii_lowercase(c))) == dns_label_text(value),
{
    let lowered = value.map_values(|c: char| ascii_lowercase(c));
    assert(lowered.map_values(|c: char| dns_label_char(c)) =~= value.map_values(
        |c: char| dns_label_char(c),
    )) by {
        assert forall|i: int| 0 <= i < value.len() implies dns_label_char(#[trigger] lowered[i])
            == dns_label_char(value[i]) by {
            let c = value[i];
            if 'A' <= c && c <= 'Z' {
                assert('a' <= ascii_lowercase(c) && ascii_lowercase(c) <= 'z');
            }
        }
    }
}

/// Whether a TXT lookup found exactly `value`.
pub open spec fn found(lookup: Option<String>, value: Seq<char>) -> bool {
    lookup matches Some(v) && v@ == value
}

/// A service published with this device's TXT record is accepted when it is
/// resolved with the FlowLink service type and an address, and its values
/// read back as the device's platform, protocol version and open pairing;
/// `service_info_to_peer` then copies the id, name and app version as they are.
pub proof fn lemma_txt_round_trip(identity: &DeviceIdentity, service: &ResolvedService)
    requires
        service.service_type@ == FLOWLINK_MDNS_SERVICE_TYPE@,
        service.addresses@.len() > 0,
        found(service.txt.device_id, txt_entries(identity)[0].1),
        found(service.txt.device_name, txt_entries(identity)[1].1),
        found(service.txt.os, txt_entries(identity)[2].1),
        found(service.txt.arch, txt_entries(identity)[3].1),
        found(service.txt.app_version, txt_entries(identity)[4].1),
        found(service.txt.protocol_version, txt_entries(identity)[5].1),
        found(service.txt.pairing, txt_entries(identity)[6].1),
    ensures
        service_refusal(service) is None,
        service.txt.device_id->0@ == identity.device_id@,
        service.txt.device_name->0@ == identity.device_name@,
        os_of_text(service.txt.os->0@) == identity.os,
        arch_of_text(service.txt.arch->0@) == identity.arch,
        service.txt.app_version->0@ == identity.app_version@,
        parse_u16_text(service.txt.protocol_version->0@) == Some(identity.protocol_version),
        bool_of_text(service.txt.pairing->0@),
{
    crate::discovery::lemma_labels_round_trip(identity.os, identity.arch);
    crate::text::lemma_parse_decimal(identity.protocol_version);
}

} // verus!
