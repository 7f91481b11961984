//! Application settings and the records of trusted peers and screen layouts.
pub mod defaults;
pub mod validate;

use vstd::prelude::*;
use crate::protocol::messages::{ArchType, LayoutDirection, OsType, TimestampMs};
use crate::storage::files::now_ms;

verus! {

#[derive(Debug, Clone)]
pub struct AppConfig {
    pub schema_version: u16,
    pub local_device_name_override: Option<String>,
    pub network: NetworkConfig,
    pub discovery: DiscoveryConfig,
    pub layouts: Vec<LayoutConfig>,
    pub ui: UiConfig,
    pub updated_at_ms: TimestampMs,
}

#[derive(Debug, Clone, Copy, PartialEq, Eq, Structural)]
pub struct NetworkConfig {
    pub listen_port: u16,
    pub connect_timeout_ms: u64,
    pub heartbeat_interval_ms: u64,
    pub heartbeat_timeout_ms: u64,
    pub reconnect_min_delay_ms: u64,
    pub reconnect_max_delay_ms: u64,
}

#[derive(Debug, Clone, Copy, PartialEq, Eq, Structural)]
pub struct DiscoveryConfig {
    pub mdns_enabled: bool,
    pub udp_broadcast_enabled: bool,
    pub udp_port: u16,
    pub announce_interval_ms: u64,
    pub stale_after_ms: u64,
}

#[derive(Debug, Clone)]
pub struct UiConfig {
    pub start_minimized: bool,
    pub show_diagnostics: bool,
    pub last_selected_peer_id: Option<String>,
}

#[derive(Debug, Clone)]
pub struct LayoutConfig {
    pub peer_id: String,
    pub direction: LayoutDirection,
    pub edge_thickness_px: u32,
    pub corner_guard_px: u32,
    pub enabled: bool,
    pub updated_at_ms: TimestampMs,
}

#[derive(Debug, Clone)]
pub struct TrustedPeer {
    pub peer_id: String,
    pub device_name: String,
    pub os: OsType,
    pub arch: ArchType,
    pub public_key: Vec<u8>,
    pub last_known_addresses: Vec<String>,
    pub last_seen_ms: Option<TimestampMs>,
    pub paired_at_ms: TimestampMs,
    pub app_version_at_pairing: String,
    pub protocol_version: u16,
    pub trust_state: TrustState,
}

#[derive(Debug, Clone, Copy, PartialEq, Eq, Structural)]
pub enum TrustState {
    Trusted,
    Blocked,
    Removed,
}

impl Default for AppConfig {
    fn default() -> (config: Self)
        ensures
            defaults::is_default_config(&config),
    {
        defaults::default_app_config()
    }
}

/// The position of the first layout for `peer_id`.
pub open spec fn first_layout_index(s: Seq<LayoutConfig>, peer_id: Seq<char>) -> int {
    choose|i: int|
        0 <= i < s.len() && s[i].peer_id@ == peer_id && forall|k: int|
            0 <= k < i ==> #[trigger] s[k].peer_id@ != peer_id
}

/// Whether some layout is for `peer_id`.
pub open spec fn has_layout_for(s: Seq<LayoutConfig>, peer_id: Seq<char>) -> bool {
    exists|i: int| 0 <= i < s.len() && #[trigger] s[i].peer_id@ == peer_id
}

/// The layouts after saving `layout`: it replaces the first layout for the
/// same peer, or is added at the end.
pub open spec fn layouts_upserted(s: Seq<LayoutConfig>, layout: LayoutConfig) -> Seq<LayoutConfig> {
    if has_layout_for(s, layout.peer_id@) {
        s.update(first_layout_index(s, layout.peer_id@), layout)
    } else {
        s.push(layout)
    }
}

/// No two layouts are for the same peer.
pub open spec fn layout_peers_distinct(s: Seq<LayoutConfig>) -> bool {
    forall|i: int, j: int|
        0 <= i < s.len() && 0 <= j < s.len() && i != j ==> #[trigger] s[i].peer_id@
            != #[trigger] s[j].peer_id@
}

impl AppConfig {
    /// Saves a layout, replacing the first one for the same peer, and stamps
    /// the configuration with the current time.
    pub fn upsert_layout(&mut self, layout: LayoutConfig)
        ensures
            final(self).layouts@ == layouts_upserted(old(self).layouts@, layout),
            final(self).schema_version == old(self).schema_version,
            final(self).local_device_name_override == old(self).local_device_name_override,
            final(self).network == old(self).network,
            final(self).discovery == old(self).discovery,
            final(self).ui == old(self).ui,
    {
        let ghost before = self.layouts@;
        let mut i: usize = 0;
        while i < self.layouts.len()
            invariant
                i <= self.layouts@.len(),
                self.layouts@ == before,
                before == old(self).layouts@,
                self.schema_version == old(self).schema_version,
                self.local_device_name_override == old(self).local_device_name_override,
                self.network == old(self).network,
                self.discovery == old(self).discovery,
                self.ui == old(self).ui,
                forall|k: int| 0 <= k < i ==> #[trigger] before[k].peer_id@ != layout.peer_id@,
            decreases self.layouts@.len() - i,
        {
            if self.layouts[i].peer_id == layout.peer_id {
                proof {
                    assert(has_layout_for(before, layout.peer_id@));
                    lemma_is_first_layout(before, layout.peer_id@, i as int);
                }
                self.layouts.set(i, layout);
                self.updated_at_ms = now_ms();
                return;
            }
            i = i + 1;
        }
        self.layouts.push(layout);
        self.updated_at_ms = now_ms();
    }
}

proof fn lemma_is_first_layout(s: Seq<LayoutConfig>, peer_id: Seq<char>, i: int)
    requires
        0 <= i < s.len(),
        s[i].peer_id@ == peer_id,
        forall|k: int| 0 <= k < i ==> #[trigger] s[k].peer_id@ != peer_id,
    ensures
        first_layout_index(s, peer_id) == i,
{
    let j = first_layout_index(s, peer_id);
    assert(s[i].peer_id@ == peer_id && forall|k: int| 0 <= k < i ==> #[trigger] s[k].peer_id@ != peer_id);
    if j < i {
        assert(s[j].peer_id@ != peer_id);
    } else if j > i {
        assert(s[i].peer_id@ != peer_id);
    }
}

/// The position that saving `layout` writes to.
spec fn upsert_position(s: Seq<LayoutConfig>, layout: LayoutConfig) -> int {
    if has_layout_for(s, layout.peer_id@) {
        first_layout_index(s, layout.peer_id@)
    } else {
        s.len() as int
    }
}

proof fn lemma_upsert_shape(s: Seq<LayoutConfig>, layout: LayoutConfig)
    ensures
        0 <= upsert_position(s, layout) <= s.len(),
        layouts_upserted(s, layout).len() == if upsert_position(s, layout) < s.len() {
            s.len()
        } else {
            s.len() + 1
        },
        layouts_upserted(s, layout)[upsert_position(s, layout)] == layout,
        upsert_position(s, layout) < s.len() ==> s[upsert_position(s, layout)].peer_id@
            == layout.peer_id@,
        forall|m: int|
            0 <= m < s.len() && m != upsert_position(s, layout) ==> #[trigger] layouts_upserted(
                s,
                layout,
            )[m] == s[m],
        forall|m: int|
            0 <= m < upsert_position(s, layout) ==> #[trigger] s[m].peer_id@ != layout.peer_id@,
{
    if has_layout_for(s, layout.peer_id@) {
        lemma_first_layout_index_exists(s, layout.peer_id@);
    }
}

/// After saving a layout, the layout found for its peer is the one saved.
pub proof fn lemma_upsert_layout_reads_back(s: Seq<LayoutConfig>, layout: LayoutConfig)
    ensures
        has_layout_for(layouts_upserted(s, layout), layout.peer_id@),
        layouts_upserted(s, layout)[first_layout_index(layouts_upserted(s, layout), layout.peer_id@)]
            == layout,
{
    let t = layouts_upserted(s, layout);
    let k = upsert_position(s, layout);
    lemma_upsert_shape(s, layout);
    assert(t[k].peer_id@ == layout.peer_id@);
    assert forall|m: int| 0 <= m < k implies #[trigger] t[m].peer_id@ != layout.peer_id@ by {
        assert(t[m] == s[m]);
    }
    lemma_is_first_layout(t, layout.peer_id@, k);
}

/// Saving a layout leaves the layout found for any other peer as it was.
pub proof fn lemma_upsert_layout_keeps_others(s: Seq<LayoutConfig>, layout: LayoutConfig, other: Seq<char>)
    requires
        other != layout.peer_id@,
    ensures
        has_layout_for(layouts_upserted(s, layout), other) == has_layout_for(s, other),
        has_layout_for(s, other) ==> layouts_upserted(s, layout)[first_layout_index(
            layouts_upserted(s, layout),
            other,
        )] == s[first_layout_index(s, other)],
{
    let t = layouts_upserted(s, layout);
    let k = upsert_position(s, layout);
    lemma_upsert_shape(s, layout);
    assert(t[k].peer_id@ != other);
    if has_layout_for(s, other) {
        lemma_first_layout_index_exists(s, other);
        let a = first_layout_index(s, other);
        assert(a != k);
        assert(t[a] == s[a]);
        assert forall|m: int| 0 <= m < a implies #[trigger] t[m].peer_id@ != other by {
            if m != k {
                assert(t[m] == s[m]);
            }
        }
        lemma_is_first_layout(t, other, a);
    } else if has_layout_for(t, other) {
        let w = choose|w: int| 0 <= w < t.len() && #[trigger] t[w].peer_id@ == other;
        assert(w != k);
        assert(s[w] == t[w]);
    }
}

/// If every peer had at most one layout, saving a layout keeps it so.
pub proof fn lemma_upsert_layout_keeps_distinct(s: Seq<LayoutConfig>, layout: LayoutConfig)
    requires
        layout_peers_distinct(s),
    ensures
        layout_peers_distinct(layouts_upserted(s, layout)),
{
    let t = layouts_upserted(s, layout);
    let k = upsert_position(s, layout);
    lemma_upsert_shape(s, layout);
    assert forall|a: int, b: int|
        0 <= a < t.len() && 0 <= b < t.len() && a != b implies #[trigger] t[a].peer_id@
            != #[trigger] t[b].peer_id@ by {
        if a != k && b != k {
            assert(t[a] == s[a] && t[b] == s[b]);
        } else if a == k {
            assert(t[b] == s[b]);
            if k < s.len() {
                assert(s[k].peer_id@ == layout.peer_id@);
            } else {
                assert(!has_layout_for(s, layout.peer_id@));
            }
        } else {
            assert(t[a] == s[a]);
            if k < s.len() {
                assert(s[k].peer_id@ == layout.peer_id@);
            } else {
                assert(!has_layout_for(s, layout.peer_id@));
            }
        }
    }
}

/// When some layout is for `peer_id`, there is a first one.
pub proof fn lemma_first_layout_index_exists(s: Seq<LayoutConfig>, peer_id: Seq<char>)
    requires
        has_layout_for(s, peer_id),
    ensures
        0 <= first_layout_index(s, peer_id) < s.len(),
        s[first_layout_index(s, peer_id)].peer_id@ == peer_id,
        forall|k: int|
            0 <= k < first_layout_index(s, peer_id) ==> #[trigger] s[k].peer_id@ != peer_id,
    decreases s.len(),
{
    let w = choose|w: int| 0 <= w < s.len() && #[trigger] s[w].peer_id@ == peer_id;
    lemma_first_index_below(s, peer_id, w);
}

proof fn lemma_first_index_below(s: Seq<LayoutConfig>, peer_id: Seq<char>, w: int)
    requires
        0 <= w < s.len(),
        s[w].peer_id@ == peer_id,
    ensures
        exists|i: int|
            0 <= i < s.len() && s[i].peer_id@ == peer_id && forall|k: int|
                0 <= k < i ==> #[trigger] s[k].peer_id@ != peer_id,
    decreases w,
{
    if exists|k: int| 0 <= k < w && #[trigger] s[k].peer_id@ == peer_id {
        let k = choose|k: int| 0 <= k < w && #[trigger] s[k].peer_id@ == peer_id;
        lemma_first_index_below(s, peer_id, k);
    } else {
        assert(forall|k: int| 0 <= k < w ==> #[trigger] s[k].peer_id@ != peer_id);
    }
}

} // verus!
