//! The set of peers heard from recently, one entry per device id.
use vstd::prelude::*;
use vstd::multiset::Multiset;
use crate::discovery::{DiscoveredPeer, DiscoveredPeerView};
use crate::storage::files::now_ms;

verus! {

broadcast use vstd::multiset::group_multiset_axioms, vstd::seq_lib::group_to_multiset_ensures;

/// No two entries share a device id.
pub open spec fn ids_distinct(s: Seq<DiscoveredPeerView>) -> bool {
    forall|i: int, j: int|
        0 <= i < s.len() && 0 <= j < s.len() && i != j ==> #[trigger] s[i].device_id
            != #[trigger] s[j].device_id
}

/// Whether some entry has this device id.
pub open spec fn has_id(s: Seq<DiscoveredPeerView>, id: Seq<char>) -> bool {
    exists|i: int| 0 <= i < s.len() && #[trigger] s[i].device_id == id
}

/// The position of the entry with this device id (meaningful when `has_id`).
pub open spec fn id_index(s: Seq<DiscoveredPeerView>, id: Seq<char>) -> int {
    choose|i: int| 0 <= i < s.len() && #[trigger] s[i].device_id == id
}

/// The entry with this device id, if any.
pub open spec fn peer_with_id(s: Seq<DiscoveredPeerView>, id: Seq<char>) -> Option<DiscoveredPeerView> {
    if has_id(s, id) {
        Some(s[id_index(s, id)])
    } else {
        None
    }
}

/// The entries after recording `p`: it replaces the entry with its id, or is
/// added at the end.
pub open spec fn upserted(s: Seq<DiscoveredPeerView>, p: DiscoveredPeerView) -> Seq<DiscoveredPeerView> {
    if has_id(s, p.device_id) {
        s.update(id_index(s, p.device_id), p)
    } else {
        s.push(p)
    }
}

/// The oldest `last_seen_ms` still counted as fresh at `now`.
pub open spec fn cutoff(now: u64, stale_after_ms: u64) -> u64 {
    if now >= stale_after_ms {
        (now - stale_after_ms) as u64
    } else {
        0
    }
}

/// Seen at or after the cutoff.
pub open spec fn is_fresh(cutoff: u64) -> spec_fn(DiscoveredPeerView) -> bool {
    |p: DiscoveredPeerView| p.last_seen_ms >= cutoff
}

/// Seen before the cutoff.
pub open spec fn is_stale(cutoff: u64) -> spec_fn(DiscoveredPeerView) -> bool {
    |p: DiscoveredPeerView| p.last_seen_ms < cutoff
}

/// Most recently seen first.
pub open spec fn newest_first(s: Seq<DiscoveredPeerView>) -> bool {
    forall|i: int, j: int|
        0 <= i < j < s.len() ==> #[trigger] s[i].last_seen_ms >= #[trigger] s[j].last_seen_ms
}

/// `listed` holds exactly the entries fresh at the cutoff, newest first.
pub open spec fn is_listing(entries: Seq<DiscoveredPeerView>, cutoff: u64, listed: Seq<DiscoveredPeerView>) -> bool {
    &&& listed.to_multiset() == entries.filter(is_fresh(cutoff)).to_multiset()
    &&& newest_first(listed)
}

/// `p` placed into a newest-first listing after every entry seen at the same
/// time or later.
pub open spec fn newest_first_insert(s: Seq<DiscoveredPeerView>, p: DiscoveredPeerView) -> Seq<DiscoveredPeerView>
    decreases s.len(),
{
    if s.len() == 0 {
        seq![p]
    } else if s[0].last_seen_ms >= p.last_seen_ms {
        seq![s[0]] + newest_first_insert(s.drop_first(), p)
    } else {
        seq![p] + s
    }
}

/// The listing of the entries seen at or after `cutoff`: taken in cache
/// order, each placed after those seen at the same time or later.
pub open spec fn listing(entries: Seq<DiscoveredPeerView>, cutoff: u64) -> Seq<DiscoveredPeerView>
    decreases entries.len(),
{
    if entries.len() == 0 {
        Seq::empty()
    } else {
        let earlier = listing(entries.drop_last(), cutoff);
        if entries.last().last_seen_ms >= cutoff {
            newest_first_insert(earlier, entries.last())
        } else {
            earlier
        }
    }
}

proof fn lemma_insert_is_newest_first_insert(s: Seq<DiscoveredPeerView>, j: int, p: DiscoveredPeerView)
    requires
        0 <= j <= s.len(),
        forall|k: int| 0 <= k < j ==> #[trigger] s[k].last_seen_ms >= p.last_seen_ms,
        j < s.len() ==> s[j].last_seen_ms < p.last_seen_ms,
    ensures
        s.insert(j, p) == newest_first_insert(s, p),
    decreases s.len(),
{
    if s.len() == 0 {
        assert(s.insert(j, p) =~= seq![p]);
    } else if j == 0 {
        assert(s.insert(j, p) =~= seq![p] + s);
    } else {
        let t = s.drop_first();
        assert forall|k: int| 0 <= k < j - 1 implies #[trigger] t[k].last_seen_ms >= p.last_seen_ms by {
            assert(t[k] == s[k + 1]);
        }
        lemma_insert_is_newest_first_insert(t, j - 1, p);
        assert(s.insert(j, p) =~= seq![s[0]] + t.insert(j - 1, p));
    }
}

pub open spec fn peer_views(v: Seq<DiscoveredPeer>) -> Seq<DiscoveredPeerView> {
    v.map_values(|p: DiscoveredPeer| p@)
}

pub struct DiscoveryCache {
    stale_after_ms: u64,
    peers: Vec<DiscoveredPeer>,
}

impl View for DiscoveryCache {
    type V = Seq<DiscoveredPeerView>;

    closed spec fn view(&self) -> Seq<DiscoveredPeerView> {
        peer_views(self.peers@)
    }
}

#[derive(Debug, Clone, Copy, PartialEq, Eq, Structural)]
pub struct CacheUpsertOutcome {
    pub is_new: bool,
}

proof fn lemma_take_filter_step(s: Seq<DiscoveredPeerView>, i: int, f: spec_fn(DiscoveredPeerView) -> bool)
    requires
        0 <= i < s.len(),
    ensures
        s.take(i + 1).filter(f) == if f(s[i]) {
            s.take(i).filter(f).push(s[i])
        } else {
            s.take(i).filter(f)
        },
{
    assert(s.take(i + 1) =~= s.take(i).push(s[i]));
    s.take(i).lemma_filter_push(s[i], f);
}

proof fn lemma_filter_keeps_distinct(s: Seq<DiscoveredPeerView>, f: spec_fn(DiscoveredPeerView) -> bool)
    requires
        ids_distinct(s),
    ensures
        ids_distinct(s.filter(f)),
    decreases s.len(),
{
    reveal(Seq::filter);
    if s.len() > 0 {
        let init = s.drop_last();
        assert(ids_distinct(init)) by {
            assert forall|a: int, b: int|
                0 <= a < init.len() && 0 <= b < init.len() && a != b implies #[trigger] init[a].device_id
                    != #[trigger] init[b].device_id by {
                assert(init[a] == s[a] && init[b] == s[b]);
            }
        }
        lemma_filter_keeps_distinct(init, f);
        if f(s.last()) {
            let sub = init.filter(f);
            assert(s.filter(f) == sub.push(s.last()));
            assert forall|k: int| 0 <= k < sub.len() implies #[trigger] sub[k].device_id
                != s.last().device_id by {
                let x = sub[k];
                assert(sub.contains(x));
                init.lemma_filter_contains_rev(f, x);
                let m = choose|m: int| 0 <= m < init.len() && init[m] == x;
                assert(s[m] == init[m]);
                assert(s[s.len() - 1] == s.last());
            }
            let t = s.filter(f);
            assert forall|a: int, b: int|
                0 <= a < t.len() && 0 <= b < t.len() && a != b implies #[trigger] t[a].device_id
                    != #[trigger] t[b].device_id by {
                if a < sub.len() && b < sub.len() {
                    assert(t[a] == sub[a] && t[b] == sub[b]);
                } else if a < sub.len() {
                    assert(t[a] == sub[a]);
                } else {
                    assert(t[b] == sub[b]);
                }
            }
        }
    }
}

proof fn lemma_insert_keeps_order(before: Seq<DiscoveredPeerView>, j: int, pv: DiscoveredPeerView)
    requires
        0 <= j <= before.len(),
        newest_first(before),
        forall|k: int| 0 <= k < j ==> #[trigger] before[k].last_seen_ms >= pv.last_seen_ms,
        j < before.len() ==> before[j].last_seen_ms < pv.last_seen_ms,
    ensures
        newest_first(before.insert(j, pv)),
        before.insert(j, pv).to_multiset() == before.to_multiset().insert(pv),
{
    let after = before.insert(j, pv);
    before.insert_ensures(j, pv);
    assert(after.remove(j) =~= before);
    assert(after[j] == pv);
    assert(after.contains(pv));
    assert(after.to_multiset() =~= before.to_multiset().insert(pv));
    assert forall|a: int, b: int| 0 <= a < b < after.len() implies #[trigger] after[a].last_seen_ms
        >= #[trigger] after[b].last_seen_ms by {
        if b < j {
            assert(after[a] == before[a] && after[b] == before[b]);
        } else if b == j {
            assert(after[a] == before[a]);
        } else if a < j {
            assert(after[a] == before[a] && after[b] == before[b - 1]);
        } else if a == j {
            assert(after[b] == before[b - 1]);
            if b - 1 > j {
                assert(before[j].last_seen_ms >= before[b - 1].last_seen_ms);
            }
        } else {
            assert(after[a] == before[a - 1] && after[b] == before[b - 1]);
        }
    }
}

impl DiscoveryCache {
    /// The cache's invariant: no two entries share a device id.
    pub open spec fn well_formed(&self) -> bool {
        ids_distinct(self@)
    }

    /// How long after it was last seen an entry still counts as fresh.
    pub closed spec fn stale_after(&self) -> u64 {
        self.stale_after_ms
    }

    /// An empty cache whose entries go stale `stale_after_ms` after they were seen.
    pub fn new(stale_after_ms: u64) -> (cache: Self)
        ensures
            cache.well_formed(),
            cache@ == Seq::<DiscoveredPeerView>::empty(),
            cache.stale_after() == stale_after_ms,
    {
        let cache = Self { stale_after_ms, peers: Vec::new() };
        assert(cache@ =~= Seq::<DiscoveredPeerView>::empty());
        cache
    }

    /// Records `peer`, replacing the entry with its device id if there is one.
    /// `is_new` tells whether that id was absent.
    pub fn upsert(&mut self, peer: DiscoveredPeer) -> (outcome: CacheUpsertOutcome)
        requires
            old(self).well_formed(),
        ensures
            final(self).well_formed(),
            final(self).stale_after() == old(self).stale_after(),
            outcome.is_new == !has_id(old(self)@, peer@.device_id),
            final(self)@ == upserted(old(self)@, peer@),
    {
        let ghost before = self@;
        let mut i: usize = 0;
        while i < self.peers.len()
            invariant
                i <= self.peers@.len(),
                self@ == before,
                before == old(self)@,
                ids_distinct(before),
                self.stale_after_ms == old(self).stale_after_ms,
                forall|k: int| 0 <= k < i ==> #[trigger] before[k].device_id != peer@.device_id,
            decreases self.peers@.len() - i,
        {
            if self.peers[i].device_id == peer.device_id {
                proof {
                    assert(before[i as int].device_id == peer@.device_id);
                    assert(has_id(before, peer@.device_id));
                    assert(id_index(before, peer@.device_id) == i) by {
                        let j = id_index(before, peer@.device_id);
                        if j != i {
                            assert(before[j].device_id == before[i as int].device_id);
                        }
                    }
                }
                self.peers.set(i, peer);
                proof {
                    assert(self@ =~= before.update(i as int, peer@));
                    assert(ids_distinct(self@)) by {
                        assert forall|a: int, b: int|
                            0 <= a < self@.len() && 0 <= b < self@.len() && a != b implies #[trigger] self@[a].device_id
                                != #[trigger] self@[b].device_id by {
                            if a != i && b != i {
                                assert(self@[a] == before[a]);
                                assert(self@[b] == before[b]);
                            } else if a == i {
                                assert(self@[b] == before[b]);
                            } else {
                                assert(self@[a] == before[a]);
                            }
                        }
                    }
                }
                return CacheUpsertOutcome { is_new: false };
            }
            i = i + 1;
        }
        proof {
            assert(!has_id(before, peer@.device_id));
        }
        self.peers.push(peer);
        proof {
            assert(self@ =~= before.push(peer@));
            assert forall|a: int, b: int|
                0 <= a < self@.len() && 0 <= b < self@.len() && a != b implies #[trigger] self@[a].device_id
                    != #[trigger] self@[b].device_id by {
                if a < before.len() && b < before.len() {
                    assert(self@[a] == before[a]);
                    assert(self@[b] == before[b]);
                } else if a < before.len() {
                    assert(self@[a] == before[a]);
                } else {
                    assert(self@[b] == before[b]);
                }
            }
        }
        CacheUpsertOutcome { is_new: true }
    }

    /// Records a peer heard from the network and hands back a copy of it if
    /// its id was not known yet (the moment to announce a new device).
    pub fn record_discovery(&mut self, peer: DiscoveredPeer) -> (announced: Option<DiscoveredPeer>)
        requires
            old(self).well_formed(),
        ensures
            final(self).well_formed(),
            final(self).stale_after() == old(self).stale_after(),
            final(self)@ == upserted(old(self)@, peer@),
            announced is Some <==> !has_id(old(self)@, peer@.device_id),
            announced matches Some(p) ==> p@ == peer@,
    {
        let copy = peer.clone();
        let outcome = self.upsert(peer);
        if outcome.is_new {
            Some(copy)
        } else {
            None
        }
    }

    /// The entries fresh now: exactly what `list_at` gives at the clock
    /// reading taken, in the same order.
    pub fn list(&self) -> (peers: Vec<DiscoveredPeer>)
        ensures
            exists|now: u64| peer_views(peers@) == #[trigger] listing(self@, cutoff(now, self.stale_after()))
                && is_listing(self@, cutoff(now, self.stale_after()), peer_views(peers@)),
    {
        let now = now_ms();
        self.list_at(now)
    }

    /// The entries seen no earlier than `stale_after_ms` before `now_ms`,
    /// newest first.
    pub fn list_at(&self, now_ms: u64) -> (peers: Vec<DiscoveredPeer>)
        ensures
            peer_views(peers@) == listing(self@, cutoff(now_ms, self.stale_after())),
            is_listing(self@, cutoff(now_ms, self.stale_after()), peer_views(peers@)),
    {
        let cutoff = now_ms.saturating_sub(self.stale_after_ms);
        let ghost entries = self@;
        let ghost fresh = is_fresh(cutoff);
        let mut listed: Vec<DiscoveredPeer> = Vec::new();
        let mut i: usize = 0;
        assert(entries.take(0) =~= Seq::<DiscoveredPeerView>::empty());
        assert(peer_views(listed@) =~= Seq::<DiscoveredPeerView>::empty());
        while i < self.peers.len()
            invariant
                i <= self.peers@.len(),
                entries == self@,
                fresh == is_fresh(cutoff),
                peer_views(listed@).to_multiset() == entries.take(i as int).filter(fresh).to_multiset(),
                newest_first(peer_views(listed@)),
                peer_views(listed@) == listing(entries.take(i as int), cutoff),
            decreases self.peers@.len() - i,
        {
            proof {
                lemma_take_filter_step(entries, i as int, fresh);
                assert(entries[i as int] == self.peers@[i as int]@);
                assert(entries.take(i + 1).drop_last() =~= entries.take(i as int));
                assert(entries.take(i + 1).last() == entries[i as int]);
            }
            if self.peers[i].last_seen_ms >= cutoff {
                let peer = self.peers[i].clone();
                let key = peer.last_seen_ms;
                let ghost before = peer_views(listed@);
                let mut j: usize = 0;
                while j < listed.len() && listed[j].last_seen_ms >= key
                    invariant
                        j <= listed@.len(),
                        before == peer_views(listed@),
                        forall|k: int| 0 <= k < j ==> #[trigger] before[k].last_seen_ms >= key,
                    decreases listed@.len() - j,
                {
                    j = j + 1;
                }
                let ghost pv = peer@;
                proof {
                    if j < before.len() {
                        assert(before[j as int].last_seen_ms < key);
                    }
                    lemma_insert_keeps_order(before, j as int, pv);
                    lemma_insert_is_newest_first_insert(before, j as int, pv);
                }
                listed.insert(j, peer);
                assert(peer_views(listed@) =~= before.insert(j as int, pv));
            }
            i = i + 1;
        }
        assert(entries.take(self.peers@.len() as int) =~= entries);
        listed
    }

    /// Removes the entries last seen more than `stale_after_ms` before
    /// `now_ms` and returns them, in cache order.
    pub fn evict_stale(&mut self, now_ms: u64) -> (evicted: Vec<DiscoveredPeer>)
        requires
            old(self).well_formed(),
        ensures
            final(self).well_formed(),
            final(self).stale_after() == old(self).stale_after(),
            final(self)@ == old(self)@.filter(is_fresh(cutoff(now_ms, old(self).stale_after()))),
            peer_views(evicted@) == old(self)@.filter(is_stale(cutoff(now_ms, old(self).stale_after()))),
    {
        let cutoff = now_ms.saturating_sub(self.stale_after_ms);
        let ghost entries = self@;
        let ghost fresh = is_fresh(cutoff);
        let ghost stale = is_stale(cutoff);
        let mut remaining: Vec<DiscoveredPeer> = Vec::new();
        std::mem::swap(&mut remaining, &mut self.peers);
        let mut kept: Vec<DiscoveredPeer> = Vec::new();
        let mut evicted: Vec<DiscoveredPeer> = Vec::new();
        let ghost n = entries.len();
        assert(entries.take(0) =~= Seq::<DiscoveredPeerView>::empty());
        assert(peer_views(kept@) =~= Seq::<DiscoveredPeerView>::empty());
        assert(peer_views(evicted@) =~= Seq::<DiscoveredPeerView>::empty());
        assert(peer_views(remaining@) =~= entries.skip(0));
        while remaining.len() > 0
            invariant
                n == entries.len(),
                self.peers@.len() == 0,
                self.stale_after_ms == old(self).stale_after_ms,
                entries == old(self)@,
                fresh == is_fresh(cutoff),
                stale == is_stale(cutoff),
                remaining@.len() <= n,
                peer_views(remaining@) == entries.skip(n - remaining@.len()),
                peer_views(kept@) == entries.take(n - remaining@.len()).filter(fresh),
                peer_views(evicted@) == entries.take(n - remaining@.len()).filter(stale),
            decreases remaining@.len(),
        {
            let ghost i = n - remaining@.len();
            let ghost old_remaining = remaining@;
            let peer = remaining.remove(0);
            proof {
                assert(remaining@ =~= old_remaining.subrange(1, old_remaining.len() as int));
                assert forall|k: int| 0 <= k < remaining@.len() implies #[trigger] peer_views(remaining@)[k]
                    == entries.skip(i + 1)[k] by {
                    assert(remaining@[k] == old_remaining[k + 1]);
                    assert(peer_views(old_remaining)[k + 1] == entries.skip(i)[k + 1]);
                }
                assert(peer@ == entries.skip(i)[0]);
                assert(entries[i] == peer@);
                lemma_take_filter_step(entries, i, fresh);
                lemma_take_filter_step(entries, i, stale);
                assert(peer_views(remaining@) =~= entries.skip(i + 1));
            }
            if peer.last_seen_ms < cutoff {
                evicted.push(peer);
                assert(peer_views(evicted@) =~= entries.take(i + 1).filter(stale));
                assert(peer_views(kept@) =~= entries.take(i + 1).filter(fresh));
            } else {
                kept.push(peer);
                assert(peer_views(evicted@) =~= entries.take(i + 1).filter(stale));
                assert(peer_views(kept@) =~= entries.take(i + 1).filter(fresh));
            }
        }
        proof {
            assert(entries.take(n as int) =~= entries);
            lemma_filter_keeps_distinct(entries, fresh);
        }
        self.peers = kept;
        evicted
    }
}

/// Reading back after a write: after recording `p`, the entry for its id is
/// `p`, every other id keeps its entry, and ids stay distinct.
pub proof fn lemma_upsert_then_lookup(s: Seq<DiscoveredPeerView>, p: DiscoveredPeerView, id: Seq<char>)
    requires
        ids_distinct(s),
    ensures
        ids_distinct(upserted(s, p)),
        peer_with_id(upserted(s, p), p.device_id) == Some(p),
        id != p.device_id ==> peer_with_id(upserted(s, p), id) == peer_with_id(s, id),
{
    let t = upserted(s, p);
    if has_id(s, p.device_id) {
        let k = id_index(s, p.device_id);
        assert(t == s.update(k, p));
        assert forall|a: int, b: int| 0 <= a < t.len() && 0 <= b < t.len() && a != b implies #[trigger] t[a].device_id
            != #[trigger] t[b].device_id by {
            if a != k && b != k {
            } else if a == k {
                assert(s[b].device_id != s[k].device_id);
            } else {
                assert(s[a].device_id != s[k].device_id);
            }
        }
        assert(t[k].device_id == p.device_id);
        assert(has_id(t, p.device_id));
        let j = id_index(t, p.device_id);
        if j != k {
            assert(t[j].device_id == t[k].device_id);
        }
        if id != p.device_id {
            if has_id(s, id) {
                let m = id_index(s, id);
                assert(m != k);
                assert(t[m] == s[m]);
                assert(has_id(t, id));
                let m2 = id_index(t, id);
                if m2 != m {
                    assert(t[m2].device_id == t[m].device_id);
                }
            } else {
                if has_id(t, id) {
                    let m2 = id_index(t, id);
                    assert(m2 != k);
                    assert(s[m2] == t[m2]);
                }
            }
        }
    } else {
        assert(t == s.push(p));
        assert forall|a: int, b: int| 0 <= a < t.len() && 0 <= b < t.len() && a != b implies #[trigger] t[a].device_id
            != #[trigger] t[b].device_id by {
            if a < s.len() && b < s.len() {
                assert(t[a] == s[a] && t[b] == s[b]);
            } else if a < s.len() {
                assert(t[a] == s[a]);
            } else {
                assert(t[b] == s[b]);
            }
        }
        let k = s.len() as int;
        assert(t[k].device_id == p.device_id);
        assert(has_id(t, p.device_id));
        let j = id_index(t, p.device_id);
        if j != k {
            assert(t[j].device_id == t[k].device_id);
        }
        if id != p.device_id {
            if has_id(s, id) {
                let m = id_index(s, id);
                assert(t[m] == s[m]);
                assert(has_id(t, id));
                let m2 = id_index(t, id);
                if m2 != m {
                    assert(t[m2].device_id == t[m].device_id);
                }
            } else {
                if has_id(t, id) {
                    let m2 = id_index(t, id);
                    assert(m2 != k);
                    assert(s[m2] == t[m2]);
                }
            }
        }
    }
}

proof fn lemma_filter_partition(s: Seq<DiscoveredPeerView>, c: u64)
    ensures
        s.to_multiset() == s.filter(is_fresh(c)).to_multiset().add(s.filter(is_stale(c)).to_multiset()),
    decreases s.len(),
{
    reveal(Seq::filter);
    if s.len() == 0 {
        assert(s.to_multiset() =~= Multiset::empty());
        assert(s.filter(is_fresh(c)).to_multiset() =~= Multiset::empty());
        assert(s.filter(is_stale(c)).to_multiset() =~= Multiset::empty());
    } else {
        let init = s.drop_last();
        lemma_filter_partition(init, c);
        assert(s =~= init.push(s.last()));
        init.lemma_filter_push(s.last(), is_fresh(c));
        init.lemma_filter_push(s.last(), is_stale(c));
        assert(s.to_multiset() =~= init.to_multiset().insert(s.last()));
    }
}

/// Evicting loses nothing: the kept and the evicted entries together are the
/// entries before, and after eviction at `now` every entry is still listed at `now`.
pub proof fn lemma_evict_partitions(s: Seq<DiscoveredPeerView>, now: u64, stale_after_ms: u64)
    ensures
        s.to_multiset() == s.filter(is_fresh(cutoff(now, stale_after_ms))).to_multiset().add(
            s.filter(is_stale(cutoff(now, stale_after_ms))).to_multiset(),
        ),
        s.filter(is_fresh(cutoff(now, stale_after_ms))).filter(is_fresh(cutoff(now, stale_after_ms)))
            == s.filter(is_fresh(cutoff(now, stale_after_ms))),
{
    let c = cutoff(now, stale_after_ms);
    lemma_filter_partition(s, c);
    lemma_filter_idempotent(s, is_fresh(c));
}

proof fn lemma_filter_idempotent(s: Seq<DiscoveredPeerView>, f: spec_fn(DiscoveredPeerView) -> bool)
    ensures
        s.filter(f).filter(f) == s.filter(f),
    decreases s.len(),
{
    reveal(Seq::filter);
    if s.len() > 0 {
        let init = s.drop_last();
        lemma_filter_idempotent(init, f);
        assert(s =~= init.push(s.last()));
        init.lemma_filter_push(s.last(), f);
        if f(s.last()) {
            init.filter(f).lemma_filter_push(s.last(), f);
        }
    }
}

} // verus!
