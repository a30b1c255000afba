//! The per-target stack cache.
//!
//! Composed request pipelines are expensive to build and cheap to share, so
//! the proxy memoizes one per key. Construction is single-flight: while an
//! entry is being built, further lookups for the same key join the build
//! instead of starting another. Handles are counted; when the last one is
//! released the entry turns idle, and a sweep evicts entries whose idle age
//! has reached the configured bound — and none younger. Time enters as an
//! explicit millisecond stamp, services as opaque identifiers assigned by
//! the builder that completes a construction.

use vstd::prelude::*;
use crate::addr::SockAddr;
use crate::detect::Version;

verus! {

/// The key of one cached stack: the endpoint address, the verified peer
/// identity when there is one (interned to a number), and the session
/// protocol when one is known.
#[derive(Clone, Copy, Debug, PartialEq, Eq, Hash, Structural)]
pub struct StackKey {
    pub addr: SockAddr,
    pub identity: Option<u64>,
    pub protocol: Option<Version>,
}

impl StackKey {
    /// Structural equality of keys.
    pub fn same(&self, other: &StackKey) -> (r: bool)
        ensures
            r == (*self == *other),
    {
        let ids_eq = match (self.identity, other.identity) {
            (None, None) => true,
            (Some(a), Some(b)) => a == b,
            _ => false,
        };
        let protos_eq = match (self.protocol, other.protocol) {
            (None, None) => true,
            (Some(a), Some(b)) => a == b,
            _ => false,
        };
        self.addr == other.addr && ids_eq && protos_eq
    }
}

/// The lifecycle state of one cache entry.
#[derive(Clone, Copy, Debug, PartialEq, Eq, Structural)]
pub enum EntryState {
    /// Construction is in flight; lookups for the key join it.
    Building,
    /// The entry is live and `refs` handles are outstanding.
    Live { refs: u64 },
    /// The last handle was released at `since`; the entry awaits eviction.
    Idle { since: u64 },
}

/// One cache entry: its key, its lifecycle state, and the identifier of the
/// built service (zero until construction completes).
#[derive(Clone, Copy, Debug, PartialEq, Eq, Structural)]
pub struct CacheEntry {
    pub key: StackKey,
    pub state: EntryState,
    pub service: u64,
}

/// What a lookup told the caller to do.
#[derive(Clone, Copy, Debug, PartialEq, Eq, Structural)]
pub enum CacheLookup {
    /// The entry is live; use this service. The caller now holds one handle.
    Ready { service: u64 },
    /// Another caller is building this entry; wait for it and look up again.
    MustWait,
    /// No entry existed; the caller must build the service and hand it to
    /// [`StackCache::complete_build`].
    StartBuild,
}

/// The index of the entry with the given key, or `-1`.
pub open spec fn spec_find_index(s: Seq<CacheEntry>, k: StackKey) -> int
    decreases s.len(),
{
    if s.len() == 0 {
        -1
    } else if s[0].key == k {
        0
    } else {
        let r = spec_find_index(s.drop_first(), k);
        if r == -1 {
            -1
        } else {
            r + 1
        }
    }
}

/// What `spec_find_index` returns: `-1` exactly when no entry has the key,
/// else the first index that does.
pub proof fn lemma_find_index(s: Seq<CacheEntry>, k: StackKey)
    ensures
        spec_find_index(s, k) == -1 ==> forall|j: int| 0 <= j < s.len() ==> s[j].key != k,
        spec_find_index(s, k) != -1 ==> {
            let i = spec_find_index(s, k);
            &&& 0 <= i < s.len()
            &&& s[i].key == k
            &&& forall|j: int| 0 <= j < i ==> s[j].key != k
        },
    decreases s.len(),
{
    if s.len() == 0 {
    } else if s[0].key == k {
    } else {
        lemma_find_index(s.drop_first(), k);
        let r = spec_find_index(s.drop_first(), k);
        if r == -1 {
            assert forall|j: int| 0 <= j < s.len() implies s[j].key != k by {
                if j > 0 {
                    assert(s.drop_first()[j - 1] == s[j]);
                }
            }
        } else {
            assert(s.drop_first()[r] == s[r + 1]);
            assert forall|j: int| 0 <= j < r + 1 implies s[j].key != k by {
                if j > 0 {
                    assert(s.drop_first()[j - 1] == s[j]);
                }
            }
        }
    }
}

/// Whether no two entries share a key.
pub open spec fn spec_keys_unique(s: Seq<CacheEntry>) -> bool {
    forall|i: int, j: int| 0 <= i < j < s.len() ==> s[i].key != s[j].key
}

/// Saturating increment.
pub open spec fn spec_sat_inc(x: u64) -> u64 {
    if x == u64::MAX {
        x
    } else {
        (x + 1) as u64
    }
}

/// The cache: at most one entry per key, a configured idle bound in
/// milliseconds, and a count of how many constructions were ever started.
#[derive(Debug)]
pub struct StackCache {
    /// The entries; no two share a key.
    pub entries: Vec<CacheEntry>,
    /// How long an idle entry is retained, in milliseconds.
    pub max_idle_ms: u64,
    /// How many constructions have been started.
    pub builds: u64,
}

/// The state and answer after one lookup: an absent key starts exactly one
/// construction; a key being built makes the caller wait and changes
/// nothing; a live or idle entry is shared, becoming live with one more
/// handle.
pub open spec fn spec_get_or_build(s: Seq<CacheEntry>, builds: u64, k: StackKey) -> (
    Seq<CacheEntry>,
    u64,
    CacheLookup,
) {
    let i = spec_find_index(s, k);
    if i == -1 {
        (
            s.push(CacheEntry { key: k, state: EntryState::Building, service: 0 }),
            spec_sat_inc(builds),
            CacheLookup::StartBuild,
        )
    } else {
        match s[i].state {
            EntryState::Building => (s, builds, CacheLookup::MustWait),
            EntryState::Live { refs } => (
                s.update(
                    i,
                    CacheEntry {
                        key: k,
                        state: EntryState::Live { refs: spec_sat_inc(refs) },
                        service: s[i].service,
                    },
                ),
                builds,
                CacheLookup::Ready { service: s[i].service },
            ),
            EntryState::Idle { since } => (
                s.update(
                    i,
                    CacheEntry {
                        key: k,
                        state: EntryState::Live { refs: 1 },
                        service: s[i].service,
                    },
                ),
                builds,
                CacheLookup::Ready { service: s[i].service },
            ),
        }
    }
}

/// Whether an entry's idle age has reached the bound at time `now`.
pub open spec fn spec_expired(e: CacheEntry, now: u64, ttl: u64) -> bool {
    match e.state {
        EntryState::Idle { since } => since + ttl <= now,
        _ => false,
    }
}

/// The entries surviving a sweep at time `now`: those not expired, in
/// order.
pub open spec fn spec_swept(s: Seq<CacheEntry>, now: u64, ttl: u64) -> Seq<CacheEntry>
    decreases s.len(),
{
    if s.len() == 0 {
        Seq::empty()
    } else {
        let rest = spec_swept(s.drop_first(), now, ttl);
        if spec_expired(s[0], now, ttl) {
            rest
        } else {
            seq![s[0]] + rest
        }
    }
}

/// Every survivor of a sweep stands in the original sequence.
pub proof fn lemma_swept_members(s: Seq<CacheEntry>, now: u64, ttl: u64)
    ensures
        forall|j: int|
            0 <= j < spec_swept(s, now, ttl).len() ==> s.contains(
                #[trigger] spec_swept(s, now, ttl)[j],
            ),
    decreases s.len(),
{
    if s.len() > 0 {
        lemma_swept_members(s.drop_first(), now, ttl);
        let rest = spec_swept(s.drop_first(), now, ttl);
        assert forall|j: int| 0 <= j < spec_swept(s, now, ttl).len() implies s.contains(
            #[trigger] spec_swept(s, now, ttl)[j],
        ) by {
            let e = spec_swept(s, now, ttl)[j];
            if spec_expired(s[0], now, ttl) || j > 0 {
                let jr = if spec_expired(s[0], now, ttl) {
                    j
                } else {
                    j - 1
                };
                assert(rest[jr] == e);
                assert(s.drop_first().contains(e));
                let m = choose|m: int| 0 <= m < s.drop_first().len() && s.drop_first()[m] == e;
                assert(s[m + 1] == e);
            } else {
                assert(e == s[0]);
            }
        }
    }
}

impl StackCache {
    /// Well-formed: no two entries share a key.
    pub open spec fn wf(self) -> bool {
        spec_keys_unique(self.entries@)
    }

    /// An empty cache with the given idle bound.
    pub fn new(max_idle_ms: u64) -> (c: StackCache)
        ensures
            c.wf(),
            c.entries@.len() == 0,
            c.max_idle_ms == max_idle_ms,
            c.builds == 0,
    {
        StackCache { entries: Vec::new(), max_idle_ms, builds: 0 }
    }

    /// The index of the entry with key `k`, if any.
    fn find(&self, k: &StackKey) -> (r: Option<usize>)
        ensures
            r matches Some(i) ==> i == spec_find_index(self.entries@, *k),
            r is None ==> spec_find_index(self.entries@, *k) == -1,
    {
        let mut i: usize = 0;
        while i < self.entries.len()
            invariant
                i <= self.entries@.len(),
                forall|j: int| 0 <= j < i ==> self.entries@[j].key != *k,
            decreases self.entries@.len() - i,
        {
            if self.entries[i].key.same(k) {
                proof {
                    lemma_find_index(self.entries@, *k);
                }
                return Some(i);
            }
            i = i + 1;
        }
        proof {
            lemma_find_index(self.entries@, *k);
        }
        None
    }

    /// Looks the key up, sharing a live or idle entry, joining an in-flight
    /// construction, or registering a new one — never starting a second
    /// build for a key already being built.
    pub fn get_or_build(&mut self, k: StackKey) -> (r: CacheLookup)
        requires
            old(self).wf(),
        ensures
            final(self).wf(),
            (final(self).entries@, final(self).builds, r) == spec_get_or_build(
                old(self).entries@,
                old(self).builds,
                k,
            ),
            final(self).max_idle_ms == old(self).max_idle_ms,
    {
        proof {
            lemma_find_index(self.entries@, k);
        }
        match self.find(&k) {
            None => {
                self.entries.push(CacheEntry { key: k, state: EntryState::Building, service: 0 });
                self.builds = if self.builds == u64::MAX {
                    self.builds
                } else {
                    self.builds + 1
                };
                CacheLookup::StartBuild
            },
            Some(i) => {
                let e = self.entries[i];
                match e.state {
                    EntryState::Building => CacheLookup::MustWait,
                    EntryState::Live { refs } => {
                        let bumped: u64 = if refs == u64::MAX {
                            refs
                        } else {
                            refs + 1
                        };
                        self.entries.set(
                            i,
                            CacheEntry {
                                key: k,
                                state: EntryState::Live { refs: bumped },
                                service: e.service,
                            },
                        );
                        CacheLookup::Ready { service: e.service }
                    },
                    EntryState::Idle { since: _ } => {
                        self.entries.set(
                            i,
                            CacheEntry {
                                key: k,
                                state: EntryState::Live { refs: 1 },
                                service: e.service,
                            },
                        );
                        CacheLookup::Ready { service: e.service }
                    },
                }
            },
        }
    }

    /// Completes the construction a [`CacheLookup::StartBuild`] answer asked
    /// for: the entry becomes live with the builder holding one handle.
    /// Returns false, changing nothing, if no construction was in flight for
    /// the key.
    pub fn complete_build(&mut self, k: StackKey, service: u64) -> (ok: bool)
        requires
            old(self).wf(),
        ensures
            final(self).wf(),
            final(self).builds == old(self).builds,
            final(self).max_idle_ms == old(self).max_idle_ms,
            ({
                let i = spec_find_index(old(self).entries@, k);
                if i != -1 && old(self).entries@[i].state is Building {
                    ok && final(self).entries@ == old(self).entries@.update(
                        i,
                        CacheEntry { key: k, state: EntryState::Live { refs: 1 }, service },
                    )
                } else {
                    !ok && final(self).entries@ == old(self).entries@
                }
            }),
    {
        proof {
            lemma_find_index(self.entries@, k);
        }
        match self.find(&k) {
            Some(i) => {
                let e = self.entries[i];
                match e.state {
                    EntryState::Building => {
                        self.entries.set(
                            i,
                            CacheEntry { key: k, state: EntryState::Live { refs: 1 }, service },
                        );
                        true
                    },
                    _ => false,
                }
            },
            None => false,
        }
    }

    /// Releases one handle. When the last handle goes, the entry turns idle
    /// at time `now`; it stays in the cache until a sweep finds it expired.
    /// Returns false, changing nothing, if the key has no live entry.
    pub fn release(&mut self, k: StackKey, now: u64) -> (ok: bool)
        requires
            old(self).wf(),
        ensures
            final(self).wf(),
            final(self).builds == old(self).builds,
            final(self).max_idle_ms == old(self).max_idle_ms,
            ({
                let i = spec_find_index(old(self).entries@, k);
                if i != -1 && old(self).entries@[i].state is Live {
                    let refs = old(self).entries@[i].state->Live_refs;
                    ok && final(self).entries@ == old(self).entries@.update(
                        i,
                        CacheEntry {
                            key: k,
                            state: if refs <= 1 {
                                EntryState::Idle { since: now }
                            } else {
                                EntryState::Live { refs: (refs - 1) as u64 }
                            },
                            service: old(self).entries@[i].service,
                        },
                    )
                } else {
                    !ok && final(self).entries@ == old(self).entries@
                }
            }),
    {
        proof {
            lemma_find_index(self.entries@, k);
        }
        match self.find(&k) {
            Some(i) => {
                let e = self.entries[i];
                match e.state {
                    EntryState::Live { refs } => {
                        let state = if refs <= 1 {
                            EntryState::Idle { since: now }
                        } else {
                            EntryState::Live { refs: refs - 1 }
                        };
                        self.entries.set(i, CacheEntry { key: k, state, service: e.service });
                        true
                    },
                    _ => false,
                }
            },
            None => false,
        }
    }

    /// Evicts every entry whose idle age has reached the bound at time
    /// `now`, and no other.
    pub fn sweep(&mut self, now: u64)
        requires
            old(self).wf(),
        ensures
            final(self).wf(),
            final(self).builds == old(self).builds,
            final(self).max_idle_ms == old(self).max_idle_ms,
            final(self).entries@ == spec_swept(old(self).entries@, now, old(self).max_idle_ms),
    {
        let ttl = self.max_idle_ms;
        let ghost orig = self.entries@;
        let mut kept: Vec<CacheEntry> = Vec::new();
        let mut i: usize = 0;
        proof {
            assert(orig.skip(0) =~= orig);
            assert(Seq::<CacheEntry>::empty() + spec_swept(orig, now, ttl) =~= spec_swept(
                orig,
                now,
                ttl,
            ));
        }
        while i < self.entries.len()
            invariant
                i <= self.entries@.len(),
                self.entries@ == orig,
                ttl == self.max_idle_ms,
                spec_swept(orig, now, ttl) == kept@ + spec_swept(orig.skip(i as int), now, ttl),
            decreases self.entries@.len() - i,
        {
            let e = self.entries[i];
            let expired = match e.state {
                EntryState::Idle { since } => now >= since && now - since >= ttl,
                _ => false,
            };
            proof {
                assert(orig.skip(i as int)[0] == orig[i as int]);
                assert(orig.skip(i as int).drop_first() =~= orig.skip(i + 1));
                if !spec_expired(orig[i as int], now, ttl) {
                    assert(spec_swept(orig.skip(i as int), now, ttl) =~= seq![orig[i as int]]
                        + spec_swept(orig.skip(i + 1), now, ttl));
                    assert(kept@ + spec_swept(orig.skip(i as int), now, ttl) =~= kept@.push(
                        orig[i as int],
                    ) + spec_swept(orig.skip(i + 1), now, ttl));
                }
            }
            if !expired {
                kept.push(e);
            }
            i = i + 1;
        }
        proof {
            assert(orig.skip(orig.len() as int) =~= Seq::empty());
            assert(kept@ + spec_swept(orig.skip(orig.len() as int), now, ttl) =~= kept@);
        }
        self.entries = kept;
        proof {
            lemma_swept_members(orig, now, ttl);
            assert forall|a: int, b: int|
                0 <= a < b < self.entries@.len() implies self.entries@[a].key
                != self.entries@[b].key by {
                lemma_swept_distinct(orig, now, ttl, a, b);
            }
        }
    }

    /// How many constructions have been started so far.
    pub fn builds_started(&self) -> (n: u64)
        ensures
            n == self.builds,
    {
        self.builds
    }

    /// How many entries the cache holds.
    pub fn len(&self) -> (n: usize)
        ensures
            n == self.entries@.len(),
    {
        self.entries.len()
    }
}

/// Two distinct survivors of a sweep never share a key, provided the
/// original entries did not.
proof fn lemma_swept_distinct(s: Seq<CacheEntry>, now: u64, ttl: u64, a: int, b: int)
    requires
        spec_keys_unique(s),
        0 <= a < b < spec_swept(s, now, ttl).len(),
    ensures
        spec_swept(s, now, ttl)[a].key != spec_swept(s, now, ttl)[b].key,
    decreases s.len(),
{
    if s.len() > 0 {
        let rest = spec_swept(s.drop_first(), now, ttl);
        assert forall|i2: int, j2: int|
            0 <= i2 < j2 < s.drop_first().len() implies s.drop_first()[i2].key
            != s.drop_first()[j2].key by {
            assert(s.drop_first()[i2] == s[i2 + 1] && s.drop_first()[j2] == s[j2 + 1]);
        }
        if spec_expired(s[0], now, ttl) {
            lemma_swept_distinct(s.drop_first(), now, ttl, a, b);
        } else {
            if a == 0 {
                lemma_swept_members(s.drop_first(), now, ttl);
                let e = spec_swept(s, now, ttl)[b];
                assert(rest[b - 1] == e);
                assert(s.drop_first().contains(e));
                let m = choose|m: int| 0 <= m < s.drop_first().len() && s.drop_first()[m] == e;
                assert(s[m + 1] == e);
                assert(s[0].key != s[m + 1].key);
            } else {
                lemma_swept_distinct(s.drop_first(), now, ttl, a - 1, b - 1);
            }
        }
    }
}

/// Single-flight construction: once a key is being built, a lookup for it
/// changes nothing — not the entries and not the count of started builds —
/// however many callers race. Only the lookup that found no entry started
/// one.
pub proof fn lemma_single_flight(s: Seq<CacheEntry>, builds: u64, k: StackKey)
    ensures
        ({
            let i = spec_find_index(s, k);
            i != -1 && s[i].state is Building ==> spec_get_or_build(s, builds, k) == (
                s,
                builds,
                CacheLookup::MustWait,
            )
        }),
        spec_find_index(s, k) == -1 ==> {
            let (s2, b2, r) = spec_get_or_build(s, builds, k);
            &&& r == CacheLookup::StartBuild
            &&& b2 == spec_sat_inc(builds)
            &&& spec_find_index(s2, k) != -1
            &&& s2[spec_find_index(s2, k)].state is Building
        },
{
    lemma_find_index(s, k);
    if spec_find_index(s, k) == -1 {
        let s2 = spec_get_or_build(s, builds, k).0;
        lemma_find_index(s2, k);
        if spec_find_index(s2, k) == -1 {
            assert(s2[s.len() as int].key == k);
        }
    }
}

/// Idle eviction: an entry whose last handle was released at time `t` is
/// evicted by a sweep at `t + ttl` or later, and survives — unchanged — any
/// sweep before that.
pub proof fn lemma_idle_eviction(s: Seq<CacheEntry>, k: StackKey, t: u64, ttl: u64, now: u64)
    requires
        spec_keys_unique(s),
        spec_find_index(s, k) != -1,
        s[spec_find_index(s, k)].state == (EntryState::Idle { since: t }),
    ensures
        t + ttl <= now ==> forall|j: int|
            0 <= j < spec_swept(s, now, ttl).len() ==> spec_swept(s, now, ttl)[j].key != k,
        now < t + ttl ==> spec_swept(s, now, ttl).contains(s[spec_find_index(s, k)]),
    decreases s.len(),
{
    lemma_find_index(s, k);
    let i = spec_find_index(s, k);
    let e = s[i];
    if t + ttl <= now {
        assert(spec_expired(e, now, ttl));
        lemma_swept_members(s, now, ttl);
        assert forall|j: int| 0 <= j < spec_swept(s, now, ttl).len() implies spec_swept(
            s,
            now,
            ttl,
        )[j].key != k by {
            let e2 = spec_swept(s, now, ttl)[j];
            lemma_swept_not_expired(s, now, ttl, j);
            if e2.key == k {
                assert(s.contains(e2));
                let m = choose|m: int| 0 <= m < s.len() && s[m] == e2;
                if m != i {
                    assert(s[m].key != s[i].key) by {
                        if m < i {
                            assert(s[m].key != s[i].key);
                        }
                    }
                }
            }
        }
    } else {
        lemma_swept_keeps(s, now, ttl, i);
    }
}

/// A survivor of a sweep is never an expired entry.
proof fn lemma_swept_not_expired(s: Seq<CacheEntry>, now: u64, ttl: u64, j: int)
    requires
        0 <= j < spec_swept(s, now, ttl).len(),
    ensures
        !spec_expired(spec_swept(s, now, ttl)[j], now, ttl),
    decreases s.len(),
{
    if s.len() > 0 {
        if spec_expired(s[0], now, ttl) {
            lemma_swept_not_expired(s.drop_first(), now, ttl, j);
        } else {
            if j > 0 {
                lemma_swept_not_expired(s.drop_first(), now, ttl, j - 1);
            }
        }
    }
}

/// A sweep keeps every entry that has not expired.
proof fn lemma_swept_keeps(s: Seq<CacheEntry>, now: u64, ttl: u64, i: int)
    requires
        0 <= i < s.len(),
        !spec_expired(s[i], now, ttl),
    ensures
        spec_swept(s, now, ttl).contains(s[i]),
    decreases s.len(),
{
    if i == 0 {
        assert(spec_swept(s, now, ttl)[0] == s[0]);
    } else {
        lemma_swept_keeps(s.drop_first(), now, ttl, i - 1);
        assert(s.drop_first()[i - 1] == s[i]);
        let rest = spec_swept(s.drop_first(), now, ttl);
        let m = choose|m: int| 0 <= m < rest.len() && rest[m] == s[i];
        if spec_expired(s[0], now, ttl) {
            assert(spec_swept(s, now, ttl)[m] == s[i]);
        } else {
            assert(spec_swept(s, now, ttl)[m + 1] == s[i]);
        }
    }
}

} // verus!
