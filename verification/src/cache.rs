//! Response caching for booru API requests.
//!
//! An in-memory cache of serialized responses. An entry expires a fixed time
//! after it was inserted, and a full cache makes room by evicting the entry
//! that was accessed least recently. The cache has no clock of its own:
//! every operation that depends on time takes the current time, in
//! nanoseconds on a clock that never runs backwards.

use vstd::prelude::*;
use std::collections::VecDeque;
use crate::text::text;

pub use crate::fingerprint::cache_key;

verus! {

/// Configuration for the cache.
#[derive(Debug, Clone, Copy, PartialEq, Eq)]
pub struct CacheConfig {
    /// Time-to-live for cache entries, in nanoseconds.
    pub ttl: u64,
    /// Maximum number of entries in the cache.
    pub max_entries: usize,
}

/// The nanoseconds of a second.
pub const SECOND: u64 = 1_000_000_000;

impl CacheConfig {
    /// Creates a short-lived cache suitable for real-time data: entries live
    /// for a minute, and there are at most 100 of them.
    #[must_use]
    pub fn short_lived() -> (r: Self)
        ensures
            r == (CacheConfig { ttl: (60 * SECOND) as u64, max_entries: 100 }),
    {
        CacheConfig { ttl: 60 * SECOND, max_entries: 100 }
    }

    /// Creates a long-lived cache suitable for static data: entries live for
    /// an hour, and there are at most 1000 of them.
    #[must_use]
    pub fn long_lived() -> (r: Self)
        ensures
            r == (CacheConfig { ttl: (3600 * SECOND) as u64, max_entries: 1000 }),
    {
        CacheConfig { ttl: 3600 * SECOND, max_entries: 1000 }
    }
}

impl Default for CacheConfig {
    /// Default configuration: 5 minute TTL, 500 max entries.
    fn default() -> (r: Self)
        ensures
            r == (CacheConfig { ttl: (300 * SECOND) as u64, max_entries: 500 }),
    {
        CacheConfig { ttl: 300 * SECOND, max_entries: 500 }
    }
}

/// A cache entry.
#[derive(Debug)]
pub struct CacheEntry {
    key: String,
    data: Vec<u8>,
    inserted_at: u64,
    ttl: u64,
    last_accessed: u64,
}

/// The mathematical value of a [`CacheEntry`].
pub struct EntryView {
    /// The key under which the entry is kept.
    pub key: Seq<char>,
    /// Serialized data.
    pub data: Seq<u8>,
    /// When this entry expires.
    pub expires_at: nat,
    /// When this entry was last accessed.
    pub last_accessed: u64,
}

impl EntryView {
    /// Whether the entry has expired at `now`.
    pub open spec fn is_expired(self, now: u64) -> bool {
        now >= self.expires_at
    }
}

impl View for CacheEntry {
    type V = EntryView;

    closed spec fn view(&self) -> EntryView {
        EntryView {
            key: self.key@,
            data: self.data@,
            expires_at: (self.inserted_at + self.ttl) as nat,
            last_accessed: self.last_accessed,
        }
    }
}

impl CacheEntry {
    /// Whether the entry has expired at `now`.
    pub fn is_expired(&self, now: u64) -> (r: bool)
        ensures
            r == self@.is_expired(now),
    {
        now >= self.inserted_at && now - self.inserted_at >= self.ttl
    }
}

/// The index of the first entry of `entries` with the given key, or the
/// number of entries where there is none.
pub open spec fn index_of(entries: Seq<EntryView>, key: Seq<char>) -> int
    decreases entries.len(),
{
    if entries.len() == 0 {
        0
    } else if entries[0].key == key {
        0
    } else {
        1 + index_of(entries.subrange(1, entries.len() as int), key)
    }
}

/// `index_of` is the least index whose entry has the key.
pub proof fn lemma_index_of(entries: Seq<EntryView>, key: Seq<char>)
    ensures
        0 <= index_of(entries, key) <= entries.len(),
        index_of(entries, key) < entries.len() ==> entries[index_of(entries, key)].key == key,
        forall|j: int| 0 <= j < index_of(entries, key) ==> entries[j].key != key,
    decreases entries.len(),
{
    if entries.len() > 0 && entries[0].key != key {
        let rest = entries.subrange(1, entries.len() as int);
        lemma_index_of(rest, key);
        assert forall|j: int| 0 <= j < index_of(entries, key) implies entries[j].key != key by {
            if j > 0 {
                assert(rest[j - 1] == entries[j]);
            }
        }
    }
}

/// An index whose entry has the key, and before which no entry has it, is
/// the key's index.
pub proof fn lemma_index_of_is(entries: Seq<EntryView>, key: Seq<char>, i: int)
    requires
        0 <= i <= entries.len(),
        i < entries.len() ==> entries[i].key == key,
        forall|j: int| 0 <= j < i ==> entries[j].key != key,
    ensures
        index_of(entries, key) == i,
{
    lemma_index_of(entries, key);
    let k = index_of(entries, key);
    if k < i {
        assert(entries[k].key == key);
    }
}

/// Whether no two entries have the same key.
pub open spec fn distinct_keys(entries: Seq<EntryView>) -> bool {
    forall|i: int, j: int|
        0 <= i < j < entries.len() ==> (#[trigger] entries[i]).key != (#[trigger] entries[j]).key
}

/// The index of the entry that was accessed least recently: of several such,
/// the first. `0` where there are no entries.
pub open spec fn lru_index(entries: Seq<EntryView>) -> int
    decreases entries.len(),
{
    if entries.len() <= 1 {
        0
    } else {
        let rest = lru_index(entries.subrange(0, entries.len() - 1));
        if entries[entries.len() - 1].last_accessed < entries[rest].last_accessed {
            entries.len() - 1
        } else {
            rest
        }
    }
}

/// No entry was accessed less recently than the entry at `lru_index`.
pub proof fn lemma_lru_index(entries: Seq<EntryView>)
    requires
        entries.len() > 0,
    ensures
        0 <= lru_index(entries) < entries.len(),
        forall|j: int|
            0 <= j < entries.len() ==> entries[lru_index(entries)].last_accessed
                <= (#[trigger] entries[j]).last_accessed,
    decreases entries.len(),
{
    if entries.len() > 1 {
        let front = entries.subrange(0, entries.len() - 1);
        lemma_lru_index(front);
        assert forall|j: int| 0 <= j < entries.len() implies entries[lru_index(
            entries,
        )].last_accessed <= (#[trigger] entries[j]).last_accessed by {
            if j < entries.len() - 1 {
                assert(front[j] == entries[j]);
            }
            assert(front[lru_index(front)] == entries[lru_index(front)]);
        }
    }
}

/// The entries that have not expired at `now`, in order.
pub open spec fn live(entries: Seq<EntryView>, now: u64) -> Seq<EntryView>
    decreases entries.len(),
{
    if entries.len() == 0 {
        entries
    } else {
        let front = live(entries.subrange(0, entries.len() - 1), now);
        if entries[entries.len() - 1].is_expired(now) {
            front
        } else {
            front.push(entries[entries.len() - 1])
        }
    }
}

/// What has not expired is part of what there was: no more entries, each of
/// them one of the entries that there were, and with distinct keys if those
/// had distinct keys.
pub proof fn lemma_live(entries: Seq<EntryView>, now: u64)
    ensures
        live(entries, now).len() <= entries.len(),
        forall|j: int|
            0 <= j < live(entries, now).len() ==> entries.contains(
                #[trigger] live(entries, now)[j],
            ) && !live(entries, now)[j].is_expired(now),
        distinct_keys(entries) ==> distinct_keys(live(entries, now)),
    decreases entries.len(),
{
    if entries.len() > 0 {
        let n = entries.len() as int;
        let front = entries.subrange(0, n - 1);
        let last = entries[n - 1];
        lemma_live(front, now);
        let kept = live(front, now);
        let all = live(entries, now);
        assert forall|j: int| 0 <= j < all.len() implies entries.contains(#[trigger] all[j])
            && !all[j].is_expired(now) by {
            if j < kept.len() {
                assert(all[j] == kept[j]);
                assert(front.contains(kept[j]));
                let k = choose|k: int| 0 <= k < front.len() && front[k] == kept[j];
                assert(entries[k] == kept[j]);
            } else {
                assert(all[j] == last);
                assert(entries[n - 1] == last);
            }
        }
        if distinct_keys(entries) {
            assert(distinct_keys(front)) by {
                assert forall|a: int, b: int| 0 <= a < b < front.len() implies (
                #[trigger] front[a]).key != (#[trigger] front[b]).key by {
                    assert(front[a] == entries[a] && front[b] == entries[b]);
                }
            }
            assert forall|a: int, b: int| 0 <= a < b < all.len() implies (#[trigger] all[a]).key
                != (#[trigger] all[b]).key by {
                if b < kept.len() {
                    assert(all[a] == kept[a] && all[b] == kept[b]);
                } else {
                    assert(all[b] == last);
                    assert(all[a] == kept[a]);
                    assert(front.contains(kept[a]));
                    let k = choose|k: int| 0 <= k < front.len() && front[k] == kept[a];
                    assert(entries[k] == kept[a]);
                    assert(entries[k].key != entries[n - 1].key);
                }
            }
        }
    }
}

/// The state of a [`Cache`].
pub struct CacheView {
    /// The entries, in the order in which their keys came into the cache.
    pub entries: Seq<EntryView>,
    /// The cache's configuration.
    pub config: CacheConfig,
}

impl CacheView {
    /// The cache's invariant: no key occurs twice, and the entries are no
    /// more than the configured maximum (or one, where the maximum is zero).
    pub open spec fn wf(self) -> bool {
        &&& distinct_keys(self.entries)
        &&& self.entries.len() <= self.config.max_entries || self.entries.len() <= 1
    }

    /// Whether the cache holds an entry for `key`, expired or not.
    pub open spec fn has(self, key: Seq<char>) -> bool {
        index_of(self.entries, key) < self.entries.len()
    }

    /// The entry for `key`.
    pub open spec fn entry(self, key: Seq<char>) -> EntryView
        recommends
            self.has(key),
    {
        self.entries[index_of(self.entries, key)]
    }

    /// Whether the cache holds an entry for `key` that has not expired at
    /// `now`.
    pub open spec fn contains(self, key: Seq<char>, now: u64) -> bool {
        self.has(key) && !self.entry(key).is_expired(now)
    }

    /// Whether the cache has no room for one more key.
    pub open spec fn is_full(self) -> bool {
        self.entries.len() >= self.config.max_entries
    }

    /// The cache without the entry that was accessed least recently.
    pub open spec fn evicted(self) -> CacheView {
        if self.entries.len() == 0 {
            self
        } else {
            CacheView { entries: self.entries.remove(lru_index(self.entries)), ..self }
        }
    }

    /// The entry that an insertion at `now` makes.
    pub open spec fn fresh(self, key: Seq<char>, data: Seq<u8>, now: u64) -> EntryView {
        EntryView { key, data, expires_at: (now + self.config.ttl) as nat, last_accessed: now }
    }

    /// The cache after `insert`: a key that the cache holds gets the new
    /// entry in the place of its old one. A new key is added behind the
    /// others, after a full cache has evicted the entry that was accessed
    /// least recently.
    pub open spec fn inserted(self, key: Seq<char>, data: Seq<u8>, now: u64) -> CacheView {
        if self.has(key) {
            CacheView {
                entries: self.entries.update(
                    index_of(self.entries, key),
                    self.fresh(key, data, now),
                ),
                ..self
            }
        } else if self.is_full() {
            CacheView {
                entries: self.evicted().entries.push(self.fresh(key, data, now)),
                ..self
            }
        } else {
            CacheView { entries: self.entries.push(self.fresh(key, data, now)), ..self }
        }
    }

    /// The cache without the entry for `key`.
    pub open spec fn removed(self, key: Seq<char>) -> CacheView {
        if self.has(key) {
            CacheView { entries: self.entries.remove(index_of(self.entries, key)), ..self }
        } else {
            self
        }
    }

    /// The cache after `get`: an expired entry for `key` is removed, a live
    /// one is marked as accessed at `now`.
    pub open spec fn accessed(self, key: Seq<char>, now: u64) -> CacheView {
        if !self.has(key) {
            self
        } else if self.entry(key).is_expired(now) {
            self.removed(key)
        } else {
            CacheView {
                entries: self.entries.update(
                    index_of(self.entries, key),
                    EntryView { last_accessed: now, ..self.entry(key) },
                ),
                ..self
            }
        }
    }

    /// What `get` returns: the data of a live entry for `key`.
    pub open spec fn lookup(self, key: Seq<char>, now: u64) -> Option<Seq<u8>> {
        if self.contains(key, now) {
            Some(self.entry(key).data)
        } else {
            None
        }
    }
}

/// The mathematical values of a list of entries.
pub open spec fn entry_views(entries: Seq<CacheEntry>) -> Seq<EntryView> {
    Seq::new(entries.len(), |i: int| entries[i]@)
}

/// An in-memory cache for API responses.
///
/// The cache stores serialized data under string keys and expires entries
/// after a configurable TTL. It uses LRU eviction when the max entry limit
/// is reached. The entries are kept in the order in which their keys came
/// in, which decides between entries that were accessed at the same time:
/// the one whose key came first goes first.
#[derive(Debug)]
pub struct Cache {
    entries: Vec<CacheEntry>,
    config: CacheConfig,
}

impl View for Cache {
    type V = CacheView;

    closed spec fn view(&self) -> CacheView {
        CacheView { entries: entry_views(self.entries@), config: self.config }
    }
}

fn copy_bytes(data: &Vec<u8>) -> (r: Vec<u8>)
    ensures
        r@ == data@,
{
    let mut r: Vec<u8> = Vec::new();
    let mut i: usize = 0;
    while i < data.len()
        invariant
            i <= data.len(),
            r@ == data@.subrange(0, i as int),
        decreases data.len() - i,
    {
        r.push(data[i]);
        i += 1;
        assert(data@.subrange(0, i as int) == data@.subrange(0, i - 1).push(data@[i - 1]));
    }
    assert(data@.subrange(0, data.len() as int) == data@);
    r
}

fn find(entries: &Vec<CacheEntry>, key: &String) -> (r: Option<usize>)
    ensures
        match r {
            Some(i) => i < entries@.len() && i == index_of(entry_views(entries@), key@),
            None => index_of(entry_views(entries@), key@) == entries@.len(),
        },
{
    let mut i: usize = 0;
    while i < entries.len()
        invariant
            i <= entries@.len(),
            forall|j: int| 0 <= j < i ==> entry_views(entries@)[j].key != key@,
        decreases entries@.len() - i,
    {
        if entries[i].key == *key {
            proof {
                lemma_index_of_is(entry_views(entries@), key@, i as int);
            }
            return Some(i);
        }
        i += 1;
    }
    proof {
        lemma_index_of_is(entry_views(entries@), key@, i as int);
    }
    None
}

/// Removing an entry leaves the keys distinct.
pub proof fn lemma_remove_keeps_distinct(entries: Seq<EntryView>, i: int)
    requires
        distinct_keys(entries),
        0 <= i < entries.len(),
    ensures
        distinct_keys(entries.remove(i)),
{
    let after = entries.remove(i);
    assert forall|a: int, b: int| 0 <= a < b < after.len() implies (#[trigger] after[a]).key != (
    #[trigger] after[b]).key by {
        let a0 = if a < i {
            a
        } else {
            a + 1
        };
        let b0 = if b < i {
            b
        } else {
            b + 1
        };
        assert(after[a] == entries[a0]);
        assert(after[b] == entries[b0]);
    }
}

/// Replacing an entry by one with the same key leaves the keys distinct.
pub proof fn lemma_update_keeps_distinct(entries: Seq<EntryView>, i: int, entry: EntryView)
    requires
        distinct_keys(entries),
        0 <= i < entries.len(),
        entry.key == entries[i].key,
    ensures
        distinct_keys(entries.update(i, entry)),
{
    let after = entries.update(i, entry);
    assert forall|a: int, b: int| 0 <= a < b < after.len() implies (#[trigger] after[a]).key != (
    #[trigger] after[b]).key by {
        assert(after[a].key == entries[a].key);
        assert(after[b].key == entries[b].key);
    }
}

/// Adding an entry with a key that no entry has leaves the keys distinct.
pub proof fn lemma_push_keeps_distinct(entries: Seq<EntryView>, entry: EntryView)
    requires
        distinct_keys(entries),
        index_of(entries, entry.key) == entries.len(),
    ensures
        distinct_keys(entries.push(entry)),
{
    lemma_index_of(entries, entry.key);
    let after = entries.push(entry);
    assert forall|a: int, b: int| 0 <= a < b < after.len() implies (#[trigger] after[a]).key != (
    #[trigger] after[b]).key by {
        assert(after[a] == entries[a]);
        if b < entries.len() {
            assert(after[b] == entries[b]);
        }
    }
}

/// A key that no entry has is still missing after an entry was removed.
pub proof fn lemma_remove_keeps_missing(entries: Seq<EntryView>, i: int, key: Seq<char>)
    requires
        0 <= i < entries.len(),
        index_of(entries, key) == entries.len(),
    ensures
        index_of(entries.remove(i), key) == entries.remove(i).len(),
{
    lemma_index_of(entries, key);
    let after = entries.remove(i);
    assert forall|j: int| 0 <= j < after.len() implies after[j].key != key by {
        let j0 = if j < i {
            j
        } else {
            j + 1
        };
        assert(after[j] == entries[j0]);
    }
    lemma_index_of_is(after, key, after.len() as int);
}

fn remove_at(entries: &mut Vec<CacheEntry>, i: usize)
    requires
        i < old(entries)@.len(),
    ensures
        entry_views(final(entries)@) == entry_views(old(entries)@).remove(i as int),
{
    entries.remove(i);
    assert(entry_views(entries@) =~= entry_views(old(entries)@).remove(i as int));
}

fn evict_lru(entries: &mut Vec<CacheEntry>)
    requires
        old(entries)@.len() > 0,
    ensures
        entry_views(final(entries)@) == entry_views(old(entries)@).remove(
            lru_index(entry_views(old(entries)@)),
        ),
{
    let ghost all = entry_views(entries@);
    let mut best: usize = 0;
    let mut i: usize = 1;
    assert(all.subrange(0, 1).len() == 1);
    while i < entries.len()
        invariant
            1 <= i <= entries@.len(),
            all == entry_views(entries@),
            best < i,
            best == lru_index(all.subrange(0, i as int)),
        decreases entries@.len() - i,
    {
        let ghost front = all.subrange(0, i as int);
        let ghost next = all.subrange(0, i + 1);
        assert(next.subrange(0, next.len() - 1) == front);
        assert(next[best as int] == all[best as int]);
        assert(next[i as int] == all[i as int]);
        assert(front[best as int] == all[best as int]);
        if entries[i].last_accessed < entries[best].last_accessed {
            best = i;
        }
        i += 1;
    }
    assert(all.subrange(0, entries@.len() as int) == all);
    remove_at(entries, best);
}

fn touch(entries: &mut Vec<CacheEntry>, i: usize, now: u64)
    requires
        i < old(entries)@.len(),
    ensures
        entry_views(final(entries)@) == entry_views(old(entries)@).update(
            i as int,
            EntryView { last_accessed: now, ..entry_views(old(entries)@)[i as int] },
        ),
{
    let old_entry = entries.remove(i);
    let entry = CacheEntry {
        key: old_entry.key,
        data: old_entry.data,
        inserted_at: old_entry.inserted_at,
        ttl: old_entry.ttl,
        last_accessed: now,
    };
    entries.insert(i, entry);
    assert(entry_views(entries@) =~= entry_views(old(entries)@).update(
        i as int,
        EntryView { last_accessed: now, ..entry_views(old(entries)@)[i as int] },
    ));
}

fn replace(entries: &mut Vec<CacheEntry>, i: usize, entry: CacheEntry)
    requires
        i < old(entries)@.len(),
    ensures
        entry_views(final(entries)@) == entry_views(old(entries)@).update(i as int, entry@),
{
    entries.remove(i);
    entries.insert(i, entry);
    assert(entry_views(entries@) =~= entry_views(old(entries)@).update(i as int, entry@));
}

fn append_entry(entries: &mut Vec<CacheEntry>, entry: CacheEntry)
    ensures
        entry_views(final(entries)@) == entry_views(old(entries)@).push(entry@),
{
    entries.push(entry);
    assert(entry_views(entries@) =~= entry_views(old(entries)@).push(entry@));
}

impl Cache {
    #[verifier::type_invariant]
    spec fn inv(self) -> bool {
        self@.wf()
    }

    /// Creates a new, empty cache with default configuration.
    #[must_use]
    pub fn new() -> (r: Self)
        ensures
            r@ == (CacheView {
                entries: seq![],
                config: CacheConfig { ttl: (300 * SECOND) as u64, max_entries: 500 },
            }),
            r@.wf(),
    {
        Self::with_config(CacheConfig::default())
    }

    /// Creates a new, empty cache with the given configuration.
    #[must_use]
    pub fn with_config(config: CacheConfig) -> (r: Self)
        ensures
            r@ == (CacheView { entries: seq![], config }),
            r@.wf(),
    {
        let r = Cache { entries: Vec::new(), config };
        assert(r@.entries =~= seq![]);
        r
    }

    /// The cache's configuration.
    pub fn config(&self) -> (r: CacheConfig)
        ensures
            r == self@.config,
            self@.wf(),
    {
        proof {
            use_type_invariant(self);
        }
        self.config
    }

    fn take_entries(&mut self) -> (entries: Vec<CacheEntry>)
        ensures
            entry_views(entries@) == old(self)@.entries,
            final(self)@ == (CacheView { entries: seq![], ..old(self)@ }),
            old(self)@.wf(),
    {
        proof {
            use_type_invariant(&*self);
        }
        let mut entries: Vec<CacheEntry> = Vec::new();
        assert(entry_views(entries@) =~= seq![]);
        core::mem::swap(&mut self.entries, &mut entries);
        entries
    }

    fn put_entries(&mut self, entries: Vec<CacheEntry>)
        requires
            (CacheView { entries: entry_views(entries@), ..old(self)@ }).wf(),
        ensures
            final(self)@ == (CacheView { entries: entry_views(entries@), ..old(self)@ }),
    {
        let mut entries = entries;
        core::mem::swap(&mut self.entries, &mut entries);
    }

    /// Inserts serialized data into the cache at `now`.
    ///
    /// The entry expires when the configured time-to-live has passed. Data
    /// for a key that the cache holds replaces the old entry. A new key is
    /// added after a full cache has evicted the entry that was accessed
    /// least recently.
    pub fn insert(&mut self, key: &str, data: Vec<u8>, now: u64)
        ensures
            final(self)@ == old(self)@.inserted(key@, data@, now),
            final(self)@.wf(),
    {
        let entry = CacheEntry {
            key: text(key),
            data,
            inserted_at: now,
            ttl: self.config.ttl,
            last_accessed: now,
        };
        assert(entry@ == old(self)@.fresh(key@, data@, now));
        let mut entries = self.take_entries();
        let ghost before = entry_views(entries@);
        match find(&entries, &entry.key) {
            Some(i) => {
                proof {
                    lemma_index_of(before, key@);
                    lemma_update_keeps_distinct(before, i as int, entry@);
                }
                replace(&mut entries, i, entry);
            },
            None => {
                if entries.len() >= self.config.max_entries && entries.len() > 0 {
                    proof {
                        lemma_lru_index(before);
                        lemma_remove_keeps_distinct(before, lru_index(before));
                        lemma_remove_keeps_missing(before, lru_index(before), key@);
                    }
                    evict_lru(&mut entries);
                }
                proof {
                    lemma_push_keeps_distinct(entry_views(entries@), entry@);
                }
                append_entry(&mut entries, entry);
            },
        }
        self.put_entries(entries);
    }

    /// Retrieves serialized data from the cache at `now`.
    ///
    /// Returns `None` if the key doesn't exist or the entry has expired; an
    /// expired entry is removed. A live entry is marked as accessed at `now`.
    pub fn get(&mut self, key: &str, now: u64) -> (r: Option<Vec<u8>>)
        ensures
            final(self)@ == old(self)@.accessed(key@, now),
            final(self)@.wf(),
            match r {
                Some(data) => old(self)@.lookup(key@, now) == Some(data@),
                None => old(self)@.lookup(key@, now) is None,
            },
    {
        let k = text(key);
        let mut entries = self.take_entries();
        let ghost before = entry_views(entries@);
        let r = match find(&entries, &k) {
            None => None,
            Some(i) => {
                if entries[i].is_expired(now) {
                    proof {
                        lemma_remove_keeps_distinct(before, i as int);
                    }
                    remove_at(&mut entries, i);
                    None
                } else {
                    let data = copy_bytes(&entries[i].data);
                    proof {
                        lemma_update_keeps_distinct(
                            before,
                            i as int,
                            EntryView { last_accessed: now, ..before[i as int] },
                        );
                    }
                    touch(&mut entries, i, now);
                    Some(data)
                }
            },
        };
        self.put_entries(entries);
        r
    }

    /// Removes an entry from the cache.
    pub fn remove(&mut self, key: &str)
        ensures
            final(self)@ == old(self)@.removed(key@),
            final(self)@.wf(),
    {
        let k = text(key);
        let mut entries = self.take_entries();
        let ghost before = entry_views(entries@);
        match find(&entries, &k) {
            Some(i) => {
                proof {
                    lemma_remove_keeps_distinct(before, i as int);
                }
                remove_at(&mut entries, i);
            },
            None => {},
        }
        self.put_entries(entries);
    }

    /// Clears all entries from the cache.
    pub fn clear(&mut self)
        ensures
            final(self)@ == (CacheView { entries: seq![], ..old(self)@ }),
            final(self)@.wf(),
    {
        let _ = self.take_entries();
    }

    /// Returns the number of entries in the cache, expired entries that have
    /// not been removed yet included.
    pub fn len(&self) -> (r: usize)
        ensures
            r == self@.entries.len(),
    {
        self.entries.len()
    }

    /// Returns true if the cache is empty.
    pub fn is_empty(&self) -> (r: bool)
        ensures
            r == (self@.entries.len() == 0),
    {
        self.entries.len() == 0
    }

    /// Removes all entries that have expired at `now` from the cache.
    pub fn cleanup_expired(&mut self, now: u64)
        ensures
            final(self)@ == (CacheView { entries: live(old(self)@.entries, now), ..old(self)@ }),
            final(self)@.wf(),
    {
        let mut entries = self.take_entries();
        let ghost before = entry_views(entries@);
        let mut kept: VecDeque<CacheEntry> = VecDeque::new();
        assert(live(before, now) =~= live(before, now) + entry_views(kept@));
        while entries.len() > 0
            invariant
                live(before, now) == live(entry_views(entries@), now) + entry_views(kept@),
            decreases entries@.len(),
        {
            let ghost rest = entry_views(entries@);
            let ghost tail = entry_views(kept@);
            let entry = entries.pop().unwrap();
            assert(entry_views(entries@) =~= rest.subrange(0, rest.len() - 1));
            assert(entry@ == rest[rest.len() - 1]);
            if !entry.is_expired(now) {
                kept.push_front(entry);
                assert(entry_views(kept@) =~= seq![entry@] + tail);
                assert(live(rest, now) + tail =~= live(entry_views(entries@), now)
                    + entry_views(kept@));
            }
        }
        assert(live(entry_views(entries@), now) + entry_views(kept@) =~= entry_views(kept@));
        let mut live_entries: Vec<CacheEntry> = Vec::new();
        let ghost all = entry_views(kept@);
        assert(entry_views(live_entries@) + all =~= all);
        while kept.len() > 0
            invariant
                entry_views(live_entries@) + entry_views(kept@) == all,
            decreases kept@.len(),
        {
            let ghost done = entry_views(live_entries@);
            let ghost rest = entry_views(kept@);
            let entry = kept.pop_front().unwrap();
            append_entry(&mut live_entries, entry);
            assert(entry_views(live_entries@) + entry_views(kept@) =~= done + rest);
        }
        assert(entry_views(live_entries@) + entry_views(kept@) =~= entry_views(live_entries@));
        proof {
            lemma_live(before, now);
        }
        self.put_entries(live_entries);
    }

    /// Checks if a key exists in the cache and has not expired at `now`.
    pub fn contains_key(&self, key: &str, now: u64) -> (r: bool)
        ensures
            r == self@.contains(key@, now),
    {
        let k = text(key);
        match find(&self.entries, &k) {
            Some(i) => !self.entries[i].is_expired(now),
            None => false,
        }
    }
}

impl Default for Cache {
    fn default() -> (r: Self)
        ensures
            r@ == (CacheView {
                entries: seq![],
                config: CacheConfig { ttl: (300 * SECOND) as u64, max_entries: 500 },
            }),
    {
        Self::new()
    }
}

/// Among distinct keys, the index of an entry's key is the entry's index.
pub proof fn lemma_index_of_entry(entries: Seq<EntryView>, i: int)
    requires
        distinct_keys(entries),
        0 <= i < entries.len(),
    ensures
        index_of(entries, entries[i].key) == i,
{
    assert forall|j: int| 0 <= j < i implies entries[j].key != entries[i].key by {
        assert(entries[j].key != entries[i].key);
    }
    lemma_index_of_is(entries, entries[i].key, i);
}

/// Inserting keeps the cache well-formed, and the cache then holds the
/// inserted entry under its key.
pub proof fn lemma_inserted(c: CacheView, key: Seq<char>, data: Seq<u8>, now: u64)
    requires
        c.wf(),
    ensures
        c.inserted(key, data, now).wf(),
        c.inserted(key, data, now).has(key),
        c.inserted(key, data, now).entry(key) == c.fresh(key, data, now),
{
    let entry = c.fresh(key, data, now);
    let after = c.inserted(key, data, now).entries;
    lemma_index_of(c.entries, key);
    if c.has(key) {
        let i = index_of(c.entries, key);
        lemma_update_keeps_distinct(c.entries, i, entry);
        lemma_index_of_entry(after, i);
    } else {
        let base = if c.is_full() {
            c.evicted().entries
        } else {
            c.entries
        };
        if c.is_full() && c.entries.len() > 0 {
            lemma_lru_index(c.entries);
            lemma_remove_keeps_distinct(c.entries, lru_index(c.entries));
            lemma_remove_keeps_missing(c.entries, lru_index(c.entries), key);
        }
        lemma_push_keeps_distinct(base, entry);
        assert(after == base.push(entry));
        lemma_index_of_entry(after, base.len() as int);
    }
}

/// Round trip: data that was inserted under a key is what a lookup of the
/// key returns, for as long as the entry's time-to-live has not passed.
pub proof fn lemma_insert_then_get(
    c: CacheView,
    key: Seq<char>,
    data: Seq<u8>,
    now: u64,
    later: u64,
)
    requires
        c.wf(),
        later < now + c.config.ttl,
    ensures
        c.inserted(key, data, now).lookup(key, later) == Some(data),
        c.inserted(key, data, now).contains(key, later),
{
    lemma_inserted(c, key, data, now);
}

/// Expiry: once the time-to-live of an entry has passed, a lookup of its
/// key returns nothing and removes the entry.
pub proof fn lemma_insert_then_expire(
    c: CacheView,
    key: Seq<char>,
    data: Seq<u8>,
    now: u64,
    later: u64,
)
    requires
        c.wf(),
        later >= now + c.config.ttl,
    ensures
        c.inserted(key, data, now).lookup(key, later) is None,
        !c.inserted(key, data, now).contains(key, later),
        !c.inserted(key, data, now).accessed(key, later).has(key),
{
    lemma_inserted(c, key, data, now);
    let full = c.inserted(key, data, now);
    let i = index_of(full.entries, key);
    lemma_index_of(full.entries, key);
    let after = full.entries.remove(i);
    assert forall|j: int| 0 <= j < after.len() implies after[j].key != key by {
        let j0 = if j < i {
            j
        } else {
            j + 1
        };
        assert(after[j] == full.entries[j0]);
        assert(full.entries[j0].key != full.entries[i].key);
    }
    lemma_index_of_is(after, key, after.len() as int);
}

/// A lookup never returns an entry that has expired.
pub proof fn lemma_expired_is_never_returned(c: CacheView, key: Seq<char>, now: u64)
    requires
        c.has(key),
        c.entry(key).is_expired(now),
    ensures
        c.lookup(key, now) is None,
{
}

/// LRU eviction: inserting a new key into a full cache evicts the entry
/// that was accessed least recently, and no other. Every other entry is
/// kept as it is, and the number of entries stays the same.
pub proof fn lemma_insert_evicts_least_recent(
    c: CacheView,
    key: Seq<char>,
    data: Seq<u8>,
    now: u64,
)
    requires
        c.wf(),
        !c.has(key),
        c.is_full(),
        c.entries.len() > 0,
    ensures
        0 <= lru_index(c.entries) < c.entries.len(),
        forall|j: int|
            0 <= j < c.entries.len() ==> c.entries[lru_index(c.entries)].last_accessed <= (
            #[trigger] c.entries[j]).last_accessed,
        !c.inserted(key, data, now).has(c.entries[lru_index(c.entries)].key),
        forall|j: int|
            0 <= j < c.entries.len() && j != lru_index(c.entries) ==> c.inserted(
                key,
                data,
                now,
            ).has((#[trigger] c.entries[j]).key) && c.inserted(key, data, now).entry(
                c.entries[j].key,
            ) == c.entries[j],
        c.inserted(key, data, now).entries.len() == c.entries.len(),
{
    let victim = lru_index(c.entries);
    lemma_lru_index(c.entries);
    lemma_inserted(c, key, data, now);
    lemma_index_of(c.entries, key);
    let entry = c.fresh(key, data, now);
    let base = c.entries.remove(victim);
    let after = c.inserted(key, data, now).entries;
    assert(after == base.push(entry));
    assert forall|j: int| 0 <= j < after.len() implies after[j].key
        != c.entries[victim].key by {
        if j < base.len() {
            let j0 = if j < victim {
                j
            } else {
                j + 1
            };
            assert(after[j] == c.entries[j0]);
            assert(c.entries[j0].key != c.entries[victim].key);
        } else {
            assert(after[j] == entry);
            assert(c.entries[victim].key != key);
        }
    }
    lemma_index_of_is(after, c.entries[victim].key, after.len() as int);
    assert forall|j: int| 0 <= j < c.entries.len() && j != victim implies c.inserted(
        key,
        data,
        now,
    ).has((#[trigger] c.entries[j]).key) && c.inserted(key, data, now).entry(c.entries[j].key)
        == c.entries[j] by {
        let j1 = if j < victim {
            j
        } else {
            j - 1
        };
        assert(after[j1] == c.entries[j]);
        lemma_index_of_entry(after, j1);
    }
}

} // verus!
