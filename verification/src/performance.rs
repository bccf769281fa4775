//! Performance bookkeeping: memory accounting, a bounded cache of file
//! metadata, and benchmark checkpoints.

use vstd::prelude::*;
use vstd::string::*;
use crate::clock::{
    duration_as_nanos, duration_from_millis, duration_from_secs, instant_duration_since,
    instant_elapsed, instant_now,
};
use crate::paths::{normalize_path, path_normal};
use crate::scanner::VideoCodec;

verus! {

/// Memory usage figures.
#[derive(Debug, Clone, Copy, PartialEq, Eq, Structural)]
pub struct MemoryStats {
    pub allocated_objects: usize,
    pub current_usage_bytes: u64,
    pub peak_usage_bytes: u64,
    pub file_data_bytes: u64,
    pub progress_data_bytes: u64,
}

/// The figures after an allocation of `size` bytes: one more object,
/// `size` more bytes in use, and the peak raised to the new usage if it is
/// higher. The object count wraps around as the counter does.
pub open spec fn after_allocation(s: MemoryStats, size: u64) -> MemoryStats {
    let current = (s.current_usage_bytes + size) as u64;
    MemoryStats {
        allocated_objects: vstd::wrapping::usize_specs::wrapping_add(s.allocated_objects, 1),
        current_usage_bytes: current,
        peak_usage_bytes: if current > s.peak_usage_bytes {
            current
        } else {
            s.peak_usage_bytes
        },
        ..s
    }
}

/// The figures after a deallocation of `size` bytes: one object and `size`
/// bytes fewer, both counters wrapping around below zero as they do.
pub open spec fn after_deallocation(s: MemoryStats, size: u64) -> MemoryStats {
    MemoryStats {
        allocated_objects: vstd::wrapping::usize_specs::wrapping_sub(s.allocated_objects, 1),
        current_usage_bytes: vstd::wrapping::u64_specs::wrapping_sub(s.current_usage_bytes, size),
        ..s
    }
}

/// Memory usage tracking.
#[derive(Debug)]
pub struct MemoryTracker {
    allocated_objects: usize,
    peak_memory_usage: u64,
    current_memory_usage: u64,
    file_data_size: u64,
    progress_data_size: u64,
}

impl MemoryTracker {
    /// The tracker's figures.
    pub closed spec fn stats(&self) -> MemoryStats {
        MemoryStats {
            allocated_objects: self.allocated_objects,
            current_usage_bytes: self.current_memory_usage,
            peak_usage_bytes: self.peak_memory_usage,
            file_data_bytes: self.file_data_size,
            progress_data_bytes: self.progress_data_size,
        }
    }

    /// A tracker with every figure at zero.
    pub fn new() -> (t: Self)
        ensures
            t.stats() == (MemoryStats {
                allocated_objects: 0,
                current_usage_bytes: 0,
                peak_usage_bytes: 0,
                file_data_bytes: 0,
                progress_data_bytes: 0,
            }),
    {
        MemoryTracker {
            allocated_objects: 0,
            peak_memory_usage: 0,
            current_memory_usage: 0,
            file_data_size: 0,
            progress_data_size: 0,
        }
    }

    /// Track allocation of a new object of `size_bytes` bytes. The usage
    /// must not pass `u64::MAX` (the sum overflows there).
    pub fn track_allocation(&mut self, size_bytes: u64)
        requires
            old(self).stats().current_usage_bytes + size_bytes <= u64::MAX,
        ensures
            final(self).stats() == after_allocation(old(self).stats(), size_bytes),
    {
        self.allocated_objects = self.allocated_objects.wrapping_add(1);
        let new_usage = self.current_memory_usage + size_bytes;
        self.current_memory_usage = new_usage;
        if new_usage > self.peak_memory_usage {
            self.peak_memory_usage = new_usage;
        }
    }

    /// Track deallocation of an object of `size_bytes` bytes.
    pub fn track_deallocation(&mut self, size_bytes: u64)
        ensures
            final(self).stats() == after_deallocation(old(self).stats(), size_bytes),
    {
        self.allocated_objects = self.allocated_objects.wrapping_sub(1);
        self.current_memory_usage = self.current_memory_usage.wrapping_sub(size_bytes);
    }

    /// Track file data memory usage.
    pub fn track_file_data(&mut self, size_bytes: u64)
        ensures
            final(self).stats() == (MemoryStats { file_data_bytes: size_bytes, ..old(self).stats() }),
    {
        self.file_data_size = size_bytes;
    }

    /// Track progress data memory usage.
    pub fn track_progress_data(&mut self, size_bytes: u64)
        ensures
            final(self).stats() == (MemoryStats {
                progress_data_bytes: size_bytes,
                ..old(self).stats()
            }),
    {
        self.progress_data_size = size_bytes;
    }

    /// Get current memory statistics.
    pub fn get_stats(&self) -> (s: MemoryStats)
        ensures
            s == self.stats(),
    {
        MemoryStats {
            allocated_objects: self.allocated_objects,
            current_usage_bytes: self.current_memory_usage,
            peak_usage_bytes: self.peak_memory_usage,
            file_data_bytes: self.file_data_size,
            progress_data_bytes: self.progress_data_size,
        }
    }

    /// Whether the memory in use, in whole mebibytes, is within `max_memory_mb`.
    pub fn is_memory_usage_acceptable(&self, max_memory_mb: u64) -> (b: bool)
        ensures
            b == (self.stats().current_usage_bytes as int / 1048576 <= max_memory_mb as int),
    {
        let current_mb = self.current_memory_usage / (1024 * 1024);
        current_mb <= max_memory_mb
    }
}

/// Freeing what was just allocated gives back the number of objects and
/// bytes in use from before the allocation.
pub proof fn lemma_deallocation_undoes_allocation(s: MemoryStats, size: u64)
    requires
        s.current_usage_bytes + size <= u64::MAX,
    ensures
        after_deallocation(after_allocation(s, size), size).allocated_objects == s.allocated_objects,
        after_deallocation(after_allocation(s, size), size).current_usage_bytes
            == s.current_usage_bytes,
{
}

/// The peak never falls below the usage: allocations raise it as needed, and
/// a deallocation of no more than what is in use only lowers the usage.
pub proof fn lemma_peak_covers_usage(s: MemoryStats, size: u64)
    requires
        s.peak_usage_bytes >= s.current_usage_bytes,
    ensures
        s.current_usage_bytes + size <= u64::MAX ==> after_allocation(s, size).peak_usage_bytes
            >= after_allocation(s, size).current_usage_bytes,
        size <= s.current_usage_bytes ==> after_deallocation(s, size).peak_usage_bytes
            >= after_deallocation(s, size).current_usage_bytes,
        after_allocation(s, size).peak_usage_bytes >= s.peak_usage_bytes,
{
}


/// Metadata of a file kept in the cache.
#[derive(Debug, Clone, Copy)]
pub struct CachedMetadata {
    pub size: u64,
    pub codec: VideoCodec,
    pub resolution: Option<(u32, u32)>,
    pub duration: Option<std::time::Duration>,
    pub cached_at: std::time::Instant,
}

/// The counts kept by the metadata cache.
#[derive(Debug, Clone, Copy, PartialEq, Eq, Structural)]
pub struct MetadataCacheStats {
    pub cache_size: usize,
    pub max_cache_size: usize,
    pub cache_hits: usize,
    pub cache_misses: usize,
}

/// Entries keyed by text, each key taken by its characters.
pub open spec fn keyed<V>(v: Seq<(String, V)>) -> Seq<(Seq<char>, V)> {
    v.map_values(|e: (String, V)| (e.0@, e.1))
}

/// The position of the entry for key `k`, if there is one.
pub open spec fn index_of_key<V>(es: Seq<(Seq<char>, V)>, k: Seq<char>) -> Option<int> {
    if exists|i: int| 0 <= i < es.len() && #[trigger] es[i].0 == k {
        Some(choose|i: int| 0 <= i < es.len() && #[trigger] es[i].0 == k)
    } else {
        None
    }
}

/// The value stored under key `k`, if any.
pub open spec fn lookup<V>(es: Seq<(Seq<char>, V)>, k: Seq<char>) -> Option<V> {
    match index_of_key(es, k) {
        Some(i) => Some(es[i].1),
        None => None,
    }
}

/// Whether no key occurs twice.
pub open spec fn distinct_keys<V>(es: Seq<(Seq<char>, V)>) -> bool {
    forall|i: int, j: int| 0 <= i < j < es.len() ==> es[i].0 != es[j].0
}

/// The entries with `v` stored under `k`: the entry for `k` is replaced
/// in place, or a new one is added last.
pub open spec fn upsert<V>(es: Seq<(Seq<char>, V)>, k: Seq<char>, v: V) -> Seq<(Seq<char>, V)> {
    match index_of_key(es, k) {
        Some(i) => es.update(i, (k, v)),
        None => es.push((k, v)),
    }
}

/// The entries with `v` stored under `k` as the newest entry: an entry for
/// `k` leaves its place, and `(k, v)` is added last.
pub open spec fn renew<V>(es: Seq<(Seq<char>, V)>, k: Seq<char>, v: V) -> Seq<(Seq<char>, V)> {
    match index_of_key(es, k) {
        Some(i) => es.remove(i).push((k, v)),
        None => es.push((k, v)),
    }
}

/// The entries after inserting `md` under `k`, oldest first: the oldest
/// entry goes first when the cache is full; then `(k, md)` becomes the
/// newest entry, in place of any entry for `k`.
pub open spec fn entries_after_insert(
    es: Seq<(Seq<char>, CachedMetadata)>,
    capacity: nat,
    k: Seq<char>,
    md: CachedMetadata,
) -> Seq<(Seq<char>, CachedMetadata)> {
    let kept = if es.len() >= capacity {
        es.drop_first()
    } else {
        es
    };
    renew(kept, k, md)
}

/// The position of the entry for `key` among entries with distinct keys.
fn find_key<V>(entries: &Vec<(String, V)>, key: &String) -> (r: Option<usize>)
    requires
        distinct_keys(keyed(entries@)),
    ensures
        match r {
            Some(i) => i < entries@.len() && index_of_key(keyed(entries@), key@) == Some(i as int),
            None => index_of_key(keyed(entries@), key@) is None,
        },
{
    let ghost es = keyed(entries@);
    let mut i: usize = 0;
    while i < entries.len()
        invariant
            i <= entries@.len(),
            es == keyed(entries@),
            es.len() == entries@.len(),
            distinct_keys(es),
            forall|j: int| 0 <= j < i ==> es[j].0 != key@,
        decreases entries@.len() - i,
    {
        assert(es[i as int].0 == entries@[i as int].0@);
        if entries[i].0 == *key {
            assert(es[i as int].0 == key@);
            proof {
                let c = choose|j: int| 0 <= j < es.len() && #[trigger] es[j].0 == key@;
                assert(c == i);
            }
            return Some(i);
        }
        i = i + 1;
    }
    None
}

/// Store `value` under `key` as the newest of entries with distinct keys:
/// the entry for `key` leaves its place, and the new one is added last.
fn renew_entry<V>(entries: &mut Vec<(String, V)>, key: String, value: V)
    requires
        distinct_keys(keyed(old(entries)@)),
    ensures
        keyed(final(entries)@) == renew(keyed(old(entries)@), key@, value),
        distinct_keys(keyed(final(entries)@)),
        lookup(keyed(final(entries)@), key@) == Some(value),
{
    let ghost kept = keyed(entries@);
    let ghost k = key@;
    let found = find_key(entries, &key);
    let ghost rest = match found {
        Some(i) => kept.remove(i as int),
        None => kept,
    };
    match found {
        Some(i) => {
            entries.remove(i);
            assert(keyed(entries@) =~= kept.remove(i as int));
        },
        None => {},
    }
    proof {
        assert forall|j: int| 0 <= j < rest.len() implies #[trigger] rest[j].0 != k by {
            match found {
                Some(i) => {
                    if j < i {
                        assert(rest[j] == kept[j]);
                        assert(kept[j].0 != kept[i as int].0);
                    } else {
                        assert(rest[j] == kept[j + 1]);
                        assert(kept[j + 1].0 != kept[i as int].0);
                    }
                },
                None => {
                    if rest[j].0 == k {
                        assert(kept[j].0 == k);
                    }
                },
            }
        }
        assert forall|a: int, b: int| 0 <= a < b < rest.len() implies rest[a].0 != rest[b].0 by {
            match found {
                Some(i) => {
                    let a2 = if a < i { a } else { a + 1 };
                    let b2 = if b < i { b } else { b + 1 };
                    assert(rest[a] == kept[a2]);
                    assert(rest[b] == kept[b2]);
                },
                None => {},
            }
        }
    }
    entries.push((key, value));
    proof {
        let es = keyed(entries@);
        assert(es =~= rest.push((k, value)));
        assert(es[es.len() - 1].0 == k);
        let c = choose|j: int| 0 <= j < es.len() && #[trigger] es[j].0 == k;
        assert(c == es.len() - 1) by {
            if c != es.len() - 1 {
                assert(rest[c].0 == k);
            }
        }
    }
}

/// Store `value` under `key` among entries with distinct keys: the entry
/// for `key` is replaced in place, or a new one is added last.
fn upsert_entry<V>(entries: &mut Vec<(String, V)>, key: String, value: V)
    requires
        distinct_keys(keyed(old(entries)@)),
    ensures
        keyed(final(entries)@) == upsert(keyed(old(entries)@), key@, value),
        distinct_keys(keyed(final(entries)@)),
        lookup(keyed(final(entries)@), key@) == Some(value),
{
    let ghost kept = keyed(entries@);
    let ghost k = key@;
    let found = find_key(entries, &key);
    match found {
        Some(i) => {
            entries.set(i, (key, value));
            assert(keyed(entries@) =~= kept.update(i as int, (k, value)));
        },
        None => {
            entries.push((key, value));
            assert(keyed(entries@) =~= kept.push((k, value)));
        },
    }
    proof {
        let es = keyed(entries@);
        assert(distinct_keys(es)) by {
            assert forall|a: int, b: int| 0 <= a < b < es.len() implies es[a].0 != es[b].0 by {
                if index_of_key(kept, k) is None {
                    if b == es.len() - 1 {
                        assert(kept[a].0 != k);
                    }
                }
            }
        }
        assert(exists|j: int| 0 <= j < es.len() && #[trigger] es[j].0 == k) by {
            if index_of_key(kept, k) is Some {
                let j = index_of_key(kept, k)->0;
                assert(es[j].0 == k);
            } else {
                assert(es[es.len() - 1].0 == k);
            }
        }
        let c = choose|j: int| 0 <= j < es.len() && #[trigger] es[j].0 == k;
        if index_of_key(kept, k) is Some {
            let j = index_of_key(kept, k)->0;
            assert(es[j].0 == k);
            assert(c == j);
        } else {
            assert(es[es.len() - 1].0 == k);
            assert(c == es.len() - 1);
        }
    }
}

/// File metadata caching to reduce filesystem operations. Files are keyed
/// by their path rebuilt from its components, so that two spellings of one
/// path share an entry.
#[derive(Debug)]
pub struct MetadataCache {
    cache: Vec<(String, CachedMetadata)>,
    cache_hits: usize,
    cache_misses: usize,
    max_cache_size: usize,
}

impl MetadataCache {
    /// The entries, oldest first, each as its key's text and metadata.
    pub closed spec fn entries(&self) -> Seq<(Seq<char>, CachedMetadata)> {
        keyed(self.cache@)
    }

    /// The number of lookups that found their key.
    pub closed spec fn hits(&self) -> nat {
        self.cache_hits as nat
    }

    /// The number of lookups that did not.
    pub closed spec fn misses(&self) -> nat {
        self.cache_misses as nat
    }

    /// How many entries the cache keeps at most.
    pub closed spec fn capacity(&self) -> nat {
        self.max_cache_size as nat
    }

    #[verifier::type_invariant]
    closed spec fn well_formed(self) -> bool {
        &&& 0 < self.max_cache_size
        &&& self.cache@.len() <= self.max_cache_size
        &&& distinct_keys(keyed(self.cache@))
    }

    /// An empty cache for up to 1000 files.
    pub fn new() -> (c: Self)
        ensures
            c.entries().len() == 0,
            c.hits() == 0,
            c.misses() == 0,
            c.capacity() == 1000,
    {
        let c = MetadataCache { cache: Vec::new(), cache_hits: 0, cache_misses: 0, max_cache_size: 1000 };
        assert(c.entries() =~= Seq::empty());
        c
    }

    /// Get cached metadata, counting a hit or a miss.
    pub fn get(&mut self, path: &str) -> (r: Option<&CachedMetadata>)
        requires
            old(self).hits() < usize::MAX,
            old(self).misses() < usize::MAX,
        ensures
            final(self).entries() == old(self).entries(),
            final(self).capacity() == old(self).capacity(),
            match lookup(old(self).entries(), path_normal(path@)) {
                Some(md) => r == Some(&md) && final(self).hits() == old(self).hits() + 1
                    && final(self).misses() == old(self).misses(),
                None => r is None && final(self).hits() == old(self).hits() && final(self).misses()
                    == old(self).misses() + 1,
            },
    {
        proof {
            use_type_invariant(&*self);
        }
        let key = normalize_path(path);
        match find_key(&self.cache, &key) {
            Some(i) => {
                self.cache_hits = self.cache_hits + 1;
                Some(&self.cache[i].1)
            },
            None => {
                self.cache_misses = self.cache_misses + 1;
                None
            },
        }
    }

    /// Evict the oldest entry.
    fn evict_oldest(&mut self)
        requires
            old(self).entries().len() > 0,
        ensures
            final(self).entries() == old(self).entries().drop_first(),
            final(self).capacity() == old(self).capacity(),
            final(self).hits() == old(self).hits(),
            final(self).misses() == old(self).misses(),
    {
        proof {
            use_type_invariant(&*self);
        }
        let ghost es = self.entries();
        let mut entries: Vec<(String, CachedMetadata)> = Vec::new();
        std::mem::swap(&mut entries, &mut self.cache);
        entries.remove(0);
        assert(keyed(entries@) =~= es.drop_first());
        self.cache = entries;
    }

    /// Store metadata in the cache: when it is full, the oldest entry is
    /// evicted first; then the metadata becomes the newest entry, in place of
    /// what was kept for the path. Entries are kept oldest first, so the
    /// entry evicted is always the one stored longest ago.
    pub fn insert(&mut self, path: &str, metadata: CachedMetadata)
        ensures
            final(self).entries() == entries_after_insert(
                old(self).entries(),
                old(self).capacity(),
                path_normal(path@),
                metadata,
            ),
            final(self).capacity() == old(self).capacity(),
            final(self).hits() == old(self).hits(),
            final(self).misses() == old(self).misses(),
            lookup(final(self).entries(), path_normal(path@)) == Some(metadata),
            final(self).entries().last() == (path_normal(path@), metadata),
            final(self).entries().len() <= final(self).capacity(),
            distinct_keys(final(self).entries()),
    {
        proof {
            use_type_invariant(&*self);
        }
        if self.cache.len() >= self.max_cache_size {
            self.evict_oldest();
        }
        proof {
            use_type_invariant(&*self);
        }
        let key = normalize_path(path);
        let mut entries: Vec<(String, CachedMetadata)> = Vec::new();
        std::mem::swap(&mut entries, &mut self.cache);
        renew_entry(&mut entries, key, metadata);
        self.cache = entries;
    }

    /// Clear the cache; the hit and miss counts stay.
    pub fn clear(&mut self)
        ensures
            final(self).entries().len() == 0,
            final(self).capacity() == old(self).capacity(),
            final(self).hits() == old(self).hits(),
            final(self).misses() == old(self).misses(),
    {
        proof {
            use_type_invariant(&*self);
        }
        self.cache = Vec::new();
        assert(self.entries() =~= Seq::empty());
    }

    /// Get cache statistics.
    pub fn get_stats(&self) -> (s: MetadataCacheStats)
        ensures
            s.cache_size == self.entries().len(),
            s.max_cache_size == self.capacity(),
            s.cache_hits == self.hits(),
            s.cache_misses == self.misses(),
            s.cache_size <= s.max_cache_size,
    {
        proof {
            use_type_invariant(self);
        }
        MetadataCacheStats {
            cache_size: self.cache.len(),
            max_cache_size: self.max_cache_size,
            cache_hits: self.cache_hits,
            cache_misses: self.cache_misses,
        }
    }
}


/// Batching figures.
#[derive(Debug, Clone, Copy)]
pub struct ProgressBatchingStats {
    pub pending_updates: usize,
    pub total_updates_received: usize,
    pub total_batches_sent: usize,
    pub batch_interval: std::time::Duration,
}

/// Progress update batching, to keep screen refreshes few: updates wait
/// here, the latest one per file, until a batch is due. `U` is what an
/// update carries.
#[derive(Debug)]
pub struct ProgressBatcher<U> {
    pending_updates: Vec<(String, U)>,
    pending_paths: Vec<String>,
    last_batch_time: std::time::Instant,
    batch_interval: std::time::Duration,
    max_batch_size: usize,
    total_updates_received: usize,
    total_batches_sent: usize,
}

impl<U> ProgressBatcher<U> {
    /// The waiting updates, each under its file's path rebuilt from its
    /// components, in the order the files first came.
    pub closed spec fn pending(&self) -> Seq<(Seq<char>, U)> {
        keyed(self.pending_updates@)
    }

    /// The path of each waiting update as it was first given for its file,
    /// in the same order as `pending`.
    pub closed spec fn pending_paths(&self) -> Seq<Seq<char>> {
        self.pending_paths@.map_values(|p: String| p@)
    }

    /// The number of updates received.
    pub closed spec fn updates_received(&self) -> nat {
        self.total_updates_received as nat
    }

    /// The number of batches handed out.
    pub closed spec fn batches_sent(&self) -> nat {
        self.total_batches_sent as nat
    }

    /// How many waiting files make a batch due at once.
    pub closed spec fn max_batch_size(&self) -> nat {
        self.max_batch_size as nat
    }

    /// How long after the last batch a batch is due.
    pub closed spec fn batch_interval(&self) -> std::time::Duration {
        self.batch_interval
    }

    #[verifier::type_invariant]
    closed spec fn well_formed(self) -> bool {
        &&& distinct_keys(keyed(self.pending_updates@))
        &&& self.pending_paths@.len() == self.pending_updates@.len()
        &&& forall|i: int|
            0 <= i < self.pending_paths@.len() ==> path_normal(#[trigger] self.pending_paths@[i]@)
                == self.pending_updates@[i].0@
    }

    /// A batcher with nothing waiting, a batch due every 100 ms or at 50
    /// waiting files.
    pub fn new() -> (b: Self)
        ensures
            b.pending().len() == 0,
            b.updates_received() == 0,
            b.batches_sent() == 0,
            b.max_batch_size() == 50,
    {
        let b = ProgressBatcher {
            pending_updates: Vec::new(),
            pending_paths: Vec::new(),
            last_batch_time: instant_now(),
            batch_interval: duration_from_millis(100),
            max_batch_size: 50,
            total_updates_received: 0,
            total_batches_sent: 0,
        };
        assert(b.pending() =~= Seq::empty());
        b
    }

    /// Add a progress update; it replaces the one waiting for the same file,
    /// which keeps the path it was first given with.
    pub fn add_update(&mut self, file_path: &str, update: U)
        requires
            old(self).updates_received() < usize::MAX,
        ensures
            final(self).pending() == upsert(old(self).pending(), path_normal(file_path@), update),
            lookup(final(self).pending(), path_normal(file_path@)) == Some(update),
            final(self).pending_paths() == if index_of_key(
                old(self).pending(),
                path_normal(file_path@),
            ) is Some {
                old(self).pending_paths()
            } else {
                old(self).pending_paths().push(file_path@)
            },
            final(self).updates_received() == old(self).updates_received() + 1,
            final(self).batches_sent() == old(self).batches_sent(),
            final(self).max_batch_size() == old(self).max_batch_size(),
            final(self).batch_interval() == old(self).batch_interval(),
    {
        proof {
            use_type_invariant(&*self);
        }
        let key = normalize_path(file_path);
        let found = find_key(&self.pending_updates, &key);
        let ghost old_paths = self.pending_paths@;
        let ghost old_entries = self.pending_updates@;
        let ProgressBatcher {
            mut pending_updates,
            mut pending_paths,
            last_batch_time,
            batch_interval,
            max_batch_size,
            total_updates_received,
            total_batches_sent,
        } = self.take();
        upsert_entry(&mut pending_updates, key, update);
        if found.is_none() {
            pending_paths.push(file_path.to_owned());
        }
        proof {
            assert forall|i: int| 0 <= i < pending_paths@.len() implies path_normal(
                #[trigger] pending_paths@[i]@,
            ) == pending_updates@[i].0@ by {
                if i < old_paths.len() {
                    assert(pending_paths@[i] == old_paths[i]);
                    assert(keyed(pending_updates@)[i].0 == keyed(old_entries)[i].0 || keyed(
                        pending_updates@,
                    )[i].0 == path_normal(file_path@));
                }
            }
            assert(pending_paths@.map_values(|p: String| p@) =~= if found is Some {
                old_paths.map_values(|p: String| p@)
            } else {
                old_paths.map_values(|p: String| p@).push(file_path@)
            });
        }
        *self = ProgressBatcher {
            pending_updates,
            pending_paths,
            last_batch_time,
            batch_interval,
            max_batch_size,
            total_updates_received: total_updates_received + 1,
            total_batches_sent,
        };
    }

    /// Take the whole state out, leaving nothing waiting.
    fn take(&mut self) -> (b: Self)
        ensures
            b == *old(self),
            distinct_keys(keyed(b.pending_updates@)),
            b.pending_paths@.len() == b.pending_updates@.len(),
            forall|i: int|
                0 <= i < b.pending_paths@.len() ==> path_normal(#[trigger] b.pending_paths@[i]@)
                    == b.pending_updates@[i].0@,
    {
        proof {
            use_type_invariant(&*self);
        }
        let mut b = ProgressBatcher {
            pending_updates: Vec::new(),
            pending_paths: Vec::new(),
            last_batch_time: self.last_batch_time,
            batch_interval: self.batch_interval,
            max_batch_size: self.max_batch_size,
            total_updates_received: self.total_updates_received,
            total_batches_sent: self.total_batches_sent,
        };
        std::mem::swap(&mut b, self);
        b
    }

    /// Whether a batch is due, given the time since the last batch and the
    /// batch interval, both in nanoseconds: something waits, and the
    /// interval has passed or enough files wait.
    pub fn batch_due(&self, elapsed_nanos: u128, interval_nanos: u128) -> (b: bool)
        ensures
            b == (self.pending().len() > 0 && (elapsed_nanos >= interval_nanos
                || self.pending().len() >= self.max_batch_size())),
    {
        let waiting = self.pending_updates.len();
        waiting > 0 && (elapsed_nanos >= interval_nanos || waiting >= self.max_batch_size)
    }

    /// Check if a batch should be sent based on time or size limits: the
    /// clock's time since the last batch and the batch interval are handed
    /// to `batch_due`. A batch is due only if something waits, and always
    /// when enough files wait.
    pub fn should_send_batch(&self) -> (b: bool)
        ensures
            b ==> self.pending().len() > 0,
            self.pending().len() > 0 && self.pending().len() >= self.max_batch_size() ==> b,
    {
        let elapsed = instant_elapsed(&self.last_batch_time);
        self.batch_due(duration_as_nanos(&elapsed), duration_as_nanos(&self.batch_interval))
    }

    /// Hand out the waiting updates, one per file, each under the path it
    /// was first given with, and start a new batch.
    pub fn get_batch(&mut self) -> (r: Vec<(String, U)>)
        requires
            old(self).batches_sent() < usize::MAX,
        ensures
            r@.len() == old(self).pending().len(),
            forall|i: int|
                0 <= i < r@.len() ==> (#[trigger] r@[i]).0@ == old(self).pending_paths()[i]
                    && r@[i].1 == old(self).pending()[i].1 && path_normal(r@[i].0@)
                    == old(self).pending()[i].0,
            distinct_keys(keyed(r@)),
            final(self).pending().len() == 0,
            final(self).batches_sent() == old(self).batches_sent() + 1,
            final(self).updates_received() == old(self).updates_received(),
            final(self).max_batch_size() == old(self).max_batch_size(),
            final(self).batch_interval() == old(self).batch_interval(),
    {
        let ProgressBatcher {
            mut pending_updates,
            mut pending_paths,
            last_batch_time,
            batch_interval,
            max_batch_size,
            total_updates_received,
            total_batches_sent,
        } = self.take();
        let ghost entries = pending_updates@;
        let ghost paths = pending_paths@;
        let n = pending_updates.len();
        let mut batch: Vec<(String, U)> = Vec::new();
        let mut i: usize = 0;
        while i < n
            invariant
                n == entries.len(),
                paths.len() == n,
                i <= n,
                pending_updates@ == entries.subrange(i as int, n as int),
                pending_paths@ == paths.subrange(i as int, n as int),
                batch@.len() == i,
                forall|j: int|
                    0 <= j < i ==> (#[trigger] batch@[j]).0 == paths[j] && batch@[j].1
                        == entries[j].1,
            decreases n - i,
        {
            let path = pending_paths.remove(0);
            let (_, update) = pending_updates.remove(0);
            batch.push((path, update));
            assert(pending_updates@ =~= entries.subrange(i + 1, n as int));
            assert(pending_paths@ =~= paths.subrange(i + 1, n as int));
            i = i + 1;
        }
        proof {
            assert forall|a: int, b: int| 0 <= a < b < batch@.len() implies keyed(batch@)[a].0
                != keyed(batch@)[b].0 by {
                assert(path_normal(paths[a]@) == entries[a].0@);
                assert(path_normal(paths[b]@) == entries[b].0@);
                assert(keyed(entries)[a].0 != keyed(entries)[b].0);
            }
        }
        *self = ProgressBatcher {
            pending_updates: Vec::new(),
            pending_paths: Vec::new(),
            last_batch_time: instant_now(),
            batch_interval,
            max_batch_size,
            total_updates_received,
            total_batches_sent: total_batches_sent + 1,
        };
        assert(self.pending() =~= Seq::empty());
        batch
    }

    /// Get batching statistics.
    pub fn get_stats(&self) -> (s: ProgressBatchingStats)
        ensures
            s.pending_updates == self.pending().len(),
            s.total_updates_received == self.updates_received(),
            s.total_batches_sent == self.batches_sent(),
            s.batch_interval == self.batch_interval(),
    {
        ProgressBatchingStats {
            pending_updates: self.pending_updates.len(),
            total_updates_received: self.total_updates_received,
            total_batches_sent: self.total_batches_sent,
            batch_interval: self.batch_interval,
        }
    }

    /// Set how long after the last batch a batch is due.
    pub fn set_batch_interval(&mut self, interval: std::time::Duration)
        ensures
            final(self).batch_interval() == interval,
            final(self).pending() == old(self).pending(),
            final(self).updates_received() == old(self).updates_received(),
            final(self).batches_sent() == old(self).batches_sent(),
            final(self).max_batch_size() == old(self).max_batch_size(),
    {
        proof {
            use_type_invariant(&*self);
        }
        self.batch_interval = interval;
    }

    /// Set how many waiting files make a batch due at once.
    pub fn set_max_batch_size(&mut self, size: usize)
        ensures
            final(self).max_batch_size() == size,
            final(self).pending() == old(self).pending(),
            final(self).updates_received() == old(self).updates_received(),
            final(self).batches_sent() == old(self).batches_sent(),
            final(self).batch_interval() == old(self).batch_interval(),
    {
        proof {
            use_type_invariant(&*self);
        }
        self.max_batch_size = size;
    }
}

/// A later update for a file replaces the waiting one, and the updates
/// waiting for other files stay as they were.
pub proof fn lemma_latest_update_wins<U>(es: Seq<(Seq<char>, U)>, k: Seq<char>, u: U, other: Seq<char>)
    requires
        distinct_keys(es),
        other != k,
    ensures
        lookup(upsert(es, k, u), k) == Some(u),
        lookup(upsert(es, k, u), other) == lookup(es, other),
        upsert(es, k, u).len() == es.len() + if index_of_key(es, k) is Some {
            0int
        } else {
            1int
        },
{
    let r = upsert(es, k, u);
    match index_of_key(es, k) {
        Some(i) => {
            assert(r[i].0 == k);
            let c = choose|j: int| 0 <= j < r.len() && #[trigger] r[j].0 == k;
            assert(c == i) by {
                if c != i {
                    assert(es[c].0 == r[c].0);
                }
            }
        },
        None => {
            assert(r[r.len() - 1].0 == k);
            let c = choose|j: int| 0 <= j < r.len() && #[trigger] r[j].0 == k;
            assert(c == r.len() - 1) by {
                if c != r.len() - 1 {
                    assert(es[c].0 == k);
                }
            }
        },
    }
    if index_of_key(es, other) is Some {
        let j = index_of_key(es, other)->0;
        assert(r[j].0 == other);
        let c = choose|x: int| 0 <= x < r.len() && #[trigger] r[x].0 == other;
        assert(c == j) by {
            if c != j {
                if c < es.len() {
                    assert(es[c].0 == r[c].0);
                }
            }
        }
    } else {
        assert forall|x: int| 0 <= x < r.len() implies #[trigger] r[x].0 != other by {
            if x < es.len() {
                if r[x].0 == other {
                    assert(es[x].0 == other);
                }
            }
        }
    }
}


/// The load a CPU estimate is figured from: the running jobs out of the
/// most that may run at once.
#[derive(Debug, Clone, Copy, PartialEq, Eq, Structural)]
pub struct CpuLoad {
    pub active_jobs: usize,
    pub max_jobs: usize,
}

/// Whether the estimated CPU usage at load `l` is above 90%. Each job is
/// taken to use 80% of the machine divided by the most jobs that may run,
/// and no limit means no usage; the comparison is made on the ratio itself.
pub open spec fn cpu_over_limit(l: CpuLoad) -> bool {
    l.max_jobs > 0 && l.active_jobs * 80 > l.max_jobs * 90
}

/// The estimated memory use with `active` running jobs: 50 MiB, and
/// 100 MiB more per job.
pub open spec fn estimated_memory(active: nat) -> nat {
    52428800 + active * 104857600
}

/// A sample window after adding `x`: the newest 60 samples are kept.
pub open spec fn window_push<T>(s: Seq<T>, x: T) -> Seq<T> {
    if s.len() >= 60 {
        s.push(x).drop_first()
    } else {
        s.push(x)
    }
}

/// Whether another job may start: fewer than the most allowed run, the
/// latest CPU sample, if any, is not above 90%, and the latest memory
/// sample, if any, is at most 8 GiB (counted in whole GiB).
pub open spec fn may_start_job(active: nat, max: nat, cpu: Seq<CpuLoad>, memory: Seq<u64>) -> bool {
    &&& active < max
    &&& cpu.len() > 0 ==> !cpu_over_limit(cpu.last())
    &&& memory.len() > 0 ==> memory.last() / 1073741824 <= 8
}

/// Resource figures.
#[derive(Debug, Clone, Copy, PartialEq, Eq, Structural)]
pub struct ResourceStats {
    pub active_jobs: usize,
    pub max_parallel_jobs: usize,
    pub cpu_load: CpuLoad,
    pub estimated_memory_usage_bytes: u64,
}

/// Whether the estimated CPU usage at load `l` is above 80%: with each job
/// counting for 80% divided by the most jobs that may run, that is when more
/// jobs run than may.
pub open spec fn cpu_busy(l: CpuLoad) -> bool {
    l.max_jobs > 0 && l.active_jobs > l.max_jobs
}

/// How long to wait between rounds of the encoding loop, in milliseconds:
/// longer when the CPU is busy, shorter when nothing runs.
pub open spec fn poll_delay(s: ResourceStats) -> u64 {
    if cpu_busy(s.cpu_load) {
        200
    } else if s.active_jobs == 0 {
        50
    } else {
        100
    }
}

/// How long to wait between rounds of the encoding loop, in milliseconds:
/// 200 when the estimated CPU usage is above 80%, 50 when no job runs, and
/// 100 otherwise.
pub fn adaptive_delay_ms(stats: &ResourceStats) -> (ms: u64)
    ensures
        ms == poll_delay(*stats),
{
    let load = stats.cpu_load;
    if load.max_jobs > 0 && load.active_jobs > load.max_jobs {
        200
    } else if stats.active_jobs == 0 {
        50
    } else {
        100
    }
}

/// System resource monitoring to prevent overload: the job counts and
/// windows of recent load samples.
#[derive(Debug)]
pub struct ResourceMonitor {
    cpu_usage_samples: Vec<CpuLoad>,
    memory_usage_samples: Vec<u64>,
    active_encoding_jobs: usize,
    max_parallel_jobs: usize,
    last_sample_time: std::time::Instant,
    sample_interval: std::time::Duration,
}

impl ResourceMonitor {
    /// The number of running jobs.
    pub closed spec fn active_jobs(&self) -> nat {
        self.active_encoding_jobs as nat
    }

    /// The most jobs that may run at once.
    pub closed spec fn max_jobs(&self) -> nat {
        self.max_parallel_jobs as nat
    }

    /// The recent CPU load samples, oldest first.
    pub closed spec fn cpu_samples(&self) -> Seq<CpuLoad> {
        self.cpu_usage_samples@
    }

    /// The recent memory estimates, oldest first.
    pub closed spec fn memory_samples(&self) -> Seq<u64> {
        self.memory_usage_samples@
    }

    #[verifier::type_invariant]
    closed spec fn well_formed(self) -> bool {
        &&& self.cpu_usage_samples@.len() <= 60
        &&& self.memory_usage_samples@.len() <= 60
    }

    /// A monitor without samples, no running jobs and two allowed,
    /// sampling at most once a second.
    pub fn new() -> (m: Self)
        ensures
            m.active_jobs() == 0,
            m.max_jobs() == 2,
            m.cpu_samples().len() == 0,
            m.memory_samples().len() == 0,
    {
        ResourceMonitor {
            cpu_usage_samples: Vec::new(),
            memory_usage_samples: Vec::new(),
            active_encoding_jobs: 0,
            max_parallel_jobs: 2,
            last_sample_time: instant_now(),
            sample_interval: duration_from_secs(1),
        }
    }

    /// Set the number of running jobs.
    pub fn set_active_jobs(&mut self, count: usize)
        ensures
            final(self).active_jobs() == count,
            final(self).max_jobs() == old(self).max_jobs(),
            final(self).cpu_samples() == old(self).cpu_samples(),
            final(self).memory_samples() == old(self).memory_samples(),
    {
        proof {
            use_type_invariant(&*self);
        }
        self.active_encoding_jobs = count;
    }

    /// Set the most jobs that may run at once.
    pub fn set_max_parallel_jobs(&mut self, max: usize)
        ensures
            final(self).max_jobs() == max,
            final(self).active_jobs() == old(self).active_jobs(),
            final(self).cpu_samples() == old(self).cpu_samples(),
            final(self).memory_samples() == old(self).memory_samples(),
    {
        proof {
            use_type_invariant(&*self);
        }
        self.max_parallel_jobs = max;
    }

    /// The current load, from which the CPU usage is estimated.
    pub fn current_load(&self) -> (l: CpuLoad)
        ensures
            l == (CpuLoad { active_jobs: self.active_jobs() as usize, max_jobs: self.max_jobs() as usize }),
    {
        CpuLoad { active_jobs: self.active_encoding_jobs, max_jobs: self.max_parallel_jobs }
    }

    /// Estimate memory usage from the running jobs.
    pub fn estimate_memory_usage(&self) -> (m: u64)
        requires
            estimated_memory(self.active_jobs()) <= u64::MAX,
        ensures
            m == estimated_memory(self.active_jobs()),
    {
        let active = self.active_encoding_jobs as u64;
        52428800 + active * 104857600
    }

    /// Add the current load and memory estimate to the sample windows.
    pub fn record_sample(&mut self)
        requires
            estimated_memory(old(self).active_jobs()) <= u64::MAX,
        ensures
            final(self).cpu_samples() == window_push(
                old(self).cpu_samples(),
                CpuLoad { active_jobs: old(self).active_jobs() as usize, max_jobs: old(self).max_jobs() as usize },
            ),
            final(self).memory_samples() == window_push(
                old(self).memory_samples(),
                estimated_memory(old(self).active_jobs()) as u64,
            ),
            final(self).active_jobs() == old(self).active_jobs(),
            final(self).max_jobs() == old(self).max_jobs(),
    {
        proof {
            use_type_invariant(&*self);
        }
        let load = self.current_load();
        let memory = self.estimate_memory_usage();
        let mut cpu: Vec<CpuLoad> = Vec::new();
        std::mem::swap(&mut cpu, &mut self.cpu_usage_samples);
        let mut mem: Vec<u64> = Vec::new();
        std::mem::swap(&mut mem, &mut self.memory_usage_samples);
        let ghost cpu_before = cpu@;
        let ghost mem_before = mem@;
        cpu.push(load);
        mem.push(memory);
        if cpu.len() > 60 {
            cpu.remove(0);
        }
        if mem.len() > 60 {
            mem.remove(0);
        }
        assert(cpu@ =~= window_push(cpu_before, load));
        assert(mem@ =~= window_push(mem_before, memory));
        self.cpu_usage_samples = cpu;
        self.memory_usage_samples = mem;
    }

    /// Sample the load if the sampling interval has passed, given the time
    /// since the last sample and the interval, both in nanoseconds: when
    /// `elapsed_nanos >= interval_nanos` the windows take the current sample
    /// and the sampling time is reset to now; otherwise nothing changes.
    pub fn sample_if_due(&mut self, elapsed_nanos: u128, interval_nanos: u128)
        requires
            estimated_memory(old(self).active_jobs()) <= u64::MAX,
        ensures
            final(self).active_jobs() == old(self).active_jobs(),
            final(self).max_jobs() == old(self).max_jobs(),
            elapsed_nanos < interval_nanos ==> *final(self) == *old(self),
            elapsed_nanos >= interval_nanos ==> {
                &&& final(self).cpu_samples() == window_push(
                    old(self).cpu_samples(),
                    CpuLoad { active_jobs: old(self).active_jobs() as usize, max_jobs: old(self).max_jobs() as usize },
                )
                &&& final(self).memory_samples() == window_push(
                    old(self).memory_samples(),
                    estimated_memory(old(self).active_jobs()) as u64,
                )
            },
    {
        if elapsed_nanos < interval_nanos {
            return;
        }
        self.record_sample();
        proof {
            use_type_invariant(&*self);
        }
        self.last_sample_time = instant_now();
    }

    /// Sample the load, at most once per sampling interval: the clock's
    /// time since the last sample and the interval are handed to
    /// `sample_if_due`, so the clock decides whether this call samples.
    pub fn sample_resources(&mut self)
        requires
            estimated_memory(old(self).active_jobs()) <= u64::MAX,
        ensures
            final(self).active_jobs() == old(self).active_jobs(),
            final(self).max_jobs() == old(self).max_jobs(),
            ({
                ||| final(self).cpu_samples() == old(self).cpu_samples()
                    && final(self).memory_samples() == old(self).memory_samples()
                ||| final(self).cpu_samples() == window_push(
                    old(self).cpu_samples(),
                    CpuLoad { active_jobs: old(self).active_jobs() as usize, max_jobs: old(self).max_jobs() as usize },
                ) && final(self).memory_samples() == window_push(
                    old(self).memory_samples(),
                    estimated_memory(old(self).active_jobs()) as u64,
                )
            }),
    {
        let elapsed = instant_elapsed(&self.last_sample_time);
        let elapsed_nanos = duration_as_nanos(&elapsed);
        let interval_nanos = duration_as_nanos(&self.sample_interval);
        self.sample_if_due(elapsed_nanos, interval_nanos);
    }

    /// Check if the system can take another encoding job.
    pub fn can_start_additional_job(&self) -> (b: bool)
        ensures
            b == may_start_job(self.active_jobs(), self.max_jobs(), self.cpu_samples(), self.memory_samples()),
    {
        if self.active_encoding_jobs >= self.max_parallel_jobs {
            return false;
        }
        let n = self.cpu_usage_samples.len();
        if n > 0 {
            let recent = self.cpu_usage_samples[n - 1];
            if recent.max_jobs > 0 && (recent.active_jobs as u128) * 80 > (recent.max_jobs as u128) * 90 {
                return false;
            }
        }
        let m = self.memory_usage_samples.len();
        if m > 0 {
            let recent = self.memory_usage_samples[m - 1];
            if recent / 1073741824 > 8 {
                return false;
            }
        }
        true
    }

    /// Get resource monitoring statistics.
    pub fn get_stats(&self) -> (s: ResourceStats)
        requires
            estimated_memory(self.active_jobs()) <= u64::MAX,
        ensures
            s.active_jobs == self.active_jobs(),
            s.max_parallel_jobs == self.max_jobs(),
            s.cpu_load == (CpuLoad { active_jobs: s.active_jobs, max_jobs: s.max_parallel_jobs }),
            s.estimated_memory_usage_bytes == estimated_memory(self.active_jobs()),
    {
        ResourceStats {
            active_jobs: self.active_encoding_jobs,
            max_parallel_jobs: self.max_parallel_jobs,
            cpu_load: self.current_load(),
            estimated_memory_usage_bytes: self.estimate_memory_usage(),
        }
    }
}


/// The labels of a list of labelled values.
pub open spec fn labels_of<T>(v: Seq<(String, T)>) -> Seq<Seq<char>> {
    v.map_values(|e: (String, T)| e.0@)
}

/// Performance benchmarking utilities: a start time and labelled checkpoints.
pub struct PerformanceBenchmark {
    start_time: std::time::Instant,
    checkpoints: Vec<(String, std::time::Instant)>,
}

/// Benchmark results: the total time, and for each checkpoint the time
/// since the one before it (since the start for the first).
#[derive(Debug)]
pub struct BenchmarkResults {
    pub total_duration: std::time::Duration,
    pub checkpoint_durations: Vec<(String, std::time::Duration)>,
}

impl PerformanceBenchmark {
    /// The labels of the checkpoints so far, in order.
    pub closed spec fn checkpoint_labels(&self) -> Seq<Seq<char>> {
        labels_of(self.checkpoints@)
    }

    /// A benchmark that starts now, without checkpoints.
    pub fn new() -> (b: Self)
        ensures
            b.checkpoint_labels().len() == 0,
    {
        let b = PerformanceBenchmark { start_time: instant_now(), checkpoints: Vec::new() };
        assert(b.checkpoint_labels() =~= Seq::empty());
        b
    }

    /// Add a checkpoint with a label, at the current time.
    pub fn checkpoint(&mut self, label: &str)
        ensures
            final(self).checkpoint_labels() == old(self).checkpoint_labels().push(label@),
    {
        let ghost before = self.checkpoints@;
        self.checkpoints.push((label.to_owned(), instant_now()));
        assert(labels_of(self.checkpoints@) =~= labels_of(before).push(label@));
    }

    /// Get benchmark results: one duration per checkpoint, under its label,
    /// in order. The durations themselves come from the clock.
    pub fn results(&self) -> (r: BenchmarkResults)
        ensures
            labels_of(r.checkpoint_durations@) == self.checkpoint_labels(),
    {
        let total_duration = instant_elapsed(&self.start_time);
        let mut checkpoint_durations: Vec<(String, std::time::Duration)> = Vec::new();
        let mut last_time = self.start_time;
        let mut i: usize = 0;
        while i < self.checkpoints.len()
            invariant
                i <= self.checkpoints@.len(),
                labels_of(checkpoint_durations@) == labels_of(self.checkpoints@).take(i as int),
            decreases self.checkpoints@.len() - i,
        {
            let label = self.checkpoints[i].0.clone();
            let time = self.checkpoints[i].1;
            let duration = instant_duration_since(&time, &last_time);
            let ghost before = checkpoint_durations@;
            checkpoint_durations.push((label, duration));
            assert(labels_of(checkpoint_durations@) =~= labels_of(before).push(
                self.checkpoints@[i as int].0@,
            ));
            assert(labels_of(self.checkpoints@).take(i + 1) =~= labels_of(self.checkpoints@).take(
                i as int,
            ).push(self.checkpoints@[i as int].0@));
            last_time = time;
            i = i + 1;
        }
        assert(labels_of(self.checkpoints@).take(i as int) =~= labels_of(self.checkpoints@));
        BenchmarkResults { total_duration, checkpoint_durations }
    }
}

} // verus!
