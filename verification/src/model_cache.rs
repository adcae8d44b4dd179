//! Cache of loaded speech models, so that a model is loaded once.
use vstd::prelude::*;
use vstd::string::StringExecFns;
use crate::error::VoxError;
use crate::text::str_eq;

verus! {

/// Key of a cached model: its kind and its path or identifier.
#[derive(Debug, Clone)]
pub struct CacheKey {
    /// Model kind ("stt", "tts", "vad").
    pub kind: String,
    /// Model path or identifier.
    pub identifier: String,
}

impl CacheKey {
    /// The key of a speech-to-text model stored at `path` (the path as text).
    pub fn stt(path: &str) -> (r: Self)
        ensures
            r.kind@ == "stt"@,
            r.identifier@ == path@,
    {
        CacheKey { kind: String::from_str("stt"), identifier: String::from_str(path) }
    }

    /// The key of a text-to-speech model stored at `path` (the path as text).
    pub fn tts(path: &str) -> (r: Self)
        ensures
            r.kind@ == "tts"@,
            r.identifier@ == path@,
    {
        CacheKey { kind: String::from_str("tts"), identifier: String::from_str(path) }
    }
}

/// A key as plain values: kind and identifier.
pub open spec fn key_view(k: CacheKey) -> (Seq<char>, Seq<char>) {
    (k.kind@, k.identifier@)
}

/// A cached entry as plain values: key, speech-to-text model,
/// text-to-speech model, and the tick of its last access.
spec fn entry_of<S, T>(e: CacheEntry<S, T>) -> ((Seq<char>, Seq<char>), Option<S>, Option<T>, u64) {
    (key_view(e.key), e.stt, e.tts, e.last_access)
}

/// Whether `i` is the least recently used entry of `v`.
pub open spec fn is_lru<S, T>(v: Seq<((Seq<char>, Seq<char>), Option<S>, Option<T>, u64)>, i: int) -> bool {
    &&& 0 <= i < v.len()
    &&& forall|j: int| 0 <= j < v.len() ==> v[i].3 <= #[trigger] v[j].3
}

/// `w` is `v` after making room: when `v` holds `max` entries or more, its
/// least recently used entry is dropped; otherwise nothing changes.
pub open spec fn evicts<S, T>(
    v: Seq<((Seq<char>, Seq<char>), Option<S>, Option<T>, u64)>,
    max: nat,
    w: Seq<((Seq<char>, Seq<char>), Option<S>, Option<T>, u64)>,
) -> bool {
    if v.len() >= max && v.len() > 0 {
        exists|i: int| is_lru(v, i) && w == v.remove(i)
    } else {
        w == v
    }
}

/// Whether `v` has an entry for `k`.
pub open spec fn has_key<S, T>(v: Seq<((Seq<char>, Seq<char>), Option<S>, Option<T>, u64)>, k: (Seq<char>, Seq<char>)) -> bool {
    exists|i: int| 0 <= i < v.len() && v[i].0 == k
}

/// The position of the entry for `k` in `v` (meaningful when there is one).
pub open spec fn key_index<S, T>(v: Seq<((Seq<char>, Seq<char>), Option<S>, Option<T>, u64)>, k: (Seq<char>, Seq<char>)) -> int {
    choose|i: int| 0 <= i < v.len() && v[i].0 == k
}

/// `v` with the entry for `k` set to `(stt, tts)` at tick `tick`: an existing
/// entry for `k` is replaced in place, otherwise the entry is added.
pub open spec fn put<S, T>(
    v: Seq<((Seq<char>, Seq<char>), Option<S>, Option<T>, u64)>,
    k: (Seq<char>, Seq<char>),
    stt: Option<S>,
    tts: Option<T>,
    tick: u64,
) -> Seq<((Seq<char>, Seq<char>), Option<S>, Option<T>, u64)> {
    if has_key(v, k) {
        v.update(key_index(v, k), (k, stt, tts, tick))
    } else {
        v.push((k, stt, tts, tick))
    }
}

/// No key occurs twice.
pub open spec fn distinct_keys<S, T>(v: Seq<((Seq<char>, Seq<char>), Option<S>, Option<T>, u64)>) -> bool {
    forall|i: int, j: int| 0 <= i < v.len() && 0 <= j < v.len() && i != j ==> v[i].0 != v[j].0
}

/// A cached model together with the time it was last used.
#[derive(Debug)]
struct CacheEntry<S, T> {
    key: CacheKey,
    stt: Option<S>,
    tts: Option<T>,
    last_access: u64,
}

/// Cache of loaded models with least-recently-used eviction; recency is
/// kept as a tick that advances on every access.
#[derive(Debug)]
pub struct ModelCache<S, T> {
    entries: Vec<CacheEntry<S, T>>,
    max_entries: usize,
    hits: u64,
    misses: u64,
    clock: u64,
}

impl<S: Clone, T: Clone> ModelCache<S, T> {
    /// The entries as plain values.
    pub closed spec fn view_entries(&self) -> Seq<((Seq<char>, Seq<char>), Option<S>, Option<T>, u64)> {
        self.entries@.map_values(|e: CacheEntry<S, T>| entry_of(e))
    }

    /// Maximum number of entries.
    pub closed spec fn max(&self) -> nat {
        self.max_entries as nat
    }

    /// Number of lookups answered from the cache.
    pub closed spec fn hit_count(&self) -> u64 {
        self.hits
    }

    /// Number of lookups that had to load.
    pub closed spec fn miss_count(&self) -> u64 {
        self.misses
    }

    /// The tick the next access is recorded with.
    pub closed spec fn now(&self) -> u64 {
        self.clock
    }

    /// Keys are distinct, every recorded access is earlier than the clock,
    /// no two accesses share a tick, and the clock has not advanced more
    /// often than there were lookups.
    pub closed spec fn wf(&self) -> bool {
        &&& distinct_keys(self.view_entries())
        &&& forall|i: int| 0 <= i < self.view_entries().len() ==> #[trigger] self.view_entries()[i].3 < self.clock
        &&& forall|i: int, j: int|
            0 <= i < self.view_entries().len() && 0 <= j < self.view_entries().len() && i != j
                ==> #[trigger] self.view_entries()[i].3 != #[trigger] self.view_entries()[j].3
        &&& self.clock <= self.hits + self.misses
    }

    /// Another lookup can be counted.
    pub open spec fn can_count(&self) -> bool {
        self.hit_count() + self.miss_count() < u64::MAX
    }

    /// An empty cache holding at most `max_entries` models.
    pub fn new(max_entries: usize) -> (r: Self)
        ensures
            r.wf(),
            r.max() == max_entries,
            r.view_entries().len() == 0,
            r.hit_count() == 0,
            r.miss_count() == 0,
    {
        let r = ModelCache { entries: Vec::new(), max_entries, hits: 0, misses: 0, clock: 0 };
        assert(r.view_entries() =~= Seq::empty());
        r
    }

    /// Number of cached models.
    pub fn len(&self) -> (r: usize)
        ensures
            r == self.view_entries().len(),
    {
        self.entries.len()
    }

    /// Maximum number of cached models.
    pub fn max_entries(&self) -> (r: usize)
        ensures
            r == self.max(),
    {
        self.max_entries
    }

    /// Lookups answered from the cache.
    pub fn hits(&self) -> (r: u64)
        ensures
            r == self.hit_count(),
    {
        self.hits
    }

    /// Lookups that had to load.
    pub fn misses(&self) -> (r: u64)
        ensures
            r == self.miss_count(),
    {
        self.misses
    }

    fn find(&self, key: &CacheKey) -> (r: Option<usize>)
        ensures
            match r {
                Some(i) => i < self.view_entries().len() && self.view_entries()[i as int].0 == key_view(*key),
                None => forall|i: int| 0 <= i < self.view_entries().len() ==> self.view_entries()[i].0 != key_view(*key),
            },
    {
        let mut i: usize = 0;
        while i < self.entries.len()
            invariant
                i <= self.view_entries().len(),
                self.view_entries().len() == self.entries@.len(),
                forall|j: int| 0 <= j < i ==> self.view_entries()[j].0 != key_view(*key),
            decreases self.entries@.len() - i,
        {
            let e = &self.entries[i];
            assert(self.view_entries()[i as int] == entry_of(*e));
            if str_eq(e.key.kind.as_str(), key.kind.as_str()) && str_eq(
                e.key.identifier.as_str(),
                key.identifier.as_str(),
            ) {
                return Some(i);
            }
            i = i + 1;
        }
        None
    }

    /// Drops the least recently used entry when the cache is full.
    fn evict_lru_if_needed(&mut self)
        requires
            old(self).wf(),
        ensures
            final(self).wf(),
            evicts(old(self).view_entries(), old(self).max(), final(self).view_entries()),
            final(self).max() == old(self).max(),
            final(self).hit_count() == old(self).hit_count(),
            final(self).miss_count() == old(self).miss_count(),
            final(self).now() == old(self).now(),
    {
        let ghost v = self.view_entries();
        let n = self.entries.len();
        if n >= self.max_entries && n > 0 {
            let mut best: usize = 0;
            let mut i: usize = 1;
            while i < n
                invariant
                    n == self.entries@.len(),
                    v == self.view_entries(),
                    n == v.len(),
                    0 <= best < n,
                    1 <= i <= n,
                    forall|j: int| 0 <= j < i ==> v[best as int].3 <= #[trigger] v[j].3,
                decreases n - i,
            {
                assert(v[i as int] == entry_of(self.entries@[i as int]));
                assert(v[best as int] == entry_of(self.entries@[best as int]));
                if self.entries[i].last_access < self.entries[best].last_access {
                    best = i;
                }
                i = i + 1;
            }
            assert(is_lru(v, best as int));
            self.entries.remove(best);
            assert(self.view_entries() =~= v.remove(best as int));
        }
    }

    /// Records `(stt, tts)` for `key` at the current tick.
    fn put_entry(&mut self, key: CacheKey, stt: Option<S>, tts: Option<T>)
        requires
            old(self).wf(),
            old(self).now() < u64::MAX,
            old(self).now() < old(self).hit_count() + old(self).miss_count(),
        ensures
            final(self).wf(),
            final(self).view_entries() == put(
                old(self).view_entries(),
                key_view(key),
                stt,
                tts,
                old(self).now(),
            ),
            final(self).max() == old(self).max(),
            final(self).hit_count() == old(self).hit_count(),
            final(self).miss_count() == old(self).miss_count(),
            final(self).now() == old(self).now() + 1,
    {
        let ghost v = self.view_entries();
        let ghost kv = key_view(key);
        let tick = self.clock;
        match self.find(&key) {
            Some(i) => {
                let ghost j = key_index(v, kv);
                assert(has_key(v, kv));
                assert(j == i as int);
                self.entries.set(i, CacheEntry { key, stt, tts, last_access: tick });
                assert(self.view_entries() =~= v.update(i as int, (kv, stt, tts, tick)));
            },
            None => {
                self.entries.push(CacheEntry { key, stt, tts, last_access: tick });
                assert(self.view_entries() =~= v.push((kv, stt, tts, tick)));
            },
        }
        self.clock = tick + 1;
    }

    /// The speech-to-text model for `key`: the cached one when there is
    /// one (a hit), else the one `loader` produces, which is then cached in
    /// place of the least recently used entry if the cache is full (a miss).
    /// A loader error is returned and nothing is cached.
    pub fn get_or_load_stt<F: FnOnce() -> Result<S, VoxError>>(&mut self, key: CacheKey, loader: F) -> (r: Result<S, VoxError>)
        requires
            old(self).wf(),
            old(self).can_count(),
            loader.requires(()),
        ensures
            final(self).wf(),
            final(self).max() == old(self).max(),
            ({
                let v = old(self).view_entries();
                let kv = key_view(key);
                if exists|i: int| 0 <= i < v.len() && v[i].0 == kv && v[i].1 is Some {
                    let i = choose|i: int| 0 <= i < v.len() && v[i].0 == kv && v[i].1 is Some;
                    &&& r matches Ok(b) && cloned(v[i].1->0, b)
                    &&& final(self).view_entries() == v.update(i, (kv, v[i].1, v[i].2, old(self).now()))
                    &&& final(self).hit_count() == old(self).hit_count() + 1
                    &&& final(self).miss_count() == old(self).miss_count()
                } else {
                    &&& final(self).miss_count() == old(self).miss_count() + 1
                    &&& final(self).hit_count() == old(self).hit_count()
                    &&& match r {
                        Ok(b) => loader.ensures((), Ok::<S, VoxError>(b)) && exists|w: Seq<((Seq<char>, Seq<char>), Option<S>, Option<T>, u64)>, c: S| {
                            &&& evicts(v, old(self).max(), w)
                            &&& cloned(b, c)
                            &&& final(self).view_entries() == put(w, kv, Some(c), None, old(self).now())
                        },
                        Err(e) => loader.ensures((), Err::<S, VoxError>(e)) && final(self).view_entries() == v,
                    }
                }
            }),
    {
        let ghost v = self.view_entries();
        let ghost kv = key_view(key);
        if let Some(i) = self.find(&key) {
            assert(self.view_entries()[i as int] == entry_of(self.entries@[i as int]));
            if let Some(m) = &self.entries[i].stt {
                let b = m.clone();
                let ghost j = choose|j: int| 0 <= j < v.len() && v[j].0 == kv && v[j].1 is Some;
                assert(j == i as int);
                let tick = self.clock;
                let mut e = self.entries.remove(i);
                e.last_access = tick;
                self.entries.insert(i, e);
                assert(self.view_entries() =~= v.update(i as int, (kv, v[i as int].1, v[i as int].2, tick)));
                self.hits = self.hits + 1;
                self.clock = tick + 1;
                return Ok(b);
            }
        }
        self.misses = self.misses + 1;
        let loaded = loader();
        match loaded {
            Ok(b) => {
                self.evict_lru_if_needed();
                let ghost w = self.view_entries();
                let c = b.clone();
                self.put_entry(key, Some(c), None);
                Ok(b)
            },
            Err(e) => Err(e),
        }
    }

    /// The text-to-speech model for `key`: the cached one when there is
    /// one (a hit), else the one `loader` produces, which is then cached in
    /// place of the least recently used entry if the cache is full (a miss).
    /// A loader error is returned and nothing is cached.
    pub fn get_or_load_tts<F: FnOnce() -> Result<T, VoxError>>(&mut self, key: CacheKey, loader: F) -> (r: Result<T, VoxError>)
        requires
            old(self).wf(),
            old(self).can_count(),
            loader.requires(()),
        ensures
            final(self).wf(),
            final(self).max() == old(self).max(),
            ({
                let v = old(self).view_entries();
                let kv = key_view(key);
                if exists|i: int| 0 <= i < v.len() && v[i].0 == kv && v[i].2 is Some {
                    let i = choose|i: int| 0 <= i < v.len() && v[i].0 == kv && v[i].2 is Some;
                    &&& r matches Ok(b) && cloned(v[i].2->0, b)
                    &&& final(self).view_entries() == v.update(i, (kv, v[i].1, v[i].2, old(self).now()))
                    &&& final(self).hit_count() == old(self).hit_count() + 1
                    &&& final(self).miss_count() == old(self).miss_count()
                } else {
                    &&& final(self).miss_count() == old(self).miss_count() + 1
                    &&& final(self).hit_count() == old(self).hit_count()
                    &&& match r {
                        Ok(b) => loader.ensures((), Ok::<T, VoxError>(b)) && exists|w: Seq<((Seq<char>, Seq<char>), Option<S>, Option<T>, u64)>, c: T| {
                            &&& evicts(v, old(self).max(), w)
                            &&& cloned(b, c)
                            &&& final(self).view_entries() == put(w, kv, None, Some(c), old(self).now())
                        },
                        Err(e) => loader.ensures((), Err::<T, VoxError>(e)) && final(self).view_entries() == v,
                    }
                }
            }),
    {
        let ghost v = self.view_entries();
        let ghost kv = key_view(key);
        if let Some(i) = self.find(&key) {
            assert(self.view_entries()[i as int] == entry_of(self.entries@[i as int]));
            if let Some(m) = &self.entries[i].tts {
                let b = m.clone();
                let ghost j = choose|j: int| 0 <= j < v.len() && v[j].0 == kv && v[j].2 is Some;
                assert(j == i as int);
                let tick = self.clock;
                let mut e = self.entries.remove(i);
                e.last_access = tick;
                self.entries.insert(i, e);
                assert(self.view_entries() =~= v.update(i as int, (kv, v[i as int].1, v[i as int].2, tick)));
                self.hits = self.hits + 1;
                self.clock = tick + 1;
                return Ok(b);
            }
        }
        self.misses = self.misses + 1;
        let loaded = loader();
        match loaded {
            Ok(b) => {
                self.evict_lru_if_needed();
                let ghost w = self.view_entries();
                let c = b.clone();
                self.put_entry(key, None, Some(c));
                Ok(b)
            },
            Err(e) => Err(e),
        }
    }

    /// Empties the cache and its counters.
    pub fn clear(&mut self)
        ensures
            final(self).wf(),
            final(self).view_entries().len() == 0,
            final(self).hit_count() == 0,
            final(self).miss_count() == 0,
            final(self).max() == old(self).max(),
    {
        self.entries = Vec::new();
        self.hits = 0;
        self.misses = 0;
        self.clock = 0;
        assert(self.view_entries() =~= Seq::empty());
    }
}

/// A cache never grows past its maximum: if it held at most `max` (at least
/// one) entries, it still does after a model is loaded into it.
pub proof fn lemma_load_respects_capacity<S, T>(
    v: Seq<((Seq<char>, Seq<char>), Option<S>, Option<T>, u64)>,
    max: nat,
    w: Seq<((Seq<char>, Seq<char>), Option<S>, Option<T>, u64)>,
    k: (Seq<char>, Seq<char>),
    stt: Option<S>,
    tts: Option<T>,
    tick: u64,
)
    requires
        max >= 1,
        v.len() <= max,
        evicts(v, max, w),
    ensures
        put(w, k, stt, tts, tick).len() <= max,
{
    if v.len() >= max && v.len() > 0 {
        let i = choose|i: int| is_lru(v, i) && w == v.remove(i);
        assert(w.len() == v.len() - 1);
    }
}

/// After a model is put into the cache under `k`, the entry for `k` holds
/// it, so the next lookup of `k` is a hit.
pub proof fn lemma_put_then_hit<S, T>(
    w: Seq<((Seq<char>, Seq<char>), Option<S>, Option<T>, u64)>,
    k: (Seq<char>, Seq<char>),
    stt: Option<S>,
    tts: Option<T>,
    tick: u64,
)
    ensures
        exists|i: int| 0 <= i < put(w, k, stt, tts, tick).len() && #[trigger] put(w, k, stt, tts, tick)[i] == (k, stt, tts, tick),
{
    let p = put(w, k, stt, tts, tick);
    if has_key(w, k) {
        let i = key_index(w, k);
        assert(p[i] == (k, stt, tts, tick));
    } else {
        assert(p[w.len() as int] == (k, stt, tts, tick));
    }
}

} // verus!
