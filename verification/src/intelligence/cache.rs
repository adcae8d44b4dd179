//! Semantic cache for LLM responses: questions that read the same once
//! normalized share one cached answer, kept for a time-to-live and evicted
//! least recently used first.
use vstd::prelude::*;
use vstd::string::StringExecFns;
use std::time::Instant;
use crate::text::{
    alphanumeric, chars_of, is_alphanumeric, is_whitespace, is_ws, join, push_char,
    push_joined, replace_all, replace_str, split_whitespace, split_ws, str_eq, strings_view,
    to_lowercase, lowercase, ascii_alnum, ascii_lower, ascii_lower_char, is_ascii_str,
};

verus! {

/// A reading of the monotonic clock (`std::time::Instant`), carried through
/// unread.
#[verifier::external_type_specification]
#[verifier::external_body]
pub struct ExInstant(std::time::Instant);

/// Semantic cache configuration.
#[derive(Debug, Clone, Copy)]
pub struct SemanticCacheConfig {
    /// Maximum number of entries to cache.
    pub max_entries: usize,
    /// Time-to-live for cache entries, in milliseconds.
    pub ttl_ms: u64,
    /// Enable detailed metrics tracking.
    pub enable_metrics: bool,
}

impl Default for SemanticCacheConfig {
    /// A thousand entries, kept for an hour, with metrics.
    fn default() -> (r: Self)
        ensures
            r.max_entries == 1000,
            r.ttl_ms == 3_600_000,
            r.enable_metrics,
    {
        SemanticCacheConfig { max_entries: 1000, ttl_ms: 3_600_000, enable_metrics: true }
    }
}

/// Counters of the semantic cache.
#[derive(Debug, Clone, Copy)]
pub struct CacheMetrics {
    /// Total number of cache hits.
    pub hits: u64,
    /// Total number of cache misses.
    pub misses: u64,
    /// Total number of entries evicted due to TTL expiration.
    pub ttl_evictions: u64,
    /// Total number of entries evicted due to LRU.
    pub lru_evictions: u64,
}

impl Default for CacheMetrics {
    /// All counters at zero.
    fn default() -> (r: Self)
        ensures
            r == zero_metrics(),
    {
        CacheMetrics { hits: 0, misses: 0, ttl_evictions: 0, lru_evictions: 0 }
    }
}

/// All counters at zero.
pub open spec fn zero_metrics() -> CacheMetrics {
    CacheMetrics { hits: 0, misses: 0, ttl_evictions: 0, lru_evictions: 0 }
}

// ---------------------------------------------------------------------------
// Normalization
// ---------------------------------------------------------------------------

/// Characters that survive normalization: alphanumeric or whitespace.
pub open spec fn kept_char(c: char) -> bool {
    alphanumeric(c) || is_ws(c)
}

/// `s` without its punctuation: the characters that are neither
/// alphanumeric nor whitespace are dropped.
pub open spec fn drop_punctuation(s: Seq<char>) -> Seq<char>
    decreases s.len(),
{
    if s.len() == 0 {
        s
    } else if kept_char(s.last()) {
        drop_punctuation(s.drop_last()).push(s.last())
    } else {
        drop_punctuation(s.drop_last())
    }
}

/// The filler words, in the order they are removed: "um", "uh", "like",
/// "you know", "i mean".
pub open spec fn fillers() -> Seq<Seq<char>> {
    seq![
        seq!['u', 'm'],
        seq!['u', 'h'],
        seq!['l', 'i', 'k', 'e'],
        seq!['y', 'o', 'u', ' ', 'k', 'n', 'o', 'w'],
        seq!['i', ' ', 'm', 'e', 'a', 'n'],
    ]
}

/// `s` with the first `n` filler words replaced, one after the other,
/// by a space.
pub open spec fn strip_fillers(s: Seq<char>, n: nat) -> Seq<char>
    decreases n,
{
    if n == 0 {
        s
    } else {
        replace_all(strip_fillers(s, (n - 1) as nat), fillers()[n - 1], seq![' '])
    }
}

/// `s` without its punctuation, for ASCII text: letters, digits and
/// whitespace are kept.
pub open spec fn drop_punctuation_ascii(s: Seq<char>) -> Seq<char>
    decreases s.len(),
{
    if s.len() == 0 {
        s
    } else if ascii_alnum(s.last()) || is_ws(s.last()) {
        drop_punctuation_ascii(s.drop_last()).push(s.last())
    } else {
        drop_punctuation_ascii(s.drop_last())
    }
}

/// The normal form of a question already in lower case: punctuation
/// dropped, filler words replaced by spaces, and its words joined by single
/// spaces.
pub open spec fn normal_form(lowered: Seq<char>) -> Seq<char> {
    join(split_ws(strip_fillers(drop_punctuation(lowered), 5)), seq![' '])
}

/// `normal_form` of ASCII text.
pub open spec fn normal_form_ascii(lowered: Seq<char>) -> Seq<char> {
    join(split_ws(strip_fillers(drop_punctuation_ascii(lowered), 5)), seq![' '])
}

/// The normal form of a question: lower-cased, punctuation dropped, filler
/// words replaced by spaces, and its words joined by single spaces.
pub open spec fn normalized_question(q: Seq<char>) -> Seq<char> {
    normal_form(lowercase(q))
}

/// Lower-casing ASCII text keeps it ASCII.
pub proof fn lemma_ascii_lower_ascii(q: Seq<char>)
    requires
        is_ascii_str(q),
    ensures
        is_ascii_str(ascii_lower(q)),
{
    assert forall|i: int| 0 <= i < ascii_lower(q).len() implies (#[trigger] ascii_lower(q)[i] as u32) < 128 by {
        assert(ascii_lower(q)[i] == ascii_lower_char(q[i]));
        assert((q[i] as u32) < 128);
    }
}

/// Law: ASCII questions that differ only in the case of their letters have
/// the same normal form, and so share a cached answer.
pub proof fn lemma_case_insensitive(q1: Seq<char>, q2: Seq<char>)
    requires
        is_ascii_str(q1),
        is_ascii_str(q2),
        ascii_lower(q1) == ascii_lower(q2),
    ensures
        normal_form_ascii(ascii_lower(q1)) == normal_form_ascii(ascii_lower(q2)),
{
}

/// `s` without its punctuation.
fn drop_punctuation_exec(s: &str) -> (r: String)
    ensures
        r@ == drop_punctuation(s@),
        is_ascii_str(s@) ==> r@ == drop_punctuation_ascii(s@),
{
    let c = chars_of(s);
    let mut out = String::new();
    let mut i: usize = 0;
    while i < c.len()
        invariant
            c@ == s@,
            i <= c@.len(),
            out@ == drop_punctuation(c@.take(i as int)),
            is_ascii_str(s@) ==> out@ == drop_punctuation_ascii(c@.take(i as int)),
        decreases c@.len() - i,
    {
        assert(c@.take(i + 1).drop_last() =~= c@.take(i as int));
        let ch = c[i];
        assert(is_ascii_str(s@) ==> (c@[i as int] as u32) < 128);
        if is_alphanumeric(ch) || is_whitespace(ch) {
            push_char(&mut out, ch);
        }
        i = i + 1;
    }
    assert(c@.take(c@.len() as int) =~= c@);
    out
}

/// The filler word at position `i` of `fillers()`.
fn filler(i: usize) -> (r: &'static str)
    requires
        i < 5,
    ensures
        r@ == fillers()[i as int],
{
    proof {
        reveal_strlit("um");
        reveal_strlit("uh");
        reveal_strlit("like");
        reveal_strlit("you know");
        reveal_strlit("i mean");
    }
    if i == 0 {
        "um"
    } else if i == 1 {
        "uh"
    } else if i == 2 {
        "like"
    } else if i == 3 {
        "you know"
    } else {
        "i mean"
    }
}

/// The normal form of `lowered`, a question already in lower case.
pub fn normalize_lowered(lowered: &str) -> (r: String)
    ensures
        r@ == normal_form(lowered@),
        is_ascii_str(lowered@) ==> r@ == normal_form_ascii(lowered@),
{
    let mut s = drop_punctuation_exec(lowered);
    let ghost base = s@;
    proof {
        reveal_strlit(" ");
    }
    let mut i: usize = 0;
    while i < 5
        invariant
            i <= 5,
            s@ == strip_fillers(base, i as nat),
            " "@ == seq![' '],
        decreases 5 - i,
    {
        let f = filler(i);
        s = replace_str(s.as_str(), f, " ");
        i = i + 1;
    }
    let words = split_whitespace(s.as_str());
    let mut out = String::new();
    push_joined(&mut out, &words, words.len(), " ");
    assert(strings_view(words@).take(words@.len() as int) =~= strings_view(words@));
    assert(out@ =~= normal_form(lowered@));
    out
}

/// The normal form of `question` (see `normalized_question`).
pub fn normalize(question: &str) -> (r: String)
    ensures
        r@ == normalized_question(question@),
        is_ascii_str(question@) ==> r@ == normal_form_ascii(ascii_lower(question@)),
{
    let lowered = to_lowercase(question);
    proof {
        if is_ascii_str(question@) {
            lemma_ascii_lower_ascii(question@);
        }
    }
    normalize_lowered(lowered.as_str())
}

// ---------------------------------------------------------------------------
// Entries as plain values
// ---------------------------------------------------------------------------

/// A cached entry as plain values: normalized question, response, time of
/// creation and time of the last access (nanoseconds on the cache's clock).
pub type EntryView = (Seq<char>, Seq<char>, u64, u64);

/// Whether `v` has an entry for the normalized question `k`.
pub open spec fn has_entry(v: Seq<EntryView>, k: Seq<char>) -> bool {
    exists|i: int| 0 <= i < v.len() && (#[trigger] v[i]).0 == k
}

/// The position of the entry for `k` in `v` (meaningful when there is one).
pub open spec fn entry_index(v: Seq<EntryView>, k: Seq<char>) -> int {
    choose|i: int| 0 <= i < v.len() && (#[trigger] v[i]).0 == k
}

/// No normalized question has two entries.
pub open spec fn distinct_entries(v: Seq<EntryView>) -> bool {
    forall|i: int, j: int| 0 <= i < v.len() && 0 <= j < v.len() && i != j ==> (#[trigger] v[i]).0 != (#[trigger] v[j]).0
}

/// Time from `created` to `now`; a clock reading before `created` counts as
/// no time at all.
pub open spec fn age(now: u64, created: u64) -> int {
    if now > created {
        now - created
    } else {
        0
    }
}

/// An entry created at `created` is still valid at `now` under a
/// time-to-live of `ttl_ms` milliseconds.
pub open spec fn fresh(now: u64, created: u64, ttl_ms: u64) -> bool {
    age(now, created) < ttl_ms * 1_000_000
}

/// Whether `i` is the first of the least recently accessed entries of `v`.
pub open spec fn is_first_lru(v: Seq<EntryView>, i: int) -> bool {
    &&& 0 <= i < v.len()
    &&& forall|j: int| 0 <= j < v.len() ==> v[i].3 <= #[trigger] v[j].3
    &&& forall|j: int| 0 <= j < i ==> v[i].3 < #[trigger] v[j].3
}

/// The position of the first least recently accessed entry of `v`.
pub open spec fn first_lru(v: Seq<EntryView>) -> int {
    choose|i: int| is_first_lru(v, i)
}

/// Whether storing an answer for `k` must first make room: the cache
/// holds `max` entries or more and none for `k`.
pub open spec fn must_evict(v: Seq<EntryView>, k: Seq<char>, max: nat) -> bool {
    v.len() >= max && !has_entry(v, k) && v.len() > 0
}

/// The entries after an answer `resp` for `k` is stored at time `now`:
/// room is made if needed, then the entry for `k` (an old one is dropped)
/// is put last, as the most recently used.
pub open spec fn after_put(v: Seq<EntryView>, k: Seq<char>, resp: Seq<char>, now: u64, max: nat) -> Seq<EntryView> {
    let w = if must_evict(v, k, max) {
        v.remove(first_lru(v))
    } else {
        v
    };
    if has_entry(w, k) {
        w.remove(entry_index(w, k)).push((k, resp, now, now))
    } else {
        w.push((k, resp, now, now))
    }
}

/// Whether a lookup of `k` at `now` is answered from `v`.
pub open spec fn lookup_hits(v: Seq<EntryView>, k: Seq<char>, now: u64, ttl_ms: u64) -> bool {
    has_entry(v, k) && fresh(now, v[entry_index(v, k)].2, ttl_ms)
}

/// Whether a lookup of `k` at `now` finds an expired entry.
pub open spec fn lookup_expires(v: Seq<EntryView>, k: Seq<char>, now: u64, ttl_ms: u64) -> bool {
    has_entry(v, k) && !fresh(now, v[entry_index(v, k)].2, ttl_ms)
}

/// The answer of a lookup of `k` at `now`.
pub open spec fn lookup_answer(v: Seq<EntryView>, k: Seq<char>, now: u64, ttl_ms: u64) -> Option<Seq<char>> {
    if lookup_hits(v, k, now, ttl_ms) {
        Some(v[entry_index(v, k)].1)
    } else {
        None
    }
}

/// The entries after a lookup of `k` at `now`: a hit records the access and
/// moves the entry last, an expired entry is removed, a miss changes
/// nothing.
pub open spec fn after_lookup(v: Seq<EntryView>, k: Seq<char>, now: u64, ttl_ms: u64) -> Seq<EntryView> {
    let i = entry_index(v, k);
    if lookup_hits(v, k, now, ttl_ms) {
        v.remove(i).push((v[i].0, v[i].1, v[i].2, now))
    } else if lookup_expires(v, k, now, ttl_ms) {
        v.remove(i)
    } else {
        v
    }
}

/// The counters after a lookup of `k` at `now` (unchanged when metrics are
/// off).
pub open spec fn metrics_after_lookup(m: CacheMetrics, v: Seq<EntryView>, k: Seq<char>, now: u64, ttl_ms: u64, on: bool) -> CacheMetrics {
    if !on {
        m
    } else if lookup_hits(v, k, now, ttl_ms) {
        CacheMetrics { hits: (m.hits + 1) as u64, ..m }
    } else if lookup_expires(v, k, now, ttl_ms) {
        CacheMetrics { misses: (m.misses + 1) as u64, ttl_evictions: (m.ttl_evictions + 1) as u64, ..m }
    } else {
        CacheMetrics { misses: (m.misses + 1) as u64, ..m }
    }
}

/// The entries of `v` still valid at `now`, in order.
pub open spec fn still_fresh(v: Seq<EntryView>, now: u64, ttl_ms: u64) -> Seq<EntryView>
    decreases v.len(),
{
    if v.len() == 0 {
        v
    } else if fresh(now, v.last().2, ttl_ms) {
        still_fresh(v.drop_last(), now, ttl_ms).push(v.last())
    } else {
        still_fresh(v.drop_last(), now, ttl_ms)
    }
}

/// Every counter can be raised once more.
pub open spec fn room_in_counters(m: CacheMetrics) -> bool {
    &&& m.hits < u64::MAX
    &&& m.misses < u64::MAX
    &&& m.ttl_evictions < u64::MAX
    &&& m.lru_evictions < u64::MAX
}

/// There is at most one first least recently accessed entry.
pub proof fn lemma_first_lru_unique(v: Seq<EntryView>, i: int, j: int)
    requires
        is_first_lru(v, i),
        is_first_lru(v, j),
    ensures
        i == j,
{
    if i < j {
        assert(v[i].3 > v[j].3);
    } else if j < i {
        assert(v[j].3 > v[i].3);
    }
}

/// The fresh entries are entries of `v`, and there are no more of them.
proof fn lemma_still_fresh_sub(v: Seq<EntryView>, now: u64, ttl_ms: u64)
    ensures
        still_fresh(v, now, ttl_ms).len() <= v.len(),
        forall|a: int| 0 <= a < still_fresh(v, now, ttl_ms).len() ==> exists|b: int| 0 <= b < v.len() && #[trigger] still_fresh(v, now, ttl_ms)[a] == v[b],
    decreases v.len(),
{
    if v.len() > 0 {
        lemma_still_fresh_sub(v.drop_last(), now, ttl_ms);
        let p = still_fresh(v.drop_last(), now, ttl_ms);
        assert forall|a: int| 0 <= a < still_fresh(v, now, ttl_ms).len() implies exists|b: int| 0 <= b < v.len() && #[trigger] still_fresh(v, now, ttl_ms)[a] == v[b] by {
            if a < p.len() {
                let b = choose|b: int| 0 <= b < v.drop_last().len() && p[a] == v.drop_last()[b];
                assert(still_fresh(v, now, ttl_ms)[a] == v[b]);
            } else {
                assert(still_fresh(v, now, ttl_ms)[a] == v[v.len() - 1]);
            }
        }
    }
}

/// Keeping only the fresh entries keeps their questions distinct.
proof fn lemma_still_fresh_distinct(v: Seq<EntryView>, now: u64, ttl_ms: u64)
    requires
        distinct_entries(v),
    ensures
        distinct_entries(still_fresh(v, now, ttl_ms)),
    decreases v.len(),
{
    if v.len() > 0 {
        let d = v.drop_last();
        assert(distinct_entries(d)) by {
            assert forall|i: int, j: int| 0 <= i < d.len() && 0 <= j < d.len() && i != j implies (#[trigger] d[i]).0 != (#[trigger] d[j]).0 by {
                assert(d[i] == v[i] && d[j] == v[j]);
            }
        }
        lemma_still_fresh_distinct(d, now, ttl_ms);
        lemma_still_fresh_sub(d, now, ttl_ms);
        let p = still_fresh(d, now, ttl_ms);
        if fresh(now, v.last().2, ttl_ms) {
            let q = p.push(v.last());
            assert forall|i: int, j: int| 0 <= i < q.len() && 0 <= j < q.len() && i != j implies (#[trigger] q[i]).0 != (#[trigger] q[j]).0 by {
                if i < p.len() && j < p.len() {
                    assert(q[i] == p[i] && q[j] == p[j]);
                } else if i < p.len() {
                    let b = choose|b: int| 0 <= b < d.len() && p[i] == d[b];
                    assert(d[b] == v[b]);
                    assert(q[i] == p[i]);
                } else {
                    let b = choose|b: int| 0 <= b < d.len() && p[j] == d[b];
                    assert(d[b] == v[b]);
                    assert(q[j] == p[j]);
                }
            }
        }
    }
}

// ---------------------------------------------------------------------------
// The cache
// ---------------------------------------------------------------------------

/// A cached answer.
#[derive(Debug)]
struct CacheEntry {
    key: String,
    response: String,
    created_at: u64,
    last_accessed: u64,
}

spec fn entry_view(e: CacheEntry) -> EntryView {
    (e.key@, e.response@, e.created_at, e.last_accessed)
}

/// A reading of the monotonic clock (`std::time::Instant::now`). Nothing is
/// stated of it.
#[verifier::external_body]
fn instant_now() -> Instant {
    Instant::now()
}

/// Nanoseconds elapsed on the monotonic clock since `origin`
/// (`Instant::elapsed`), `u64::MAX` past that. Nothing is stated of the
/// value: it is the machine's clock.
#[verifier::external_body]
fn nanos_since(origin: &Instant) -> u64 {
    u64::try_from(origin.elapsed().as_nanos()).unwrap_or(u64::MAX)
}

/// Semantic cache for LLM responses, keyed by the normal form of the
/// question. Times are nanoseconds on the cache's own monotonic clock.
pub struct SemanticCache {
    config: SemanticCacheConfig,
    entries: Vec<CacheEntry>,
    metrics: CacheMetrics,
    origin: Instant,
    last_reading: u64,
}

impl SemanticCache {
    /// The entries as plain values, least recently stored or answered first.
    pub closed spec fn entries_view(&self) -> Seq<EntryView> {
        self.entries@.map_values(|e: CacheEntry| entry_view(e))
    }

    /// The configuration the cache was made with.
    pub closed spec fn config_spec(&self) -> SemanticCacheConfig {
        self.config
    }

    /// The current counters.
    pub closed spec fn metrics_spec(&self) -> CacheMetrics {
        self.metrics
    }

    /// The latest time read from the cache's clock (0 before any reading).
    pub closed spec fn clock_spec(&self) -> u64 {
        self.last_reading
    }

    /// Reads the cache's clock. The reading never goes back: a reading
    /// earlier than the last one (which a monotonic clock never gives) is
    /// taken as the last one.
    fn read_clock(&mut self) -> (r: u64)
        ensures
            r >= old(self).clock_spec(),
            final(self).clock_spec() == r,
            final(self).entries_view() == old(self).entries_view(),
            final(self).metrics_spec() == old(self).metrics_spec(),
            final(self).config_spec() == old(self).config_spec(),
    {
        let t = nanos_since(&self.origin);
        let r = if t > self.last_reading {
            t
        } else {
            self.last_reading
        };
        self.last_reading = r;
        r
    }

    /// No normalized question has two entries.
    pub open spec fn wf(&self) -> bool {
        distinct_entries(self.entries_view())
    }

    /// A new semantic cache with the default configuration.
    pub fn new() -> (r: Self)
        ensures
            r.wf(),
            r.entries_view().len() == 0,
            r.metrics_spec() == zero_metrics(),
            r.config_spec().max_entries == 1000,
            r.config_spec().ttl_ms == 3_600_000,
            r.config_spec().enable_metrics,
    {
        Self::with_config(SemanticCacheConfig::default())
    }

    /// A new semantic cache with `config`.
    pub fn with_config(config: SemanticCacheConfig) -> (r: Self)
        ensures
            r.wf(),
            r.entries_view().len() == 0,
            r.metrics_spec() == zero_metrics(),
            r.config_spec() == config,
    {
        let r = SemanticCache {
            config,
            entries: Vec::new(),
            metrics: CacheMetrics::default(),
            origin: instant_now(),
            last_reading: 0,
        };
        assert(r.entries_view() =~= Seq::<EntryView>::empty());
        r
    }

    /// The normal form of `question` under which it is cached.
    pub fn normalize_question(&self, question: &str) -> (r: String)
        ensures
            r@ == normalized_question(question@),
    {
        normalize(question)
    }

    /// Position of the entry for the normalized question `k`.
    fn find(&self, k: &str) -> (r: Option<usize>)
        requires
            self.wf(),
        ensures
            match r {
                Some(i) => has_entry(self.entries_view(), k@) && i as int == entry_index(self.entries_view(), k@),
                None => !has_entry(self.entries_view(), k@),
            },
    {
        let ghost v = self.entries_view();
        let mut i: usize = 0;
        while i < self.entries.len()
            invariant
                v == self.entries_view(),
                distinct_entries(v),
                v.len() == self.entries@.len(),
                i <= v.len(),
                forall|j: int| 0 <= j < i ==> (#[trigger] v[j]).0 != k@,
            decreases v.len() - i,
        {
            assert(v[i as int] == entry_view(self.entries@[i as int]));
            if str_eq(self.entries[i].key.as_str(), k) {
                assert(v[i as int].0 == k@);
                assert(has_entry(v, k@));
                let ghost j = entry_index(v, k@);
                assert(0 <= j < v.len() && v[j].0 == k@);
                assert(j == i as int);
                return Some(i);
            }
            i = i + 1;
        }
        None
    }

    /// The cached answer to `question` at time `now`: an entry younger than
    /// the time-to-live is a hit and records the access; an older one is
    /// removed and, like an absent one, is a miss.
    pub fn get_at(&mut self, question: &str, now: u64) -> (r: Option<String>)
        requires
            old(self).wf(),
            room_in_counters(old(self).metrics_spec()),
        ensures
            final(self).wf(),
            looked_up(*old(self), *final(self), question@, now, answer_view(r)),
            final(self).clock_spec() == old(self).clock_spec(),
    {
        let ghost v = self.entries_view();
        let k = normalize(question);
        let ttl = self.config.ttl_ms;
        let on = self.config.enable_metrics;
        if let Some(i) = self.find(k.as_str()) {
            assert(v[i as int] == entry_view(self.entries@[i as int]));
            let created = self.entries[i].created_at;
            let a: u64 = if now > created {
                now - created
            } else {
                0
            };
            assert(a / 1_000_000 < ttl <==> a < ttl * 1_000_000) by (nonlinear_arith);
            if a / 1_000_000 < ttl {
                let response = self.entries[i].response.clone();
                let mut e = self.entries.remove(i);
                e.last_accessed = now;
                self.entries.push(e);
                assert(self.entries_view() =~= v.remove(i as int).push((v[i as int].0, v[i as int].1, v[i as int].2, now)));
                proof {
                    lemma_move_last_distinct(v, i as int, (v[i as int].0, v[i as int].1, v[i as int].2, now));
                }
                if on {
                    self.metrics.hits = self.metrics.hits + 1;
                }
                return Some(response);
            }
            self.entries.remove(i);
            assert(self.entries_view() =~= v.remove(i as int));
            assert forall|x: int, y: int| 0 <= x < self.entries_view().len() && 0 <= y < self.entries_view().len() && x != y implies
                (#[trigger] self.entries_view()[x]).0 != (#[trigger] self.entries_view()[y]).0 by {
                let xx = if x < i { x } else { x + 1 };
                let yy = if y < i { y } else { y + 1 };
                assert(self.entries_view()[x] == v[xx]);
                assert(self.entries_view()[y] == v[yy]);
            }
            if on {
                self.metrics.ttl_evictions = self.metrics.ttl_evictions + 1;
            }
        }
        if on {
            self.metrics.misses = self.metrics.misses + 1;
        }
        None
    }

    /// Index of the first least recently accessed entry.
    fn lru_position(&self) -> (r: usize)
        requires
            self.entries_view().len() > 0,
        ensures
            is_first_lru(self.entries_view(), r as int),
    {
        let ghost v = self.entries_view();
        let n = self.entries.len();
        let mut best: usize = 0;
        let mut i: usize = 1;
        while i < n
            invariant
                v == self.entries_view(),
                n == v.len(),
                n == self.entries@.len(),
                0 <= best < i <= n,
                forall|j: int| 0 <= j < i ==> v[best as int].3 <= #[trigger] v[j].3,
                forall|j: int| 0 <= j < best ==> v[best as int].3 < #[trigger] v[j].3,
            decreases n - i,
        {
            assert(v[i as int] == entry_view(self.entries@[i as int]));
            assert(v[best as int] == entry_view(self.entries@[best as int]));
            if self.entries[i].last_accessed < self.entries[best].last_accessed {
                best = i;
            }
            i = i + 1;
        }
        best
    }

    /// Stores `response` as the answer to `question` at time `now`. When the
    /// cache is full and has no entry for the question, the least recently
    /// accessed entry is evicted first.
    pub fn put_at(&mut self, question: &str, response: &str, now: u64)
        requires
            old(self).wf(),
            room_in_counters(old(self).metrics_spec()),
        ensures
            final(self).wf(),
            stored(*old(self), *final(self), question@, response@, now),
            final(self).clock_spec() == old(self).clock_spec(),
    {
        let ghost v = self.entries_view();
        let ghost max = self.config.max_entries as nat;
        let k = normalize(question);
        let ghost kv = k@;
        let found = self.find(k.as_str());
        if self.entries.len() >= self.config.max_entries && found.is_none() && self.entries.len() > 0 {
            let b = self.lru_position();
            proof {
                lemma_first_lru_unique(v, b as int, first_lru(v));
            }
            self.entries.remove(b);
            assert(self.entries_view() =~= v.remove(b as int));
            assert forall|x: int, y: int| 0 <= x < self.entries_view().len() && 0 <= y < self.entries_view().len() && x != y implies
                (#[trigger] self.entries_view()[x]).0 != (#[trigger] self.entries_view()[y]).0 by {
                let xx = if x < b { x } else { x + 1 };
                let yy = if y < b { y } else { y + 1 };
                assert(self.entries_view()[x] == v[xx]);
                assert(self.entries_view()[y] == v[yy]);
            }
            if self.config.enable_metrics {
                self.metrics.lru_evictions = self.metrics.lru_evictions + 1;
            }
            assert forall|j: int| 0 <= j < self.entries_view().len() implies (#[trigger] self.entries_view()[j]).0 != kv by {
                let jj = if j < b { j } else { j + 1 };
                assert(self.entries_view()[j] == v[jj]);
            }
        }
        let ghost w = self.entries_view();
        let entry = CacheEntry {
            key: k,
            response: String::from_str(response),
            created_at: now,
            last_accessed: now,
        };
        match self.find(entry.key.as_str()) {
            Some(i) => {
                self.entries.remove(i);
                self.entries.push(entry);
                assert(self.entries_view() =~= w.remove(i as int).push((kv, response@, now, now)));
                proof {
                    lemma_move_last_distinct(w, i as int, (kv, response@, now, now));
                }
            },
            None => {
                self.entries.push(entry);
                assert(self.entries_view() =~= w.push((kv, response@, now, now)));
                assert forall|x: int, y: int| 0 <= x < self.entries_view().len() && 0 <= y < self.entries_view().len() && x != y implies
                    (#[trigger] self.entries_view()[x]).0 != (#[trigger] self.entries_view()[y]).0 by {
                    if x < w.len() {
                        assert(self.entries_view()[x] == w[x]);
                    }
                    if y < w.len() {
                        assert(self.entries_view()[y] == w[y]);
                    }
                }
            },
        }
    }

    /// Removes every entry that has outlived the time-to-live at time `now`.
    pub fn evict_expired_at(&mut self, now: u64)
        requires
            old(self).wf(),
            old(self).metrics_spec().ttl_evictions + old(self).entries_view().len() <= u64::MAX,
        ensures
            final(self).wf(),
            swept(*old(self), *final(self), now),
            final(self).clock_spec() == old(self).clock_spec(),
    {
        let ghost v = self.entries_view();
        let ttl = self.config.ttl_ms;
        let mut old_entries: Vec<CacheEntry> = Vec::new();
        std::mem::swap(&mut old_entries, &mut self.entries);
        assert(old_entries@.map_values(|e: CacheEntry| entry_view(e)) == v);
        let n = old_entries.len();
        let mut removed: u64 = 0;
        let mut i: usize = 0;
        while i < n
            invariant
                n == old_entries@.len(),
                v == old_entries@.map_values(|e: CacheEntry| entry_view(e)),
                i <= n,
                self.entries_view() == still_fresh(v.take(i as int), now, ttl),
                removed as int == i - self.entries_view().len(),
                self.config.ttl_ms == ttl,
                self.config == old(self).config,
                self.metrics == old(self).metrics,
                self.last_reading == old(self).last_reading,
            decreases n - i,
        {
            proof {
                lemma_still_fresh_sub(v.take(i as int), now, ttl);
            }
            assert(v.take(i + 1).drop_last() =~= v.take(i as int));
            assert(v[i as int] == entry_view(old_entries@[i as int]));
            let created = old_entries[i].created_at;
            let a: u64 = if now > created {
                now - created
            } else {
                0
            };
            assert(a / 1_000_000 < ttl <==> a < ttl * 1_000_000) by (nonlinear_arith);
            if a / 1_000_000 < ttl {
                let e = CacheEntry {
                    key: old_entries[i].key.clone(),
                    response: old_entries[i].response.clone(),
                    created_at: created,
                    last_accessed: old_entries[i].last_accessed,
                };
                let ghost pre = self.entries_view();
                self.entries.push(e);
                assert(self.entries_view() =~= pre.push(v[i as int]));
            } else {
                removed = removed + 1;
            }
            i = i + 1;
        }
        assert(v.take(n as int) =~= v);
        proof {
            lemma_still_fresh_distinct(v, now, ttl);
        }
        if self.config.enable_metrics {
            self.metrics.ttl_evictions = self.metrics.ttl_evictions + removed;
        }
    }

    /// The cached answer to `question` now, by the cache's monotonic clock
    /// (see `get_at`).
    pub fn get(&mut self, question: &str) -> (r: Option<String>)
        requires
            old(self).wf(),
            room_in_counters(old(self).metrics_spec()),
        ensures
            final(self).wf(),
            exists|now: u64| now >= old(self).clock_spec() && final(self).clock_spec() == now && looked_up(
                *old(self),
                *final(self),
                question@,
                now,
                answer_view(r),
            ),
    {
        let now = self.read_clock();
        let r = self.get_at(question, now);
        assert(looked_up(*old(self), *self, question@, now, answer_view(r)));
        r
    }

    /// Stores `response` as the answer to `question` now, by the cache's
    /// monotonic clock (see `put_at`).
    pub fn put(&mut self, question: &str, response: &str)
        requires
            old(self).wf(),
            room_in_counters(old(self).metrics_spec()),
        ensures
            final(self).wf(),
            exists|now: u64| now >= old(self).clock_spec() && final(self).clock_spec() == now && stored(
                *old(self),
                *final(self),
                question@,
                response@,
                now,
            ),
    {
        let now = self.read_clock();
        self.put_at(question, response, now);
        assert(stored(*old(self), *self, question@, response@, now));
    }

    /// Removes the entries that have outlived the time-to-live by now, by
    /// the cache's monotonic clock (see `evict_expired_at`).
    pub fn evict_expired(&mut self)
        requires
            old(self).wf(),
            old(self).metrics_spec().ttl_evictions + old(self).entries_view().len() <= u64::MAX,
        ensures
            final(self).wf(),
            exists|now: u64| now >= old(self).clock_spec() && final(self).clock_spec() == now && swept(
                *old(self),
                *final(self),
                now,
            ),
    {
        let now = self.read_clock();
        self.evict_expired_at(now);
        assert(swept(*old(self), *self, now));
    }

    /// Empties the cache (the counters are kept).
    pub fn clear(&mut self)
        ensures
            final(self).wf(),
            final(self).entries_view().len() == 0,
            final(self).metrics_spec() == old(self).metrics_spec(),
            final(self).config_spec() == old(self).config_spec(),
    {
        self.entries = Vec::new();
        assert(self.entries_view() =~= Seq::<EntryView>::empty());
    }

    /// The current counters.
    pub fn metrics(&self) -> (r: CacheMetrics)
        ensures
            r == self.metrics_spec(),
    {
        self.metrics
    }

    /// Sets every counter back to zero.
    pub fn reset_metrics(&mut self)
        ensures
            final(self).metrics_spec() == zero_metrics(),
            final(self).entries_view() == old(self).entries_view(),
            final(self).config_spec() == old(self).config_spec(),
    {
        self.metrics = CacheMetrics::default();
    }

    /// The configuration the cache was made with.
    pub fn config(&self) -> (r: SemanticCacheConfig)
        ensures
            r == self.config_spec(),
    {
        self.config
    }

    /// Number of entries currently in the cache.
    pub fn len(&self) -> (r: usize)
        ensures
            r == self.entries_view().len(),
    {
        self.entries.len()
    }

    /// Whether the cache holds no entry.
    pub fn is_empty(&self) -> (r: bool)
        ensures
            r == (self.entries_view().len() == 0),
    {
        self.entries.len() == 0
    }
}

/// Removing an entry keeps the questions distinct.
proof fn lemma_remove_distinct(v: Seq<EntryView>, b: int)
    requires
        distinct_entries(v),
        0 <= b < v.len(),
    ensures
        distinct_entries(v.remove(b)),
{
    let w = v.remove(b);
    assert forall|x: int, y: int| 0 <= x < w.len() && 0 <= y < w.len() && x != y implies (#[trigger] w[x]).0 != (#[trigger] w[y]).0 by {
        let xx = if x < b { x } else { x + 1 };
        let yy = if y < b { y } else { y + 1 };
        assert(w[x] == v[xx] && w[y] == v[yy]);
    }
}

/// Moving an entry last, with its question unchanged, keeps the questions
/// distinct.
proof fn lemma_move_last_distinct(v: Seq<EntryView>, i: int, e: EntryView)
    requires
        distinct_entries(v),
        0 <= i < v.len(),
        e.0 == v[i].0,
    ensures
        distinct_entries(v.remove(i).push(e)),
{
    lemma_remove_distinct(v, i);
    let w = v.remove(i);
    let q = w.push(e);
    assert forall|x: int, y: int| 0 <= x < q.len() && 0 <= y < q.len() && x != y implies (#[trigger] q[x]).0 != (#[trigger] q[y]).0 by {
        if x < w.len() && y < w.len() {
            assert(q[x] == w[x] && q[y] == w[y]);
        } else {
            let z = if x < w.len() { x } else { y };
            let zz = if z < i { z } else { z + 1 };
            assert(q[z] == w[z] && w[z] == v[zz]);
            assert(zz != i);
        }
    }
}

/// Storing an answer keeps the questions distinct, and the entry for the
/// stored question then holds the answer.
pub proof fn lemma_after_put_shape(v: Seq<EntryView>, k: Seq<char>, resp: Seq<char>, t: u64, max: nat)
    requires
        distinct_entries(v),
    ensures
        distinct_entries(after_put(v, k, resp, t, max)),
        has_entry(after_put(v, k, resp, t, max), k),
        after_put(v, k, resp, t, max).last() == (k, resp, t, t),
        entry_index(after_put(v, k, resp, t, max), k) == after_put(v, k, resp, t, max).len() - 1,
{
    let w = if must_evict(v, k, max) {
        v.remove(first_lru(v))
    } else {
        v
    };
    if must_evict(v, k, max) {
        lemma_lru_exists(v);
        lemma_remove_distinct(v, first_lru(v));
    }
    assert(distinct_entries(w));
    let p = after_put(v, k, resp, t, max);
    if has_entry(w, k) {
        let i = entry_index(w, k);
        assert(0 <= i < w.len() && w[i].0 == k);
        lemma_move_last_distinct(w, i, (k, resp, t, t));
    } else {
        let n = w.len() as int;
        assert forall|x: int, y: int| 0 <= x < p.len() && 0 <= y < p.len() && x != y implies (#[trigger] p[x]).0 != (#[trigger] p[y]).0 by {
            if x < n && y < n {
                assert(p[x] == w[x] && p[y] == w[y]);
            } else if x < n {
                assert(p[x] == w[x]);
            } else {
                assert(p[y] == w[y]);
            }
        }
    }
    let last = p.len() - 1;
    assert(p[last] == (k, resp, t, t));
    assert(has_entry(p, k));
    let j = entry_index(p, k);
    assert(0 <= j < p.len() && p[j].0 == k);
}

/// A non-empty list of entries has a first least recently accessed one.
proof fn lemma_lru_exists(v: Seq<EntryView>)
    requires
        v.len() > 0,
    ensures
        is_first_lru(v, first_lru(v)),
    decreases v.len(),
{
    if v.len() == 1 {
        assert(is_first_lru(v, 0));
    } else {
        let d = v.drop_last();
        lemma_lru_exists(d);
        let b = first_lru(d);
        assert(forall|j: int| 0 <= j < d.len() ==> d[j] == v[j]);
        if v.last().3 < v[b].3 {
            assert(is_first_lru(v, v.len() - 1));
        } else {
            assert(is_first_lru(v, b));
        }
    }
}

/// A stored answer is found again: after `resp` is stored for the
/// normalized question `k` at time `t`, a lookup of `k` at a time `now`
/// within the time-to-live answers `resp`.
pub proof fn lemma_put_then_get(v: Seq<EntryView>, k: Seq<char>, resp: Seq<char>, t: u64, max: nat, now: u64, ttl_ms: u64)
    requires
        distinct_entries(v),
        fresh(now, t, ttl_ms),
    ensures
        lookup_answer(after_put(v, k, resp, t, max), k, now, ttl_ms) == Some(resp),
{
    lemma_after_put_shape(v, k, resp, t, max);
}

/// An answer outlives its time-to-live nowhere: after `resp` is stored for
/// `k` at time `t`, a lookup of `k` at a time `now` past the time-to-live
/// answers nothing and drops the entry.
pub proof fn lemma_expired_is_miss(v: Seq<EntryView>, k: Seq<char>, resp: Seq<char>, t: u64, max: nat, now: u64, ttl_ms: u64)
    requires
        distinct_entries(v),
        !fresh(now, t, ttl_ms),
    ensures
        lookup_answer(after_put(v, k, resp, t, max), k, now, ttl_ms) is None,
        !has_entry(after_lookup(after_put(v, k, resp, t, max), k, now, ttl_ms), k),
{
    lemma_after_put_shape(v, k, resp, t, max);
    let p = after_put(v, k, resp, t, max);
    let i = entry_index(p, k);
    let q = p.remove(i);
    assert forall|j: int| 0 <= j < q.len() implies (#[trigger] q[j]).0 != k by {
        let jj = if j < i { j } else { j + 1 };
        assert(q[j] == p[jj]);
    }
}

/// The cache never grows past its maximum: if it held at most `max` (at
/// least one) entries, it still does after an answer is stored.
pub proof fn lemma_put_respects_capacity(v: Seq<EntryView>, k: Seq<char>, resp: Seq<char>, t: u64, max: nat)
    requires
        max >= 1,
        v.len() <= max,
    ensures
        after_put(v, k, resp, t, max).len() <= max,
{
    if must_evict(v, k, max) {
        lemma_lru_exists(v);
    }
}

impl Default for SemanticCache {
    /// A new cache with the default configuration.
    fn default() -> (r: Self)
        ensures
            r.wf(),
            r.entries_view().len() == 0,
            r.metrics_spec() == zero_metrics(),
            r.config_spec().max_entries == 1000,
            r.config_spec().ttl_ms == 3_600_000,
            r.config_spec().enable_metrics,
    {
        SemanticCache::new()
    }
}

/// The answer as plain values.
pub open spec fn answer_view(r: Option<String>) -> Option<Seq<char>> {
    match r {
        Some(s) => Some(s@),
        None => None,
    }
}

/// `post` is `pre` after a lookup of `q` at time `now` that answered `r`.
pub open spec fn looked_up(pre: SemanticCache, post: SemanticCache, q: Seq<char>, now: u64, r: Option<Seq<char>>) -> bool {
    let v = pre.entries_view();
    let k = normalized_question(q);
    let ttl = pre.config_spec().ttl_ms;
    &&& r == lookup_answer(v, k, now, ttl)
    &&& post.entries_view() == after_lookup(v, k, now, ttl)
    &&& post.metrics_spec() == metrics_after_lookup(pre.metrics_spec(), v, k, now, ttl, pre.config_spec().enable_metrics)
    &&& post.config_spec() == pre.config_spec()
}

/// `post` is `pre` after `resp` was stored as the answer to `q` at time `now`.
pub open spec fn stored(pre: SemanticCache, post: SemanticCache, q: Seq<char>, resp: Seq<char>, now: u64) -> bool {
    let v = pre.entries_view();
    let k = normalized_question(q);
    let max = pre.config_spec().max_entries as nat;
    &&& post.entries_view() == after_put(v, k, resp, now, max)
    &&& post.metrics_spec() == if must_evict(v, k, max) && pre.config_spec().enable_metrics {
        CacheMetrics { lru_evictions: (pre.metrics_spec().lru_evictions + 1) as u64, ..pre.metrics_spec() }
    } else {
        pre.metrics_spec()
    }
    &&& post.config_spec() == pre.config_spec()
}

/// `post` is `pre` after the entries expired at time `now` were removed.
pub open spec fn swept(pre: SemanticCache, post: SemanticCache, now: u64) -> bool {
    let v = pre.entries_view();
    let kept = still_fresh(v, now, pre.config_spec().ttl_ms);
    &&& post.entries_view() == kept
    &&& post.metrics_spec() == if pre.config_spec().enable_metrics {
        CacheMetrics { ttl_evictions: (pre.metrics_spec().ttl_evictions + (v.len() - kept.len())) as u64, ..pre.metrics_spec() }
    } else {
        pre.metrics_spec()
    }
    &&& post.config_spec() == pre.config_spec()
}

} // verus!
