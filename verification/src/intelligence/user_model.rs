//! User preferences and the phrasing of them for the system prompt, plus
//! the simple keyword extraction used to learn what a user asks about.
use vstd::prelude::*;
use vstd::string::StringExecFns;
use vstd::utf8::encode_utf8;
use crate::text::{
    join, lowercase, push_joined, push_str, split_whitespace, split_ws, str_eq, strings_view,
    to_lowercase, trim_non_alphanumeric, trim_nonalnum,
};

verus! {

/// User preference types.
#[derive(Debug, Clone)]
pub enum PreferenceType {
    /// Response style (e.g., "concise", "detailed", "casual", "formal").
    ResponseStyle(String),
    /// Verbosity level (0-10, where 0 is most concise).
    Verbosity(u8),
    /// Topics the user is interested in.
    PreferredTopics(Vec<String>),
    /// Topics to avoid.
    DislikedTopics(Vec<String>),
    /// Preferred language.
    Language(String),
    /// Time-of-day greetings.
    TimeOfDayPreferences(bool),
    /// Custom preference (key-value pair).
    Custom(String, String),
}

/// The kind of a preference; a profile holds at most one of each kind.
#[derive(Debug, Clone, Copy, PartialEq, Eq, Structural)]
pub enum PreferenceKind {
    ResponseStyle,
    Verbosity,
    PreferredTopics,
    DislikedTopics,
    Language,
    TimeOfDayPreferences,
    Custom,
}

/// The kind of `p`.
pub open spec fn kind_of(p: PreferenceType) -> PreferenceKind {
    match p {
        PreferenceType::ResponseStyle(_) => PreferenceKind::ResponseStyle,
        PreferenceType::Verbosity(_) => PreferenceKind::Verbosity,
        PreferenceType::PreferredTopics(_) => PreferenceKind::PreferredTopics,
        PreferenceType::DislikedTopics(_) => PreferenceKind::DislikedTopics,
        PreferenceType::Language(_) => PreferenceKind::Language,
        PreferenceType::TimeOfDayPreferences(_) => PreferenceKind::TimeOfDayPreferences,
        PreferenceType::Custom(_, _) => PreferenceKind::Custom,
    }
}

impl PreferenceType {
    /// The kind of this preference.
    pub fn kind(&self) -> (r: PreferenceKind)
        ensures
            r == kind_of(*self),
    {
        match self {
            PreferenceType::ResponseStyle(_) => PreferenceKind::ResponseStyle,
            PreferenceType::Verbosity(_) => PreferenceKind::Verbosity,
            PreferenceType::PreferredTopics(_) => PreferenceKind::PreferredTopics,
            PreferenceType::DislikedTopics(_) => PreferenceKind::DislikedTopics,
            PreferenceType::Language(_) => PreferenceKind::Language,
            PreferenceType::TimeOfDayPreferences(_) => PreferenceKind::TimeOfDayPreferences,
            PreferenceType::Custom(_, _) => PreferenceKind::Custom,
        }
    }
}

/// `ps` without the preferences of kind `k`, in order.
pub open spec fn without_kind(ps: Seq<PreferenceType>, k: PreferenceKind) -> Seq<PreferenceType>
    decreases ps.len(),
{
    if ps.len() == 0 {
        seq![]
    } else {
        let rest = without_kind(ps.drop_last(), k);
        if kind_of(ps.last()) == k {
            rest
        } else {
            rest.push(ps.last())
        }
    }
}

/// Sets a preference: any preference of the same kind is removed, and the
/// new one is added last.
pub fn set_preference(preferences: &mut Vec<PreferenceType>, preference: PreferenceType)
    ensures
        final(preferences)@ == without_kind(old(preferences)@, kind_of(preference)).push(preference),
{
    let ghost orig = preferences@;
    let k = preference.kind();
    let mut rest: Vec<PreferenceType> = Vec::new();
    std::mem::swap(&mut rest, preferences);
    let mut kept: Vec<PreferenceType> = Vec::new();
    let ghost mut taken: int = 0;
    while rest.len() > 0
        invariant
            0 <= taken <= orig.len(),
            rest@ == orig.skip(taken),
            kept@ == without_kind(orig.take(taken), k),
        decreases rest@.len(),
    {
        let q = rest.remove(0);
        proof {
            assert(orig.take(taken + 1).drop_last() =~= orig.take(taken));
            assert(orig.take(taken + 1).last() == q);
        }
        if q.kind() != k {
            kept.push(q);
        }
        proof {
            taken = taken + 1;
            assert(rest@ =~= orig.skip(taken));
        }
    }
    assert(orig.take(taken) =~= orig);
    kept.push(preference);
    *preferences = kept;
}

/// Whether `p` is what a query for `pref_type` asks for: the kind's name,
/// or a custom preference's key.
pub open spec fn pref_matches(p: PreferenceType, pref_type: Seq<char>) -> bool {
    match p {
        PreferenceType::ResponseStyle(_) => pref_type == "response_style"@,
        PreferenceType::Verbosity(_) => pref_type == "verbosity"@,
        PreferenceType::PreferredTopics(_) => pref_type == "preferred_topics"@,
        PreferenceType::DislikedTopics(_) => pref_type == "disliked_topics"@,
        PreferenceType::Language(_) => pref_type == "language"@,
        PreferenceType::TimeOfDayPreferences(_) => pref_type == "time_of_day_preferences"@,
        PreferenceType::Custom(key, _) => key@ == pref_type,
    }
}

fn matches_type(p: &PreferenceType, pref_type: &str) -> (r: bool)
    ensures
        r == pref_matches(*p, pref_type@),
{
    match p {
        PreferenceType::ResponseStyle(_) => str_eq(pref_type, "response_style"),
        PreferenceType::Verbosity(_) => str_eq(pref_type, "verbosity"),
        PreferenceType::PreferredTopics(_) => str_eq(pref_type, "preferred_topics"),
        PreferenceType::DislikedTopics(_) => str_eq(pref_type, "disliked_topics"),
        PreferenceType::Language(_) => str_eq(pref_type, "language"),
        PreferenceType::TimeOfDayPreferences(_) => str_eq(pref_type, "time_of_day_preferences"),
        PreferenceType::Custom(key, _) => str_eq(key.as_str(), pref_type),
    }
}

/// The first preference that `pref_type` asks for, if any.
pub fn get_preference<'a>(preferences: &'a Vec<PreferenceType>, pref_type: &str) -> (r: Option<&'a PreferenceType>)
    ensures
        match r {
            Some(p) => exists|i: int| {
                &&& 0 <= i < preferences@.len()
                &&& preferences@[i] == *p
                &&& pref_matches(*p, pref_type@)
                &&& forall|j: int| 0 <= j < i ==> !pref_matches(#[trigger] preferences@[j], pref_type@)
            },
            None => forall|i: int| 0 <= i < preferences@.len() ==> !pref_matches(#[trigger] preferences@[i], pref_type@),
        },
{
    let mut i: usize = 0;
    while i < preferences.len()
        invariant
            i <= preferences@.len(),
            forall|j: int| 0 <= j < i ==> !pref_matches(#[trigger] preferences@[j], pref_type@),
        decreases preferences@.len() - i,
    {
        if matches_type(&preferences[i], pref_type) {
            return Some(&preferences[i]);
        }
        i = i + 1;
    }
    None
}

/// The question pattern of a question: its first two words, lower-cased and
/// separated by a space; its only word; or "unknown".
pub open spec fn question_pattern(question: Seq<char>) -> Seq<char> {
    let ws = split_ws(lowercase(question));
    if ws.len() >= 2 {
        ws[0] + " "@ + ws[1]
    } else if ws.len() == 1 {
        ws[0]
    } else {
        "unknown"@
    }
}

/// The pattern of a question (e.g. "what is", "how do").
pub fn extract_question_pattern(question: &str) -> (r: String)
    ensures
        r@ == question_pattern(question@),
{
    let lower = to_lowercase(question);
    let words = split_whitespace(lower.as_str());
    assert(strings_view(words@).len() == words@.len());
    if words.len() >= 2 {
        assert(strings_view(words@)[0] == words@[0]@);
        assert(strings_view(words@)[1] == words@[1]@);
        let mut out = String::from_str(words[0].as_str());
        push_str(&mut out, " ");
        push_str(&mut out, words[1].as_str());
        out
    } else if words.len() == 1 {
        assert(strings_view(words@)[0] == words@[0]@);
        String::from_str(words[0].as_str())
    } else {
        String::from_str("unknown")
    }
}

/// Words too common to be topics.
pub open spec fn common_word(w: Seq<char>) -> bool {
    ||| w == "what"@ ||| w == "when"@ ||| w == "where"@ ||| w == "why"@ ||| w == "how"@
    ||| w == "who"@ ||| w == "is"@ ||| w == "are"@ ||| w == "was"@ ||| w == "were"@
    ||| w == "the"@ ||| w == "a"@ ||| w == "an"@ ||| w == "in"@ ||| w == "on"@
    ||| w == "at"@ ||| w == "to"@ ||| w == "for"@ ||| w == "of"@ ||| w == "with"@
    ||| w == "by"@
}

fn is_common_word(w: &str) -> (r: bool)
    ensures
        r == common_word(w@),
{
    str_eq(w, "what") || str_eq(w, "when") || str_eq(w, "where") || str_eq(w, "why") || str_eq(w, "how")
        || str_eq(w, "who") || str_eq(w, "is") || str_eq(w, "are") || str_eq(w, "was") || str_eq(w, "were")
        || str_eq(w, "the") || str_eq(w, "a") || str_eq(w, "an") || str_eq(w, "in") || str_eq(w, "on")
        || str_eq(w, "at") || str_eq(w, "to") || str_eq(w, "for") || str_eq(w, "of") || str_eq(w, "with")
        || str_eq(w, "by")
}

/// The topic a word stands for: lower-cased, stripped of surrounding
/// punctuation, kept when longer than three bytes and not a common word.
pub open spec fn topic_of(word: Seq<char>) -> Option<Seq<char>> {
    let clean = trim_nonalnum(lowercase(word));
    if encode_utf8(clean).len() > 3 && !common_word(clean) {
        Some(clean)
    } else {
        None
    }
}

/// The topics of a sequence of words, in order.
pub open spec fn topics_of(ws: Seq<Seq<char>>) -> Seq<Seq<char>>
    decreases ws.len(),
{
    if ws.len() == 0 {
        seq![]
    } else {
        let rest = topics_of(ws.drop_last());
        match topic_of(ws.last()) {
            Some(t) => rest.push(t),
            None => rest,
        }
    }
}

/// Simple keyword extraction: the topics among the words of `text`.
pub fn extract_topics(text: &str) -> (r: Vec<String>)
    ensures
        strings_view(r@) == topics_of(split_ws(text@)),
{
    let words = split_whitespace(text);
    let ghost ws = strings_view(words@);
    let mut out: Vec<String> = Vec::new();
    let mut i: usize = 0;
    while i < words.len()
        invariant
            ws == strings_view(words@),
            i <= words@.len(),
            strings_view(out@) == topics_of(ws.take(i as int)),
        decreases words@.len() - i,
    {
        assert(ws.take(i + 1).drop_last() =~= ws.take(i as int));
        assert(ws.take(i + 1).last() == words@[i as int]@);
        let lower = to_lowercase(words[i].as_str());
        let clean = trim_non_alphanumeric(lower.as_str());
        if clean.as_str().as_bytes().len() > 3 && !is_common_word(clean.as_str()) {
            let ghost before = strings_view(out@);
            out.push(clean);
            assert(strings_view(out@) =~= before.push(out@[out@.len() - 1]@));
        }
        i = i + 1;
    }
    assert(ws.take(ws.len() as int) =~= ws);
    out
}

/// No key occurs twice among `counts`.
pub open spec fn distinct_counts(counts: Seq<(Seq<char>, u32)>) -> bool {
    forall|i: int, j: int| 0 <= i < counts.len() && 0 <= j < counts.len() && i != j ==> (#[trigger] counts[i]).0 != (#[trigger] counts[j]).0
}

/// Whether `counts` has an entry for `key`.
pub open spec fn counted(counts: Seq<(Seq<char>, u32)>, key: Seq<char>) -> bool {
    exists|i: int| 0 <= i < counts.len() && (#[trigger] counts[i]).0 == key
}

/// The position of `key` among `counts` (meaningful when it is counted).
pub open spec fn count_index(counts: Seq<(Seq<char>, u32)>, key: Seq<char>) -> int {
    choose|i: int| 0 <= i < counts.len() && (#[trigger] counts[i]).0 == key
}

/// `counts` after one more mention of `key`: the count of `key` rises by
/// one, or `key` is added with a count of one.
pub open spec fn tallied(counts: Seq<(Seq<char>, u32)>, key: Seq<char>) -> Seq<(Seq<char>, u32)> {
    if counted(counts, key) {
        let i = count_index(counts, key);
        counts.update(i, (key, (counts[i].1 + 1) as u32))
    } else {
        counts.push((key, 1u32))
    }
}

/// `counts` after a mention of each of `keys`, in order.
pub open spec fn tallied_all(counts: Seq<(Seq<char>, u32)>, keys: Seq<Seq<char>>) -> Seq<(Seq<char>, u32)>
    decreases keys.len(),
{
    if keys.len() == 0 {
        counts
    } else {
        tallied(tallied_all(counts, keys.drop_last()), keys.last())
    }
}

/// How many times `key` was counted (0 when it never was).
pub open spec fn count_of(counts: Seq<(Seq<char>, u32)>, key: Seq<char>) -> int {
    if counted(counts, key) {
        counts[count_index(counts, key)].1 as int
    } else {
        0
    }
}

/// One more mention of `key` raises its count by exactly one and leaves
/// every other key's count as it was.
pub proof fn lemma_tally_counts(counts: Seq<(Seq<char>, u32)>, key: Seq<char>, other: Seq<char>)
    requires
        distinct_counts(counts),
        count_of(counts, key) < u32::MAX,
        other != key,
    ensures
        count_of(tallied(counts, key), key) == count_of(counts, key) + 1,
        count_of(tallied(counts, key), other) == count_of(counts, other),
{
    let t = tallied(counts, key);
    if counted(counts, key) {
        let c = count_index(counts, key);
        assert(0 <= c < counts.len() && counts[c].0 == key);
        assert(t[c].0 == key);
        assert(counted(t, key));
        let d = count_index(t, key);
        assert(0 <= d < t.len() && t[d].0 == key);
        if d != c {
            assert(t[d] == counts[d]);
        }
        if counted(counts, other) {
            let o = count_index(counts, other);
            assert(0 <= o < counts.len() && counts[o].0 == other);
            assert(t[o] == counts[o]);
            assert(counted(t, other));
            let p = count_index(t, other);
            assert(0 <= p < t.len() && t[p].0 == other);
            assert(p != c);
            assert(t[p] == counts[p]);
        } else {
            assert forall|i: int| 0 <= i < t.len() implies (#[trigger] t[i]).0 != other by {
                if i != c {
                    assert(t[i] == counts[i]);
                }
            }
        }
    } else {
        let n = counts.len() as int;
        assert(t[n].0 == key);
        assert(counted(t, key));
        let d = count_index(t, key);
        assert(0 <= d < t.len() && t[d].0 == key);
        if d < n {
            assert(t[d] == counts[d]);
        }
        if counted(counts, other) {
            let o = count_index(counts, other);
            assert(0 <= o < counts.len() && counts[o].0 == other);
            assert(t[o] == counts[o]);
            assert(counted(t, other));
            let p = count_index(t, other);
            assert(0 <= p < t.len() && t[p].0 == other);
            assert(p < n);
            assert(t[p] == counts[p]);
        } else {
            assert forall|i: int| 0 <= i < t.len() implies (#[trigger] t[i]).0 != other by {
                if i < n {
                    assert(t[i] == counts[i]);
                }
            }
        }
    }
}

/// Counts one more mention of `key` (a map entry's `or_insert(0) += 1`).
pub fn tally(counts: &mut Vec<(String, u32)>, key: &str)
    requires
        distinct_counts(topic_counts(old(counts)@)),
        forall|i: int| 0 <= i < old(counts)@.len() ==> (#[trigger] old(counts)@[i]).1 < u32::MAX,
    ensures
        distinct_counts(topic_counts(final(counts)@)),
        topic_counts(final(counts)@) == tallied(topic_counts(old(counts)@), key@),
{
    let ghost v = topic_counts(counts@);
    let n = counts.len();
    let mut i: usize = 0;
    while i < n
        invariant
            n == counts@.len(),
            v == topic_counts(counts@),
            v == topic_counts(old(counts)@),
            distinct_counts(v),
            forall|k: int| 0 <= k < counts@.len() ==> (#[trigger] counts@[k]).1 < u32::MAX,
            i <= n,
            forall|k: int| 0 <= k < i ==> (#[trigger] v[k]).0 != key@,
        decreases n - i,
    {
        assert(v[i as int] == (counts@[i as int].0@, counts@[i as int].1));
        if str_eq(counts[i].0.as_str(), key) {
            assert(counted(v, key@));
            let ghost c = count_index(v, key@);
            assert(0 <= c < v.len() && v[c].0 == key@);
            assert(c == i as int);
            let name = String::from_str(key);
            let next = counts[i].1 + 1;
            counts.set(i, (name, next));
            assert(topic_counts(counts@) =~= v.update(i as int, (key@, next)));
            return;
        }
        i = i + 1;
    }
    assert(!counted(v, key@));
    counts.push((String::from_str(key), 1));
    assert(topic_counts(counts@) =~= v.push((key@, 1u32)));
}

/// Counting one more mention raises no count by more than one.
proof fn lemma_tallied_bound(tv: Seq<(Seq<char>, u32)>, key: Seq<char>, bound: int)
    requires
        1 <= bound <= u32::MAX,
        forall|i: int| 0 <= i < tv.len() ==> (#[trigger] tv[i]).1 + bound <= u32::MAX,
    ensures
        forall|i: int| 0 <= i < tallied(tv, key).len() ==> (#[trigger] tallied(tv, key)[i]).1 + (bound - 1) <= u32::MAX,
{
    let t = tallied(tv, key);
    assert forall|i: int| 0 <= i < t.len() implies (#[trigger] t[i]).1 + (bound - 1) <= u32::MAX by {
        if counted(tv, key) {
            let c = count_index(tv, key);
            assert(0 <= c < tv.len() && tv[c].0 == key);
            if i != c {
                assert(t[i] == tv[i]);
            } else {
                assert(tv[c].1 + bound <= u32::MAX);
            }
        } else if i < tv.len() {
            assert(t[i] == tv[i]);
        }
    }
}

/// Records what a question was about: each of its topics and its question
/// pattern are counted once more (the counting part of a user's implicit
/// learning).
pub fn record_question(topics: &mut Vec<(String, u32)>, patterns: &mut Vec<(String, u32)>, question: &str)
    requires
        distinct_counts(topic_counts(old(topics)@)),
        distinct_counts(topic_counts(old(patterns)@)),
        topics_of(split_ws(question@)).len() <= u32::MAX,
        forall|i: int| 0 <= i < old(topics)@.len() ==> (#[trigger] old(topics)@[i]).1 + topics_of(split_ws(question@)).len() <= u32::MAX,
        forall|i: int| 0 <= i < old(patterns)@.len() ==> (#[trigger] old(patterns)@[i]).1 < u32::MAX,
    ensures
        distinct_counts(topic_counts(final(topics)@)),
        distinct_counts(topic_counts(final(patterns)@)),
        topic_counts(final(topics)@) == tallied_all(topic_counts(old(topics)@), topics_of(split_ws(question@))),
        topic_counts(final(patterns)@) == tallied(topic_counts(old(patterns)@), question_pattern(question@)),
{
    let found = extract_topics(question);
    let ghost ks = strings_view(found@);
    let ghost start = topic_counts(topics@);
    let n = found.len();
    let mut j: usize = 0;
    assert(ks.take(0) =~= Seq::<Seq<char>>::empty());
    while j < n
        invariant
            n == found@.len(),
            ks == strings_view(found@),
            ks.len() == n,
            j <= n,
            distinct_counts(topic_counts(topics@)),
            topic_counts(topics@) == tallied_all(start, ks.take(j as int)),
            n <= u32::MAX,
            forall|i: int| 0 <= i < topics@.len() ==> (#[trigger] topics@[i]).1 + (n - j) <= u32::MAX,
        decreases n - j,
    {
        let ghost before = topics@;
        assert(ks.take(j + 1).drop_last() =~= ks.take(j as int));
        assert(ks.take(j + 1).last() == found@[j as int]@);
        tally(topics, found[j].as_str());
        proof {
            let tv = topic_counts(before);
            assert forall|i: int| 0 <= i < tv.len() implies (#[trigger] tv[i]).1 + (n - j) <= u32::MAX by {
                assert(tv[i].1 == before[i].1);
            }
            lemma_tallied_bound(tv, found@[j as int]@, n - j);
            assert forall|i: int| 0 <= i < topics@.len() implies (#[trigger] topics@[i]).1 + (n - (j + 1)) <= u32::MAX by {
                assert(topic_counts(topics@)[i].1 == topics@[i].1);
            }
        }
        j = j + 1;
    }
    assert(ks.take(n as int) =~= ks);
    let pattern = extract_question_pattern(question);
    tally(patterns, pattern.as_str());
}

/// How a verbosity level is phrased.
pub open spec fn verbosity_desc(level: u8) -> Seq<char> {
    if level <= 3 {
        "very concise"@
    } else if level <= 6 {
        "moderate"@
    } else if level <= 10 {
        "detailed"@
    } else {
        "moderate"@
    }
}

/// The instruction a preference gives, if any.
pub open spec fn pref_line(p: PreferenceType) -> Option<Seq<char>> {
    match p {
        PreferenceType::ResponseStyle(s) => Some("Use a "@ + s@ + " style in your responses."@),
        PreferenceType::Verbosity(l) => Some("Keep responses "@ + verbosity_desc(l) + "."@),
        PreferenceType::PreferredTopics(ts) => if ts@.len() > 0 {
            Some("The user is interested in: "@ + join(strings_view(ts@), ", "@) + "."@)
        } else {
            None
        },
        PreferenceType::DislikedTopics(ts) => if ts@.len() > 0 {
            Some("Avoid discussing: "@ + join(strings_view(ts@), ", "@) + "."@)
        } else {
            None
        },
        PreferenceType::Language(l) => Some("Respond in "@ + l@ + "."@),
        PreferenceType::TimeOfDayPreferences(b) => if b {
            Some("Use time-appropriate greetings."@)
        } else {
            None
        },
        PreferenceType::Custom(k, v) => Some(k@ + ": "@ + v@),
    }
}

/// The instructions of a list of preferences, in order.
pub open spec fn pref_lines(ps: Seq<PreferenceType>) -> Seq<Seq<char>>
    decreases ps.len(),
{
    if ps.len() == 0 {
        seq![]
    } else {
        let rest = pref_lines(ps.drop_last());
        match pref_line(ps.last()) {
            Some(l) => rest.push(l),
            None => rest,
        }
    }
}

/// Topics mentioned at least three times, in the given order.
pub open spec fn frequent(ts: Seq<(Seq<char>, u32)>) -> Seq<Seq<char>>
    decreases ts.len(),
{
    if ts.len() == 0 {
        seq![]
    } else {
        let rest = frequent(ts.drop_last());
        if ts.last().1 >= 3 {
            rest.push(ts.last().0)
        } else {
            rest
        }
    }
}

/// At most the first five of `s`.
pub open spec fn first_five(s: Seq<Seq<char>>) -> Seq<Seq<char>> {
    if s.len() > 5 {
        s.take(5)
    } else {
        s
    }
}

/// All instructions: the preferences', then the frequent topics (up to five).
pub open spec fn modifier_lines(ps: Seq<PreferenceType>, ts: Seq<(Seq<char>, u32)>) -> Seq<Seq<char>> {
    let top = first_five(frequent(ts));
    if top.len() > 0 {
        pref_lines(ps).push("The user frequently asks about: "@ + join(top, ", "@) + "."@)
    } else {
        pref_lines(ps)
    }
}

/// The system-prompt addition for a user's preferences and frequent topics.
pub open spec fn prompt_modifier(ps: Seq<PreferenceType>, ts: Seq<(Seq<char>, u32)>) -> Seq<char> {
    let lines = modifier_lines(ps, ts);
    if lines.len() == 0 {
        Seq::empty()
    } else {
        "User preferences:\n"@ + join(lines, "\n"@)
    }
}

fn verbosity_text(level: u8) -> (r: &'static str)
    ensures
        r@ == verbosity_desc(level),
{
    if level <= 3 {
        "very concise"
    } else if level <= 6 {
        "moderate"
    } else if level <= 10 {
        "detailed"
    } else {
        "moderate"
    }
}

fn joined(v: &Vec<String>, sep: &str) -> (r: String)
    ensures
        r@ == join(strings_view(v@), sep@),
{
    let mut out = String::new();
    let n = v.len();
    push_joined(&mut out, v, n, sep);
    assert(strings_view(v@).take(n as int) =~= strings_view(v@));
    assert(Seq::<char>::empty() + join(strings_view(v@), sep@) =~= join(strings_view(v@), sep@));
    out
}

fn line_for(p: &PreferenceType) -> (r: Option<String>)
    ensures
        match pref_line(*p) {
            Some(l) => r matches Some(s) && s@ == l,
            None => r is None,
        },
{
    match p {
        PreferenceType::ResponseStyle(s) => {
            let mut out = String::from_str("Use a ");
            push_str(&mut out, s.as_str());
            push_str(&mut out, " style in your responses.");
            Some(out)
        },
        PreferenceType::Verbosity(l) => {
            let mut out = String::from_str("Keep responses ");
            push_str(&mut out, verbosity_text(*l));
            push_str(&mut out, ".");
            Some(out)
        },
        PreferenceType::PreferredTopics(ts) => {
            if ts.len() > 0 {
                let mut out = String::from_str("The user is interested in: ");
                let j = joined(ts, ", ");
                push_str(&mut out, j.as_str());
                push_str(&mut out, ".");
                Some(out)
            } else {
                None
            }
        },
        PreferenceType::DislikedTopics(ts) => {
            if ts.len() > 0 {
                let mut out = String::from_str("Avoid discussing: ");
                let j = joined(ts, ", ");
                push_str(&mut out, j.as_str());
                push_str(&mut out, ".");
                Some(out)
            } else {
                None
            }
        },
        PreferenceType::Language(l) => {
            let mut out = String::from_str("Respond in ");
            push_str(&mut out, l.as_str());
            push_str(&mut out, ".");
            Some(out)
        },
        PreferenceType::TimeOfDayPreferences(b) => {
            if *b {
                Some(String::from_str("Use time-appropriate greetings."))
            } else {
                None
            }
        },
        PreferenceType::Custom(k, v) => {
            let mut out = String::from_str(k.as_str());
            push_str(&mut out, ": ");
            push_str(&mut out, v.as_str());
            Some(out)
        },
    }
}

/// The view of a list of topic counts.
pub open spec fn topic_counts(v: Seq<(String, u32)>) -> Seq<(Seq<char>, u32)> {
    v.map_values(|t: (String, u32)| (t.0@, t.1))
}

/// The system-prompt addition for a user: one instruction per preference
/// that gives one, then the topics mentioned at least three times (at most
/// five, in the order given), under a "User preferences:" heading; empty
/// when there is nothing to say.
pub fn system_prompt_modifier(preferences: &Vec<PreferenceType>, frequent_topics: &Vec<(String, u32)>) -> (r: String)
    ensures
        r@ == prompt_modifier(preferences@, topic_counts(frequent_topics@)),
{
    let mut lines: Vec<String> = Vec::new();
    let mut i: usize = 0;
    while i < preferences.len()
        invariant
            i <= preferences@.len(),
            strings_view(lines@) == pref_lines(preferences@.take(i as int)),
        decreases preferences@.len() - i,
    {
        assert(preferences@.take(i + 1).drop_last() =~= preferences@.take(i as int));
        assert(preferences@.take(i + 1).last() == preferences@[i as int]);
        let ghost before = strings_view(lines@);
        match line_for(&preferences[i]) {
            Some(l) => {
                lines.push(l);
                assert(strings_view(lines@) =~= before.push(lines@[lines@.len() - 1]@));
            },
            None => {},
        }
        i = i + 1;
    }
    assert(preferences@.take(preferences@.len() as int) =~= preferences@);
    let ghost ts = topic_counts(frequent_topics@);
    let mut top: Vec<String> = Vec::new();
    let mut j: usize = 0;
    while j < frequent_topics.len()
        invariant
            ts == topic_counts(frequent_topics@),
            j <= frequent_topics@.len(),
            strings_view(top@) == frequent(ts.take(j as int)),
        decreases frequent_topics@.len() - j,
    {
        assert(ts.take(j + 1).drop_last() =~= ts.take(j as int));
        assert(ts.take(j + 1).last() == (frequent_topics@[j as int].0@, frequent_topics@[j as int].1));
        if frequent_topics[j].1 >= 3 {
            let ghost before = strings_view(top@);
            let t = String::from_str(frequent_topics[j].0.as_str());
            top.push(t);
            assert(strings_view(top@) =~= before.push(t@));
        }
        j = j + 1;
    }
    assert(ts.take(ts.len() as int) =~= ts);
    if top.len() > 5 {
        top.truncate(5);
        assert(strings_view(top@) =~= frequent(ts).take(5));
    }
    if top.len() > 0 {
        let mut line = String::from_str("The user frequently asks about: ");
        let j = joined(&top, ", ");
        push_str(&mut line, j.as_str());
        push_str(&mut line, ".");
        let ghost before = strings_view(lines@);
        lines.push(line);
        assert(strings_view(lines@) =~= before.push(lines@[lines@.len() - 1]@));
    }
    if lines.len() == 0 {
        String::new()
    } else {
        let mut out = String::from_str("User preferences:\n");
        let j = joined(&lines, "\n");
        push_str(&mut out, j.as_str());
        out
    }
}

/// Every preference kept by `without_kind` comes from `ps` and is of
/// another kind.
pub proof fn lemma_without_kind_members(ps: Seq<PreferenceType>, k: PreferenceKind)
    ensures
        forall|j: int| 0 <= j < without_kind(ps, k).len() ==> kind_of(#[trigger] without_kind(ps, k)[j]) != k
            && exists|i: int| 0 <= i < ps.len() && ps[i] == without_kind(ps, k)[j],
    decreases ps.len(),
{
    if ps.len() > 0 {
        lemma_without_kind_members(ps.drop_last(), k);
        let rest = without_kind(ps.drop_last(), k);
        assert forall|j: int| 0 <= j < rest.len() implies exists|i: int| 0 <= i < ps.len() && ps[i] == #[trigger] rest[j] by {
            let i = choose|i: int| 0 <= i < ps.drop_last().len() && ps.drop_last()[i] == rest[j];
            assert(ps[i] == rest[j]);
        }
        if kind_of(ps.last()) != k {
            assert(ps[ps.len() - 1] == ps.last());
        }
    }
}

/// Setting a preference of a built-in kind makes a query for that kind's
/// name find it, unless a custom preference keyed by that very name was set.
pub proof fn lemma_set_then_get(ps: Seq<PreferenceType>, p: PreferenceType, name: Seq<char>)
    requires
        kind_of(p) != PreferenceKind::Custom,
        pref_matches(p, name),
        forall|i: int| 0 <= i < ps.len() && kind_of(ps[i]) == PreferenceKind::Custom ==> !pref_matches(#[trigger] ps[i], name),
    ensures
        ({
            let r = without_kind(ps, kind_of(p)).push(p);
            &&& r.last() == p
            &&& forall|j: int| 0 <= j < r.len() - 1 ==> !pref_matches(#[trigger] r[j], name)
        }),
{
    reveal_strlit("response_style");
    reveal_strlit("verbosity");
    reveal_strlit("preferred_topics");
    reveal_strlit("disliked_topics");
    reveal_strlit("language");
    reveal_strlit("time_of_day_preferences");
    assert("response_style"@.len() == 14);
    assert("verbosity"@.len() == 9);
    assert("preferred_topics"@.len() == 16);
    assert("disliked_topics"@.len() == 15);
    assert("language"@.len() == 8);
    assert("time_of_day_preferences"@.len() == 23);
    lemma_without_kind_members(ps, kind_of(p));
    let w = without_kind(ps, kind_of(p));
    let r = w.push(p);
    assert forall|j: int| 0 <= j < r.len() - 1 implies !pref_matches(#[trigger] r[j], name) by {
        assert(r[j] == w[j]);
        let i = choose|i: int| 0 <= i < ps.len() && ps[i] == w[j];
        assert(kind_of(w[j]) != kind_of(p));
        if kind_of(w[j]) == PreferenceKind::Custom {
            assert(!pref_matches(ps[i], name));
        }
    }
}

/// The question words and stop words that a user's questions are full of.
pub open spec fn stop_words() -> Set<Seq<char>> {
    set![
        "what"@, "when"@, "where"@, "why"@, "how"@, "who"@, "is"@, "are"@, "was"@, "were"@,
        "the"@, "a"@, "an"@, "in"@, "on"@, "at"@, "to"@, "for"@, "of"@, "with"@, "by"@,
    ]
}

/// Law: from any sequence of words, no question word or stop word is ever
/// extracted as a topic, and every topic is longer than three bytes.
pub proof fn lemma_topics_are_content_words(ws: Seq<Seq<char>>)
    ensures
        forall|i: int| 0 <= i < topics_of(ws).len() ==> !stop_words().contains(#[trigger] topics_of(ws)[i]),
        forall|i: int| 0 <= i < topics_of(ws).len() ==> encode_utf8(#[trigger] topics_of(ws)[i]).len() > 3,
    decreases ws.len(),
{
    if ws.len() > 0 {
        lemma_topics_are_content_words(ws.drop_last());
        let rest = topics_of(ws.drop_last());
        match topic_of(ws.last()) {
            Some(t) => {
                assert(!common_word(t));
                assert(!stop_words().contains(t));
                assert(topics_of(ws) == rest.push(t));
                assert forall|i: int| 0 <= i < topics_of(ws).len() implies !stop_words().contains(#[trigger] topics_of(ws)[i])
                    && encode_utf8(topics_of(ws)[i]).len() > 3 by {
                    if i < rest.len() {
                        assert(topics_of(ws)[i] == rest[i]);
                    }
                }
            },
            None => {
                assert(topics_of(ws) == rest);
            },
        }
    }
}

/// Where a phrase stands on the scale from shortest (0) to longest (2)
/// answers; -1 for a phrase off the scale.
pub open spec fn verbosity_rank(phrase: Seq<char>) -> int {
    if phrase == "very concise"@ {
        0
    } else if phrase == "moderate"@ {
        1
    } else if phrase == "detailed"@ {
        2
    } else {
        -1
    }
}

/// Law: on the scale 0 to 10, levels 0 to 3 ask for "very concise" answers,
/// 4 to 6 for "moderate" ones and 7 to 10 for "detailed" ones, so a higher
/// level never asks for shorter answers than a lower one.
pub proof fn lemma_verbosity_scale(l1: u8, l2: u8)
    requires
        l1 <= l2 <= 10,
    ensures
        l1 <= 3 <==> verbosity_desc(l1) == "very concise"@,
        4 <= l1 <= 6 <==> verbosity_desc(l1) == "moderate"@,
        7 <= l1 <==> verbosity_desc(l1) == "detailed"@,
        0 <= verbosity_rank(verbosity_desc(l1)) <= verbosity_rank(verbosity_desc(l2)),
{
    reveal_strlit("very concise");
    reveal_strlit("moderate");
    reveal_strlit("detailed");
    assert("very concise"@.len() == 12);
    assert("moderate"@[0] == 'm' && "detailed"@[0] == 'd');
    assert("moderate"@ != "very concise"@);
    assert("detailed"@ != "very concise"@);
    assert("detailed"@ != "moderate"@);
}

} // verus!
