//! Decisions of the HTTP handlers: which installed Ollama models are
//! offered as chat models.
use vstd::prelude::*;
use vstd::string::StringExecFns;
use vstd::utf8::encode_utf8;
use crate::capabilities::ollama::{embedding_family, is_embedding_family, OllamaTag};
use crate::server::models::OllamaModelInfo;
use crate::text::{contains, contains_str, lowercase, to_lowercase};

verus! {

/// Families that are known to be chat models.
pub open spec fn chat_family(f: Seq<char>) -> bool {
    ||| contains(f, "llama"@)
    ||| contains(f, "gemma"@)
    ||| contains(f, "mistral"@)
    ||| contains(f, "qwen"@)
    ||| contains(f, "phi"@)
    ||| contains(f, "gpt"@)
}

/// An installed model that may be a chat model.
#[derive(Debug)]
pub struct OllamaCandidate {
    pub name: String,
    pub size: Option<u64>,
    /// The family is a known chat family, so no probe is needed.
    pub trusted: bool,
}

/// A tag's name, "unknown" when it has none.
pub open spec fn tag_name(t: OllamaTag) -> Seq<char> {
    match t.name {
        Some(n) => n@,
        None => "unknown"@,
    }
}

/// A tag's family, lower-cased, empty when it has none.
pub open spec fn tag_family_or_empty(t: OllamaTag) -> Seq<char> {
    match t.family {
        Some(f) => lowercase(f@),
        None => lowercase(Seq::empty()),
    }
}

/// The candidates among the tags, in order: embedding families are dropped.
pub open spec fn candidates_of(ts: Seq<OllamaTag>) -> Seq<(Seq<char>, Option<u64>, bool)>
    decreases ts.len(),
{
    if ts.len() == 0 {
        seq![]
    } else {
        let rest = candidates_of(ts.drop_last());
        let t = ts.last();
        let f = tag_family_or_empty(t);
        if embedding_family(f) {
            rest
        } else {
            rest.push((tag_name(t), t.size, chat_family(f)))
        }
    }
}

/// Whether `family` (lower-case) is a known chat family.
pub fn is_chat_family(family: &str) -> (r: bool)
    ensures
        r == chat_family(family@),
{
    contains_str(family, "llama") || contains_str(family, "gemma") || contains_str(family, "mistral")
        || contains_str(family, "qwen") || contains_str(family, "phi") || contains_str(family, "gpt")
}

/// The models of an `/api/tags` listing that may serve chat: embedding
/// families are dropped; known chat families are trusted, the others are
/// to be probed.
pub fn ollama_candidates(tags: &Vec<OllamaTag>) -> (r: Vec<OllamaCandidate>)
    ensures
        r@.map_values(|c: OllamaCandidate| (c.name@, c.size, c.trusted)) == candidates_of(tags@),
{
    let mut out: Vec<OllamaCandidate> = Vec::new();
    let mut i: usize = 0;
    while i < tags.len()
        invariant
            i <= tags@.len(),
            out@.map_values(|c: OllamaCandidate| (c.name@, c.size, c.trusted)) == candidates_of(tags@.take(i as int)),
        decreases tags@.len() - i,
    {
        let t = &tags[i];
        assert(tags@.take(i + 1).drop_last() =~= tags@.take(i as int));
        assert(tags@.take(i + 1).last() == *t);
        let ghost before = out@.map_values(|c: OllamaCandidate| (c.name@, c.size, c.trusted));
        let family = match &t.family {
            Some(f) => to_lowercase(f.as_str()),
            None => to_lowercase(""),
        };
        proof {
            assert(""@ =~= Seq::<char>::empty()) by {
                reveal_strlit("");
            }
        }
        if !is_embedding_family(family.as_str()) {
            let name = match &t.name {
                Some(n) => n.clone(),
                None => String::from_str("unknown"),
            };
            let trusted = is_chat_family(family.as_str());
            let c = OllamaCandidate { name, size: t.size, trusted };
            out.push(c);
            assert(out@.map_values(|c: OllamaCandidate| (c.name@, c.size, c.trusted)) =~= before.push(
                (tag_name(*t), t.size, chat_family(family@)),
            ));
        }
        i = i + 1;
    }
    assert(tags@.take(tags@.len() as int) =~= tags@);
    out
}

/// Whether a probed model is offered: a model whose probe did not answer
/// (`None`) is shown; otherwise it is a chat model when its prompt template
/// is longer than 50 bytes (a missing template counts as empty).
pub open spec fn shows_probed(template: Option<Option<Seq<char>>>) -> bool {
    match template {
        None => true,
        Some(None) => false,
        Some(Some(t)) => encode_utf8(t).len() > 50,
    }
}

/// Whether a candidate is offered, given the outcome of its probe.
pub fn keeps_candidate(trusted: bool, template: Option<Option<&str>>) -> (r: bool)
    ensures
        r == (trusted || shows_probed(match template {
            None => None,
            Some(None) => Some(None),
            Some(Some(t)) => Some(Some(t@)),
        })),
{
    if trusted {
        return true;
    }
    match template {
        None => true,
        Some(None) => false,
        Some(Some(t)) => t.as_bytes().len() > 50,
    }
}

/// The listing entry of a candidate.
pub fn model_info(c: OllamaCandidate) -> (r: OllamaModelInfo)
    ensures
        r.name == c.name,
        r.size == c.size,
{
    OllamaModelInfo { name: c.name, size: c.size }
}

/// The listing when the probes ran out of time: every named entry of the
/// tags, "unknown" for a missing name, without filtering.
pub fn unfiltered_models(tags: &Vec<OllamaTag>) -> (r: Vec<OllamaModelInfo>)
    ensures
        r@.len() == tags@.len(),
        forall|i: int| 0 <= i < r@.len() ==> #[trigger] r@[i].name@ == tag_name(tags@[i]) && r@[i].size == tags@[i].size,
{
    let mut out: Vec<OllamaModelInfo> = Vec::new();
    let mut i: usize = 0;
    while i < tags.len()
        invariant
            i <= tags@.len(),
            out@.len() == i,
            forall|j: int| 0 <= j < i ==> #[trigger] out@[j].name@ == tag_name(tags@[j]) && out@[j].size == tags@[j].size,
        decreases tags@.len() - i,
    {
        let name = match &tags[i].name {
            Some(n) => n.clone(),
            None => String::from_str("unknown"),
        };
        out.push(OllamaModelInfo { name, size: tags[i].size });
        i = i + 1;
    }
    out
}


/// Duration in milliseconds of `n_samples` interleaved samples recorded at
/// `sample_rate` with `channels` channels; 0 when the rate is 0.
pub fn wav_duration_ms(n_samples: u64, sample_rate: u32, channels: u16) -> (r: u64)
    requires
        channels > 0,
        n_samples * 1000 <= u64::MAX,
    ensures
        r == if sample_rate > 0 {
            (n_samples * 1000) / (sample_rate * channels) as int
        } else {
            0
        },
{
    if sample_rate > 0 {
        let rate = sample_rate as u64;
        let ch = channels as u64;
        assert(rate * ch <= 0xffff_ffff * 0xffff && rate * ch > 0) by (nonlinear_arith)
            requires
                0 < rate <= 0xffff_ffff,
                0 < ch <= 0xffff,
        ;
        let per_second: u64 = rate * ch;
        (n_samples * 1000) / per_second
    } else {
        0
    }
}

} // verus!
