//! Summaries of the models installed in Ollama, as listed by its
//! `/api/tags` endpoint. Embedding-only families are dropped so that only
//! models that can act as chat backends are listed.
use vstd::prelude::*;
use crate::capabilities::models::{mb_of, BYTES_PER_MB};
use crate::text::{str_eq, to_lowercase, lowercase};

verus! {

/// An installed model that can serve chat.
#[derive(Debug)]
pub struct OllamaModelSummary {
    pub name: String,
    pub size_mb: Option<u64>,
    pub family: Option<String>,
}

/// One entry of the `/api/tags` listing: its `name`, its `size` in bytes and
/// its `details.family`, each absent where the JSON does not hold a value of
/// the right type there.
#[derive(Debug)]
pub struct OllamaTag {
    pub name: Option<String>,
    pub size: Option<u64>,
    pub family: Option<String>,
}

/// Model families that only compute embeddings.
pub open spec fn embedding_family(f: Seq<char>) -> bool {
    ||| f == "bert"@
    ||| f == "nomic-bert"@
    ||| f == "nomic-embed-text"@
    ||| f == "mxbai-embed-large"@
    ||| f == "jina-bert"@
    ||| f == "snowflake-arctic-embed"@
    ||| f == "stella"@
}

/// Whether `family` (already lower-case) is an embedding-only family.
pub fn is_embedding_family(family: &str) -> (r: bool)
    ensures
        r == embedding_family(family@),
{
    str_eq(family, "bert") || str_eq(family, "nomic-bert") || str_eq(family, "nomic-embed-text")
        || str_eq(family, "mxbai-embed-large") || str_eq(family, "jina-bert")
        || str_eq(family, "snowflake-arctic-embed") || str_eq(family, "stella")
}

/// The family of a tag, lower-cased.
pub open spec fn tag_family(t: OllamaTag) -> Option<Seq<char>> {
    match t.family {
        Some(f) => Some(lowercase(f@)),
        None => None,
    }
}

/// A summary as plain values: name, size in MB, family.
pub open spec fn summary_view(m: OllamaModelSummary) -> (Seq<char>, Option<u64>, Option<Seq<char>>) {
    (m.name@, m.size_mb, match m.family {
        Some(f) => Some(f@),
        None => None,
    })
}

/// What a tag contributes to the listing: nothing when it has no name or its
/// family is embedding-only.
pub open spec fn summary_of(t: OllamaTag) -> Option<(Seq<char>, Option<u64>, Option<Seq<char>>)> {
    match t.name {
        None => None,
        Some(n) => if tag_family(t) matches Some(f) && embedding_family(f) {
            None
        } else {
            Some((n@, mb_of(t.size), tag_family(t)))
        },
    }
}

/// The listing of a sequence of tags, in order.
pub open spec fn summaries(ts: Seq<OllamaTag>) -> Seq<(Seq<char>, Option<u64>, Option<Seq<char>>)>
    decreases ts.len(),
{
    if ts.len() == 0 {
        seq![]
    } else {
        let rest = summaries(ts.drop_last());
        match summary_of(ts.last()) {
            Some(x) => rest.push(x),
            None => rest,
        }
    }
}

/// Summarises the chat models among the tags, keeping their order.
pub fn summarize_tags(tags: &Vec<OllamaTag>) -> (r: Vec<OllamaModelSummary>)
    ensures
        r@.map_values(|m: OllamaModelSummary| summary_view(m)) == summaries(tags@),
{
    let mut out: Vec<OllamaModelSummary> = Vec::new();
    let mut i: usize = 0;
    while i < tags.len()
        invariant
            i <= tags@.len(),
            out@.map_values(|m: OllamaModelSummary| summary_view(m)) == summaries(tags@.take(i as int)),
        decreases tags@.len() - i,
    {
        let t = &tags[i];
        let ghost before = out@;
        assert(tags@.take(i + 1).drop_last() =~= tags@.take(i as int));
        assert(tags@.take(i + 1).last() == *t);
        if let Some(name) = &t.name {
            let family: Option<String> = match &t.family {
                Some(f) => Some(to_lowercase(f.as_str())),
                None => None,
            };
            let skip = match &family {
                Some(f) => is_embedding_family(f.as_str()),
                None => false,
            };
            if !skip {
                let size_mb = match t.size {
                    Some(n) => Some(n / BYTES_PER_MB),
                    None => None,
                };
                let m = OllamaModelSummary { name: name.clone(), size_mb, family };
                assert(summary_view(m) == summary_of(*t)->0);
                out.push(m);
                assert(out@.map_values(|m: OllamaModelSummary| summary_view(m))
                    =~= before.map_values(|m: OllamaModelSummary| summary_view(m)).push(summary_view(m)));
            }
        }
        i = i + 1;
    }
    assert(tags@.take(tags@.len() as int) =~= tags@);
    out
}

} // verus!
