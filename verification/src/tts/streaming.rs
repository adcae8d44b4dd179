//! Sentence splitting for sentence-level streaming synthesis.
//!
//! Text is split at sentence-ending punctuation followed by whitespace or by
//! the end of the text, so that each sentence can be synthesised on its own.
//! Decimals such as "3.50" stay whole; abbreviations such as "Dr. Smith" are
//! split, which is harmless for synthesis.
use vstd::prelude::*;
use crate::streaming_chat::{is_punct, is_punct_char};
use crate::text::{
    chars_of, flat, is_whitespace, is_ws, lemma_flat_push, lemma_strip_concat,
    lemma_strip_empty_trim, lemma_strip_trim, lemma_trim_idempotent, string_of_range, strings_view, strip_ws, trim,
    trim_bounds, trim_start, lemma_trim_start_shape, lemma_trim_end_shape, trim_end, lemma_blank_iff_strip_empty, lemma_trim_keeps_last,
};

verus! {

/// Position `i` of `s` ends a sentence: punctuation followed by whitespace
/// or by the end of the text.
pub open spec fn is_sentence_end(s: Seq<char>, i: int) -> bool {
    0 <= i < s.len() && is_punct(s[i]) && (i + 1 >= s.len() || is_ws(s[i + 1]))
}

/// Start of the sentence that holds position `n`.
pub open spec fn sentence_start(s: Seq<char>, n: int) -> int
    decreases n,
{
    if n <= 0 {
        0
    } else if is_sentence_end(s, n - 1) {
        n
    } else {
        sentence_start(s, n - 1)
    }
}

/// The non-empty trimmed sentences that end before position `n`.
pub open spec fn sentence_pieces(s: Seq<char>, n: int) -> Seq<Seq<char>>
    decreases n,
{
    if n <= 0 {
        seq![]
    } else if is_sentence_end(s, n - 1) {
        let p = trim(s.subrange(sentence_start(s, n - 1), n));
        if p.len() > 0 {
            sentence_pieces(s, n - 1).push(p)
        } else {
            sentence_pieces(s, n - 1)
        }
    } else {
        sentence_pieces(s, n - 1)
    }
}

/// The sentences of `s`: those ended by punctuation, then the trimmed
/// trailing text when it is not blank.
pub open spec fn sentences_of(s: Seq<char>) -> Seq<Seq<char>> {
    let n = s.len() as int;
    let tail = trim(s.subrange(sentence_start(s, n), n));
    if tail.len() > 0 {
        sentence_pieces(s, n).push(tail)
    } else {
        sentence_pieces(s, n)
    }
}

/// Splits `text` into sentences.
pub fn split_sentences(text: &str) -> (r: Vec<String>)
    ensures
        strings_view(r@) == sentences_of(text@),
{
    let s = chars_of(text);
    let mut out: Vec<String> = Vec::new();
    let mut start: usize = 0;
    let mut i: usize = 0;
    assert(strings_view(out@) =~= Seq::<Seq<char>>::empty());
    while i < s.len()
        invariant
            i <= s@.len(),
            start as int == sentence_start(s@, i as int),
            start <= i,
            strings_view(out@) == sentence_pieces(s@, i as int),
        decreases s@.len() - i,
    {
        if is_punct_char(s[i]) && (i + 1 >= s.len() || is_whitespace(s[i + 1])) {
            let (a, b) = trim_bounds(s.as_slice(), start, i + 1);
            if a < b {
                let t = string_of_range(s.as_slice(), a, b);
                let ghost pre = out@;
                out.push(t);
                assert(strings_view(out@) =~= strings_view(pre).push(t@));
            }
            start = i + 1;
        }
        i = i + 1;
    }
    let (a, b) = trim_bounds(s.as_slice(), start, s.len());
    if a < b {
        let t = string_of_range(s.as_slice(), a, b);
        let ghost pre = out@;
        out.push(t);
        assert(strings_view(out@) =~= strings_view(pre).push(t@));
    }
    out
}

/// The sentences before position `n` and the current partial sentence hold
/// every non-whitespace character of `s[..n]`.
pub proof fn lemma_sentence_pieces_keep_text(s: Seq<char>, n: int)
    requires
        0 <= n <= s.len(),
    ensures
        0 <= sentence_start(s, n) <= n,
        strip_ws(flat(sentence_pieces(s, n))) + strip_ws(s.subrange(sentence_start(s, n), n))
            == strip_ws(s.subrange(0, n)),
    decreases n,
{
    if n == 0 {
        assert(flat(sentence_pieces(s, n)) =~= Seq::<char>::empty());
        assert(s.subrange(0, 0) =~= Seq::<char>::empty());
    } else {
        lemma_sentence_pieces_keep_text(s, n - 1);
        let ps = sentence_start(s, n - 1);
        let last = seq![s[n - 1]];
        assert(s.subrange(ps, n) =~= s.subrange(ps, n - 1) + last);
        assert(s.subrange(0, n) =~= s.subrange(0, n - 1) + last);
        lemma_strip_concat(s.subrange(ps, n - 1), last);
        lemma_strip_concat(s.subrange(0, n - 1), last);
        if is_sentence_end(s, n - 1) {
            assert(s.subrange(n, n) =~= Seq::<char>::empty());
            let p = trim(s.subrange(ps, n));
            lemma_strip_trim(s.subrange(ps, n));
            if p.len() > 0 {
                lemma_flat_push(sentence_pieces(s, n - 1), p);
                lemma_strip_concat(flat(sentence_pieces(s, n - 1)), p);
            } else {
                lemma_strip_empty_trim(s.subrange(ps, n));
            }
        }
    }
}

/// Law: splitting loses no text. The sentences, joined, hold exactly the
/// non-whitespace characters of the input, in order.
pub proof fn lemma_split_keeps_text(s: Seq<char>)
    ensures
        strip_ws(flat(sentences_of(s))) == strip_ws(s),
{
    let n = s.len() as int;
    lemma_sentence_pieces_keep_text(s, n);
    assert(s.subrange(0, n) =~= s);
    let tail = trim(s.subrange(sentence_start(s, n), n));
    lemma_strip_trim(s.subrange(sentence_start(s, n), n));
    if tail.len() > 0 {
        lemma_flat_push(sentence_pieces(s, n), tail);
        lemma_strip_concat(flat(sentence_pieces(s, n)), tail);
    } else {
        lemma_strip_empty_trim(s.subrange(sentence_start(s, n), n));
    }
}

/// Every sentence before position `n` is non-empty and trimmed.
pub proof fn lemma_sentence_pieces_trimmed(s: Seq<char>, n: int)
    requires
        0 <= n <= s.len(),
    ensures
        forall|i: int|
            0 <= i < sentence_pieces(s, n).len() ==> #[trigger] sentence_pieces(s, n)[i].len() > 0
                && trim(sentence_pieces(s, n)[i]) == sentence_pieces(s, n)[i],
    decreases n,
{
    if n > 0 {
        lemma_sentence_pieces_trimmed(s, n - 1);
        if is_sentence_end(s, n - 1) {
            lemma_sentence_start_bounds(s, n - 1);
            let p = trim(s.subrange(sentence_start(s, n - 1), n));
            lemma_trim_idempotent(s.subrange(sentence_start(s, n - 1), n));
            let prev = sentence_pieces(s, n - 1);
            if p.len() > 0 {
                assert forall|i: int| 0 <= i < sentence_pieces(s, n).len() implies #[trigger]
                    sentence_pieces(s, n)[i].len() > 0 && trim(sentence_pieces(s, n)[i])
                    == sentence_pieces(s, n)[i] by {
                    if i < prev.len() {
                        assert(sentence_pieces(s, n)[i] == prev[i]);
                    } else {
                        assert(sentence_pieces(s, n)[i] == p);
                    }
                }
            }
        }
    }
}

/// The start of the current sentence lies within `[0, n]`.
pub proof fn lemma_sentence_start_bounds(s: Seq<char>, n: int)
    requires
        0 <= n,
    ensures
        0 <= sentence_start(s, n) <= n,
    decreases n,
{
    if n > 0 {
        lemma_sentence_start_bounds(s, n - 1);
    }
}

/// Law: every sentence produced by the splitter is non-empty and has no
/// leading or trailing whitespace.
pub proof fn lemma_split_sentences_trimmed(s: Seq<char>)
    ensures
        forall|i: int|
            0 <= i < sentences_of(s).len() ==> #[trigger] sentences_of(s)[i].len() > 0 && trim(
                sentences_of(s)[i],
            ) == sentences_of(s)[i],
{
    let n = s.len() as int;
    lemma_sentence_pieces_trimmed(s, n);
    lemma_trim_idempotent(s.subrange(sentence_start(s, n), n));
}



/// Every sentence ended by punctuation before position `n` ends with that
/// punctuation.
pub proof fn lemma_sentence_pieces_end_punct(s: Seq<char>, n: int)
    requires
        0 <= n <= s.len(),
    ensures
        forall|i: int| 0 <= i < sentence_pieces(s, n).len() ==> is_punct((#[trigger] sentence_pieces(s, n)[i]).last()),
    decreases n,
{
    if n > 0 {
        lemma_sentence_pieces_end_punct(s, n - 1);
        if is_sentence_end(s, n - 1) {
            lemma_sentence_start_bounds(s, n - 1);
            let x = s.subrange(sentence_start(s, n - 1), n);
            let p = trim(x);
            if p.len() > 0 {
                assert(x.last() == s[n - 1]);
                lemma_trim_keeps_last(x);
                let q = sentence_pieces(s, n - 1);
                assert forall|i: int| 0 <= i < q.push(p).len() implies is_punct((#[trigger] q.push(p)[i]).last()) by {
                    if i < q.len() {
                        assert(q.push(p)[i] == q[i]);
                    }
                }
            }
        }
    }
}

/// Law: every sentence of `s` but the last ends with sentence punctuation.
pub proof fn lemma_split_sentences_end_punct(s: Seq<char>)
    ensures
        forall|i: int| 0 <= i < sentences_of(s).len() - 1 ==> is_punct((#[trigger] sentences_of(s)[i]).last()),
{
    let n = s.len() as int;
    lemma_sentence_pieces_end_punct(s, n);
    let ps = sentence_pieces(s, n);
    let r = sentences_of(s);
    assert forall|i: int| 0 <= i < r.len() - 1 implies is_punct((#[trigger] r[i]).last()) by {
        assert(r[i] == ps[i]);
    }
}


/// `p` holds no sentence punctuation directly followed by whitespace.
pub open spec fn no_inner_end(p: Seq<char>) -> bool {
    forall|m: int| 0 <= m && m + 1 < p.len() ==> !(is_punct(#[trigger] p[m]) && is_ws(p[m + 1]))
}

/// No position between the start of the current sentence and `m` ends a
/// sentence.
proof fn lemma_no_end_since_start(s: Seq<char>, m: int)
    requires
        0 <= m,
    ensures
        forall|j: int| sentence_start(s, m) <= j < m ==> !#[trigger] is_sentence_end(s, j),
    decreases m,
{
    if m > 0 && !is_sentence_end(s, m - 1) {
        lemma_no_end_since_start(s, m - 1);
    }
}

/// Trimming a stretch of `s` in which no position ends a sentence (the last
/// one aside) leaves no punctuation directly followed by whitespace.
proof fn lemma_trim_no_inner_end(s: Seq<char>, st: int, e: int)
    requires
        0 <= st <= e <= s.len(),
        forall|j: int| st <= j < e - 1 ==> !#[trigger] is_sentence_end(s, j),
    ensures
        no_inner_end(trim(s.subrange(st, e))),
{
    let x = s.subrange(st, e);
    lemma_trim_start_shape(x);
    let k = choose|k: int| 0 <= k <= x.len() && #[trigger] x.subrange(k, x.len() as int) == trim_start(x);
    let y = trim_start(x);
    lemma_trim_end_shape(y);
    let k2 = choose|k2: int| 0 <= k2 <= y.len() && #[trigger] y.subrange(0, k2) == trim_end(y);
    let p = trim(x);
    assert(p == y.subrange(0, k2));
    assert forall|m: int| 0 <= m && m + 1 < p.len() implies !(is_punct(#[trigger] p[m]) && is_ws(p[m + 1])) by {
        let j = st + k + m;
        assert(p[m] == s[j]);
        assert(p[m + 1] == s[j + 1]);
        assert(st <= j < e - 1);
        if is_punct(p[m]) && is_ws(p[m + 1]) {
            assert(is_sentence_end(s, j));
        }
    }
}

/// Every sentence ended by punctuation before position `n` holds no other
/// punctuation directly followed by whitespace.
proof fn lemma_sentence_pieces_no_inner_end(s: Seq<char>, n: int)
    requires
        0 <= n <= s.len(),
    ensures
        forall|i: int| 0 <= i < sentence_pieces(s, n).len() ==> no_inner_end(#[trigger] sentence_pieces(s, n)[i]),
    decreases n,
{
    if n > 0 {
        lemma_sentence_pieces_no_inner_end(s, n - 1);
        if is_sentence_end(s, n - 1) {
            lemma_sentence_start_bounds(s, n - 1);
            lemma_no_end_since_start(s, n - 1);
            let st = sentence_start(s, n - 1);
            lemma_trim_no_inner_end(s, st, n);
            let p = trim(s.subrange(st, n));
            if p.len() > 0 {
                let q = sentence_pieces(s, n - 1);
                assert forall|i: int| 0 <= i < q.push(p).len() implies no_inner_end(#[trigger] q.push(p)[i]) by {
                    if i < q.len() {
                        assert(q.push(p)[i] == q[i]);
                    }
                }
            }
        }
    }
}

/// Law: no sentence of `s` holds sentence punctuation directly followed by
/// whitespace; such a pair always ends a sentence.
pub proof fn lemma_split_sentences_no_inner_end(s: Seq<char>)
    ensures
        forall|i: int| 0 <= i < sentences_of(s).len() ==> no_inner_end(#[trigger] sentences_of(s)[i]),
{
    let n = s.len() as int;
    lemma_sentence_pieces_no_inner_end(s, n);
    lemma_sentence_start_bounds(s, n);
    lemma_no_end_since_start(s, n);
    lemma_trim_no_inner_end(s, sentence_start(s, n), n);
    let ps = sentence_pieces(s, n);
    let r = sentences_of(s);
    assert forall|i: int| 0 <= i < r.len() implies no_inner_end(#[trigger] r[i]) by {
        if i < ps.len() {
            assert(r[i] == ps[i]);
        }
    }
}


/// Law: the splitter gives no sentence exactly when the text is blank.
pub proof fn lemma_split_empty_iff_blank(s: Seq<char>)
    ensures
        (sentences_of(s).len() == 0) <==> (trim(s).len() == 0),
{
    lemma_split_keeps_text(s);
    lemma_blank_iff_strip_empty(s);
    let ss = sentences_of(s);
    if ss.len() > 0 {
        lemma_split_sentences_trimmed(s);
        let last = ss.last();
        assert(last == ss[ss.len() - 1]);
        assert(trim(last) == last && last.len() > 0);
        lemma_blank_iff_strip_empty(last);
        lemma_strip_concat(flat(ss.drop_last()), last);
    } else {
        assert(flat(ss) =~= Seq::<char>::empty());
        assert(strip_ws(Seq::<char>::empty()) =~= Seq::<char>::empty());
    }
}

} // verus!
