//! Sentence-level buffering of streamed LLM tokens for text-to-speech.
//!
//! Tokens are accumulated until a complete sentence is recognised, so that
//! speech synthesis can start on the first sentence while later ones are
//! still being generated. The model's reply arrives as newline-delimited
//! JSON; the lines are framed here before they are parsed.
use vstd::prelude::*;
use crate::text::{
    flat, lemma_flat_append, lemma_flat_push, lemma_strip_concat, lemma_strip_empty_trim,
    lemma_strip_trim, lemma_strip_trim_start, strip_ws,
    chars_of, concat2, concat_chars, copy_range, count_words, is_whitespace, is_ws, leading_ws, string_from_chars,
    string_of_range, strings_view, trailing_ws_end, trim, trim_bounds, trim_end, trim_start, lemma_trim_end_shape, lemma_trim_keeps_last,
    word_count, words_upto,
};

verus! {

/// Sentence-ending punctuation.
pub open spec fn is_punct(c: char) -> bool {
    c == '.' || c == '!' || c == '?' || c == ';'
}

/// Position `i` of `s` ends a sentence: punctuation directly followed by whitespace.
pub open spec fn is_boundary(s: Seq<char>, i: int) -> bool {
    0 <= i && i + 1 < s.len() && is_punct(s[i]) && is_ws(s[i + 1])
}

/// Start of the piece that holds position `n`: one past the last boundary before `n`.
pub open spec fn piece_start(s: Seq<char>, n: int) -> int
    decreases n,
{
    if n <= 0 {
        0
    } else if is_boundary(s, n - 1) {
        n
    } else {
        piece_start(s, n - 1)
    }
}

/// The non-empty trimmed sentences that end at a boundary before position `n`.
pub open spec fn pieces(s: Seq<char>, n: int) -> Seq<Seq<char>>
    decreases n,
{
    if n <= 0 {
        seq![]
    } else if is_boundary(s, n - 1) {
        let p = trim(s.subrange(piece_start(s, n - 1), n));
        if p.len() > 0 {
            pieces(s, n - 1).push(p)
        } else {
            pieces(s, n - 1)
        }
    } else {
        pieces(s, n - 1)
    }
}

/// The sentence that a token starting with whitespace confirms: the pending
/// text, trimmed at its end, when it ends with sentence punctuation.
pub open spec fn confirmed_sentence(buffer: Seq<char>, token: Seq<char>) -> Option<Seq<char>> {
    if token.len() > 0 && is_ws(token[0]) && buffer.len() > 0 && trim_end(buffer).len() > 0
        && is_punct(trim_end(buffer).last()) {
        Some(trim_end(buffer))
    } else {
        None
    }
}

/// Word count at which pending text is flushed even without punctuation.
pub const WORD_FLUSH_THRESHOLD: usize = 12;

/// What `SentenceBuffer::push` emits and keeps: the completed sentences, in
/// order, and the new pending text.
pub open spec fn push_outcome(buffer: Seq<char>, token: Seq<char>) -> (Seq<Seq<char>>, Seq<char>) {
    if token.len() == 0 {
        (seq![], buffer)
    } else {
        let first: Seq<Seq<char>> = match confirmed_sentence(buffer, token) {
            Some(t) => seq![t],
            None => seq![],
        };
        let kept: Seq<char> = match confirmed_sentence(buffer, token) {
            Some(t) => seq![],
            None => buffer,
        };
        let s = kept + token;
        let mid = pieces(s, s.len() as int);
        let cut = piece_start(s, s.len() as int);
        let rest = if cut > 0 {
            trim_start(s.subrange(cut, s.len() as int))
        } else {
            s
        };
        if word_count(rest) >= WORD_FLUSH_THRESHOLD && trim(rest).len() > 0 {
            (first + mid + seq![trim(rest)], seq![])
        } else {
            (first + mid, rest)
        }
    }
}

/// The leftover text that `flush` returns, if any.
pub open spec fn leftover(buffer: Seq<char>) -> Option<Seq<char>> {
    if trim(buffer).len() == 0 {
        None
    } else {
        Some(trim(buffer))
    }
}

/// Buffers streamed tokens into complete sentences.
pub struct SentenceBuffer {
    buffer: String,
    sentences: Vec<String>,
}

impl SentenceBuffer {
    /// The pending text that does not yet form a complete sentence.
    pub closed spec fn pending(&self) -> Seq<char> {
        self.buffer@
    }

    /// Every sentence emitted so far, in order.
    pub closed spec fn emitted(&self) -> Seq<Seq<char>> {
        strings_view(self.sentences@)
    }

    /// An empty buffer.
    pub fn new() -> (r: Self)
        ensures
            r.pending() == Seq::<char>::empty(),
            r.emitted() == Seq::<Seq<char>>::empty(),
    {
        let r = SentenceBuffer { buffer: String::new(), sentences: Vec::new() };
        assert(strings_view(r.sentences@) =~= Seq::<Seq<char>>::empty());
        r
    }

    /// Adds a streamed token and returns the sentences it completes, in order.
    ///
    /// Pending text that ends with `.`, `!`, `?` or `;` is confirmed as a
    /// sentence only by a following token that starts with whitespace, and
    /// punctuation followed by whitespace inside the text splits it; pending
    /// text of twelve or more words is flushed as one piece.
    pub fn push(&mut self, token: &str) -> (completed: Vec<String>)
        ensures
            strings_view(completed@) == push_outcome(old(self).pending(), token@).0,
            final(self).pending() == push_outcome(old(self).pending(), token@).1,
            final(self).emitted() == old(self).emitted() + strings_view(completed@),
    {
        let tok = chars_of(token);
        let ghost old_sentences = self.sentences@;
        if tok.len() == 0 {
            let completed: Vec<String> = Vec::new();
            assert(strings_view(completed@) =~= Seq::<Seq<char>>::empty());
            assert(old(self).emitted() + strings_view(completed@) =~= old(self).emitted());
            return completed;
        }
        let mut completed: Vec<String> = Vec::new();
        let buf = chars_of(self.buffer.as_str());
        let ghost conf = confirmed_sentence(buf@, tok@);
        let mut confirmed = false;
        if is_whitespace(tok[0]) && buf.len() > 0 {
            let e = trailing_ws_end(buf.as_slice(), 0, buf.len());
            assert(buf@.subrange(0, buf@.len() as int) =~= buf@);
            if e > 0 && is_punct_char(buf[e - 1]) {
                let sentence = string_of_range(buf.as_slice(), 0, e);
                completed.push(sentence.clone());
                self.sentences.push(sentence);
                confirmed = true;
            }
        }
        let kept: Vec<char> = if confirmed {
            Vec::new()
        } else {
            buf
        };
        let s = concat_chars(kept.as_slice(), tok.as_slice());
        let ghost first = strings_view(completed@);
        assert(first == match conf {
            Some(t) => seq![t],
            None => Seq::<Seq<char>>::empty(),
        }) by {
            assert(strings_view(completed@) =~= match conf {
                Some(t) => seq![t],
                None => Seq::<Seq<char>>::empty(),
            });
        }
        assert(self.sentences@ =~= old_sentences + completed@);
        let mut last_split: usize = 0;
        let mut i: usize = 0;
        while i < s.len()
            invariant
                i <= s@.len(),
                last_split as int == piece_start(s@, i as int),
                last_split <= i,
                strings_view(completed@) == first + pieces(s@, i as int),
                self.sentences@ == old_sentences + completed@,
            decreases s@.len() - i,
        {
            if is_punct_char(s[i]) && i + 1 < s.len() && is_whitespace(s[i + 1]) {
                let (a, b) = trim_bounds(s.as_slice(), last_split, i + 1);
                if a < b {
                    let t = string_of_range(s.as_slice(), a, b);
                    let ghost pre = completed@;
                    completed.push(t.clone());
                    self.sentences.push(t);
                    assert(strings_view(completed@) =~= strings_view(pre).push(t@));
                    assert(self.sentences@ =~= old_sentences + completed@);
                }
                last_split = i + 1;
            }
            i = i + 1;
        }
        let rest: Vec<char> = if last_split > 0 {
            let a = leading_ws(s.as_slice(), last_split, s.len());
            copy_range(s.as_slice(), a, s.len())
        } else {
            s
        };
        let words = count_words(rest.as_slice());
        if words >= WORD_FLUSH_THRESHOLD {
            let (a, b) = trim_bounds(rest.as_slice(), 0, rest.len());
            assert(rest@.subrange(0, rest@.len() as int) =~= rest@);
            if a < b {
                let t = string_of_range(rest.as_slice(), a, b);
                let ghost pre = completed@;
                completed.push(t.clone());
                self.sentences.push(t);
                assert(strings_view(completed@) =~= strings_view(pre).push(t@));
                self.buffer = String::new();
                assert(self.sentences@ =~= old_sentences + completed@);
                proof {
                    lemma_strings_view_append(old_sentences, completed@);
                }
                return completed;
            }
        }
        self.buffer = string_from_chars(rest.as_slice());
        proof {
            lemma_strings_view_append(old_sentences, completed@);
        }
        completed
    }

    /// The leftover text that has not been emitted as a sentence, trimmed;
    /// `None` when only whitespace is pending.
    pub fn flush(self) -> (r: Option<String>)
        ensures
            match r {
                Some(t) => leftover(self.pending()) == Some(t@),
                None => leftover(self.pending()) is None,
            },
    {
        let b = chars_of(self.buffer.as_str());
        let (x, y) = trim_bounds(b.as_slice(), 0, b.len());
        assert(b@.subrange(0, b@.len() as int) =~= b@);
        if x < y {
            Some(string_of_range(b.as_slice(), x, y))
        } else {
            None
        }
    }

    /// Every emitted sentence followed by the trimmed leftover text, if any.
    pub fn finish(self) -> (r: Vec<String>)
        ensures
            strings_view(r@) == match leftover(self.pending()) {
                Some(t) => self.emitted().push(t),
                None => self.emitted(),
            },
    {
        let b = chars_of(self.buffer.as_str());
        let (x, y) = trim_bounds(b.as_slice(), 0, b.len());
        assert(b@.subrange(0, b@.len() as int) =~= b@);
        let mut all = self.sentences;
        let ghost pre = all@;
        if x < y {
            let t = string_of_range(b.as_slice(), x, y);
            all.push(t);
            assert(strings_view(all@) =~= strings_view(pre).push(t@));
        }
        all
    }
}


/// A line of the model's streamed reply, as read from its JSON.
#[derive(Debug)]
pub enum ChatLine {
    /// A piece of the reply, and whether the model is done.
    Chunk { response: String, done: bool },
    /// A line that is not a reply piece but says the model is done.
    DoneMarker,
    /// Any other line; it is skipped.
    Malformed,
}

/// The sentence-level state of one streamed reply.
pub struct ChatStream {
    buffer: SentenceBuffer,
    finished: bool,
}

impl ChatStream {
    /// The text not yet spoken.
    pub closed spec fn pending(&self) -> Seq<char> {
        self.buffer.pending()
    }

    /// Whether the model said it is done.
    pub closed spec fn done(&self) -> bool {
        self.finished
    }

    /// A reply that has not started.
    pub fn new() -> (r: Self)
        ensures
            r.pending() == Seq::<char>::empty(),
            !r.done(),
    {
        ChatStream { buffer: SentenceBuffer::new(), finished: false }
    }

    /// Whether the model said it is done; reading stops then.
    pub fn is_done(&self) -> (r: bool)
        ensures
            r == self.done(),
    {
        self.finished
    }

    /// A line of the reply: the sentences it completes, to be spoken in
    /// order. A chunk's text goes through the sentence buffer; a chunk or
    /// marker that says the model is done ends the reply.
    pub fn on_line(&mut self, line: ChatLine) -> (sentences: Vec<String>)
        ensures
            match line {
                ChatLine::Chunk { response, done } => {
                    &&& strings_view(sentences@) == push_outcome(old(self).pending(), response@).0
                    &&& final(self).pending() == push_outcome(old(self).pending(), response@).1
                    &&& final(self).done() == (old(self).done() || done)
                },
                ChatLine::DoneMarker => sentences@.len() == 0 && final(self).pending() == old(self).pending()
                    && final(self).done(),
                ChatLine::Malformed => sentences@.len() == 0 && final(self).pending() == old(self).pending()
                    && final(self).done() == old(self).done(),
            },
    {
        match line {
            ChatLine::Chunk { response, done } => {
                let out = self.buffer.push(response.as_str());
                if done {
                    self.finished = true;
                }
                out
            },
            ChatLine::DoneMarker => {
                self.finished = true;
                Vec::new()
            },
            ChatLine::Malformed => Vec::new(),
        }
    }

    /// The stream ended (or the model was done): the trimmed leftover text,
    /// if any, is the last sentence to speak.
    pub fn on_end(self) -> (r: Option<String>)
        ensures
            match r {
                Some(t) => leftover(self.pending()) == Some(t@),
                None => leftover(self.pending()) is None,
            },
    {
        self.buffer.flush()
    }
}

/// Error text for a request to the model server that could not be sent.
pub fn request_failed_message(detail: &str) -> (r: String)
    ensures
        r@ == "Ollama request failed: "@ + detail@,
{
    concat2("Ollama request failed: ", detail)
}

/// Error text for a reply with a failing HTTP status.
pub fn http_status_message(status: &str) -> (r: String)
    ensures
        r@ == "Ollama returned HTTP "@ + status@,
{
    concat2("Ollama returned HTTP ", status)
}

/// Error text for a reply stream that broke off.
pub fn stream_error_message(detail: &str) -> (r: String)
    ensures
        r@ == "Stream error: "@ + detail@,
{
    concat2("Stream error: ", detail)
}

/// Why streaming stopped (normal completion or cancellation).
#[derive(Debug, Clone, Copy, PartialEq, Eq, Structural)]
pub enum StopReason {
    Finished,
    Cancelled,
}

/// Whether `c` ends a sentence.
pub fn is_punct_char(c: char) -> (r: bool)
    ensures
        r == is_punct(c),
{
    c == '.' || c == '!' || c == '?' || c == ';'
}

/// The views of two concatenated sequences of strings.
pub proof fn lemma_strings_view_append(a: Seq<String>, b: Seq<String>)
    ensures
        strings_view(a + b) == strings_view(a) + strings_view(b),
{
    assert(strings_view(a + b) =~= strings_view(a) + strings_view(b));
}

/// The sentences found before position `n`, followed by the text of the
/// current piece, hold every non-whitespace character of `s[..n]`.
pub proof fn lemma_pieces_keep_text(s: Seq<char>, n: int)
    requires
        0 <= n <= s.len(),
    ensures
        0 <= piece_start(s, n) <= n,
        strip_ws(flat(pieces(s, n))) + strip_ws(s.subrange(piece_start(s, n), n)) == strip_ws(
            s.subrange(0, n),
        ),
    decreases n,
{
    if n == 0 {
        assert(flat(pieces(s, n)) =~= Seq::<char>::empty());
        assert(s.subrange(0, 0) =~= Seq::<char>::empty());
    } else {
        lemma_pieces_keep_text(s, n - 1);
        let ps = piece_start(s, n - 1);
        let last = seq![s[n - 1]];
        assert(s.subrange(ps, n) =~= s.subrange(ps, n - 1) + last);
        assert(s.subrange(0, n) =~= s.subrange(0, n - 1) + last);
        lemma_strip_concat(s.subrange(ps, n - 1), last);
        lemma_strip_concat(s.subrange(0, n - 1), last);
        if is_boundary(s, n - 1) {
            assert(s.subrange(n, n) =~= Seq::<char>::empty());
            let p = trim(s.subrange(ps, n));
            lemma_strip_trim(s.subrange(ps, n));
            if p.len() > 0 {
                lemma_flat_push(pieces(s, n - 1), p);
                lemma_strip_concat(flat(pieces(s, n - 1)), p);
            } else {
                lemma_strip_empty_trim(s.subrange(ps, n));
            }
        }
    }
}

/// A non-empty trimmed text ends in no whitespace, so trimming its end
/// changes nothing.
proof fn lemma_trimmed_end_fixed(x: Seq<char>)
    requires
        trim(x).len() > 0,
    ensures
        trim_end(trim(x)) == trim(x),
{
    lemma_trim_end_shape(trim_start(x));
}

/// Every sentence found before position `n` is non-empty and ends in no
/// whitespace.
pub proof fn lemma_pieces_nonempty(s: Seq<char>, n: int)
    ensures
        forall|i: int| 0 <= i < pieces(s, n).len() ==> (#[trigger] pieces(s, n)[i]).len() > 0
            && trim_end(pieces(s, n)[i]) == pieces(s, n)[i],
    decreases n,
{
    if n > 0 {
        lemma_pieces_nonempty(s, n - 1);
        if is_boundary(s, n - 1) {
            let p = trim(s.subrange(piece_start(s, n - 1), n));
            if p.len() > 0 {
                lemma_trimmed_end_fixed(s.subrange(piece_start(s, n - 1), n));
                let q = pieces(s, n - 1);
                assert forall|i: int| 0 <= i < q.push(p).len() implies (#[trigger] q.push(p)[i]).len() > 0
                    && trim_end(q.push(p)[i]) == q.push(p)[i] by {
                    if i < q.len() {
                        assert(q.push(p)[i] == q[i]);
                    }
                }
            }
        }
    }
}

/// Law: every sentence `push` completes is non-empty and ends in no
/// whitespace.
pub proof fn lemma_push_sentences_nonempty(buffer: Seq<char>, token: Seq<char>)
    ensures
        forall|i: int| 0 <= i < push_outcome(buffer, token).0.len() ==> (#[trigger] push_outcome(buffer, token).0[i]).len()
            > 0 && trim_end(push_outcome(buffer, token).0[i]) == push_outcome(buffer, token).0[i],
{
    if token.len() > 0 {
        let conf = confirmed_sentence(buffer, token);
        let first: Seq<Seq<char>> = match conf {
            Some(t) => seq![t],
            None => seq![],
        };
        let kept: Seq<char> = match conf {
            Some(t) => seq![],
            None => buffer,
        };
        let st = kept + token;
        let mid = pieces(st, st.len() as int);
        let cut = piece_start(st, st.len() as int);
        let rest = if cut > 0 {
            trim_start(st.subrange(cut, st.len() as int))
        } else {
            st
        };
        lemma_pieces_nonempty(st, st.len() as int);
        if let Some(t) = conf {
            lemma_trim_end_shape(buffer);
        }
        assert forall|i: int| 0 <= i < first.len() implies (#[trigger] first[i]).len() > 0 && trim_end(first[i]) == first[i] by {
            lemma_trim_end_shape(buffer);
        }
        let fm = first + mid;
        assert forall|i: int| 0 <= i < fm.len() implies (#[trigger] fm[i]).len() > 0 && trim_end(fm[i]) == fm[i] by {
            if i < first.len() {
                assert(fm[i] == first[i]);
            } else {
                assert(fm[i] == mid[i - first.len()]);
            }
        }
        if word_count(rest) >= WORD_FLUSH_THRESHOLD && trim(rest).len() > 0 {
            lemma_trimmed_end_fixed(rest);
            let all = fm + seq![trim(rest)];
            assert forall|i: int| 0 <= i < all.len() implies (#[trigger] all[i]).len() > 0 && trim_end(all[i]) == all[i] by {
                if i < fm.len() {
                    assert(all[i] == fm[i]);
                }
            }
        }
    }
}

/// Text with no non-whitespace character has no word.
proof fn lemma_blank_no_words(x: Seq<char>, n: int)
    requires
        0 <= n <= x.len(),
        strip_ws(x.subrange(0, n)) == Seq::<char>::empty(),
    ensures
        words_upto(x, n) == 0,
    decreases n,
{
    if n > 0 {
        let y = x.subrange(0, n);
        assert(y.drop_last() =~= x.subrange(0, n - 1));
        if !is_ws(y.last()) {
            assert(strip_ws(y).len() > 0);
        }
        lemma_blank_no_words(x, n - 1);
    }
}

/// Law: pending text holds fewer words than the flush threshold: a push of
/// a non-empty token leaves it so, and an empty token changes nothing.
pub proof fn lemma_pending_below_threshold(buffer: Seq<char>, token: Seq<char>)
    requires
        token.len() > 0 || word_count(buffer) < WORD_FLUSH_THRESHOLD,
    ensures
        word_count(push_outcome(buffer, token).1) < WORD_FLUSH_THRESHOLD,
{
    if token.len() > 0 {
        let conf = confirmed_sentence(buffer, token);
        let kept: Seq<char> = match conf {
            Some(t) => seq![],
            None => buffer,
        };
        let st = kept + token;
        let cut = piece_start(st, st.len() as int);
        let rest = if cut > 0 {
            trim_start(st.subrange(cut, st.len() as int))
        } else {
            st
        };
        if word_count(rest) >= WORD_FLUSH_THRESHOLD && trim(rest).len() > 0 {
            let e: Seq<char> = seq![];
            assert(word_count(e) == words_upto(e, 0));
        } else if word_count(rest) >= WORD_FLUSH_THRESHOLD {
            lemma_strip_empty_trim(rest);
            assert(rest.subrange(0, rest.len() as int) =~= rest);
            lemma_blank_no_words(rest, rest.len() as int);
        }
    }
}

/// Whether `push` flushes the pending text as one piece because it has
/// reached the word threshold without sentence punctuation.
pub open spec fn fallback_flush(buffer: Seq<char>, token: Seq<char>) -> bool {
    token.len() > 0 && {
        let kept: Seq<char> = match confirmed_sentence(buffer, token) {
            Some(t) => seq![],
            None => buffer,
        };
        let s = kept + token;
        let cut = piece_start(s, s.len() as int);
        let rest = if cut > 0 {
            trim_start(s.subrange(cut, s.len() as int))
        } else {
            s
        };
        word_count(rest) >= WORD_FLUSH_THRESHOLD && trim(rest).len() > 0
    }
}

/// Every sentence found at a boundary before position `n` ends with the
/// boundary's punctuation.
pub proof fn lemma_pieces_end_punct(s: Seq<char>, n: int)
    ensures
        forall|i: int| 0 <= i < pieces(s, n).len() ==> is_punct((#[trigger] pieces(s, n)[i]).last()),
    decreases n,
{
    if n > 0 {
        lemma_pieces_end_punct(s, n - 1);
        if is_boundary(s, n - 1) {
            lemma_piece_start_bounds(s, n - 1);
            let x = s.subrange(piece_start(s, n - 1), n);
            let p = trim(x);
            if p.len() > 0 {
                assert(x.last() == s[n - 1]);
                lemma_trim_keeps_last(x);
                let q = pieces(s, n - 1);
                assert forall|i: int| 0 <= i < q.push(p).len() implies is_punct((#[trigger] q.push(p)[i]).last()) by {
                    if i < q.len() {
                        assert(q.push(p)[i] == q[i]);
                    }
                }
            }
        }
    }
}

/// The start of a piece lies between 0 and its position.
proof fn lemma_piece_start_bounds(s: Seq<char>, n: int)
    requires
        0 <= n,
    ensures
        0 <= piece_start(s, n) <= n,
    decreases n,
{
    if n > 0 {
        lemma_piece_start_bounds(s, n - 1);
    }
}

/// Law: every sentence `push` completes ends with sentence punctuation,
/// except the piece flushed at the word threshold.
pub proof fn lemma_push_sentences_end_punct(buffer: Seq<char>, token: Seq<char>)
    ensures
        forall|i: int| 0 <= i < push_outcome(buffer, token).0.len() - (if fallback_flush(buffer, token) { 1int } else { 0int })
            ==> is_punct((#[trigger] push_outcome(buffer, token).0[i]).last()),
{
    if token.len() > 0 {
        let conf = confirmed_sentence(buffer, token);
        let first: Seq<Seq<char>> = match conf {
            Some(t) => seq![t],
            None => seq![],
        };
        let kept: Seq<char> = match conf {
            Some(t) => seq![],
            None => buffer,
        };
        let st = kept + token;
        let mid = pieces(st, st.len() as int);
        lemma_pieces_end_punct(st, st.len() as int);
        let fm = first + mid;
        assert forall|i: int| 0 <= i < fm.len() implies is_punct((#[trigger] fm[i]).last()) by {
            if i < first.len() {
                assert(fm[i] == first[i]);
            } else {
                assert(fm[i] == mid[i - first.len()]);
            }
        }
        let out = push_outcome(buffer, token).0;
        assert forall|i: int| 0 <= i < out.len() - (if fallback_flush(buffer, token) { 1int } else { 0int })
            implies is_punct((#[trigger] out[i]).last()) by {
            assert(out[i] == fm[i]);
        }
    }
}

/// Law: `push` loses no text. The non-whitespace characters of the
/// sentences it completes, followed by those of the new pending text, are
/// exactly those of the old pending text followed by the token.
pub proof fn lemma_push_keeps_text(buffer: Seq<char>, token: Seq<char>)
    ensures
        strip_ws(flat(push_outcome(buffer, token).0)) + strip_ws(push_outcome(buffer, token).1)
            == strip_ws(buffer + token),
{
    if token.len() == 0 {
        assert(flat(push_outcome(buffer, token).0) =~= Seq::<char>::empty());
        assert(buffer + token =~= buffer);
    } else {
        let conf = confirmed_sentence(buffer, token);
        let first: Seq<Seq<char>> = match conf {
            Some(t) => seq![t],
            None => seq![],
        };
        let kept: Seq<char> = match conf {
            Some(t) => seq![],
            None => buffer,
        };
        // The confirmed sentence keeps the text of the old pending text.
        assert(strip_ws(flat(first)) + strip_ws(kept) == strip_ws(buffer)) by {
            match conf {
                Some(t) => {
                    crate::text::lemma_strip_trim_end(buffer);
                    lemma_flat_push(Seq::<Seq<char>>::empty(), t);
                    assert(first =~= Seq::<Seq<char>>::empty().push(t));
                    assert(flat(Seq::<Seq<char>>::empty()) =~= Seq::<char>::empty());
                    assert(strip_ws(kept) =~= Seq::<char>::empty());
                    assert(Seq::<char>::empty() + t =~= t);
                    assert(strip_ws(flat(first)) + strip_ws(kept) =~= strip_ws(t));
                },
                None => {
                    assert(flat(first) =~= Seq::<char>::empty());
                    assert(strip_ws(flat(first)) + strip_ws(kept) =~= strip_ws(kept));
                },
            }
        }
        let st = kept + token;
        let mid = pieces(st, st.len() as int);
        let cut = piece_start(st, st.len() as int);
        lemma_pieces_keep_text(st, st.len() as int);
        assert(st.subrange(0, st.len() as int) =~= st);
        let rest = if cut > 0 {
            trim_start(st.subrange(cut, st.len() as int))
        } else {
            st
        };
        assert(strip_ws(rest) == strip_ws(st.subrange(cut, st.len() as int))) by {
            if cut > 0 {
                lemma_strip_trim_start(st.subrange(cut, st.len() as int));
            } else {
                assert(st.subrange(cut, st.len() as int) =~= st);
            }
        }
        lemma_strip_concat(kept, token);
        lemma_strip_concat(buffer, token);
        lemma_flat_append(first, mid);
        lemma_strip_concat(flat(first), flat(mid));
        if word_count(rest) >= WORD_FLUSH_THRESHOLD && trim(rest).len() > 0 {
            let all = first + mid + seq![trim(rest)];
            lemma_flat_push(first + mid, trim(rest));
            assert(first + mid + seq![trim(rest)] =~= (first + mid).push(trim(rest)));
            lemma_strip_concat(flat(first + mid), trim(rest));
            lemma_strip_trim(rest);
            assert(strip_ws(Seq::<char>::empty()) =~= Seq::<char>::empty());
            assert(strip_ws(flat(all)) + strip_ws(Seq::<char>::empty()) =~= strip_ws(flat(all)));
        }
    }
}

/// The sentences emitted and the pending text after `tokens` are pushed,
/// in order, into a buffer holding `buffer`.
pub open spec fn run_pushes(buffer: Seq<char>, tokens: Seq<Seq<char>>) -> (Seq<Seq<char>>, Seq<char>)
    decreases tokens.len(),
{
    if tokens.len() == 0 {
        (seq![], buffer)
    } else {
        let before = run_pushes(buffer, tokens.drop_last());
        let o = push_outcome(before.1, tokens.last());
        (before.0 + o.0, o.1)
    }
}

/// What `finish` returns after `tokens` are pushed into an empty buffer:
/// every emitted sentence, then the trimmed leftover, if any.
pub open spec fn finished(tokens: Seq<Seq<char>>) -> Seq<Seq<char>> {
    let r = run_pushes(seq![], tokens);
    match leftover(r.1) {
        Some(t) => r.0.push(t),
        None => r.0,
    }
}

/// Law: pushing a sequence of tokens loses, duplicates and reorders no
/// visible character: the emitted sentences followed by the pending text
/// hold exactly the non-whitespace characters of the tokens.
pub proof fn lemma_pushes_keep_text(buffer: Seq<char>, tokens: Seq<Seq<char>>)
    ensures
        strip_ws(flat(run_pushes(buffer, tokens).0)) + strip_ws(run_pushes(buffer, tokens).1)
            == strip_ws(buffer + flat(tokens)),
    decreases tokens.len(),
{
    if tokens.len() == 0 {
        assert(flat(run_pushes(buffer, tokens).0) =~= Seq::<char>::empty());
        assert(strip_ws(Seq::<char>::empty()) =~= Seq::<char>::empty());
        assert(buffer + flat(tokens) =~= buffer);
        assert(strip_ws(Seq::<char>::empty()) + strip_ws(buffer) =~= strip_ws(buffer));
    } else {
        let d = tokens.drop_last();
        let t = tokens.last();
        lemma_pushes_keep_text(buffer, d);
        let before = run_pushes(buffer, d);
        let o = push_outcome(before.1, t);
        lemma_push_keeps_text(before.1, t);
        lemma_flat_append(before.0, o.0);
        lemma_strip_concat(flat(before.0), flat(o.0));
        lemma_strip_concat(before.1, t);
        assert(tokens =~= d.push(t));
        lemma_flat_push(d, t);
        assert(buffer + flat(tokens) =~= (buffer + flat(d)) + t);
        lemma_strip_concat(buffer + flat(d), t);
        assert(strip_ws(flat(before.0 + o.0)) + strip_ws(o.1) =~= strip_ws(flat(before.0)) + (strip_ws(flat(o.0)) + strip_ws(o.1)));
        assert(strip_ws(flat(before.0)) + (strip_ws(before.1) + strip_ws(t)) =~= (strip_ws(flat(before.0)) + strip_ws(before.1)) + strip_ws(t));
    }
}

/// Law: finishing after a sequence of pushes gives every sentence the
/// pushes returned, then the trimmed leftover; together they hold exactly
/// the non-whitespace characters of the tokens.
pub proof fn lemma_finish_keeps_text(tokens: Seq<Seq<char>>)
    ensures
        finished(tokens) == match leftover(run_pushes(seq![], tokens).1) {
            Some(t) => run_pushes(seq![], tokens).0.push(t),
            None => run_pushes(seq![], tokens).0,
        },
        strip_ws(flat(finished(tokens))) == strip_ws(flat(tokens)),
{
    let r = run_pushes(seq![], tokens);
    lemma_pushes_keep_text(seq![], tokens);
    assert(Seq::<char>::empty() + flat(tokens) =~= flat(tokens));
    lemma_strip_trim(r.1);
    match leftover(r.1) {
        Some(t) => {
            lemma_flat_push(r.0, t);
            lemma_strip_concat(flat(r.0), t);
        },
        None => {
            lemma_strip_empty_trim(r.1);
            assert(strip_ws(flat(r.0)) + Seq::<char>::empty() =~= strip_ws(flat(r.0)));
        },
    }
}

/// `is_ascii_whitespace` on a byte: space, tab, line feed, form feed, carriage return.
pub open spec fn is_ascii_ws(b: u8) -> bool {
    b == 32 || b == 9 || b == 10 || b == 12 || b == 13
}

/// A line with nothing but ASCII whitespace (or nothing at all).
pub open spec fn blank(line: Seq<u8>) -> bool {
    forall|i: int| 0 <= i < line.len() ==> is_ascii_ws(#[trigger] line[i])
}

/// Scanning the first `i` bytes of `a`: the non-blank lines completed so
/// far (each ended by a line feed, which is not part of it) and where the
/// current line starts.
pub open spec fn scan_lines(a: Seq<u8>, i: int) -> (Seq<Seq<u8>>, int)
    decreases i,
{
    if i <= 0 {
        (seq![], 0)
    } else {
        let (ls, st) = scan_lines(a, i - 1);
        if a[i - 1] == 10 {
            let line = a.subrange(st, i - 1);
            (if blank(line) {
                ls
            } else {
                ls.push(line)
            }, i)
        } else {
            (ls, st)
        }
    }
}

/// Frames a byte stream into newline-delimited lines, dropping blank ones;
/// an unfinished line waits for the rest of its bytes.
#[derive(Debug)]
pub struct NdjsonLines {
    pending: Vec<u8>,
}

fn is_blank_range(a: &Vec<u8>, lo: usize, hi: usize) -> (r: bool)
    requires
        lo <= hi <= a@.len(),
    ensures
        r == blank(a@.subrange(lo as int, hi as int)),
{
    let mut i = lo;
    while i < hi
        invariant
            lo <= i <= hi <= a@.len(),
            forall|j: int| lo <= j < i ==> is_ascii_ws(#[trigger] a@[j]),
        decreases hi - i,
    {
        let b = a[i];
        if !(b == 32 || b == 9 || b == 10 || b == 12 || b == 13) {
            assert(!is_ascii_ws(a@.subrange(lo as int, hi as int)[i - lo]));
            return false;
        }
        i = i + 1;
    }
    assert forall|j: int| 0 <= j < a@.subrange(lo as int, hi as int).len() implies is_ascii_ws(
        #[trigger] a@.subrange(lo as int, hi as int)[j],
    ) by {
        assert(a@.subrange(lo as int, hi as int)[j] == a@[lo + j]);
    }
    true
}

fn bytes_range(a: &Vec<u8>, lo: usize, hi: usize) -> (r: Vec<u8>)
    requires
        lo <= hi <= a@.len(),
    ensures
        r@ == a@.subrange(lo as int, hi as int),
{
    let mut out: Vec<u8> = Vec::new();
    let mut i = lo;
    while i < hi
        invariant
            lo <= i <= hi <= a@.len(),
            out@ == a@.subrange(lo as int, i as int),
        decreases hi - i,
    {
        out.push(a[i]);
        i = i + 1;
        assert(out@ =~= a@.subrange(lo as int, i as int));
    }
    out
}

impl NdjsonLines {
    /// Bytes of the line not yet ended.
    pub closed spec fn pending(&self) -> Seq<u8> {
        self.pending@
    }

    /// Nothing received yet.
    pub fn new() -> (r: Self)
        ensures
            r.pending().len() == 0,
    {
        NdjsonLines { pending: Vec::new() }
    }

    /// Appends `chunk` and returns the non-blank lines it completes, in
    /// order; the bytes after the last line feed wait for the next chunk.
    pub fn push(&mut self, chunk: &[u8]) -> (lines: Vec<Vec<u8>>)
        ensures
            ({
                let a = old(self).pending() + chunk@;
                let (ls, st) = scan_lines(a, a.len() as int);
                &&& lines@.map_values(|l: Vec<u8>| l@) == ls
                &&& final(self).pending() == a.skip(st)
            }),
    {
        let ghost a = self.pending@ + chunk@;
        let mut buf: Vec<u8> = Vec::new();
        std::mem::swap(&mut buf, &mut self.pending);
        let mut i: usize = 0;
        while i < chunk.len()
            invariant
                i <= chunk@.len(),
                buf@ == old(self).pending@ + chunk@.take(i as int),
            decreases chunk@.len() - i,
        {
            buf.push(chunk[i]);
            i = i + 1;
            assert(buf@ =~= old(self).pending@ + chunk@.take(i as int));
        }
        assert(chunk@.take(chunk@.len() as int) =~= chunk@);
        assert(buf@ == a);
        let n = buf.len();
        let mut lines: Vec<Vec<u8>> = Vec::new();
        let mut start: usize = 0;
        let mut j: usize = 0;
        while j < n
            invariant
                buf@ == a,
                n == a.len(),
                j <= n,
                start <= j,
                scan_lines(a, j as int) == (lines@.map_values(|l: Vec<u8>| l@), start as int),
            decreases n - j,
        {
            if buf[j] == 10 {
                let ghost before = lines@.map_values(|l: Vec<u8>| l@);
                if !is_blank_range(&buf, start, j) {
                    let line = bytes_range(&buf, start, j);
                    lines.push(line);
                    assert(lines@.map_values(|l: Vec<u8>| l@) =~= before.push(a.subrange(start as int, j as int)));
                }
                start = j + 1;
            }
            j = j + 1;
        }
        let rest = bytes_range(&buf, start, n);
        assert(rest@ =~= a.skip(start as int));
        self.pending = rest;
        lines
    }
}

/// Every line that is returned is complete and not blank: it holds no line
/// feed and some character other than ASCII whitespace; the line being
/// assembled holds no line feed either.
pub proof fn lemma_lines_well_framed(a: Seq<u8>, i: int)
    requires
        0 <= i <= a.len(),
    ensures
        0 <= scan_lines(a, i).1 <= i,
        forall|k: int| 0 <= k < scan_lines(a, i).0.len() ==> !blank(#[trigger] scan_lines(a, i).0[k]),
        forall|k: int, m: int| 0 <= k < scan_lines(a, i).0.len() && 0 <= m < scan_lines(a, i).0[k].len()
            ==> #[trigger] scan_lines(a, i).0[k][m] != 10,
        forall|m: int| scan_lines(a, i).1 <= m < i ==> a[m] != 10,
    decreases i,
{
    if i > 0 {
        lemma_lines_well_framed(a, i - 1);
        let (ls, st) = scan_lines(a, i - 1);
        if a[i - 1] == 10 {
            let line = a.subrange(st, i - 1);
            assert forall|m: int| 0 <= m < line.len() implies line[m] != 10 by {
                assert(line[m] == a[st + m]);
            }
        }
    }
}

} // verus!
