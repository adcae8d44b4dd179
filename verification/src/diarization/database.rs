//! Records kept about speakers, and the byte layout in which a speaker's
//! embedding is stored.
use vstd::prelude::*;
use vstd::string::StringExecFns;
use crate::error::VoxError;
use crate::server::ws::{le_u32_words, le_words};

verus! {

/// A conversation history entry.
#[derive(Debug, Clone)]
pub struct ConversationEntry {
    /// Unix timestamp in seconds.
    pub timestamp: u64,
    /// Duration in milliseconds.
    pub duration_ms: u64,
    /// Optional transcribed text.
    pub text: Option<String>,
}

/// The four bytes of `w`, least significant first.
pub open spec fn word_bytes(w: u32) -> Seq<u8> {
    seq![(w & 0xff) as u8, ((w >> 8u32) & 0xff) as u8, ((w >> 16u32) & 0xff) as u8, ((w >> 24u32) & 0xff) as u8]
}

/// The words of `ws` laid out as little-endian bytes, one word after the
/// other.
pub open spec fn le_bytes(ws: Seq<u32>) -> Seq<u8> {
    Seq::new(4 * ws.len(), |j: int| word_bytes(ws[j / 4])[j % 4])
}

/// Reading back the four bytes of a word gives the word.
proof fn lemma_word_bytes_roundtrip(w: u32)
    ensures
        ((word_bytes(w)[0] as int + 256 * word_bytes(w)[1] as int + 65536 * word_bytes(w)[2] as int
            + 16777216 * word_bytes(w)[3] as int) as u32) == w,
{
    let b0 = (w & 0xff) as u8;
    let b1 = ((w >> 8u32) & 0xff) as u8;
    let b2 = ((w >> 16u32) & 0xff) as u8;
    let b3 = ((w >> 24u32) & 0xff) as u8;
    assert(((b0 as int + 256 * b1 as int + 65536 * b2 as int + 16777216 * b3 as int) as u32) == w) by (bit_vector)
        requires
            b0 == (w & 0xff) as u8,
            b1 == ((w >> 8u32) & 0xff) as u8,
            b2 == ((w >> 16u32) & 0xff) as u8,
            b3 == ((w >> 24u32) & 0xff) as u8,
    ;
}

/// A stored embedding reads back as it was written: decoding the bytes of
/// a sequence of words gives the same words.
pub proof fn lemma_embedding_roundtrip(ws: Seq<u32>)
    ensures
        le_words(le_bytes(ws)) == ws,
{
    let b = le_bytes(ws);
    assert(b.len() / 4 == ws.len());
    assert forall|i: int| 0 <= i < ws.len() implies #[trigger] le_words(b)[i] == ws[i] by {
        assert((4 * i) / 4 == i && (4 * i + 1) / 4 == i && (4 * i + 2) / 4 == i && (4 * i + 3) / 4 == i);
        assert((4 * i) % 4 == 0 && (4 * i + 1) % 4 == 1 && (4 * i + 2) % 4 == 2 && (4 * i + 3) % 4 == 3);
        assert(b[4 * i] == word_bytes(ws[i])[0]);
        assert(b[4 * i + 1] == word_bytes(ws[i])[1]);
        assert(b[4 * i + 2] == word_bytes(ws[i])[2]);
        assert(b[4 * i + 3] == word_bytes(ws[i])[3]);
        lemma_word_bytes_roundtrip(ws[i]);
    }
    assert(le_words(b) =~= ws);
}

/// The bytes of a word assembled from four bytes are those four bytes.
proof fn lemma_bytes_word_roundtrip(b0: u8, b1: u8, b2: u8, b3: u8)
    ensures
        word_bytes((b0 as int + 256 * b1 as int + 65536 * b2 as int + 16777216 * b3 as int) as u32)
            == seq![b0, b1, b2, b3],
{
    let w = (b0 as int + 256 * b1 as int + 65536 * b2 as int + 16777216 * b3 as int) as u32;
    assert((w & 0xff) as u8 == b0 && ((w >> 8u32) & 0xff) as u8 == b1 && ((w >> 16u32) & 0xff) as u8 == b2
        && ((w >> 24u32) & 0xff) as u8 == b3) by (bit_vector)
        requires
            w == (b0 as int + 256 * b1 as int + 65536 * b2 as int + 16777216 * b3 as int) as u32,
    ;
    assert(word_bytes(w) =~= seq![b0, b1, b2, b3]);
}

/// Bytes whose length is a multiple of four read back as they were stored:
/// decoding them and laying the words out again gives the same bytes.
pub proof fn lemma_bytes_roundtrip(b: Seq<u8>)
    requires
        b.len() % 4 == 0,
    ensures
        le_words(b).len() == b.len() / 4,
        le_bytes(le_words(b)) == b,
{
    let ws = le_words(b);
    let r = le_bytes(ws);
    assert(r.len() == b.len());
    assert forall|j: int| 0 <= j < b.len() implies #[trigger] r[j] == b[j] by {
        let i = j / 4;
        let k = j % 4;
        assert(0 <= i < ws.len());
        assert(j == 4 * i + k);
        lemma_bytes_word_roundtrip(b[4 * i], b[4 * i + 1], b[4 * i + 2], b[4 * i + 3]);
        assert(ws[i] == (b[4 * i] as int + 256 * b[4 * i + 1] as int + 65536 * b[4 * i + 2] as int + 16777216
            * b[4 * i + 3] as int) as u32);
    }
    assert(r =~= b);
}

/// The bytes in which an embedding is stored: the bit pattern of each value
/// (an `f32` taken by `f32::to_bits`) in little-endian order.
pub fn embedding_to_bytes(embedding: &[u32]) -> (r: Vec<u8>)
    requires
        4 * embedding@.len() <= usize::MAX,
    ensures
        r@ == le_bytes(embedding@),
{
    let n = embedding.len();
    let mut out: Vec<u8> = Vec::new();
    let mut i: usize = 0;
    while i < n
        invariant
            n == embedding@.len(),
            4 * n <= usize::MAX,
            i <= n,
            out@.len() == 4 * i,
            forall|j: int| 0 <= j < 4 * i ==> #[trigger] out@[j] == word_bytes(embedding@[j / 4])[j % 4],
        decreases n - i,
    {
        let w = embedding[i];
        let ghost pre = out@;
        out.push((w & 0xff) as u8);
        out.push(((w >> 8u32) & 0xff) as u8);
        out.push(((w >> 16u32) & 0xff) as u8);
        out.push(((w >> 24u32) & 0xff) as u8);
        assert forall|j: int| 0 <= j < 4 * (i + 1) implies #[trigger] out@[j] == word_bytes(embedding@[j / 4])[j % 4] by {
            if j >= 4 * i {
                assert(j / 4 == i as int);
                assert(out@[j] == word_bytes(w)[j - 4 * i]);
            } else {
                assert(out@[j] == pre[j]);
            }
        }
        i = i + 1;
    }
    assert(out@ =~= le_bytes(embedding@));
    out
}

/// The bit patterns of a stored embedding (read each with `f32::from_bits`);
/// bytes that do not make whole 4-byte values are a `Diarization` error.
pub fn bytes_to_embedding(bytes: &[u8]) -> (r: Result<Vec<u32>, VoxError>)
    ensures
        bytes@.len() % 4 == 0 ==> (r matches Ok(w) && w@ == le_words(bytes@)),
        bytes@.len() % 4 != 0 ==> (r matches Err(VoxError::Diarization(m))
            && m@ == "invalid embedding bytes: length not divisible by 4"@),
{
    if bytes.len() % 4 != 0 {
        return Err(VoxError::Diarization(String::from_str("invalid embedding bytes: length not divisible by 4")));
    }
    Ok(le_u32_words(bytes))
}

} // verus!
