//! Encodings and framing used by the streaming WebSocket endpoints.
use vstd::prelude::*;
use vstd::string::StringExecFns;
use vstd::utf8::encode_utf8;
use crate::vad::silero::SegmentEvent;
use crate::text::{chars_of, concat2, has_prefix, is_blank, parse_u64, parse_u64_spec, push_char, starts_with, trim};

verus! {

/// The base64 alphabet of RFC 4648.
pub open spec fn b64_alpha(i: int) -> char {
    if i < 26 {
        ((65 + i) as u32) as char
    } else if i < 52 {
        ((97 + i - 26) as u32) as char
    } else if i < 62 {
        ((48 + i - 52) as u32) as char
    } else if i == 62 {
        '+'
    } else {
        '/'
    }
}

/// Standard base64 with `=` padding (RFC 4648), three bytes to four characters.
pub open spec fn base64_spec(s: Seq<u8>) -> Seq<char>
    decreases s.len(),
{
    if s.len() >= 3 {
        let a = s[0] as int;
        let b = s[1] as int;
        let c = s[2] as int;
        seq![
            b64_alpha(a / 4),
            b64_alpha((a % 4) * 16 + b / 16),
            b64_alpha((b % 16) * 4 + c / 64),
            b64_alpha(c % 64),
        ] + base64_spec(s.skip(3))
    } else if s.len() == 2 {
        let a = s[0] as int;
        let b = s[1] as int;
        seq![b64_alpha(a / 4), b64_alpha((a % 4) * 16 + b / 16), b64_alpha((b % 16) * 4), '=']
    } else if s.len() == 1 {
        let a = s[0] as int;
        seq![b64_alpha(a / 4), b64_alpha((a % 4) * 16), '=', '=']
    } else {
        seq![]
    }
}

/// The base64 character of a 6-bit value.
pub fn b64_char(i: u32) -> (c: char)
    requires
        i < 64,
    ensures
        c == b64_alpha(i as int),
{
    if i < 26 {
        ((65 + i) as u8) as char
    } else if i < 52 {
        ((97 + i - 26) as u8) as char
    } else if i < 62 {
        ((48 + i - 52) as u8) as char
    } else if i == 62 {
        '+'
    } else {
        '/'
    }
}

/// A character of the base64 alphabet: `A`-`Z`, `a`-`z`, `0`-`9`, `+`, `/`.
pub open spec fn is_b64_char(c: char) -> bool {
    ||| ('A' <= c && c <= 'Z')
    ||| ('a' <= c && c <= 'z')
    ||| ('0' <= c && c <= '9')
    ||| c == '+'
    ||| c == '/'
}

/// Every 6-bit value encodes as a character of the alphabet.
proof fn lemma_b64_alpha_in_alphabet(i: int)
    requires
        0 <= i < 64,
    ensures
        is_b64_char(b64_alpha(i)),
{
}

/// Number of `=` characters that pad the encoding of `n` bytes.
pub open spec fn b64_padding(n: nat) -> int {
    (3 - (n % 3) as int) % 3
}

/// Law: the encoding of `s` is made of alphabet characters followed by
/// exactly `b64_padding(s.len())` padding characters `=`.
pub proof fn lemma_base64_alphabet(s: Seq<u8>)
    ensures
        forall|i: int| 0 <= i < base64_spec(s).len() - b64_padding(s.len()) ==> is_b64_char(#[trigger] base64_spec(s)[i]),
        forall|i: int| base64_spec(s).len() - b64_padding(s.len()) <= i < base64_spec(s).len() ==> #[trigger] base64_spec(s)[i] == '=',
    decreases s.len(),
{
    lemma_base64_length(s);
    let r = base64_spec(s);
    if s.len() >= 3 {
        lemma_base64_alphabet(s.skip(3));
        lemma_base64_length(s.skip(3));
        let a = s[0] as int;
        let b = s[1] as int;
        let c = s[2] as int;
        lemma_b64_alpha_in_alphabet(a / 4);
        lemma_b64_alpha_in_alphabet((a % 4) * 16 + b / 16);
        lemma_b64_alpha_in_alphabet((b % 16) * 4 + c / 64);
        lemma_b64_alpha_in_alphabet(c % 64);
        let t = base64_spec(s.skip(3));
        assert(s.skip(3).len() % 3 == s.len() % 3);
        assert forall|i: int| 0 <= i < r.len() - b64_padding(s.len()) implies is_b64_char(#[trigger] r[i]) by {
            if i >= 4 {
                assert(r[i] == t[i - 4]);
            }
        }
        assert forall|i: int| r.len() - b64_padding(s.len()) <= i < r.len() implies #[trigger] r[i] == '=' by {
            assert(r[i] == t[i - 4]);
        }
    } else if s.len() == 2 {
        let a = s[0] as int;
        let b = s[1] as int;
        lemma_b64_alpha_in_alphabet(a / 4);
        lemma_b64_alpha_in_alphabet((a % 4) * 16 + b / 16);
        lemma_b64_alpha_in_alphabet((b % 16) * 4);
    } else if s.len() == 1 {
        let a = s[0] as int;
        lemma_b64_alpha_in_alphabet(a / 4);
        lemma_b64_alpha_in_alphabet((a % 4) * 16);
    }
}

/// The 6-bit value of a base64 alphabet character.
pub open spec fn b64_value(c: char) -> int {
    if 'A' <= c && c <= 'Z' {
        c as int - 65
    } else if 'a' <= c && c <= 'z' {
        c as int - 97 + 26
    } else if '0' <= c && c <= '9' {
        c as int - 48 + 52
    } else if c == '+' {
        62
    } else {
        63
    }
}

/// Standard base64 decoding (RFC 4648) of padded text.
pub open spec fn base64_decode(t: Seq<char>) -> Seq<u8>
    decreases t.len(),
{
    if t.len() < 4 {
        seq![]
    } else {
        let i0 = b64_value(t[0]);
        let i1 = b64_value(t[1]);
        let i2 = b64_value(t[2]);
        let i3 = b64_value(t[3]);
        let a = (i0 * 4 + i1 / 16) as u8;
        let b = ((i1 % 16) * 16 + i2 / 4) as u8;
        let c = ((i2 % 4) * 64 + i3) as u8;
        if t[2] == '=' {
            seq![a]
        } else if t[3] == '=' {
            seq![a, b]
        } else {
            seq![a, b, c] + base64_decode(t.skip(4))
        }
    }
}

/// Every 6-bit value reads back from its character, which is not padding.
proof fn lemma_b64_value_alpha(i: int)
    requires
        0 <= i < 64,
    ensures
        b64_value(b64_alpha(i)) == i,
        b64_alpha(i) != '=',
{
}

/// Law: decoding the encoding of any bytes gives the bytes back.
pub proof fn lemma_base64_roundtrip(s: Seq<u8>)
    ensures
        base64_decode(base64_spec(s)) == s,
    decreases s.len(),
{
    let t = base64_spec(s);
    if s.len() >= 3 {
        let a = s[0] as int;
        let b = s[1] as int;
        let c = s[2] as int;
        let j0 = a / 4;
        let j1 = (a % 4) * 16 + b / 16;
        let j2 = (b % 16) * 4 + c / 64;
        let j3 = c % 64;
        lemma_b64_value_alpha(j0);
        lemma_b64_value_alpha(j1);
        lemma_b64_value_alpha(j2);
        lemma_b64_value_alpha(j3);
        lemma_base64_roundtrip(s.skip(3));
        let head = seq![b64_alpha(j0), b64_alpha(j1), b64_alpha(j2), b64_alpha(j3)];
        assert(t == head + base64_spec(s.skip(3)));
        assert(t.skip(4) =~= base64_spec(s.skip(3)));
        assert(t[0] == b64_alpha(j0) && t[1] == b64_alpha(j1) && t[2] == b64_alpha(j2) && t[3] == b64_alpha(j3));
        assert(j0 * 4 + j1 / 16 == a && (j1 % 16) * 16 + j2 / 4 == b && (j2 % 4) * 64 + j3 == c) by (nonlinear_arith)
            requires
                0 <= a < 256,
                0 <= b < 256,
                0 <= c < 256,
                j0 == a / 4,
                j1 == (a % 4) * 16 + b / 16,
                j2 == (b % 16) * 4 + c / 64,
                j3 == c % 64,
        ;
        assert(s =~= seq![s[0], s[1], s[2]] + s.skip(3));
    } else if s.len() == 2 {
        let a = s[0] as int;
        let b = s[1] as int;
        let j0 = a / 4;
        let j1 = (a % 4) * 16 + b / 16;
        let j2 = (b % 16) * 4;
        lemma_b64_value_alpha(j0);
        lemma_b64_value_alpha(j1);
        lemma_b64_value_alpha(j2);
        assert(j0 * 4 + j1 / 16 == a && (j1 % 16) * 16 + j2 / 4 == b) by (nonlinear_arith)
            requires
                0 <= a < 256,
                0 <= b < 256,
                j0 == a / 4,
                j1 == (a % 4) * 16 + b / 16,
                j2 == (b % 16) * 4,
        ;
        assert(s =~= seq![s[0], s[1]]);
    } else if s.len() == 1 {
        let a = s[0] as int;
        let j0 = a / 4;
        let j1 = (a % 4) * 16;
        lemma_b64_value_alpha(j0);
        lemma_b64_value_alpha(j1);
        assert(j0 * 4 + j1 / 16 == a) by (nonlinear_arith)
            requires
                0 <= a < 256,
                j0 == a / 4,
                j1 == (a % 4) * 16,
        ;
        assert(s =~= seq![s[0]]);
    } else {
        assert(s =~= Seq::<u8>::empty());
    }
}

/// Encodes bytes as standard padded base64, used to embed audio in JSON.
pub fn base64_encode(input: &[u8]) -> (r: String)
    ensures
        r@ == base64_spec(input@),
{
    let mut out = String::new();
    let mut i: usize = 0;
    assert(input@.skip(0) =~= input@);
    while input.len() - i >= 3
        invariant
            i <= input@.len(),
            out@ + base64_spec(input@.skip(i as int)) == base64_spec(input@),
        decreases input@.len() - i,
    {
        let a = input[i] as u32;
        let b = input[i + 1] as u32;
        let c = input[i + 2] as u32;
        let n = (a << 16) | (b << 8) | c;
        assert((n >> 18) & 0x3f == a / 4 && (n >> 12) & 0x3f == (a % 4) * 16 + b / 16 && (n >> 6)
            & 0x3f == (b % 16) * 4 + c / 64 && n & 0x3f == c % 64) by (bit_vector)
            requires
                a < 256 && b < 256 && c < 256 && n == (a << 16) | (b << 8) | c,
        ;
        let ghost rest = input@.skip(i as int);
        let ghost pre = out@;
        push_char(&mut out, b64_char((n >> 18) & 0x3f));
        push_char(&mut out, b64_char((n >> 12) & 0x3f));
        push_char(&mut out, b64_char((n >> 6) & 0x3f));
        push_char(&mut out, b64_char(n & 0x3f));
        assert(rest.skip(3) =~= input@.skip(i + 3));
        assert(out@ + base64_spec(input@.skip(i + 3)) =~= pre + base64_spec(rest));
        i = i + 3;
    }
    let rem = input.len() - i;
    let ghost rest = input@.skip(i as int);
    let ghost pre = out@;
    if rem == 1 {
        let a = input[i] as u32;
        let n = a << 16;
        assert((n >> 18) & 0x3f == a / 4 && (n >> 12) & 0x3f == (a % 4) * 16) by (bit_vector)
            requires
                a < 256 && n == a << 16,
        ;
        push_char(&mut out, b64_char((n >> 18) & 0x3f));
        push_char(&mut out, b64_char((n >> 12) & 0x3f));
        push_char(&mut out, '=');
        push_char(&mut out, '=');
        assert(out@ =~= pre + base64_spec(rest));
    } else if rem == 2 {
        let a = input[i] as u32;
        let b = input[i + 1] as u32;
        let n = (a << 16) | (b << 8);
        assert((n >> 18) & 0x3f == a / 4 && (n >> 12) & 0x3f == (a % 4) * 16 + b / 16 && (n >> 6)
            & 0x3f == (b % 16) * 4) by (bit_vector)
            requires
                a < 256 && b < 256 && n == (a << 16) | (b << 8),
        ;
        push_char(&mut out, b64_char((n >> 18) & 0x3f));
        push_char(&mut out, b64_char((n >> 12) & 0x3f));
        push_char(&mut out, b64_char((n >> 6) & 0x3f));
        push_char(&mut out, '=');
        assert(out@ =~= pre + base64_spec(rest));
    } else {
        assert(out@ =~= pre + base64_spec(rest));
    }
    out
}

/// Number of colours in the speaker palette.
pub const PALETTE_LEN: usize = 10;

/// The colour-blind-friendly speaker palette.
pub open spec fn palette(i: int) -> Seq<char> {
    if i == 0 {
        "#4e79a7"@
    } else if i == 1 {
        "#f28e2c"@
    } else if i == 2 {
        "#e15759"@
    } else if i == 3 {
        "#76b7b2"@
    } else if i == 4 {
        "#59a14f"@
    } else if i == 5 {
        "#edc949"@
    } else if i == 6 {
        "#af7aa1"@
    } else if i == 7 {
        "#ff9da7"@
    } else if i == 8 {
        "#9c755f"@
    } else {
        "#bab0ab"@
    }
}

/// The palette colour at `i`.
pub fn palette_color(i: usize) -> (r: String)
    requires
        i < PALETTE_LEN,
    ensures
        r@ == palette(i as int),
{
    if i == 0 {
        String::from_str("#4e79a7")
    } else if i == 1 {
        String::from_str("#f28e2c")
    } else if i == 2 {
        String::from_str("#e15759")
    } else if i == 3 {
        String::from_str("#76b7b2")
    } else if i == 4 {
        String::from_str("#59a14f")
    } else if i == 5 {
        String::from_str("#edc949")
    } else if i == 6 {
        String::from_str("#af7aa1")
    } else if i == 7 {
        String::from_str("#ff9da7")
    } else if i == 8 {
        String::from_str("#9c755f")
    } else {
        String::from_str("#bab0ab")
    }
}

/// The DJB2 hash (`h = h * 33 + byte`, wrapping, from 5381) of `bytes`.
pub open spec fn djb2(bytes: Seq<u8>) -> u32
    decreases bytes.len(),
{
    if bytes.len() == 0 {
        5381
    } else {
        ((djb2(bytes.drop_last()) as int * 33 + bytes.last() as int) % 0x1_0000_0000) as u32
    }
}

/// The number `n` of an auto-enrolled id "speaker_n", if `id` has that form.
pub open spec fn speaker_number(id: Seq<char>) -> Option<u64> {
    if has_prefix(id, "speaker_"@) {
        match parse_u64_spec(id.skip(8)) {
            Some(n) => if n <= usize::MAX {
                Some(n)
            } else {
                None
            },
            None => None,
        }
    } else {
        None
    }
}

/// Palette index of a speaker id: auto-enrolled "speaker_n" ids take colour
/// `n - 1` (cyclically, so consecutive speakers differ); any other id is
/// hashed with DJB2 over its UTF-8 bytes.
pub open spec fn color_index(id: Seq<char>) -> int {
    match speaker_number(id) {
        Some(n) => (if n >= 1 {
            n - 1
        } else {
            0
        }) % 10,
        None => (djb2(encode_utf8(id)) as int) % 10,
    }
}

/// Deterministic display colour of a speaker id.
pub fn color_for(id: &str) -> (r: String)
    ensures
        r@ == palette(color_index(id@)),
{
    let c = chars_of(id);
    if starts_with(id, "speaker_") {
        proof {
            reveal_strlit("speaker_");
        }
        assert(c@.skip(8) =~= c@.subrange(8, c@.len() as int));
        match parse_u64(c.as_slice(), 8, c.len()) {
            Some(n) => {
                if n <= usize::MAX as u64 {
                    let n = n as usize;
                    let idx = if n >= 1 {
                        n - 1
                    } else {
                        0
                    } % PALETTE_LEN;
                    return palette_color(idx);
                }
            },
            None => {},
        }
    }
    let bytes = id.as_bytes();
    let mut hash: u32 = 5381;
    let mut i: usize = 0;
    while i < bytes.len()
        invariant
            i <= bytes@.len(),
            bytes@ == encode_utf8(id@),
            hash == djb2(bytes@.take(i as int)),
        decreases bytes@.len() - i,
    {
        assert(bytes@.take(i + 1).drop_last() =~= bytes@.take(i as int));
        hash = hash.wrapping_mul(33).wrapping_add(bytes[i] as u32);
        i = i + 1;
    }
    assert(bytes@.take(bytes@.len() as int) =~= bytes@);
    palette_color((hash as usize) % PALETTE_LEN)
}

/// The sequences of `fs` one after the other.
pub open spec fn flatten<T>(fs: Seq<Seq<T>>) -> Seq<T>
    decreases fs.len(),
{
    if fs.len() == 0 {
        seq![]
    } else {
        flatten(fs.drop_last()) + fs.last()
    }
}

/// Cuts a stream of samples into frames of a fixed size; samples that do not
/// fill a frame wait for the next push.
#[derive(Debug)]
pub struct FrameAssembler<T> {
    frame_size: usize,
    residual: Vec<T>,
}

fn copy_range_of<T: Copy>(v: &Vec<T>, lo: usize, hi: usize) -> (r: Vec<T>)
    requires
        lo <= hi <= v@.len(),
    ensures
        r@ == v@.subrange(lo as int, hi as int),
{
    let mut out: Vec<T> = Vec::new();
    let mut i = lo;
    while i < hi
        invariant
            lo <= i <= hi <= v@.len(),
            out@ == v@.subrange(lo as int, i as int),
        decreases hi - i,
    {
        out.push(v[i]);
        i = i + 1;
        assert(out@ =~= v@.subrange(lo as int, i as int));
    }
    out
}

impl<T: Copy> FrameAssembler<T> {
    /// Samples waiting for the rest of their frame.
    pub closed spec fn pending(&self) -> Seq<T> {
        self.residual@
    }

    /// The frame size.
    pub closed spec fn size(&self) -> nat {
        self.frame_size as nat
    }

    /// The frame size is positive and less than a frame is waiting.
    pub open spec fn wf(&self) -> bool {
        self.size() > 0 && self.pending().len() < self.size()
    }

    /// An assembler for frames of `frame_size` samples.
    pub fn new(frame_size: usize) -> (r: Self)
        requires
            frame_size > 0,
        ensures
            r.wf(),
            r.size() == frame_size,
            r.pending().len() == 0,
    {
        FrameAssembler { frame_size, residual: Vec::new() }
    }

    /// Appends `samples` to what is waiting and returns the complete frames,
    /// in order; the remainder (less than a frame) waits.
    pub fn push(&mut self, samples: &[T]) -> (frames: Vec<Vec<T>>)
        requires
            old(self).wf(),
        ensures
            final(self).wf(),
            final(self).size() == old(self).size(),
            ({
                let all = old(self).pending() + samples@;
                let n = old(self).size();
                &&& frames@.len() == all.len() / n
                &&& forall|i: int| #![trigger frames@[i]] 0 <= i < frames@.len()
                    ==> frames@[i]@ == all.subrange(i * n, i * n + n)
                &&& final(self).pending() == all.skip((frames@.len() * n) as int)
                &&& flatten(frames@.map_values(|f: Vec<T>| f@)) + final(self).pending() == all
            }),
    {
        let ghost all = self.residual@ + samples@;
        let ghost n = self.frame_size as nat;
        let size = self.frame_size;
        let mut combined: Vec<T> = Vec::new();
        std::mem::swap(&mut combined, &mut self.residual);
        let mut i: usize = 0;
        while i < samples.len()
            invariant
                i <= samples@.len(),
                combined@ == old(self).residual@ + samples@.take(i as int),
            decreases samples@.len() - i,
        {
            combined.push(samples[i]);
            i = i + 1;
            assert(combined@ =~= old(self).residual@ + samples@.take(i as int));
        }
        assert(samples@.take(samples@.len() as int) =~= samples@);
        assert(combined@ == all);
        let clen = combined.len();
        let k = clen / size;
        let mut frames: Vec<Vec<T>> = Vec::new();
        let mut j: usize = 0;
        let mut off: usize = 0;
        assert(all.take(0) =~= Seq::<T>::empty());
        while j < k
            invariant
                combined@ == all,
                clen == all.len(),
                size == n,
                n > 0,
                k == all.len() / n,
                j <= k,
                off == j * n,
                frames@.len() == j,
                forall|i: int| #![trigger frames@[i]] 0 <= i < j ==> frames@[i]@ == all.subrange(i * n, i * n + n),
                flatten(frames@.map_values(|f: Vec<T>| f@)) == all.take(off as int),
            decreases k - j,
        {
            assert(off + size <= combined@.len()) by (nonlinear_arith)
                requires
                    off == j * n,
                    j < k,
                    k == all.len() / n,
                    n > 0,
                    combined@.len() == all.len(),
                    size == n,
            ;
            let frame = copy_range_of(&combined, off, off + size);
            let ghost before = frames@.map_values(|f: Vec<T>| f@);
            frames.push(frame);
            assert(frames@.map_values(|f: Vec<T>| f@) =~= before.push(all.subrange(off as int, off + n)));
            assert(before.push(all.subrange(off as int, off + n)).drop_last() =~= before);
            assert(all.take(off + n) =~= all.take(off as int) + all.subrange(off as int, off + n));
            assert((j + 1) * n == j * n + n) by (nonlinear_arith);
            off = off + size;
            j = j + 1;
        }
        assert(off <= all.len() && all.len() - off < n) by (nonlinear_arith)
            requires
                off == k * n,
                k == all.len() / n,
                n > 0,
        ;
        let rest = copy_range_of(&combined, off, clen);
        self.residual = rest;
        assert(rest@ =~= all.skip(off as int));
        assert(all =~= all.take(off as int) + all.skip(off as int));
        frames
    }
}

/// The little-endian 32-bit words of `data`; trailing bytes that do not make
/// a whole word are dropped. Audio arrives as 32-bit float samples in this
/// layout; the caller reads each word's bits as an `f32`.
pub open spec fn le_words(data: Seq<u8>) -> Seq<u32> {
    Seq::new(
        data.len() / 4,
        |i: int|
            (data[4 * i] as int + 256 * data[4 * i + 1] as int + 65536 * data[4 * i + 2] as int + 16777216
                * data[4 * i + 3] as int) as u32,
    )
}

/// The little-endian 32-bit words of `data`.
pub fn le_u32_words(data: &[u8]) -> (r: Vec<u32>)
    ensures
        r@ == le_words(data@),
{
    let len = data.len();
    let n = len / 4;
    let mut out: Vec<u32> = Vec::new();
    let mut i: usize = 0;
    while i < n
        invariant
            len == data@.len(),
            n == len / 4,
            i <= n,
            out@.len() == i,
            forall|j: int| 0 <= j < i ==> #[trigger] out@[j] == le_words(data@)[j],
        decreases n - i,
    {
        assert(4 * i + 3 < len) by (nonlinear_arith)
            requires
                i < n,
                n == len / 4,
        ;
        let b0 = data[4 * i] as u32;
        let b1 = data[4 * i + 1] as u32;
        let b2 = data[4 * i + 2] as u32;
        let b3 = data[4 * i + 3] as u32;
        let w = b0 + 256 * b1 + 65536 * b2 + 16777216 * b3;
        out.push(w);
        i = i + 1;
    }
    assert(out@ =~= le_words(data@));
    out
}

/// Base64 text is four characters for every three bytes or part of three.
pub proof fn lemma_base64_length(s: Seq<u8>)
    ensures
        base64_spec(s).len() == 4 * ((s.len() + 2) / 3),
    decreases s.len(),
{
    if s.len() >= 3 {
        lemma_base64_length(s.skip(3));
    }
}

/// Encoding splits at any multiple of three bytes: the text of `a + b` is the
/// text of `a` followed by that of `b`.
pub proof fn lemma_base64_concat(a: Seq<u8>, b: Seq<u8>)
    requires
        a.len() % 3 == 0,
    ensures
        base64_spec(a + b) == base64_spec(a) + base64_spec(b),
    decreases a.len(),
{
    if a.len() == 0 {
        assert(a + b =~= b);
        assert(base64_spec(a) =~= Seq::<char>::empty());
        assert(Seq::<char>::empty() + base64_spec(b) =~= base64_spec(b));
    } else {
        lemma_base64_concat(a.skip(3), b);
        assert((a + b).skip(3) =~= a.skip(3) + b);
        assert((a + b)[0] == a[0] && (a + b)[1] == a[1] && (a + b)[2] == a[2]);
        let head = seq![
            b64_alpha(a[0] as int / 4),
            b64_alpha((a[0] as int % 4) * 16 + a[1] as int / 16),
            b64_alpha((a[1] as int % 16) * 4 + a[2] as int / 64),
            b64_alpha(a[2] as int % 64),
        ];
        assert(base64_spec(a + b) == head + base64_spec(a.skip(3) + b));
        assert(base64_spec(a) == head + base64_spec(a.skip(3)));
        assert(head + (base64_spec(a.skip(3)) + base64_spec(b)) =~= (head + base64_spec(a.skip(3))) + base64_spec(b));
    }
}


/// Checks the text of a `/v1/speak` request: blank text is refused with
/// "empty text".
pub fn speak_request(text: &str) -> (r: Result<(), String>)
    ensures
        trim(text@).len() == 0 <==> r is Err,
        r matches Err(m) ==> m@ == "empty text"@,
{
    if is_blank(text) {
        Err(String::from_str("empty text"))
    } else {
        Ok(())
    }
}

/// The audio chunks sent so far on a `/v1/speak` connection.
#[derive(Debug)]
pub struct SpeakProgress {
    pub chunks: usize,
}

impl SpeakProgress {
    /// Nothing sent yet.
    pub fn new() -> (r: Self)
        ensures
            r.chunks == 0,
    {
        SpeakProgress { chunks: 0 }
    }

    /// Another chunk was synthesized: its number, counted from 1, for the
    /// progress event.
    pub fn on_chunk(&mut self) -> (r: usize)
        requires
            old(self).chunks < usize::MAX,
        ensures
            r == old(self).chunks + 1,
            final(self).chunks == r,
    {
        self.chunks = self.chunks + 1;
        self.chunks
    }

    /// The chunk count for the closing "done" event.
    pub fn done(&self) -> (r: usize)
        ensures
            r == self.chunks,
    {
        self.chunks
    }
}

/// Error text for a request that could not be read.
pub fn invalid_request_message(detail: &str) -> (r: String)
    ensures
        r@ == "invalid request: "@ + detail@,
{
    concat2("invalid request: ", detail)
}

/// Error text for a synthesis session that could not be created.
pub fn session_error_message(detail: &str) -> (r: String)
    ensures
        r@ == "failed to create TTS session: "@ + detail@,
{
    concat2("failed to create TTS session: ", detail)
}

/// Error text for audio that could not be encoded as WAV.
pub fn wav_error_message(detail: &str) -> (r: String)
    ensures
        r@ == "WAV encode error: "@ + detail@,
{
    concat2("WAV encode error: ", detail)
}

/// Error text for a failed synthesis.
pub fn tts_error_message(detail: &str) -> (r: String)
    ensures
        r@ == "TTS error: "@ + detail@,
{
    concat2("TTS error: ", detail)
}


/// How long, after a conversation turn, incoming microphone audio is
/// discarded so that the assistant's own voice is not heard as speech, in ms.
pub const CONVERSE_DRAIN_MS: u64 = 400;

/// Whether audio that arrives `elapsed_ms` after a turn is still discarded.
pub fn still_draining(elapsed_ms: u64) -> (r: bool)
    ensures
        r == (elapsed_ms < CONVERSE_DRAIN_MS),
{
    elapsed_ms < CONVERSE_DRAIN_MS
}

/// The position of the first end of speech among the events of a burst of
/// audio: the conversation acts on the events up to it and ignores the rest
/// of the burst, which is post-speech silence.
pub fn first_speech_end<T>(events: &Vec<SegmentEvent<T>>) -> (r: Option<usize>)
    ensures
        match r {
            Some(i) => i < events@.len() && events@[i as int] is SpeechEnd
                && forall|j: int| 0 <= j < i ==> !(#[trigger] events@[j] is SpeechEnd),
            None => forall|j: int| 0 <= j < events@.len() ==> !(#[trigger] events@[j] is SpeechEnd),
        },
{
    let mut i: usize = 0;
    while i < events.len()
        invariant
            i <= events@.len(),
            forall|j: int| 0 <= j < i ==> !(#[trigger] events@[j] is SpeechEnd),
        decreases events@.len() - i,
    {
        if let SegmentEvent::SpeechEnd { .. } = &events[i] {
            return Some(i);
        }
        i = i + 1;
    }
    None
}

/// Error text for a conversation reply that failed in the language model
/// or in synthesis.
pub fn llm_tts_error_message(detail: &str) -> (r: String)
    ensures
        r@ == "LLM/TTS error: "@ + detail@,
{
    concat2("LLM/TTS error: ", detail)
}

} // verus!
