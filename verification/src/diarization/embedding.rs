//! Speaker-embedding settings and the integrity check of the speaker
//! encoder model against its published SHA-256 checksum.
use vstd::prelude::*;
use vstd::string::StringExecFns;
use sha2::Digest;
use crate::error::VoxError;
use crate::text::{ascii_lower, is_ascii_str, dec, first_word, first_word_str, lowercase, push_char, push_decimal, push_str, str_eq, to_lowercase};

verus! {

/// Sample rate the encoder expects, in Hz.
pub const EMBEDDING_SAMPLE_RATE: u32 = 16000;

/// Shortest audio that gives a usable embedding, in ms.
pub const MIN_AUDIO_MS: u64 = 800;

/// Longest audio passed to the encoder, in ms.
pub const MAX_AUDIO_MS: u64 = 30000;

/// Number of mel bands.
pub const N_MELS: usize = 80;

/// FFT size.
pub const N_FFT: usize = 512;

/// Hop between frames (10 ms at 16 kHz).
pub const HOP_LENGTH: usize = 160;

/// Analysis window length.
pub const WIN_LENGTH: usize = 400;

/// Configuration of the speaker encoder.
#[derive(Debug, Clone, Copy)]
pub struct EmbeddingConfig {
    pub embedding_dim: usize,
    pub normalize: bool,
    pub use_gpu: bool,
}

impl Default for EmbeddingConfig {
    /// 512-dimensional, normalised embeddings, GPU when available.
    fn default() -> (r: Self)
        ensures
            r.embedding_dim == 512,
            r.normalize,
            r.use_gpu,
    {
        EmbeddingConfig { embedding_dim: 512, normalize: true, use_gpu: true }
    }
}

/// The SHA-256 digest of `data`.
pub uninterp spec fn sha256(data: Seq<u8>) -> Seq<u8>;

/// The SHA-256 digest of `data`, computed by `sha2::Sha256`; a SHA-256
/// digest is 32 bytes long.
#[verifier::external_body]
fn sha256_digest(data: &[u8]) -> (r: Vec<u8>)
    ensures
        r@ == sha256(data@),
        r@.len() == 32,
{
    sha2::Sha256::digest(data).to_vec()
}

/// The lower-case hexadecimal digit of `d < 16`.
pub open spec fn hex_digit(d: int) -> char {
    if d < 10 {
        ((d + 48) as u32) as char
    } else {
        ((d + 87) as u32) as char
    }
}

/// Two lower-case hexadecimal digits per byte (`format!("{:x}", digest)`).
pub open spec fn hex_lower(bytes: Seq<u8>) -> Seq<char>
    decreases bytes.len(),
{
    if bytes.len() == 0 {
        seq![]
    } else {
        hex_lower(bytes.drop_last()) + seq![hex_digit((bytes.last() / 16) as int), hex_digit((bytes.last() % 16) as int)]
    }
}

fn hex_digit_char(d: u8) -> (c: char)
    requires
        d < 16,
    ensures
        c == hex_digit(d as int),
{
    if d < 10 {
        (d + 48) as char
    } else {
        (d + 87) as char
    }
}

/// Lower-case hexadecimal text of `bytes`.
pub fn to_hex(bytes: &[u8]) -> (r: String)
    ensures
        r@ == hex_lower(bytes@),
{
    let mut out = String::new();
    let mut i: usize = 0;
    while i < bytes.len()
        invariant
            i <= bytes@.len(),
            out@ == hex_lower(bytes@.take(i as int)),
        decreases bytes@.len() - i,
    {
        let b = bytes[i];
        let ghost before = out@;
        push_char(&mut out, hex_digit_char(b / 16));
        push_char(&mut out, hex_digit_char(b % 16));
        assert(bytes@.take(i + 1).drop_last() =~= bytes@.take(i as int));
        assert(bytes@.take(i + 1).last() == b);
        i = i + 1;
        assert(out@ =~= hex_lower(bytes@.take(i as int)));
    }
    assert(bytes@.take(bytes@.len() as int) =~= bytes@);
    out
}

/// The outcome of checking a model against the text of its checksum file:
/// the expected digest is the first word of the file, lower-cased.
pub open spec fn integrity_outcome(model: Seq<u8>, checksum_text: Seq<char>) -> Result<(), Seq<char>> {
    match first_word(checksum_text) {
        None => Err("checksum file is empty"@),
        Some(w) => {
            let expected = lowercase(w);
            let actual = hex_lower(sha256(model));
            if actual == expected {
                Ok(())
            } else {
                Err("model checksum mismatch: expected "@ + expected + ", got "@ + actual)
            }
        },
    }
}

/// Checks the bytes of a model file against the text of its `.sha256`
/// file; a missing or mismatching checksum is an `IntegrityCheckFailed`.
pub fn verify_checksum(model: &[u8], checksum_text: &str) -> (r: Result<(), VoxError>)
    ensures
        match integrity_outcome(model@, checksum_text@) {
            Ok(()) => r is Ok,
            Err(m) => r matches Err(VoxError::IntegrityCheckFailed(s)) && s@ == m,
        },
        first_word(checksum_text@) is Some && is_ascii_str(first_word(checksum_text@)->0) ==> (r is Ok
            <==> hex_lower(sha256(model@)) == ascii_lower(first_word(checksum_text@)->0)),
{
    let word = match first_word_str(checksum_text) {
        Some(w) => w,
        None => {
            return Err(VoxError::IntegrityCheckFailed(String::from_str("checksum file is empty")));
        },
    };
    let expected = to_lowercase(word.as_str());
    let digest = sha256_digest(model);
    let actual = to_hex(digest.as_slice());
    if str_eq(actual.as_str(), expected.as_str()) {
        Ok(())
    } else {
        let mut msg = String::from_str("model checksum mismatch: expected ");
        push_str(&mut msg, expected.as_str());
        push_str(&mut msg, ", got ");
        push_str(&mut msg, actual.as_str());
        Err(VoxError::IntegrityCheckFailed(msg))
    }
}


/// Duration in ms of `n_samples` samples at `sample_rate` Hz.
pub open spec fn audio_ms(n_samples: u64, sample_rate: u32) -> int {
    (n_samples * 1000) / (sample_rate as int)
}

/// Checks that audio of `n_samples` samples at `sample_rate` Hz is long
/// enough for an embedding and not so long that it exhausts resources;
/// returns its duration in ms.
pub fn check_audio_duration(n_samples: u64, sample_rate: u32) -> (r: Result<u64, VoxError>)
    requires
        sample_rate > 0,
        n_samples * 1000 <= u64::MAX,
    ensures
        audio_ms(n_samples, sample_rate) < MIN_AUDIO_MS ==> (r matches Err(VoxError::Diarization(m)) && m@
            == "audio too short for embedding extraction: "@ + dec(audio_ms(n_samples, sample_rate) as nat)
            + "ms (minimum: 800ms)"@),
        audio_ms(n_samples, sample_rate) > MAX_AUDIO_MS ==> (r matches Err(VoxError::Diarization(m)) && m@
            == "audio too long for embedding extraction: "@ + dec(audio_ms(n_samples, sample_rate) as nat)
            + "ms (maximum: 30000ms)"@),
        MIN_AUDIO_MS <= audio_ms(n_samples, sample_rate) <= MAX_AUDIO_MS ==> r == Ok::<u64, VoxError>(
            audio_ms(n_samples, sample_rate) as u64),
{
    let duration_ms = (n_samples * 1000) / (sample_rate as u64);
    if duration_ms < MIN_AUDIO_MS {
        let mut m = String::from_str("audio too short for embedding extraction: ");
        push_decimal(&mut m, duration_ms);
        push_str(&mut m, "ms (minimum: 800ms)");
        return Err(VoxError::Diarization(m));
    }
    if duration_ms > MAX_AUDIO_MS {
        let mut m = String::from_str("audio too long for embedding extraction: ");
        push_decimal(&mut m, duration_ms);
        push_str(&mut m, "ms (maximum: 30000ms)");
        return Err(VoxError::Diarization(m));
    }
    Ok(duration_ms)
}

/// Checks the size of an embedding the encoder produced.
pub fn check_embedding_dim(expected: usize, got: usize) -> (r: Result<(), VoxError>)
    ensures
        got == expected ==> r is Ok,
        got != expected ==> (r matches Err(VoxError::Diarization(m)) && m@ == "unexpected embedding dimension: expected "@
            + dec(expected as nat) + ", got "@ + dec(got as nat)),
{
    if got != expected {
        let mut m = String::from_str("unexpected embedding dimension: expected ");
        push_decimal(&mut m, expected as u64);
        push_str(&mut m, ", got ");
        push_decimal(&mut m, got as u64);
        return Err(VoxError::Diarization(m));
    }
    Ok(())
}

} // verus!
