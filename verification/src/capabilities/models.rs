//! Which STT/TTS/VAD backends are loaded, in one uniform shape.
use vstd::prelude::*;
use vstd::string::StringExecFns;

verus! {

/// A loaded backend as the registry reports it.
#[derive(Debug)]
pub struct LoadedModel {
    pub backend: String,
    pub model_name: String,
    pub size_mb: Option<u64>,
    pub sample_rate: Option<u32>,
    pub language: Option<String>,
}

/// The loaded backends, one slot per role.
#[derive(Debug)]
pub struct ModelInventory {
    pub stt: Option<LoadedModel>,
    pub streaming_stt: Option<LoadedModel>,
    pub tts: Option<LoadedModel>,
    pub vad: Option<LoadedModel>,
}

/// Bytes in a mebibyte.
pub const BYTES_PER_MB: u64 = 1048576;

/// Sample rate of the speech models, in Hz.
pub const SPEECH_SAMPLE_RATE: u32 = 16000;

/// `l` describes backend `b` with model `m`, size `s` and sample rate `rate`.
pub open spec fn describes(l: LoadedModel, b: Seq<char>, m: Seq<char>, s: Option<u64>, rate: Option<u32>) -> bool {
    &&& l.backend@ == b
    &&& l.model_name@ == m
    &&& l.size_mb == s
    &&& l.sample_rate == rate
    &&& l.language is None
}

/// The slot built from a `(backend, model, size)` triple.
pub open spec fn slot_matches(slot: Option<LoadedModel>, part: Option<(&str, &str, Option<u64>)>, rate: Option<u32>) -> bool {
    match part {
        None => slot is None,
        Some((b, m, s)) => slot matches Some(l) && describes(l, b@, m@, s, rate),
    }
}

/// Size in whole mebibytes of a size in bytes.
pub open spec fn mb_of(bytes: Option<u64>) -> Option<u64> {
    match bytes {
        Some(n) => Some((n / BYTES_PER_MB) as u64),
        None => None,
    }
}

fn loaded(backend: &str, model: &str, size_mb: Option<u64>, sample_rate: Option<u32>) -> (r: LoadedModel)
    ensures
        describes(r, backend@, model@, size_mb, sample_rate),
{
    LoadedModel {
        backend: String::from_str(backend),
        model_name: String::from_str(model),
        size_mb,
        sample_rate,
        language: None,
    }
}

fn slot(part: Option<(&str, &str, Option<u64>)>, rate: Option<u32>) -> (r: Option<LoadedModel>)
    ensures
        slot_matches(r, part, rate),
{
    match part {
        Some((b, m, s)) => Some(loaded(b, m, s, rate)),
        None => None,
    }
}

impl ModelInventory {
    /// Builds the inventory from what the server tracks: for each of STT,
    /// streaming STT and TTS an optional `(backend, model, size_mb)`, and for
    /// the VAD an optional `(file stem of the model file, file size in bytes)`.
    pub fn from_parts(
        stt: Option<(&str, &str, Option<u64>)>,
        streaming_stt: Option<(&str, &str, Option<u64>)>,
        tts: Option<(&str, &str, Option<u64>)>,
        vad: Option<(Option<&str>, Option<u64>)>,
    ) -> (r: Self)
        ensures
            slot_matches(r.stt, stt, Some(SPEECH_SAMPLE_RATE)),
            slot_matches(r.streaming_stt, streaming_stt, Some(SPEECH_SAMPLE_RATE)),
            slot_matches(r.tts, tts, None),
            match vad {
                None => r.vad is None,
                Some((stem, bytes)) => r.vad matches Some(l) && describes(
                    l,
                    "silero"@,
                    match stem {
                        Some(s) => s@,
                        None => "silero_vad"@,
                    },
                    mb_of(bytes),
                    Some(SPEECH_SAMPLE_RATE),
                ),
            },
    {
        let vad_model = match vad {
            Some((stem, bytes)) => {
                let name: &str = match stem {
                    Some(s) => s,
                    None => "silero_vad",
                };
                let size_mb = match bytes {
                    Some(n) => Some(n / BYTES_PER_MB),
                    None => None,
                };
                Some(loaded("silero", name, size_mb, Some(SPEECH_SAMPLE_RATE)))
            },
            None => None,
        };
        ModelInventory {
            stt: slot(stt, Some(SPEECH_SAMPLE_RATE)),
            streaming_stt: slot(streaming_stt, Some(SPEECH_SAMPLE_RATE)),
            tts: slot(tts, None),
            vad: vad_model,
        }
    }

    /// Nothing loaded.
    pub fn empty() -> (r: Self)
        ensures
            r.stt is None,
            r.streaming_stt is None,
            r.tts is None,
            r.vad is None,
    {
        ModelInventory { stt: None, streaming_stt: None, tts: None, vad: None }
    }
}

impl Default for ModelInventory {
    fn default() -> (r: Self)
        ensures
            r.stt is None,
            r.streaming_stt is None,
            r.tts is None,
            r.vad is None,
    {
        ModelInventory::empty()
    }
}

} // verus!
