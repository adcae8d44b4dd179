//! Wire formats and per-connection logic of the HTTP and WebSocket API.
pub mod error;
pub mod handlers;
pub mod listen;
pub mod live_talk;
pub mod models;
pub mod ws;

use vstd::prelude::*;
use vstd::string::StringExecFns;
use crate::server::models::{BackendInfo, ModelsResponse, OllamaStatus, StatsResponse};
use crate::text::{has_prefix, has_suffix, starts_with, ends_with, str_eq};

verus! {

/// Cumulative request counters.
#[derive(Debug)]
pub struct ServerStats {
    pub requests: u64,
    pub transcriptions: u64,
    pub syntheses: u64,
}

impl ServerStats {
    /// All counters at zero.
    pub fn new() -> (r: Self)
        ensures
            r.requests == 0,
            r.transcriptions == 0,
            r.syntheses == 0,
    {
        ServerStats { requests: 0, transcriptions: 0, syntheses: 0 }
    }

    /// Counts a request that is neither a transcription nor a synthesis.
    pub fn record_request(&mut self)
        requires
            old(self).requests < u64::MAX,
        ensures
            final(self).requests == old(self).requests + 1,
            final(self).transcriptions == old(self).transcriptions,
            final(self).syntheses == old(self).syntheses,
    {
        self.requests = self.requests + 1;
    }

    /// Counts a transcription request.
    pub fn record_transcription(&mut self)
        requires
            old(self).requests < u64::MAX,
            old(self).transcriptions < u64::MAX,
        ensures
            final(self).requests == old(self).requests + 1,
            final(self).transcriptions == old(self).transcriptions + 1,
            final(self).syntheses == old(self).syntheses,
    {
        self.requests = self.requests + 1;
        self.transcriptions = self.transcriptions + 1;
    }

    /// Counts a synthesis request.
    pub fn record_synthesis(&mut self)
        requires
            old(self).requests < u64::MAX,
            old(self).syntheses < u64::MAX,
        ensures
            final(self).requests == old(self).requests + 1,
            final(self).transcriptions == old(self).transcriptions,
            final(self).syntheses == old(self).syntheses + 1,
    {
        self.requests = self.requests + 1;
        self.syntheses = self.syntheses + 1;
    }

    /// The statistics endpoint: counts itself as a request, then reports the
    /// counters and the uptime.
    pub fn report(&mut self, uptime_secs: u64) -> (r: StatsResponse)
        requires
            old(self).requests < u64::MAX,
        ensures
            final(self).requests == old(self).requests + 1,
            final(self).transcriptions == old(self).transcriptions,
            final(self).syntheses == old(self).syntheses,
            r.requests == final(self).requests,
            r.transcriptions == final(self).transcriptions,
            r.syntheses == final(self).syntheses,
            r.uptime_secs == uptime_secs,
    {
        self.record_request();
        StatsResponse {
            requests: self.requests,
            transcriptions: self.transcriptions,
            syntheses: self.syntheses,
            uptime_secs,
        }
    }
}

/// Model name and size reported for the streaming recogniser.
pub const STREAMING_MODEL_NAME: &'static str = "zipformer";

/// Size in MB reported for the streaming recogniser.
pub const STREAMING_MODEL_SIZE_MB: u64 = 27;

impl OllamaStatus {
    /// The status after probing `host`: connected with the number of models
    /// listed when the probe answered (`Some`), else not connected.
    pub fn from_probe(host: &str, listed_models: Option<usize>) -> (r: Self)
        ensures
            r.host@ == host@,
            r.connected == listed_models is Some,
            r.model_count == (match listed_models {
                Some(n) => n,
                None => 0,
            }),
    {
        match listed_models {
            Some(n) => OllamaStatus { connected: true, host: String::from_str(host), model_count: n },
            None => OllamaStatus { connected: false, host: String::from_str(host), model_count: 0 },
        }
    }
}

/// `b` reports a loaded backend `name` with model `model` and size `size`.
pub open spec fn reports(b: BackendInfo, name: Seq<char>, model: Option<Seq<char>>, size: Option<u64>) -> bool {
    &&& b.name@ == name
    &&& b.loaded
    &&& (match b.model {
        Some(m) => model == Some(m@),
        None => model is None,
    })
    &&& b.size_mb == size
}

fn loaded_backend(name: &str, model: Option<String>, size_mb: Option<u64>) -> (r: BackendInfo)
    ensures
        reports(r, name@, match model {
            Some(m) => Some(m@),
            None => None,
        }, size_mb),
{
    BackendInfo { name: String::from_str(name), loaded: true, model, size_mb }
}

impl ModelsResponse {
    /// The backends listing: STT ("whisper") when one is loaded, TTS under its
    /// backend name when one is loaded, the streaming recogniser when loaded,
    /// and the Ollama status.
    pub fn describe(
        stt_loaded: bool,
        stt_model: Option<String>,
        stt_size_mb: Option<u64>,
        tts_backend: Option<&str>,
        tts_model: Option<String>,
        tts_size_mb: Option<u64>,
        streaming_loaded: bool,
        ollama: OllamaStatus,
    ) -> (r: Self)
        ensures
            r.stt is Some == stt_loaded,
            r.stt matches Some(b) ==> reports(b, "whisper"@, match stt_model {
                Some(m) => Some(m@),
                None => None,
            }, stt_size_mb),
            r.tts is Some == tts_backend is Some,
            r.tts matches Some(b) ==> reports(b, tts_backend->0@, match tts_model {
                Some(m) => Some(m@),
                None => None,
            }, tts_size_mb),
            r.streaming_stt is Some == streaming_loaded,
            r.streaming_stt matches Some(b) ==> reports(
                b,
                "sherpa-streaming"@,
                Some(STREAMING_MODEL_NAME@),
                Some(STREAMING_MODEL_SIZE_MB),
            ),
            r.ollama == Some(ollama),
    {
        let stt = if stt_loaded {
            Some(loaded_backend("whisper", stt_model, stt_size_mb))
        } else {
            None
        };
        let tts = match tts_backend {
            Some(name) => Some(loaded_backend(name, tts_model, tts_size_mb)),
            None => None,
        };
        let streaming_stt = if streaming_loaded {
            Some(loaded_backend(
                "sherpa-streaming",
                Some(String::from_str(STREAMING_MODEL_NAME)),
                Some(STREAMING_MODEL_SIZE_MB),
            ))
        } else {
            None
        };
        ModelsResponse { stt, tts, streaming_stt, ollama: Some(ollama) }
    }
}

/// The Whisper model files the server tries, in order of preference.
pub open spec fn whisper_candidates_spec() -> Seq<Seq<char>> {
    seq![
        "ggml-base.en.bin"@,
        "ggml-tiny.en.bin"@,
        "ggml-base.bin"@,
        "ggml-tiny.bin"@,
        "ggml-small.en.bin"@,
        "ggml-small.bin"@,
    ]
}

/// The Whisper model files the server tries, in order of preference.
pub fn whisper_candidates() -> (r: Vec<&'static str>)
    ensures
        r@.map_values(|s: &'static str| s@) == whisper_candidates_spec(),
{
    let v: Vec<&'static str> = vec![
        "ggml-base.en.bin",
        "ggml-tiny.en.bin",
        "ggml-base.bin",
        "ggml-tiny.bin",
        "ggml-small.en.bin",
        "ggml-small.bin",
    ];
    assert(v@.map_values(|s: &'static str| s@) =~= whisper_candidates_spec());
    v
}

/// The model name shown for a Whisper file: the file name without its
/// "ggml-" prefix and ".bin" suffix; a name without the suffix is shown as
/// it is.
pub open spec fn whisper_variant_spec(file: Seq<char>) -> Seq<char> {
    let a = if has_prefix(file, "ggml-"@) {
        file.skip(5)
    } else {
        file
    };
    if has_suffix(a, ".bin"@) {
        a.take(a.len() - 4)
    } else {
        file
    }
}

/// The model name shown for a Whisper file (e.g. "base.en" for "ggml-base.en.bin").
pub fn whisper_variant(file: &str) -> (r: String)
    ensures
        r@ == whisper_variant_spec(file@),
{
    proof {
        reveal_strlit("ggml-");
        reveal_strlit(".bin");
    }
    let c = crate::text::chars_of(file);
    let n = c.len();
    let lo: usize = if starts_with(file, "ggml-") {
        5
    } else {
        0
    };
    let ghost a = if has_prefix(file@, "ggml-"@) {
        file@.skip(5)
    } else {
        file@
    };
    assert(c@.subrange(lo as int, n as int) =~= a);
    if n - lo >= 4 && c[n - 4] == '.' && c[n - 3] == 'b' && c[n - 2] == 'i' && c[n - 1] == 'n' {
        assert(a.subrange(a.len() - 4, a.len() as int) =~= ".bin"@);
        assert(a.take(a.len() - 4) =~= c@.subrange(lo as int, n - 4));
        crate::text::string_of_range(c.as_slice(), lo, n - 4)
    } else {
        assert(".bin"@.len() == 4 && ".bin"@[0] == '.' && ".bin"@[1] == 'b' && ".bin"@[2] == 'i' && ".bin"@[3] == 'n');
        proof {
            if a.len() >= 4 {
                let tail = a.subrange(a.len() - 4, a.len() as int);
                assert(tail =~= c@.subrange(n - 4, n as int));
                assert(tail[0] == c@[n - 4] && tail[1] == c@[n - 3] && tail[2] == c@[n - 2] && tail[3] == c@[n - 1]);
                assert(tail != ".bin"@);
            }
        }
        String::from_str(file)
    }
}

/// The backend a TTS model name belongs to.
pub open spec fn tts_backend_spec(name: Seq<char>) -> Seq<char> {
    if has_prefix(name, "piper"@) {
        "piper"@
    } else if name == "qwen3"@ {
        "qwen3"@
    } else if has_prefix(name, "kokoro"@) {
        "kokoro"@
    } else {
        "tts"@
    }
}

/// The backend a TTS model name belongs to ("piper…", "qwen3", "kokoro…"),
/// "tts" when the name does not tell.
pub fn tts_backend_of(name: &str) -> (r: &'static str)
    ensures
        r@ == tts_backend_spec(name@),
{
    if starts_with(name, "piper") {
        "piper"
    } else if str_eq(name, "qwen3") {
        "qwen3"
    } else if starts_with(name, "kokoro") {
        "kokoro"
    } else {
        "tts"
    }
}

/// Whether the main TTS model (by name) can serve conversations itself:
/// only a Piper model is reused; otherwise Piper is loaded separately.
pub fn reuse_main_tts_for_conversation(tts_model_name: Option<&str>) -> (r: bool)
    ensures
        r == (tts_model_name matches Some(n) && has_prefix(n@, "piper"@)),
{
    match tts_model_name {
        Some(n) => starts_with(n, "piper"),
        None => false,
    }
}

/// Every transcription and synthesis is also counted as a request: the
/// counters keep `requests >= transcriptions + syntheses` from zero on.
pub open spec fn counters_consistent(s: ServerStats) -> bool {
    s.requests >= s.transcriptions + s.syntheses
}

/// Fresh counters are consistent, and each recording keeps them so.
pub proof fn lemma_counters_stay_consistent(s: ServerStats, t: ServerStats)
    requires
        counters_consistent(s),
        ({
            ||| t.requests == s.requests + 1 && t.transcriptions == s.transcriptions && t.syntheses == s.syntheses
            ||| t.requests == s.requests + 1 && t.transcriptions == s.transcriptions + 1 && t.syntheses == s.syntheses
            ||| t.requests == s.requests + 1 && t.transcriptions == s.transcriptions && t.syntheses == s.syntheses + 1
        }),
    ensures
        counters_consistent(t),
        counters_consistent(ServerStats { requests: 0, transcriptions: 0, syntheses: 0 }),
{
}

} // verus!
