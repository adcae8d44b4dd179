//! Configuration defaults and the choices of the configuration wizard.
//!
//! The wizard asks one question at a time; each answer (as typed) is mapped
//! to a setting by the functions here, while reading the answers and writing
//! the file is left to the caller.
use vstd::prelude::*;
use vstd::string::StringExecFns;
use crate::text::{chars_of, concat2, lowercase, str_eq, to_lowercase, trim, trimmed_string};

verus! {

/// Saved defaults for the command-line tool.
#[derive(Debug)]
pub struct VoxConfig {
    pub stt_backend: String,
    pub stt_model: String,
    pub tts_backend: String,
    pub tts_voice: String,
    pub quantization: bool,
}

impl Default for VoxConfig {
    fn default() -> (r: Self)
        ensures
            r.stt_backend@ == "whisper"@,
            r.stt_model@ == "tiny.en"@,
            r.tts_backend@ == "kokoro"@,
            r.tts_voice@ == "af_heart"@,
            !r.quantization,
    {
        VoxConfig {
            stt_backend: String::from_str("whisper"),
            stt_model: String::from_str("tiny.en"),
            tts_backend: String::from_str("kokoro"),
            tts_voice: String::from_str("af_heart"),
            quantization: false,
        }
    }
}

/// An answer as the wizard reads it: trimmed, then lower-cased.
pub open spec fn answer_key(input: Seq<char>) -> Seq<char> {
    lowercase(trim(input))
}

/// The normalised form of a typed answer.
pub fn normalize_answer(input: &str) -> (r: String)
    ensures
        r@ == answer_key(input@),
{
    let c = chars_of(input);
    assert(c@.subrange(0, c@.len() as int) =~= c@);
    let t = trimmed_string(c.as_slice(), 0, c.len());
    to_lowercase(t.as_str())
}

/// Speech-to-text backend chosen by an answer; the default is "whisper".
pub open spec fn stt_backend_for(k: Seq<char>) -> Seq<char> {
    if k == "b"@ || k == "sherpa"@ {
        "sherpa"@
    } else if k == "c"@ || k == "sherpa-streaming"@ {
        "sherpa-streaming"@
    } else {
        "whisper"@
    }
}

/// Maps the answer to the speech-to-text backend question.
pub fn choose_stt_backend(input: &str) -> (r: String)
    ensures
        r@ == stt_backend_for(answer_key(input@)),
{
    let k = normalize_answer(input);
    let k = k.as_str();
    if str_eq(k, "b") || str_eq(k, "sherpa") {
        String::from_str("sherpa")
    } else if str_eq(k, "c") || str_eq(k, "sherpa-streaming") {
        String::from_str("sherpa-streaming")
    } else {
        String::from_str("whisper")
    }
}

/// Whisper model size chosen by an answer; the default is "tiny.en".
pub open spec fn whisper_model_for(k: Seq<char>) -> Seq<char> {
    if k == "b"@ || k == "base"@ {
        "base.en"@
    } else if k == "c"@ || k == "small"@ {
        "small.en"@
    } else {
        "tiny.en"@
    }
}

/// Maps the answer to the Whisper model size question.
pub fn choose_whisper_model(input: &str) -> (r: String)
    ensures
        r@ == whisper_model_for(answer_key(input@)),
{
    let k = normalize_answer(input);
    let k = k.as_str();
    if str_eq(k, "b") || str_eq(k, "base") {
        String::from_str("base.en")
    } else if str_eq(k, "c") || str_eq(k, "small") {
        String::from_str("small.en")
    } else {
        String::from_str("tiny.en")
    }
}

/// Maps the answer to the quantization question: only "y" or "yes" enable it.
pub fn choose_quantization(input: &str) -> (r: bool)
    ensures
        r == (answer_key(input@) == "y"@ || answer_key(input@) == "yes"@),
{
    let k = normalize_answer(input);
    str_eq(k.as_str(), "y") || str_eq(k.as_str(), "yes")
}

/// The model name once quantization is applied.
pub fn quantized_model(model: &str, quantization: bool) -> (r: String)
    ensures
        r@ == (if quantization {
            model@ + "-int8"@
        } else {
            model@
        }),
{
    if quantization {
        concat2(model, "-int8")
    } else {
        String::from_str(model)
    }
}

/// Text-to-speech backend chosen by an answer; the default is "kokoro".
pub open spec fn tts_backend_for(k: Seq<char>) -> Seq<char> {
    if k == "b"@ || k == "piper"@ {
        "piper"@
    } else if k == "c"@ || k == "chatterbox"@ {
        "chatterbox"@
    } else if k == "d"@ || k == "pocket"@ {
        "pocket"@
    } else {
        "kokoro"@
    }
}

/// Maps the answer to the text-to-speech backend question.
pub fn choose_tts_backend(input: &str) -> (r: String)
    ensures
        r@ == tts_backend_for(answer_key(input@)),
{
    let k = normalize_answer(input);
    let k = k.as_str();
    if str_eq(k, "b") || str_eq(k, "piper") {
        String::from_str("piper")
    } else if str_eq(k, "c") || str_eq(k, "chatterbox") {
        String::from_str("chatterbox")
    } else if str_eq(k, "d") || str_eq(k, "pocket") {
        String::from_str("pocket")
    } else {
        String::from_str("kokoro")
    }
}

/// Voice chosen by an answer for a backend: Kokoro and Piper ask, other
/// backends use "default".
pub open spec fn voice_for(backend: Seq<char>, k: Seq<char>) -> Seq<char> {
    if backend == "kokoro"@ {
        if k == "b"@ || k == "sky"@ {
            "af_sky"@
        } else if k == "c"@ || k == "adam"@ {
            "am_adam"@
        } else {
            "af_heart"@
        }
    } else if backend == "piper"@ {
        if k == "b"@ || k == "de"@ {
            "de"@
        } else if k == "c"@ || k == "fr"@ {
            "fr"@
        } else if k == "d"@ || k == "es"@ {
            "es"@
        } else {
            "en"@
        }
    } else {
        "default"@
    }
}

/// Whether the voice question is asked for a backend.
pub fn asks_voice(backend: &str) -> (r: bool)
    ensures
        r == (backend@ == "kokoro"@ || backend@ == "piper"@),
{
    str_eq(backend, "kokoro") || str_eq(backend, "piper")
}

/// Maps the answer to the voice question of `backend`.
pub fn choose_voice(backend: &str, input: &str) -> (r: String)
    ensures
        r@ == voice_for(backend@, answer_key(input@)),
{
    let k = normalize_answer(input);
    let k = k.as_str();
    if str_eq(backend, "kokoro") {
        if str_eq(k, "b") || str_eq(k, "sky") {
            String::from_str("af_sky")
        } else if str_eq(k, "c") || str_eq(k, "adam") {
            String::from_str("am_adam")
        } else {
            String::from_str("af_heart")
        }
    } else if str_eq(backend, "piper") {
        if str_eq(k, "b") || str_eq(k, "de") {
            String::from_str("de")
        } else if str_eq(k, "c") || str_eq(k, "fr") {
            String::from_str("fr")
        } else if str_eq(k, "d") || str_eq(k, "es") {
            String::from_str("es")
        } else {
            String::from_str("en")
        }
    } else {
        String::from_str("default")
    }
}

/// Number of the text-to-speech question: the Whisper questions come first
/// only when Whisper was chosen.
pub fn tts_step(stt_backend: &str) -> (r: u32)
    ensures
        r == (if stt_backend@ == "whisper"@ {
            4u32
        } else {
            2u32
        }),
{
    if str_eq(stt_backend, "whisper") {
        4
    } else {
        2
    }
}

} // verus!
