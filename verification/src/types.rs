//! Core types shared across the voice pipeline.
use vstd::prelude::*;
use vstd::string::StringExecFns;

verus! {

/// Result from speech-to-text transcription.
#[derive(Debug, Clone)]
pub struct SttResult {
    /// The transcribed text.
    pub text: String,
    /// Detected language code (e.g. "en"), if available.
    pub language: Option<String>,
    /// Duration of the source audio in milliseconds.
    pub duration_ms: u64,
    /// Time taken to transcribe, in milliseconds.
    pub processing_time_ms: u64,
}

/// Request to synthesize speech from text.
#[derive(Debug, Clone)]
pub struct TtsRequest {
    /// The text to synthesize.
    pub text: String,
    /// Optional voice identifier.
    pub voice: Option<String>,
    /// Optional seed, for backends whose output is sampled.
    pub seed: Option<u64>,
}

/// A voice offered by a text-to-speech backend.
#[derive(Debug, Clone)]
pub struct VoiceInfo {
    /// Identifier used to select the voice.
    pub id: String,
    /// Display name.
    pub name: String,
    /// "female" or "male".
    pub gender: String,
    /// Language tag, e.g. "en-US".
    pub language: String,
    /// Accent or dialect, e.g. "American".
    pub accent: String,
}

/// A voice as plain values: id, name, gender, language, accent.
pub open spec fn voice_view(v: VoiceInfo) -> (Seq<char>, Seq<char>, Seq<char>, Seq<char>, Seq<char>) {
    (v.id@, v.name@, v.gender@, v.language@, v.accent@)
}

/// A voice built from its fields.
pub fn voice(id: &str, name: &str, gender: &str, language: &str, accent: &str) -> (r: VoiceInfo)
    ensures
        voice_view(r) == (id@, name@, gender@, language@, accent@),
{
    VoiceInfo {
        id: String::from_str(id),
        name: String::from_str(name),
        gender: String::from_str(gender),
        language: String::from_str(language),
        accent: String::from_str(accent),
    }
}

} // verus!
