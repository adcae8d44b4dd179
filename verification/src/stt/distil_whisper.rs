//! Distil-Whisper model sizes and configuration.
use vstd::prelude::*;
use std::path::PathBuf;

verus! {

/// Distil-Whisper model size.
#[derive(Debug, Clone, Copy, PartialEq, Eq, Structural)]
pub enum DistilWhisperModel {
    Tiny,
    TinyEn,
    Base,
    BaseEn,
    Small,
    SmallEn,
    Medium,
    MediumEn,
}

/// Configuration for the Distil-Whisper STT backend.
#[derive(Debug)]
pub struct DistilWhisperConfig {
    /// Path to the Distil-Whisper GGML model file.
    pub model_path: PathBuf,
    /// Language code (e.g. "en"); `None` detects it.
    pub language: Option<String>,
    /// Whether to translate to English.
    pub translate: bool,
    /// Number of CPU threads.
    pub n_threads: i32,
}

/// The file name of a model size inside a models directory.
pub open spec fn distil_file_for(m: DistilWhisperModel) -> Seq<char> {
    match m {
        DistilWhisperModel::Tiny => "ggml-distil-tiny.bin"@,
        DistilWhisperModel::TinyEn => "ggml-distil-tiny.en.bin"@,
        DistilWhisperModel::Base => "ggml-distil-base.bin"@,
        DistilWhisperModel::BaseEn => "ggml-distil-base.en.bin"@,
        DistilWhisperModel::Small => "ggml-distil-small.bin"@,
        DistilWhisperModel::SmallEn => "ggml-distil-small.en.bin"@,
        DistilWhisperModel::Medium => "ggml-distil-medium.bin"@,
        DistilWhisperModel::MediumEn => "ggml-distil-medium.en.bin"@,
    }
}

impl DistilWhisperModel {
    /// The file this model size is stored in.
    pub fn filename(&self) -> (r: &'static str)
        ensures
            r@ == distil_file_for(*self),
    {
        match self {
            DistilWhisperModel::Tiny => "ggml-distil-tiny.bin",
            DistilWhisperModel::TinyEn => "ggml-distil-tiny.en.bin",
            DistilWhisperModel::Base => "ggml-distil-base.bin",
            DistilWhisperModel::BaseEn => "ggml-distil-base.en.bin",
            DistilWhisperModel::Small => "ggml-distil-small.bin",
            DistilWhisperModel::SmallEn => "ggml-distil-small.en.bin",
            DistilWhisperModel::Medium => "ggml-distil-medium.bin",
            DistilWhisperModel::MediumEn => "ggml-distil-medium.en.bin",
        }
    }
}

impl DistilWhisperConfig {
    /// The configuration used for a model file loaded directly: detected
    /// language, no translation, four threads.
    pub fn for_model(model_path: PathBuf) -> (r: Self)
        ensures
            r.model_path == model_path,
            r.language is None,
            !r.translate,
            r.n_threads == 4,
    {
        DistilWhisperConfig { model_path, language: None, translate: false, n_threads: 4 }
    }
}

} // verus!
