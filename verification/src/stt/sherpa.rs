//! Sherpa-ONNX offline model variants and configuration.
use vstd::prelude::*;
use std::path::PathBuf;
use crate::error::VoxError;
use crate::stt::first_missing;

verus! {

/// Supported model architectures for the Sherpa-ONNX offline recognizer.
#[derive(Debug)]
pub enum SherpaModel {
    /// SenseVoice model (single ONNX file + tokens).
    SenseVoice { model: PathBuf, tokens: PathBuf, language: Option<String> },
    /// Whisper model exported for sherpa-onnx (encoder + decoder + tokens).
    Whisper { encoder: PathBuf, decoder: PathBuf, tokens: PathBuf, language: Option<String> },
    /// Paraformer model (single ONNX file + tokens).
    Paraformer { model: PathBuf, tokens: PathBuf },
    /// Zipformer transducer model (encoder + decoder + joiner + tokens).
    Transducer { encoder: PathBuf, decoder: PathBuf, joiner: PathBuf, tokens: PathBuf },
}

/// Configuration for the Sherpa-ONNX STT backend.
#[derive(Debug)]
pub struct SherpaConfig {
    /// The model variant and its file paths.
    pub model: SherpaModel,
    /// Number of CPU threads for inference.
    pub num_threads: i32,
    /// Execution provider, e.g. "cpu".
    pub provider: String,
    /// Decoding method, e.g. "greedy_search".
    pub decoding_method: String,
}

/// The files a model variant needs, in the order they are checked.
pub open spec fn sherpa_model_files(m: SherpaModel) -> Seq<PathBuf> {
    match m {
        SherpaModel::SenseVoice { model, tokens, .. } => seq![model, tokens],
        SherpaModel::Whisper { encoder, decoder, tokens, .. } => seq![encoder, decoder, tokens],
        SherpaModel::Paraformer { model, tokens } => seq![model, tokens],
        SherpaModel::Transducer { encoder, decoder, joiner, tokens } => seq![encoder, decoder, joiner, tokens],
    }
}

impl SherpaModel {
    /// The files this variant needs.
    pub fn files(&self) -> (r: Vec<&PathBuf>)
        ensures
            r@.len() == sherpa_model_files(*self).len(),
            forall|i: int| 0 <= i < r@.len() ==> *r@[i] == sherpa_model_files(*self)[i],
    {
        let mut v: Vec<&PathBuf> = Vec::new();
        match self {
            SherpaModel::SenseVoice { model, tokens, .. } => {
                v.push(model);
                v.push(tokens);
            },
            SherpaModel::Whisper { encoder, decoder, tokens, .. } => {
                v.push(encoder);
                v.push(decoder);
                v.push(tokens);
            },
            SherpaModel::Paraformer { model, tokens } => {
                v.push(model);
                v.push(tokens);
            },
            SherpaModel::Transducer { encoder, decoder, joiner, tokens } => {
                v.push(encoder);
                v.push(decoder);
                v.push(joiner);
                v.push(tokens);
            },
        }
        v
    }
}

/// Checks that every file the variant needs exists (by `file_exists`, in order);
/// the first missing one is reported as `ModelNotFound`.
pub fn validate_model_paths<F: Fn(&PathBuf) -> bool>(model: &SherpaModel, file_exists: &F) -> (r: Result<(), VoxError>)
    requires
        forall|p: &PathBuf| file_exists.requires((p,)),
    ensures
        r is Ok ==> forall|i: int| 0 <= i < sherpa_model_files(*model).len()
            ==> file_exists.ensures((&sherpa_model_files(*model)[i],), true),
        r is Err ==> exists|i: int| {
            &&& 0 <= i < sherpa_model_files(*model).len()
            &&& r == Err::<(), VoxError>(VoxError::ModelNotFound(sherpa_model_files(*model)[i]))
            &&& file_exists.ensures((&sherpa_model_files(*model)[i],), false)
            &&& forall|j: int| 0 <= j < i ==> file_exists.ensures((&sherpa_model_files(*model)[j],), true)
        },
{
    let files = model.files();
    first_missing(&files, file_exists)
}

} // verus!
