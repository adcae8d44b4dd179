//! Sherpa-ONNX streaming (online) model variants.
use vstd::prelude::*;
use std::path::PathBuf;
use crate::error::VoxError;
use crate::stt::first_missing;

verus! {

/// Supported streaming model architectures.
#[derive(Debug)]
pub enum SherpaStreamingModel {
    /// Transducer model (encoder + decoder + joiner + tokens).
    Transducer { encoder: PathBuf, decoder: PathBuf, joiner: PathBuf, tokens: PathBuf },
    /// Paraformer streaming model (encoder + decoder + tokens).
    Paraformer { encoder: PathBuf, decoder: PathBuf, tokens: PathBuf },
}

/// The files a streaming variant needs, in the order they are checked.
pub open spec fn streaming_model_files(m: SherpaStreamingModel) -> Seq<PathBuf> {
    match m {
        SherpaStreamingModel::Transducer { encoder, decoder, joiner, tokens } => seq![encoder, decoder, joiner, tokens],
        SherpaStreamingModel::Paraformer { encoder, decoder, tokens } => seq![encoder, decoder, tokens],
    }
}

impl SherpaStreamingModel {
    /// The files this variant needs.
    pub fn files(&self) -> (r: Vec<&PathBuf>)
        ensures
            r@.len() == streaming_model_files(*self).len(),
            forall|i: int| 0 <= i < r@.len() ==> *r@[i] == streaming_model_files(*self)[i],
    {
        let mut v: Vec<&PathBuf> = Vec::new();
        match self {
            SherpaStreamingModel::Transducer { encoder, decoder, joiner, tokens } => {
                v.push(encoder);
                v.push(decoder);
                v.push(joiner);
                v.push(tokens);
            },
            SherpaStreamingModel::Paraformer { encoder, decoder, tokens } => {
                v.push(encoder);
                v.push(decoder);
                v.push(tokens);
            },
        }
        v
    }
}

/// Checks that every file the variant needs exists (by `file_exists`, in
/// order); the first missing one is reported as `ModelNotFound`.
pub fn validate_model_paths<F: Fn(&PathBuf) -> bool>(model: &SherpaStreamingModel, file_exists: &F) -> (r: Result<(), VoxError>)
    requires
        forall|p: &PathBuf| file_exists.requires((p,)),
    ensures
        r is Ok ==> forall|i: int| 0 <= i < streaming_model_files(*model).len()
            ==> file_exists.ensures((&streaming_model_files(*model)[i],), true),
        r is Err ==> exists|i: int| {
            &&& 0 <= i < streaming_model_files(*model).len()
            &&& r == Err::<(), VoxError>(VoxError::ModelNotFound(streaming_model_files(*model)[i]))
            &&& file_exists.ensures((&streaming_model_files(*model)[i],), false)
            &&& forall|j: int| 0 <= j < i ==> file_exists.ensures((&streaming_model_files(*model)[j],), true)
        },
{
    let files = model.files();
    first_missing(&files, file_exists)
}

} // verus!
