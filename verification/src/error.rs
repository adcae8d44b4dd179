//! Errors of the voice pipeline.
use vstd::prelude::*;
use vstd::string::StringExecFns;
use crate::text::push_str;

verus! {

/// A file-system path (`std::path::PathBuf`), carried through unread.
#[verifier::external_type_specification]
#[verifier::external_body]
pub struct ExPathBuf(std::path::PathBuf);

/// An I/O error (`std::io::Error`), carried through unread.
#[verifier::external_type_specification]
#[verifier::external_body]
pub struct ExIoError(std::io::Error);

/// Errors that can occur in the voice pipeline.
#[derive(Debug)]
pub enum VoxError {
    /// Audio device or capture error.
    Audio(String),
    /// Voice activity detection error.
    Vad(String),
    /// Speech-to-text error.
    Stt(String),
    /// Text-to-speech error.
    Tts(String),
    /// No STT backend was configured.
    NoStt,
    /// No VAD backend was configured.
    NoVad,
    /// A required model file was not found.
    ModelNotFound(std::path::PathBuf),
    /// General pipeline error.
    Pipeline(String),
    /// Speaker identification error.
    Diarization(String),
    /// A model file did not match its published checksum.
    IntegrityCheckFailed(String),
    /// I/O error.
    Io(std::io::Error),
}

/// The path as text (`std::path::Path::display`, non-UTF-8 bytes replaced).
/// Nothing is stated of the text.
#[verifier::external_body]
fn path_text(p: &std::path::PathBuf) -> String {
    p.display().to_string()
}

/// The message of an I/O error (its `Display`). Nothing is stated of the text.
#[verifier::external_body]
fn io_error_text(e: &std::io::Error) -> String {
    e.to_string()
}

/// `prefix` followed by `s`.
fn prefixed(prefix: &str, s: &String) -> (r: String)
    ensures
        r@ == prefix@ + s@,
{
    let mut out = String::from_str(prefix);
    push_str(&mut out, s.as_str());
    out
}

/// The message of an error whose text is fully determined by its fields;
/// `None` for a missing model file and an I/O error, whose text comes from
/// the path or the operating system.
pub open spec fn message_spec(e: VoxError) -> Option<Seq<char>> {
    match e {
        VoxError::Audio(s) => Some("audio device error: "@ + s@),
        VoxError::Vad(s) => Some("VAD error: "@ + s@),
        VoxError::Stt(s) => Some("STT error: "@ + s@),
        VoxError::Tts(s) => Some("TTS error: "@ + s@),
        VoxError::NoStt => Some("no STT backend configured"@),
        VoxError::NoVad => Some("no VAD backend configured"@),
        VoxError::ModelNotFound(_) => None,
        VoxError::Pipeline(s) => Some("pipeline error: "@ + s@),
        VoxError::Diarization(s) => Some("diarization error: "@ + s@),
        VoxError::IntegrityCheckFailed(s) => Some("integrity check failed: "@ + s@),
        VoxError::Io(_) => None,
    }
}

impl VoxError {
    /// The human-readable message of the error.
    pub fn message(&self) -> (r: String)
        ensures
            message_spec(*self) matches Some(m) ==> r@ == m,
            self is ModelNotFound ==> exists|p: Seq<char>| r@ == "model not found: "@ + p,
    {
        match self {
            VoxError::Audio(s) => prefixed("audio device error: ", s),
            VoxError::Vad(s) => prefixed("VAD error: ", s),
            VoxError::Stt(s) => prefixed("STT error: ", s),
            VoxError::Tts(s) => prefixed("TTS error: ", s),
            VoxError::NoStt => String::from_str("no STT backend configured"),
            VoxError::NoVad => String::from_str("no VAD backend configured"),
            VoxError::ModelNotFound(p) => {
                let t = path_text(p);
                prefixed("model not found: ", &t)
            },
            VoxError::Pipeline(s) => prefixed("pipeline error: ", s),
            VoxError::Diarization(s) => prefixed("diarization error: ", s),
            VoxError::IntegrityCheckFailed(s) => prefixed("integrity check failed: ", s),
            VoxError::Io(e) => io_error_text(e),
        }
    }
}

} // verus!
