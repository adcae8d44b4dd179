//! Text-to-speech support that is independent of any synthesis engine:
//! sentence splitting and the voice catalogues of the supported models.
pub mod chatterbox;
pub mod kokoro;
pub mod pocket;
pub mod qwen3;
pub mod streaming;
