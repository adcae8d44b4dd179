//! Vox: verified core logic of a local-first voice AI framework.
pub mod text;
pub mod streaming_chat;
pub mod tts;
pub mod prompts;
pub mod system_profile;
pub mod cli;
pub mod server;
pub mod capabilities;
pub mod error;
pub mod types;
pub mod engine;
pub mod streaming_pipeline;
pub mod stt;
pub mod diarization;
pub mod intelligence;
pub mod vad;
pub mod model_cache;
pub mod audio;
