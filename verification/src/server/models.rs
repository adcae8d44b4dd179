//! Request and response types of the HTTP and WebSocket API, and the
//! session settings of a live-talk connection.
use vstd::prelude::*;
use vstd::string::StringExecFns;
use crate::prompts::{build_system_prompt, prompt_for, VoicePromptMode};

verus! {

/// Response from the transcription endpoint.
#[derive(Debug)]
pub struct TranscribeResponse {
    pub text: String,
    pub language: Option<String>,
    pub duration_ms: u64,
    pub processing_time_ms: u64,
}

/// Request body for the synthesis endpoint.
#[derive(Debug)]
pub struct SynthesizeRequest {
    pub text: String,
    pub voice: Option<String>,
    pub seed: Option<u64>,
}

/// Response listing available backends.
#[derive(Debug)]
pub struct ModelsResponse {
    pub stt: Option<BackendInfo>,
    pub tts: Option<BackendInfo>,
    pub streaming_stt: Option<BackendInfo>,
    pub ollama: Option<OllamaStatus>,
}

/// Ollama connectivity status.
#[derive(Debug)]
pub struct OllamaStatus {
    pub connected: bool,
    pub host: String,
    pub model_count: usize,
}

/// Info about a loaded backend.
#[derive(Debug)]
pub struct BackendInfo {
    pub name: String,
    pub loaded: bool,
    pub model: Option<String>,
    pub size_mb: Option<u64>,
}

/// Server statistics response.
#[derive(Debug)]
pub struct StatsResponse {
    pub requests: u64,
    pub transcriptions: u64,
    pub syntheses: u64,
    pub uptime_secs: u64,
}

/// Health check response.
#[derive(Debug)]
pub struct HealthResponse {
    pub status: String,
}

/// Request body for the chat endpoint (Ollama proxy).
#[derive(Debug)]
pub struct ChatRequest {
    pub text: String,
    pub model: Option<String>,
    pub host: Option<String>,
}

/// Response from the chat endpoint.
#[derive(Debug)]
pub struct ChatResponse {
    pub response: String,
    pub model: String,
}

/// Response listing available TTS voices.
#[derive(Debug)]
pub struct VoicesResponse {
    pub voices: Vec<VoiceInfo>,
}

/// Info about a TTS voice.
#[derive(Debug)]
pub struct VoiceInfo {
    pub id: String,
    pub name: String,
    pub gender: String,
    pub language: String,
    pub accent: String,
    pub backend: String,
}

/// Response listing available Ollama models.
#[derive(Debug)]
pub struct OllamaModelsResponse {
    pub models: Vec<OllamaModelInfo>,
}

/// Info about an available Ollama model.
#[derive(Debug)]
pub struct OllamaModelInfo {
    pub name: String,
    pub size: Option<u64>,
}

/// Request from client on the `/v1/speak` WebSocket.
#[derive(Debug)]
pub struct SpeakWsRequest {
    pub text: String,
    pub voice: Option<String>,
}

/// Optional configuration sent by the client on the first JSON text message
/// of the `/v1/converse` WebSocket; absent fields take the server's defaults.
#[derive(Debug)]
pub struct ConverseConfig {
    /// Ollama model name. Defaults to `llama3.2`.
    pub model: Option<String>,
    /// Ollama host (`host:port`). Defaults to the server's configured host.
    pub host: Option<String>,
    /// TTS voice id. Defaults to the backend's default voice.
    pub voice: Option<String>,
}

impl Default for ConverseConfig {
    fn default() -> (r: Self)
        ensures
            r.model is None,
            r.host is None,
            r.voice is None,
    {
        ConverseConfig { model: None, host: None, voice: None }
    }
}

/// Events sent from server to client on the `/v1/converse` WebSocket:
/// handshake, speech boundaries, transcript, LLM progress, one sentence with
/// its audio (base64 WAV), end of turn, error.
#[derive(Debug)]
pub enum ConverseWsEvent {
    Ready { model: String, voice: Option<String> },
    SpeechStart,
    SpeechEnd,
    Transcript { text: String, duration_ms: u64, processing_time_ms: u64 },
    Thinking,
    Sentence { index: usize, text: String, audio_b64: String, sample_rate: u32 },
    Done { sentences: usize },
    Error { message: String },
}

/// VAD or push-to-talk segmentation mode.
#[derive(Debug, Clone, Copy, PartialEq, Eq, Structural)]
pub enum LiveTalkMode {
    Vad,
    PushToTalk,
}

/// Why a turn was cancelled.
#[derive(Debug, Clone, Copy, PartialEq, Eq, Structural)]
pub enum CancelReason {
    UserBargeIn,
    ClientRequest,
    InternalError,
}

/// The mode as the client sends it; `Vad` when absent.
#[derive(Debug, Clone, Copy, PartialEq, Eq, Structural)]
pub enum LiveTalkModeConfig {
    Vad,
    PushToTalk,
}

impl Default for LiveTalkModeConfig {
    fn default() -> (r: Self)
        ensures
            r == LiveTalkModeConfig::Vad,
    {
        LiveTalkModeConfig::Vad
    }
}

/// The mode a client setting selects.
pub open spec fn mode_of(m: LiveTalkModeConfig) -> LiveTalkMode {
    match m {
        LiveTalkModeConfig::Vad => LiveTalkMode::Vad,
        LiveTalkModeConfig::PushToTalk => LiveTalkMode::PushToTalk,
    }
}

impl From<LiveTalkModeConfig> for LiveTalkMode {
    fn from(m: LiveTalkModeConfig) -> (r: Self) {
        match m {
            LiveTalkModeConfig::Vad => LiveTalkMode::Vad,
            LiveTalkModeConfig::PushToTalk => LiveTalkMode::PushToTalk,
        }
    }
}

impl vstd::std_specs::convert::FromSpecImpl<LiveTalkModeConfig> for LiveTalkMode {
    open spec fn obeys_from_spec() -> bool {
        true
    }

    open spec fn from_spec(v: LiveTalkModeConfig) -> LiveTalkMode {
        mode_of(v)
    }
}

/// Client config for a `/v1/live-talk` session.
#[derive(Debug)]
pub struct LiveTalkConfig {
    pub model: Option<String>,
    pub host: Option<String>,
    pub voice: Option<String>,
    pub mode: LiveTalkModeConfig,
    pub barge_in_enabled: bool,
    pub system_prompt_override: Option<String>,
}

/// Default of `barge_in_enabled` when the client leaves it out.
pub fn default_true() -> (r: bool)
    ensures
        r,
{
    true
}

impl LiveTalkConfig {
    /// The configuration used when the client sends none: every field
    /// absent, voice-activity mode, barge-in on.
    pub fn defaults() -> (r: Self)
        ensures
            r.model is None,
            r.host is None,
            r.voice is None,
            r.mode == LiveTalkModeConfig::Vad,
            r.barge_in_enabled,
            r.system_prompt_override is None,
    {
        LiveTalkConfig {
            model: None,
            host: None,
            voice: None,
            mode: LiveTalkModeConfig::default(),
            barge_in_enabled: default_true(),
            system_prompt_override: None,
        }
    }
}

/// Client commands for `/v1/live-talk`.
#[derive(Debug)]
pub enum LiveTalkClientMsg {
    Config(LiveTalkConfig),
    Cancel,
    PttStart,
    PttEnd,
}

/// The Ollama model used when the client names none.
pub const DEFAULT_CHAT_MODEL: &'static str = "llama3.2";

/// The settings a live-talk session runs with.
#[derive(Debug)]
pub struct LiveTalkSettings {
    pub model: String,
    pub host: String,
    pub voice: Option<String>,
    pub mode: LiveTalkMode,
    pub barge_in_enabled: bool,
    pub system_prompt: String,
}

/// The text of an optional string, or `d`.
pub open spec fn or_default(o: Option<String>, d: Seq<char>) -> Seq<char> {
    match o {
        Some(s) => s@,
        None => d,
    }
}

/// `after` is `before` after a configuration message `config`: a model or voice
/// it names replaces the current one, its mode always applies, and host,
/// barge-in and system prompt stay as they were.
pub open spec fn settings_updated(before: LiveTalkSettings, after: LiveTalkSettings, config: LiveTalkConfig) -> bool {
    &&& after.model@ == or_default(config.model, before.model@)
    &&& after.voice == (match config.voice {
        Some(v) => Some(v),
        None => before.voice,
    })
    &&& after.mode == mode_of(config.mode)
    &&& after.host == before.host
    &&& after.barge_in_enabled == before.barge_in_enabled
    &&& after.system_prompt == before.system_prompt
}

impl LiveTalkSettings {
    /// Settings for a new session: the client's values where given, else
    /// the default model, the server's Ollama host, and the voice prompt.
    pub fn from_config(config: LiveTalkConfig, server_host: &str) -> (r: Self)
        ensures
            r.model@ == or_default(config.model, DEFAULT_CHAT_MODEL@),
            r.host@ == or_default(config.host, server_host@),
            r.voice == config.voice,
            r.mode == mode_of(config.mode),
            r.barge_in_enabled == config.barge_in_enabled,
            r.system_prompt@ == or_default(config.system_prompt_override, prompt_for(VoicePromptMode::Voice)),
    {
        let model = match config.model {
            Some(m) => m,
            None => String::from_str(DEFAULT_CHAT_MODEL),
        };
        let host = match config.host {
            Some(h) => h,
            None => String::from_str(server_host),
        };
        let system_prompt = match config.system_prompt_override {
            Some(p) => p,
            None => build_system_prompt(VoicePromptMode::Voice),
        };
        LiveTalkSettings {
            model,
            host,
            voice: config.voice,
            mode: LiveTalkMode::from(config.mode),
            barge_in_enabled: config.barge_in_enabled,
            system_prompt,
        }
    }

    /// A configuration message in the middle of a session: a model or voice
    /// that it names replaces the current one, and its mode always applies;
    /// host, barge-in and system prompt stay as they were.
    pub fn apply_update(&mut self, config: LiveTalkConfig)
        ensures
            final(self).model@ == or_default(config.model, old(self).model@),
            final(self).voice == (match config.voice {
                Some(v) => Some(v),
                None => old(self).voice,
            }),
            final(self).mode == mode_of(config.mode),
            final(self).host == old(self).host,
            final(self).barge_in_enabled == old(self).barge_in_enabled,
            final(self).system_prompt == old(self).system_prompt,
            settings_updated(*old(self), *final(self), config),
    {
        if let Some(m) = config.model {
            self.model = m;
        }
        if let Some(v) = config.voice {
            self.voice = Some(v);
        }
        self.mode = LiveTalkMode::from(config.mode);
    }
}

/// The settings a converse session runs with.
#[derive(Debug)]
pub struct ConverseSettings {
    pub model: String,
    pub host: String,
    pub voice: Option<String>,
}

impl ConverseConfig {
    /// The session's settings: the client's values where given, else the
    /// default model and the server's Ollama host; no voice means the
    /// backend's default voice.
    pub fn settings(self, server_host: &str) -> (r: ConverseSettings)
        ensures
            r.model@ == or_default(self.model, DEFAULT_CHAT_MODEL@),
            r.host@ == or_default(self.host, server_host@),
            r.voice == self.voice,
    {
        let model = match self.model {
            Some(m) => m,
            None => String::from_str(DEFAULT_CHAT_MODEL),
        };
        let host = match self.host {
            Some(h) => h,
            None => String::from_str(server_host),
        };
        ConverseSettings { model, host, voice: self.voice }
    }
}

} // verus!
