use vox::cli::models::{piper_alias_of_lowered, piper_voice_alias};
use vox::intelligence::cache::{normalize, normalize_lowered};
use vox::intelligence::voice_memory::VoiceMemoryBuilder as Vmb;
use vox::diarization::embedding::{check_audio_duration, check_embedding_dim};
use vox::diarization::pipeline::DiarizationConfig;
use vox::engine::{whole_frames, PipelineAction, PipelineEvent, PipelineState};
use vox::types::SttResult;
use vox::intelligence::voice_memory::{welcome_message, SpeakerInfo};
use vox::server::error::ServerError;
use std::path::PathBuf;
use vox::error::VoxError;
use vox::intelligence::cache::SemanticCacheConfig;
use vox::intelligence::voice_memory::VoiceMemoryBuilder;
use vox::model_cache::CacheKey;
use vox::stt::distil_whisper::{DistilWhisperConfig, DistilWhisperModel};
use vox::stt::sherpa::{validate_model_paths, SherpaModel};
use vox::stt::sherpa_streaming::{self, SherpaStreamingModel};

#[test]
fn error_messages() {
    assert_eq!(VoxError::Stt("boom".into()).message(), "STT error: boom");
    assert_eq!(VoxError::NoVad.message(), "no VAD backend configured");
    assert_eq!(VoxError::Audio("x".into()).message(), "audio device error: x");
    let m = VoxError::ModelNotFound(PathBuf::from("/m/x.onnx")).message();
    assert_eq!(m, "model not found: /m/x.onnx");
}

#[test]
fn sherpa_paths_checked_in_order() {
    let model = SherpaModel::Whisper {
        encoder: PathBuf::from("enc"),
        decoder: PathBuf::from("dec"),
        tokens: PathBuf::from("tok"),
        language: None,
    };
    assert!(validate_model_paths(&model, &|_p: &PathBuf| true).is_ok());
    match validate_model_paths(&model, &|p: &PathBuf| p.as_os_str() != "dec") {
        Err(VoxError::ModelNotFound(p)) => assert_eq!(p, PathBuf::from("dec")),
        other => panic!("unexpected {:?}", other),
    }
    let streaming = SherpaStreamingModel::Paraformer {
        encoder: PathBuf::from("e"),
        decoder: PathBuf::from("d"),
        tokens: PathBuf::from("t"),
    };
    assert_eq!(streaming.files().len(), 3);
    match sherpa_streaming::validate_model_paths(&streaming, &|_p: &PathBuf| false) {
        Err(VoxError::ModelNotFound(p)) => assert_eq!(p, PathBuf::from("e")),
        other => panic!("unexpected {:?}", other),
    }
}

#[test]
fn distil_model_files() {
    assert_eq!(DistilWhisperModel::MediumEn.filename(), "ggml-distil-medium.en.bin");
    assert_eq!(DistilWhisperModel::Tiny.filename(), "ggml-distil-tiny.bin");
    let c = DistilWhisperConfig::for_model(PathBuf::from("m.bin"));
    assert_eq!(c.n_threads, 4);
    assert!(!c.translate);
}

#[test]
fn voice_memory_builder() {
    let b = VoiceMemoryBuilder::default();
    assert!(b.auto_enrollment_enabled());
    assert!(b.welcome_messages_enabled());
    assert_eq!(b.cache_settings().max_entries, 1000);
    let cfg = SemanticCacheConfig { max_entries: 5, ttl_ms: 10, enable_metrics: false };
    let b = b.cache_config(cfg).auto_enrollment(false).welcome_messages(false);
    assert!(!b.auto_enrollment_enabled());
    assert!(!b.welcome_messages_enabled());
    assert_eq!(b.cache_settings().ttl_ms, 10);
    let d = SemanticCacheConfig::default();
    assert_eq!(d.ttl_ms, 3_600_000);
}

#[test]
fn cache_keys() {
    let k = CacheKey::stt("/models/ggml-base.en.bin");
    assert_eq!(k.kind, "stt");
    assert_eq!(k.identifier, "/models/ggml-base.en.bin");
    assert_eq!(CacheKey::tts("v").kind, "tts");
}

fn info(name: Option<&str>, conversations: u64) -> SpeakerInfo {
    SpeakerInfo {
        speaker_id: "user123".to_string(),
        display_name: name.map(|n| n.to_string()),
        total_conversations: conversations,
        last_interaction: None,
        preferences_count: 0,
    }
}

#[test]
fn welcome_messages_follow_the_conversation_count() {
    assert_eq!(welcome_message("user123", None), "Hello!");
    assert_eq!(
        welcome_message("user123", Some(&info(Some("Alice"), 0))),
        "Welcome, Alice! It's great to meet you."
    );
    assert_eq!(welcome_message("user123", Some(&info(None, 1))), "Welcome back, user123!");
    assert_eq!(welcome_message("user123", Some(&info(Some("Alice"), 4))), "Welcome back, Alice!");
    assert_eq!(
        welcome_message("user123", Some(&info(Some("Alice"), 5))),
        "Hello again, Alice! Nice to see you."
    );
}

#[test]
fn server_errors_map_to_statuses() {
    let e = ServerError::from_error(&VoxError::NoStt);
    assert_eq!(e.status(), 503);
    assert_eq!(e.message(), "no STT backend configured");
    assert_eq!(ServerError::from_error(&VoxError::NoVad).status(), 503);
    let e = ServerError::from_error(&VoxError::Tts("boom".to_string()));
    assert_eq!(e.status(), 500);
    assert_eq!(e.message(), "TTS error: boom");
    assert_eq!(ServerError::from_error(&VoxError::Audio("x".to_string())).status(), 500);
    let e = ServerError::bad_request("missing text");
    assert_eq!(e.status(), 400);
    assert_eq!(e.message(), "missing text");
    assert_eq!(ServerError::service_unavailable("no tts").status(), 503);
}

#[test]
fn pipeline_steps() {
    use_pipeline();
}

fn result(t: &str) -> SttResult {
    SttResult { text: t.to_string(), language: None, duration_ms: 100, processing_time_ms: 5 }
}

fn use_pipeline() {
    assert_eq!(whole_frames(1000, 512), 1);
    assert_eq!(whole_frames(1024, 512), 2);
    assert_eq!(whole_frames(100, 512), 0);

    let mut p = PipelineState::new(true);
    assert!(matches!(p.step(PipelineEvent::SpeechStart), PipelineAction::OpenSession));
    assert!(matches!(p.step(PipelineEvent::SessionOpened(true)), PipelineAction::Nothing));
    assert!(matches!(p.step(PipelineEvent::Partial(Some("he".into()))), PipelineAction::ReportPartial(t) if t == "he"));
    assert!(matches!(p.step(PipelineEvent::SpeechEnd), PipelineAction::FinishSession));
    assert!(!p.session_open);
    assert!(matches!(p.step(PipelineEvent::SessionFinished(None)), PipelineAction::TranscribeBatch));
    assert!(matches!(p.step(PipelineEvent::Transcribed(result("hello"))), PipelineAction::Deliver(r) if r.text == "hello"));
    assert_eq!(p.utterances, 1);
    assert!(matches!(p.step(PipelineEvent::Transcribed(result(""))), PipelineAction::Nothing));
    assert_eq!(p.utterances, 1);

    let mut q = PipelineState::new(false);
    assert!(matches!(q.step(PipelineEvent::SpeechStart), PipelineAction::Nothing));
    assert!(matches!(q.step(PipelineEvent::SpeechEnd), PipelineAction::TranscribeBatch));
    q.step(PipelineEvent::SessionOpened(true));
    q.step(PipelineEvent::PushFailed);
    assert!(matches!(q.step(PipelineEvent::SpeechEnd), PipelineAction::TranscribeBatch));
    assert!(matches!(q.step(PipelineEvent::SessionFinished(Some(result("x")))), PipelineAction::Deliver(_)));
}

#[test]
fn case_insensitive_lookups_and_plans() {
    assert_eq!(piper_alias_of_lowered("german".to_string()), "piper-de");
    assert_eq!(piper_voice_alias("GERMAN"), "piper-de");
    assert_eq!(normalize_lowered("what, um, is it?"), "what is it");
    assert_eq!(normalize("WHAT, Um, IS IT?"), "what is it");
    let b = Vmb::default();
    let p = b.plan_interaction(None, false);
    assert_eq!(p.speaker_id, "anonymous");
    assert!(p.enroll && !p.welcome);
    let p = b.plan_interaction(Some("u1"), true);
    assert_eq!(p.speaker_id, "u1");
    assert!(!p.enroll && p.welcome);
    let p = b.auto_enrollment(false).welcome_messages(false).plan_interaction(Some("u1"), false);
    assert!(!p.enroll && !p.welcome);
}

#[test]
fn embedding_duration_and_labels() {
    assert_eq!(check_audio_duration(16000, 16000).unwrap(), 1000);
    match check_audio_duration(8000, 16000) {
        Err(VoxError::Diarization(m)) => assert_eq!(m, "audio too short for embedding extraction: 500ms (minimum: 800ms)"),
        other => panic!("unexpected {other:?}"),
    }
    match check_audio_duration(16000 * 31, 16000) {
        Err(VoxError::Diarization(m)) => assert_eq!(m, "audio too long for embedding extraction: 31000ms (maximum: 30000ms)"),
        other => panic!("unexpected {other:?}"),
    }
    assert!(check_embedding_dim(512, 512).is_ok());
    match check_embedding_dim(512, 256) {
        Err(VoxError::Diarization(m)) => assert_eq!(m, "unexpected embedding dimension: expected 512, got 256"),
        other => panic!("unexpected {other:?}"),
    }
    let c = DiarizationConfig::default();
    assert_eq!(c.label_before_identification(100).as_deref(), Some("unknown"));
    assert!(c.label_before_identification(900).is_none());
}
