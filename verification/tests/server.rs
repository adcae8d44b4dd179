use vox::server::ws::{first_speech_end, llm_tts_error_message, still_draining};
use vox::vad::silero::SegmentEvent;
use vox::server::live_talk::{on_transcript, speaks, stt_failure, StopOutcome, TurnEnd, TurnProgress, TurnStart};
use vox::server::ws::{invalid_request_message, session_error_message, speak_request, tts_error_message, wav_error_message, SpeakProgress};
use vox::server::handlers::wav_duration_ms;
use vox::server::listen::{
    enrolled_new_speaker, forget_error_message, rename_error_message, speaker_label, streaming_transcript,
    stt_error_message, vad_error_message, ConfigReply, ListenSession, DIARIZATION_UNAVAILABLE,
};
use vox::types::SttResult;
use vox::server::models::{
    default_true, LiveTalkConfig, LiveTalkMode, LiveTalkModeConfig, LiveTalkSettings, ModelsResponse, OllamaStatus,
    ConverseConfig,
};
use vox::server::ws::{base64_encode, color_for};
use vox::server::ServerStats;

#[test]
fn base64_matches_the_standard_alphabet() {
    assert_eq!(base64_encode(b""), "");
    assert_eq!(base64_encode(b"f"), "Zg==");
    assert_eq!(base64_encode(b"fo"), "Zm8=");
    assert_eq!(base64_encode(b"foo"), "Zm9v");
    assert_eq!(base64_encode(b"foobar"), "Zm9vYmFy");
    assert_eq!(base64_encode(&[0xfb, 0xff, 0xbf]), "+/+/");
}

#[test]
fn speaker_colours() {
    assert_eq!(color_for("speaker_1"), "#4e79a7");
    assert_eq!(color_for("speaker_2"), "#f28e2c");
    assert_eq!(color_for("speaker_11"), "#4e79a7");
    assert_eq!(color_for("speaker_0"), "#4e79a7");
    assert_eq!(color_for("alice"), "#edc949");
    assert_eq!(color_for("alice"), color_for("alice"));
}

#[test]
fn request_counters() {
    let mut s = ServerStats::new();
    s.record_transcription();
    s.record_synthesis();
    s.record_request();
    let r = s.report(42);
    assert_eq!(r.requests, 4);
    assert_eq!(r.transcriptions, 1);
    assert_eq!(r.syntheses, 1);
    assert_eq!(r.uptime_secs, 42);
    assert_eq!(s.requests, 4);
}

#[test]
fn backends_listing() {
    let ollama = OllamaStatus::from_probe("localhost:11434", Some(3));
    assert!(ollama.connected);
    assert_eq!(ollama.model_count, 3);
    let down = OllamaStatus::from_probe("h:1", None);
    assert!(!down.connected);
    assert_eq!(down.model_count, 0);
    let r = ModelsResponse::describe(true, Some("base.en".into()), Some(142), Some("kokoro"), None, None, true, ollama);
    let stt = r.stt.unwrap();
    assert_eq!(stt.name, "whisper");
    assert_eq!(stt.model.as_deref(), Some("base.en"));
    assert_eq!(r.tts.unwrap().name, "kokoro");
    let st = r.streaming_stt.unwrap();
    assert_eq!(st.name, "sherpa-streaming");
    assert_eq!(st.model.as_deref(), Some("zipformer"));
    assert_eq!(st.size_mb, Some(27));
    assert_eq!(r.ollama.unwrap().host, "localhost:11434");
}

#[test]
fn live_talk_settings() {
    let cfg = LiveTalkConfig::defaults();
    assert!(cfg.barge_in_enabled);
    assert!(default_true());
    let mut s = LiveTalkSettings::from_config(cfg, "localhost:11434");
    assert_eq!(s.model, "llama3.2");
    assert_eq!(s.host, "localhost:11434");
    assert_eq!(s.mode, LiveTalkMode::Vad);
    assert!(s.system_prompt.contains("voice assistant"));
    let update = LiveTalkConfig {
        model: Some("qwen2.5:1.5b".into()),
        host: Some("elsewhere:1".into()),
        voice: None,
        mode: LiveTalkModeConfig::PushToTalk,
        barge_in_enabled: false,
        system_prompt_override: Some("x".into()),
    };
    s.apply_update(update);
    assert_eq!(s.model, "qwen2.5:1.5b");
    assert_eq!(s.host, "localhost:11434");
    assert_eq!(s.mode, LiveTalkMode::PushToTalk);
    assert!(s.barge_in_enabled);
    assert_eq!(LiveTalkMode::from(LiveTalkModeConfig::default()), LiveTalkMode::Vad);
    let c = ConverseConfig::default();
    assert!(c.model.is_none());
}

use vox::server::ws::{le_u32_words, FrameAssembler};

#[test]
fn frames_carry_the_remainder_over() {
    let mut fa: FrameAssembler<u8> = FrameAssembler::new(4);
    let f1 = fa.push(&[1, 2, 3]);
    assert!(f1.is_empty());
    let f2 = fa.push(&[4, 5, 6, 7, 8, 9, 10]);
    assert_eq!(f2, vec![vec![1, 2, 3, 4], vec![5, 6, 7, 8]]);
    let f3 = fa.push(&[11, 12]);
    assert_eq!(f3, vec![vec![9, 10, 11, 12]]);
    assert!(fa.push(&[]).is_empty());
}

#[test]
fn little_endian_words() {
    let bytes = 1.5f32.to_le_bytes();
    let mut data = bytes.to_vec();
    data.extend_from_slice(&[1, 0, 0, 0, 0xff]);
    let words = le_u32_words(&data);
    assert_eq!(words.len(), 2);
    assert_eq!(f32::from_bits(words[0]), 1.5);
    assert_eq!(words[1], 1);
}

use vox::capabilities::ollama::OllamaTag;
use vox::server::handlers::{keeps_candidate, model_info, ollama_candidates, unfiltered_models};

#[test]
fn ollama_chat_candidates() {
    let tags = vec![
        OllamaTag { name: Some("llama3.2:latest".into()), size: Some(10), family: Some("Llama".into()) },
        OllamaTag { name: Some("mxbai".into()), size: None, family: Some("mxbai-embed-large".into()) },
        OllamaTag { name: None, size: Some(5), family: None },
        OllamaTag { name: Some("custom".into()), size: Some(7), family: Some("mixtral".into()) },
    ];
    let c = ollama_candidates(&tags);
    assert_eq!(c.len(), 3);
    assert_eq!(c[0].name, "llama3.2:latest");
    assert!(c[0].trusted);
    assert_eq!(c[1].name, "unknown");
    assert!(!c[1].trusted);
    assert!(!c[2].trusted);
    assert!(keeps_candidate(true, Some(None)));
    assert!(keeps_candidate(false, None));
    assert!(!keeps_candidate(false, Some(None)));
    assert!(!keeps_candidate(false, Some(Some("short"))));
    assert!(keeps_candidate(false, Some(Some(&"x".repeat(51)))));
    let info = model_info(ollama_candidates(&tags).remove(0));
    assert_eq!(info.size, Some(10));
    let all = unfiltered_models(&tags);
    assert_eq!(all.len(), 4);
    assert_eq!(all[2].name, "unknown");
}

use vox::server::models::ConverseSettings;

#[test]
fn converse_settings_defaults() {
    let s: ConverseSettings = ConverseConfig::default().settings("ollama:11434");
    assert_eq!(s.model, "llama3.2");
    assert_eq!(s.host, "ollama:11434");
    assert!(s.voice.is_none());
}

use vox::server::live_talk::{LiveTalkAction, LiveTalkSession};
use vox::server::models::CancelReason;

#[test]
fn live_talk_push_to_talk_turns() {
    let mut cfg = LiveTalkConfig::defaults();
    cfg.mode = LiveTalkModeConfig::PushToTalk;
    let settings = LiveTalkSettings::from_config(cfg, "h:1");
    let mut s: LiveTalkSession<f32> = LiveTalkSession::new(settings);
    assert!(s.on_audio(vec![1.0; 10], false).is_empty());
    let a = s.on_ptt_start();
    assert!(matches!(a.as_slice(), [LiveTalkAction::SpeechStart]));
    assert!(s.on_audio(vec![0.5; 16000], false).is_empty());
    let a = s.on_ptt_end();
    match a.as_slice() {
        [LiveTalkAction::Dispatch { samples, duration_ms }] => {
            assert_eq!(samples.len(), 16000);
            assert_eq!(*duration_ms, 1000);
        }
        other => panic!("unexpected {:?}", other),
    }
    assert!(s.turn_running());
    let a = s.on_ptt_start();
    assert!(matches!(a.as_slice(), [LiveTalkAction::CancelTurn(CancelReason::UserBargeIn), LiveTalkAction::SpeechStart]));
    assert!(s.on_ptt_end().is_empty());
}

#[test]
fn live_talk_vad_mode_gates_audio_during_turns() {
    let settings = LiveTalkSettings::from_config(LiveTalkConfig::defaults(), "h:1");
    let mut s: LiveTalkSession<f32> = LiveTalkSession::new(settings);
    assert!(matches!(s.on_audio(vec![1.0; 4], false).as_slice(), [LiveTalkAction::FeedVad(v)] if v.len() == 4));
    s.begin_turn();
    assert!(s.on_audio(vec![1.0; 4], false).is_empty());
    assert!(matches!(
        s.on_audio(vec![1.0; 4], true).as_slice(),
        [LiveTalkAction::ResetVad, LiveTalkAction::FeedVad(_)]
    ));
    s.begin_turn();
    assert!(matches!(
        s.on_cancel().as_slice(),
        [LiveTalkAction::StopTurn, LiveTalkAction::ResetVad, LiveTalkAction::ReportCancelled(CancelReason::ClientRequest)]
    ));
    assert!(matches!(
        s.on_cancel().as_slice(),
        [LiveTalkAction::ResetVad, LiveTalkAction::ReportCancelled(CancelReason::ClientRequest)]
    ));
    let host = s.settings().host.clone();
    let mut update = LiveTalkConfig::defaults();
    update.model = Some("m2".into());
    update.voice = Some("af_sky".into());
    s.on_config(update);
    assert_eq!(s.settings().model, "m2");
    assert_eq!(s.settings().voice.as_deref(), Some("af_sky"));
    assert_eq!(s.settings().host, host);
    s.on_config(LiveTalkConfig::defaults());
    assert_eq!(s.settings().model, "m2");
    assert_eq!(s.settings().voice.as_deref(), Some("af_sky"));
}

use vox::server::{reuse_main_tts_for_conversation, tts_backend_of, whisper_candidates, whisper_variant};

#[test]
fn server_model_names() {
    let c = whisper_candidates();
    assert_eq!(c[0], "ggml-base.en.bin");
    assert_eq!(c.len(), 6);
    assert_eq!(whisper_variant("ggml-base.en.bin"), "base.en");
    assert_eq!(whisper_variant("model.bin"), "model");
    assert_eq!(whisper_variant("ggml-weird"), "ggml-weird");
    assert_eq!(whisper_variant("ggml-.bin"), "");
    assert_eq!(tts_backend_of("piper-en-us"), "piper");
    assert_eq!(tts_backend_of("qwen3"), "qwen3");
    assert_eq!(tts_backend_of("kokoro v1.0"), "kokoro");
    assert_eq!(tts_backend_of("other"), "tts");
    assert!(reuse_main_tts_for_conversation(Some("piper-de")));
    assert!(!reuse_main_tts_for_conversation(Some("kokoro")));
    assert!(!reuse_main_tts_for_conversation(None));
}

#[test]
fn listen_session_config_and_streaming() {
    let mut s = ListenSession::new(false);
    assert!(!s.diarization_on());
    assert_eq!(s.on_config(None), ConfigReply::Ignored);
    assert_eq!(s.on_config(Some(true)), ConfigReply::Unavailable);
    assert!(!s.diarization_on());
    assert_eq!(s.on_config(Some(false)), ConfigReply::Toggled { on: false });

    let mut s = ListenSession::new(true);
    assert!(s.diarization_available());
    assert_eq!(s.on_config(Some(true)), ConfigReply::Toggled { on: true });
    assert!(s.diarization_on());

    assert!(!s.on_speech_end());
    s.on_session_opened(false);
    assert!(!s.streaming_open());
    s.on_session_opened(true);
    assert!(s.streaming_open());
    assert!(s.on_speech_end());
    assert!(!s.streaming_open());
    s.on_session_opened(true);
    s.on_stream_error();
    assert!(!s.on_speech_end());
    assert_eq!(DIARIZATION_UNAVAILABLE, "diarization unavailable on server");
}

#[test]
fn listen_transcripts_and_labels() {
    let r = |t: &str| SttResult { text: t.to_string(), language: None, duration_ms: 10, processing_time_ms: 2 };
    assert!(streaming_transcript(None).is_none());
    assert!(streaming_transcript(Some(r(""))).is_none());
    assert_eq!(streaming_transcript(Some(r("hello"))).unwrap().text, "hello");

    assert!(speaker_label(None, None).is_none());
    assert!(speaker_label(Some("unknown"), Some("x")).is_none());
    let l = speaker_label(Some("speaker_1"), None).unwrap();
    assert_eq!(l.id, "speaker_1");
    assert_eq!(l.name, "speaker_1");
    assert_eq!(l.color, "#4e79a7");
    let l = speaker_label(Some("speaker_2"), Some("Alice")).unwrap();
    assert_eq!(l.name, "Alice");
    assert_eq!(l.color, "#f28e2c");
    assert!(enrolled_new_speaker(1, 2));
    assert!(!enrolled_new_speaker(2, 2));
    assert_eq!(stt_error_message("x"), "STT error: x");
    assert_eq!(vad_error_message("x"), "VAD error: x");
    assert_eq!(rename_error_message("x"), "rename failed: x");
    assert_eq!(forget_error_message("x"), "forget failed: x");
}

#[test]
fn wav_durations() {
    assert_eq!(wav_duration_ms(16000, 16000, 1), 1000);
    assert_eq!(wav_duration_ms(48000, 24000, 2), 1000);
    assert_eq!(wav_duration_ms(100, 16000, 1), 6);
    assert_eq!(wav_duration_ms(100, 0, 1), 0);
}

#[test]
fn live_talk_turn_progress() {
    assert_eq!(on_transcript("   "), TurnStart::Done { sentences: 0 });
    assert_eq!(on_transcript(" hi "), TurnStart::Proceed);
    match stt_failure("boom") {
        TurnEnd::Error { message, fatal } => {
            assert_eq!(message, "STT: boom");
            assert!(!fatal);
        }
        other => panic!("unexpected {other:?}"),
    }
    assert!(!speaks(" \n"));
    assert!(speaks("Hello."));
    let mut p = TurnProgress::new();
    assert_eq!(p.on_sentence("Hello."), Some(0));
    assert_eq!(p.on_sentence("  "), None);
    assert_eq!(p.on_sentence("Again."), Some(1));
    assert!(matches!(p.on_stop(StopOutcome::Finished), TurnEnd::TurnDone { sentences: 2 }));
    assert!(matches!(p.on_stop(StopOutcome::Cancelled), TurnEnd::Silent));
    match p.on_stop(StopOutcome::Failed("timeout".to_string())) {
        TurnEnd::Error { message, fatal } => {
            assert_eq!(message, "LLM: timeout");
            assert!(!fatal);
        }
        other => panic!("unexpected {other:?}"),
    }
}

#[test]
fn speak_socket_decisions() {
    assert_eq!(speak_request(" \t"), Err("empty text".to_string()));
    assert_eq!(speak_request("Hi"), Ok(()));
    let mut p = SpeakProgress::new();
    assert_eq!(p.on_chunk(), 1);
    assert_eq!(p.on_chunk(), 2);
    assert_eq!(p.done(), 2);
    assert_eq!(invalid_request_message("x"), "invalid request: x");
    assert_eq!(session_error_message("x"), "failed to create TTS session: x");
    assert_eq!(wav_error_message("x"), "WAV encode error: x");
    assert_eq!(tts_error_message("x"), "TTS error: x");
}

#[test]
fn converse_burst_and_drain() {
    let ev: Vec<SegmentEvent<f32>> = vec![
        SegmentEvent::SpeechStart,
        SegmentEvent::Silence,
        SegmentEvent::SpeechEnd { samples: vec![], duration_ms: 10 },
        SegmentEvent::SpeechEnd { samples: vec![], duration_ms: 20 },
    ];
    assert_eq!(first_speech_end(&ev), Some(2));
    let none: Vec<SegmentEvent<f32>> = vec![SegmentEvent::Silence];
    assert_eq!(first_speech_end(&none), None);
    assert!(still_draining(399));
    assert!(!still_draining(400));
    assert_eq!(llm_tts_error_message("x"), "LLM/TTS error: x");
}
