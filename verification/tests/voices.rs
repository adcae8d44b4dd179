use vox::tts::chatterbox::{self, parse_model_variant, ChatterboxVariant};
use vox::tts::pocket::{voice_source, VoiceSource};
use vox::error::VoxError;
use vox::tts::{kokoro, qwen3};
use vox::tts::kokoro::KokoroVoiceId;
use vox::tts::qwen3::{Qwen3Language, Qwen3Speaker};

#[test]
fn test_voice_list_shows_aiden_for_us_male() {
    let voices = qwen3::voice_list();
    let male1 = voices.iter().find(|v| v.id == "en_us_male_1").unwrap();
    assert!(male1.name.contains("Aiden"), "en_us_male_1 should mention Aiden in name");
    let male2 = voices.iter().find(|v| v.id == "en_us_male_2").unwrap();
    assert!(male2.name.contains("Aiden"), "en_us_male_2 should mention Aiden in name");
}

#[test]
fn test_gb_male_shows_ethan() {
    let voices = qwen3::voice_list();
    let gb_male = voices.iter().find(|v| v.id == "en_gb_male_1").unwrap();
    assert!(gb_male.name.contains("Ethan"), "en_gb_male_1 should mention Ethan");
}

#[test]
fn every_listed_qwen3_voice_parses() {
    let voices = qwen3::voice_list();
    assert_eq!(voices.len(), 20);
    for v in &voices {
        assert!(qwen3::parse_voice(&v.id).is_ok(), "{} should parse", v.id);
    }
    assert_eq!(qwen3::parse_voice("en_us_male_2").unwrap(), (Qwen3Speaker::Aiden, Qwen3Language::English));
    assert_eq!(qwen3::parse_voice("ru_ru_female_1").unwrap(), (Qwen3Speaker::Serena, Qwen3Language::Russian));
    match qwen3::parse_voice("xx") {
        Err(VoxError::Tts(m)) => assert_eq!(m, "unknown voice: xx. Use /v1/voices to see available voices"),
        other => panic!("unexpected {:?}", other),
    }
}

#[test]
fn every_listed_kokoro_voice_parses() {
    let voices = kokoro::voice_list();
    assert_eq!(voices.len(), 57);
    assert_eq!(voices[0].id, "af_heart");
    for v in &voices {
        assert!(kokoro::parse_voice(&v.id).is_ok(), "{} should parse", v.id);
    }
    assert_eq!(kokoro::parse_voice("AF_Heart").unwrap(), KokoroVoiceId::AfHeart);
    assert!(kokoro::parse_voice("af_maple").unwrap().uses_integer_speed());
    assert!(!kokoro::parse_voice("bm_george").unwrap().uses_integer_speed());
    match kokoro::parse_voice("Nobody") {
        Err(VoxError::Tts(m)) => assert_eq!(m, "unknown voice: Nobody"),
        other => panic!("unexpected {:?}", other),
    }
}

#[test]
fn chatterbox_variants_parse_in_any_case() {
    assert_eq!(parse_model_variant("fp16").unwrap(), ChatterboxVariant::Fp16);
    assert_eq!(parse_model_variant("Q4F16").unwrap(), ChatterboxVariant::Q4f16);
    assert_eq!(parse_model_variant("quantized").unwrap(), ChatterboxVariant::Quantized);
    match parse_model_variant("INT3") {
        Err(VoxError::Tts(m)) => {
            assert_eq!(m, "unknown chatterbox dtype 'int3'; expected: fp32, fp16, q4, q4f16, q8, q8f16")
        }
        other => panic!("unexpected: {other:?}"),
    }
    let voices = chatterbox::voice_list();
    assert_eq!(voices.len(), 1);
    assert_eq!(voices[0].id, "custom");
    assert_eq!(voices[0].accent, "Cloned");
}

#[test]
fn pocket_voice_sources() {
    match voice_source("alba") {
        VoiceSource::Named(f) => assert_eq!(f, "alba.safetensors"),
        other => panic!("unexpected: {other:?}"),
    }
    match voice_source("narrator") {
        VoiceSource::Named(f) => assert_eq!(f, "narrator.safetensors"),
        other => panic!("unexpected: {other:?}"),
    }
    assert!(matches!(voice_source("voices/me.safetensors"), VoiceSource::EmbeddingFile));
    assert!(matches!(voice_source("/tmp/me.wav"), VoiceSource::CloneFromAudio));
}

#[test]
fn voice_names_in_any_case() {
    assert_eq!(kokoro::parse_voice("AF_HEART").unwrap(), KokoroVoiceId::AfHeart);
    assert_eq!(kokoro::voice_for_lowered("bm_lewis"), Some(KokoroVoiceId::BmLewis));
    assert!(kokoro::voice_for_lowered("BM_LEWIS").is_none());
    assert_eq!(qwen3::DEFAULT_VOICE, "en_us_female_1");
    assert!(qwen3::parse_voice(qwen3::DEFAULT_VOICE).is_ok());
}
