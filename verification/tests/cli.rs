use vox::cli::config::{
    asks_voice, choose_quantization, choose_stt_backend, choose_tts_backend, choose_voice, choose_whisper_model,
    normalize_answer, quantized_model, tts_step, VoxConfig,
};
use vox::cli::models::{
    distil_whisper_download_name, distil_whisper_model_filename, find_model, known_models, model_filename,
    piper_voice_alias, resolve_model, size_mismatch, unknown_model_message, whisper_download_name, ModelLocation,
};

#[test]
fn whisper_names_map_to_files() {
    assert_eq!(model_filename("tiny.en"), "ggml-tiny.en.bin");
    assert_eq!(model_filename("turbo"), "ggml-large-v3-turbo.bin");
    assert_eq!(model_filename("turbo-q5"), "ggml-large-v3-turbo-q5_0.bin");
    assert_eq!(model_filename("custom.bin"), "custom.bin");
    assert_eq!(model_filename("large-v2"), "ggml-large-v2.bin");
    assert_eq!(whisper_download_name("base.en"), "whisper-base.en");
    assert_eq!(whisper_download_name("turbo-q8"), "whisper-large-v3-turbo-q8");
    assert_eq!(whisper_download_name("medium"), "whisper-medium");
}

#[test]
fn distil_names_map_to_files() {
    assert_eq!(distil_whisper_model_filename("small.en"), "ggml-distil-small.en.bin");
    assert_eq!(distil_whisper_model_filename("x.bin"), "x.bin");
    assert_eq!(distil_whisper_model_filename("large-v3"), "ggml-distil-large-v3.bin");
    assert_eq!(distil_whisper_download_name("medium.en"), "distil-whisper-medium.en");
    assert_eq!(distil_whisper_download_name("large"), "distil-whisper-large");
}

#[test]
fn piper_aliases() {
    assert_eq!(piper_voice_alias("EN"), "piper-en-us");
    assert_eq!(piper_voice_alias("Deutsch"), "piper-de");
    assert_eq!(piper_voice_alias("mandarin"), "piper-zh");
    assert_eq!(piper_voice_alias("Piper-FR"), "piper-fr");
    assert_eq!(piper_voice_alias("klingon"), "piper-en-us");
}

#[test]
fn registry_lookup() {
    let all = known_models();
    assert_eq!(all.len(), 33);
    assert_eq!(all[0].name, "silero-vad");
    assert_eq!(all[0].size_bytes, 2_327_524);
    let k = find_model("kokoro").unwrap();
    assert_eq!(k.filename, "kokoro-v1.0.onnx");
    assert_eq!(k.kind, "TTS");
    assert!(find_model("nope").is_none());
    let msg = unknown_model_message("nope");
    assert!(msg.starts_with("Unknown model: 'nope'\n\nAvailable models:\n  silero-vad\n  whisper-tiny.en\n"));
    assert!(msg.ends_with("\n  piper-zh-config"));
}

#[test]
fn model_resolution_order() {
    assert_eq!(resolve_model(true, true), Some(ModelLocation::ModelsDir));
    assert_eq!(resolve_model(false, true), Some(ModelLocation::WorkingDir));
    assert_eq!(resolve_model(false, false), None);
}

#[test]
fn download_size_check() {
    assert!(!size_mismatch(1_000_000, 1_000_000, 0));
    assert!(!size_mismatch(1_009_000, 1_000_000, 0));
    assert!(size_mismatch(1_020_000, 1_000_000, 0));
    assert!(!size_mismatch(1_020_000, 1_000_000, 1_020_000));
}

#[test]
fn wizard_answers() {
    let d = VoxConfig::default();
    assert_eq!(d.stt_backend, "whisper");
    assert_eq!(d.tts_voice, "af_heart");
    assert_eq!(normalize_answer("  YeS \n"), "yes");
    assert_eq!(choose_stt_backend(" B "), "sherpa");
    assert_eq!(choose_stt_backend(""), "whisper");
    assert_eq!(choose_whisper_model("small"), "small.en");
    assert!(choose_quantization("Y"));
    assert!(!choose_quantization("no"));
    assert_eq!(quantized_model("tiny.en", true), "tiny.en-int8");
    assert_eq!(choose_tts_backend("d"), "pocket");
    assert!(asks_voice("piper"));
    assert!(!asks_voice("pocket"));
    assert_eq!(choose_voice("kokoro", "adam"), "am_adam");
    assert_eq!(choose_voice("piper", "c"), "fr");
    assert_eq!(choose_voice("pocket", "c"), "default");
    assert_eq!(tts_step("whisper"), 4);
    assert_eq!(tts_step("sherpa"), 2);
}

#[test]
fn readme_models_are_downloadable() {
    for name in ["silero-vad", "whisper-tiny.en", "kokoro", "kokoro-voices", "piper-en-us", "qwen3-0.6b", "distil-whisper-tiny.en-int8"] {
        assert!(find_model(name).is_some(), "{name} missing");
    }
    assert_eq!(find_model("distil-whisper-tiny.en-int8").unwrap().filename, distil_whisper_model_filename("tiny.en-int8"));
    assert_eq!(find_model("qwen3-0.6b").unwrap().kind, "TTS");
}
