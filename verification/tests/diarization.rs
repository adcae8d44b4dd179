use vox::diarization::database::{bytes_to_embedding, embedding_to_bytes};
use vox::diarization::database::ConversationEntry;
use vox::diarization::embedding::{
    to_hex, verify_checksum, EmbeddingConfig, EMBEDDING_SAMPLE_RATE, HOP_LENGTH, MAX_AUDIO_MS, MIN_AUDIO_MS,
    N_FFT, N_MELS, WIN_LENGTH,
};
use vox::diarization::pipeline::{enrolled_number_of, max_speaker_number, next_enrolled, DiarizationConfig};
use vox::error::VoxError;

#[test]
fn test_min_audio_duration_constant() {
    assert_eq!(MIN_AUDIO_MS, 800);
}

#[test]
fn test_max_audio_duration_constant() {
    assert_eq!(MAX_AUDIO_MS, 30_000);
}

#[test]
fn test_embedding_sample_rate_constant() {
    assert_eq!(EMBEDDING_SAMPLE_RATE, 16_000);
}

#[test]
fn embedding_test_default_config() {
    let config = EmbeddingConfig::default();
    assert_eq!(config.embedding_dim, 512);
    assert!(config.normalize);
    assert!(config.use_gpu);
}

#[test]
fn test_mel_constants() {
    assert_eq!(N_MELS, 80);
    assert_eq!(N_FFT, 512);
    assert_eq!(HOP_LENGTH, 160);
    assert_eq!(WIN_LENGTH, 400);
}

#[test]
fn pipeline_test_default_config() {
    let config = DiarizationConfig::default();
    assert!(!config.auto_enroll);
    assert_eq!(config.min_audio_ms, 500);
    assert!(config.skip_short_utterances);
}

const ABC_SHA256: &str = "ba7816bf8f01cfea414140de5dae2223b00361a396177a9cb410ff61f20015ad";

#[test]
fn checksum_matches_published_digest() {
    assert!(verify_checksum(b"abc", ABC_SHA256).is_ok());
    let upper = format!("  {}  speaker_encoder.onnx\n", ABC_SHA256.to_uppercase());
    assert!(verify_checksum(b"abc", &upper).is_ok());
}

#[test]
fn checksum_mismatch_and_empty_file() {
    match verify_checksum(b"abd", ABC_SHA256) {
        Err(VoxError::IntegrityCheckFailed(msg)) => {
            assert!(msg.starts_with("model checksum mismatch: expected ba7816bf"));
            assert!(msg.contains(", got "));
        }
        other => panic!("unexpected result {:?}", other),
    }
    match verify_checksum(b"abc", "  \n\t") {
        Err(VoxError::IntegrityCheckFailed(msg)) => assert_eq!(msg, "checksum file is empty"),
        other => panic!("unexpected result {:?}", other),
    }
}

#[test]
fn hex_is_two_lower_case_digits_per_byte() {
    assert_eq!(to_hex(&[0x00, 0x0f, 0xa0, 0xff]), "000fa0ff");
    assert_eq!(to_hex(&[]), "");
}

#[test]
fn enrolment_counter_continues_after_loaded_ids() {
    let ids: Vec<String> = vec![
        "speaker_3".to_string(),
        "alice".to_string(),
        "speaker_12".to_string(),
        "speaker_x".to_string(),
        "speaker_+7".to_string(),
    ];
    assert_eq!(max_speaker_number(&ids), 12);
    assert_eq!(max_speaker_number(&Vec::new()), 0);
    assert_eq!(enrolled_number_of("speaker_+7"), Some(7));
    assert_eq!(enrolled_number_of("speaker_-1"), None);
    assert_eq!(enrolled_number_of("speaker_4294967296"), None);
    let (n, id, name) = next_enrolled(12);
    assert_eq!(n, 13);
    assert_eq!(id, "speaker_13");
    assert_eq!(name, "Speaker 13");
}

#[test]
fn short_utterances_are_skipped() {
    let config = DiarizationConfig::default();
    assert!(config.skips(499));
    assert!(!config.skips(500));
    let off = DiarizationConfig { skip_short_utterances: false, ..config };
    assert!(!off.skips(10));
    let entry = ConversationEntry { timestamp: 1, duration_ms: 2, text: None };
    assert_eq!(entry.clone().duration_ms, 2);
}

use vox::diarization::pipeline::UnknownSpeaker;

#[test]
fn unknown_speakers_enrolled_only_when_enabled() {
    let on = DiarizationConfig { auto_enroll: true, ..DiarizationConfig::default() };
    match on.on_unknown(4) {
        UnknownSpeaker::Enroll { counter, id, name } => {
            assert_eq!(counter, 5);
            assert_eq!(id, "speaker_5");
            assert_eq!(name, "Speaker 5");
        }
        other => panic!("unexpected {:?}", other),
    }
    assert!(matches!(DiarizationConfig::default().on_unknown(4), UnknownSpeaker::Unlabelled));
}

fn bits(v: &[f32]) -> Vec<u32> {
    v.iter().map(|x| x.to_bits()).collect()
}

fn floats(v: &[u32]) -> Vec<f32> {
    v.iter().map(|b| f32::from_bits(*b)).collect()
}

#[test]
fn test_embedding_serialization() {
    let embedding = vec![0.1f32, -0.5, 0.9, 1.0];
    let bytes = embedding_to_bytes(&bits(&embedding));
    let restored = floats(&bytes_to_embedding(&bytes).unwrap());

    assert_eq!(embedding.len(), restored.len());
    for (a, b) in embedding.iter().zip(restored.iter()) {
        assert!((a - b).abs() < 1e-6);
    }
}

#[test]
fn test_invalid_embedding_bytes() {
    let bytes = vec![0u8, 1, 2]; // Not divisible by 4
    let result = bytes_to_embedding(&bytes);
    assert!(result.is_err());
}

#[test]
fn test_empty_embedding() {
    let embedding: Vec<f32> = vec![];
    let bytes = embedding_to_bytes(&bits(&embedding));
    assert_eq!(bytes.len(), 0);

    let restored = bytes_to_embedding(&bytes).unwrap();
    assert_eq!(restored.len(), 0);
}

#[test]
fn embedding_bytes_are_little_endian() {
    assert_eq!(embedding_to_bytes(&[1.0f32.to_bits()]), 1.0f32.to_le_bytes().to_vec());
    assert_eq!(embedding_to_bytes(&[0x0403_0201]), vec![1, 2, 3, 4]);
    assert_eq!(bytes_to_embedding(&[1, 2, 3, 4, 5, 6, 7, 8]).unwrap(), vec![0x0403_0201, 0x0807_0605]);
    match bytes_to_embedding(&[1, 2, 3, 4, 5]) {
        Err(VoxError::Diarization(m)) => assert_eq!(m, "invalid embedding bytes: length not divisible by 4"),
        other => panic!("unexpected: {other:?}"),
    }
}
