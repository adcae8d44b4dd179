use vox::engine::VoxConfig;
use vox::streaming_pipeline::{ChunkStats, StreamingPipelineConfig};
use vox::types::{SttResult, TtsRequest};

#[test]
fn test_config_defaults() {
    let config = StreamingPipelineConfig::default();
    assert_eq!(config.max_parallel_stt, 3);
    assert_eq!(config.channel_buffer_size, 16);
    assert!(!config.enable_detailed_metrics);
}

#[test]
fn engine_config_defaults() {
    let config = VoxConfig::default();
    assert_eq!(config.sample_rate, 16000);
    assert_eq!(config.channels, 1);
    assert!(!config.enable_tts);
    let stats = ChunkStats { chunk_id: 1, vad_latency_ms: 2, stt_latency_ms: 3, total_latency_ms: 5 };
    assert_eq!(stats.total_latency_ms, 5);
    let r = SttResult { text: "hi".into(), language: None, duration_ms: 1, processing_time_ms: 2 };
    assert_eq!(r.clone().text, "hi");
    let t = TtsRequest { text: "hi".into(), voice: None, seed: Some(7) };
    assert_eq!(t.seed, Some(7));
}
