//! Configuration and per-chunk statistics of the streaming pipeline, which
//! runs several transcriptions in parallel.
use vstd::prelude::*;

verus! {

/// Configuration for the streaming pipeline.
#[derive(Debug, Clone, Copy)]
pub struct StreamingPipelineConfig {
    /// Maximum number of STT tasks running in parallel.
    pub max_parallel_stt: usize,
    /// Channel buffer size for backpressure control.
    pub channel_buffer_size: usize,
    /// Enable detailed per-chunk metrics logging.
    pub enable_detailed_metrics: bool,
}

impl Default for StreamingPipelineConfig {
    /// Three transcriptions in parallel, sixteen chunks buffered, no
    /// detailed metrics.
    fn default() -> (r: Self)
        ensures
            r.max_parallel_stt == 3,
            r.channel_buffer_size == 16,
            !r.enable_detailed_metrics,
    {
        StreamingPipelineConfig { max_parallel_stt: 3, channel_buffer_size: 16, enable_detailed_metrics: false }
    }
}

/// Statistics for a single chunk's processing.
#[derive(Debug, Clone, Copy)]
pub struct ChunkStats {
    pub chunk_id: u64,
    pub vad_latency_ms: u64,
    pub stt_latency_ms: u64,
    pub total_latency_ms: u64,
}

} // verus!
