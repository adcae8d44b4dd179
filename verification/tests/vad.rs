use vox::vad::silero::{lookback_capacity, FRAME_MS, FRAME_SIZE, SAMPLE_RATE};

#[test]
fn pad_lookback_capacity_300ms() {
    let cap = lookback_capacity(300);
    assert_eq!(cap, 4800);
}

#[test]
fn pad_lookback_capacity_zero() {
    let cap = lookback_capacity(0);
    assert_eq!(cap, 0);
}

#[test]
fn pad_zero_no_lookback() {
    let capacity = lookback_capacity(0);
    assert_eq!(capacity, 0);

    let lookback: std::collections::VecDeque<f32> = std::collections::VecDeque::with_capacity(capacity);
    let mut speech_buffer: Vec<f32> = Vec::new();

    if capacity > 0 {
        speech_buffer.extend(lookback.iter().copied());
    }
    let frame_samples = vec![42.0, 43.0];
    speech_buffer.extend_from_slice(&frame_samples);

    assert_eq!(speech_buffer, vec![42.0, 43.0]);
}

#[test]
fn frame_geometry() {
    assert_eq!(FRAME_SIZE, 512);
    assert_eq!(SAMPLE_RATE, 16_000);
    assert_eq!(FRAME_MS as usize, FRAME_SIZE * 1000 / SAMPLE_RATE as usize);
    assert_eq!(lookback_capacity(100), 1600);
}

use vox::vad::silero::{SegmentEvent, SegmenterConfig, VadSegmenter};

fn segmenter(pad_ms: u32) -> VadSegmenter<f32> {
    let config = SegmenterConfig { pre_speech_pad_ms: pad_ms, ..SegmenterConfig::default() };
    VadSegmenter::new(config)
}

#[test]
fn pad_ring_buffer_wrapping() {
    let capacity = lookback_capacity(300);
    let mut seg = segmenter(300);
    let samples: Vec<f32> = (0..10_000u32).map(|i| i as f32).collect();
    seg.process_frame(&samples, false);
    let buf = seg.lookback();
    assert_eq!(buf.len(), capacity);
    assert_eq!(*buf.front().unwrap(), 5200.0);
    assert_eq!(*buf.back().unwrap(), 9999.0);
}

#[test]
fn pad_prepend_on_speech_start() {
    // A one-millisecond pad keeps 16 samples, so ten samples of silence all stay.
    let mut seg = segmenter(1);
    let silence: Vec<f32> = (1..=10).map(|i| i as f32).collect();
    seg.process_frame(&silence, false);
    assert_eq!(seg.lookback().len(), 10);

    let frame_samples = vec![100.0, 101.0, 102.0];
    let events = seg.process_frame(&frame_samples, true);
    assert!(matches!(events[0], SegmentEvent::SpeechStart));
    let speech_buffer = seg.current_speech().unwrap();
    assert_eq!(speech_buffer.len(), 13);
    assert_eq!(&speech_buffer[..10], &[1.0, 2.0, 3.0, 4.0, 5.0, 6.0, 7.0, 8.0, 9.0, 10.0]);
    assert_eq!(&speech_buffer[10..], &[100.0, 101.0, 102.0]);
    assert!(seg.lookback().is_empty());
}

#[test]
fn pad_buffer_only_retains_last_n_ms() {
    let capacity = lookback_capacity(100);
    assert_eq!(capacity, 1600);
    let mut seg = segmenter(100);
    for frame_idx in 0..5u32 {
        let frame: Vec<f32> = (0..512).map(|s| (frame_idx * 512 + s) as f32).collect();
        seg.process_frame(&frame, false);
    }
    let buf = seg.lookback();
    assert_eq!(buf.len(), capacity);
    assert_eq!(*buf.front().unwrap(), 960.0);
    assert_eq!(*buf.back().unwrap(), 2559.0);
}

#[test]
fn utterance_ends_after_enough_silence() {
    let mut seg = segmenter(0);
    let speech = vec![1.0f32; 512];
    let quiet = vec![0.0f32; 512];
    assert!(matches!(seg.process_frame(&quiet, false)[0], SegmentEvent::Silence));
    // 8 speech frames = 256 ms >= 250 ms minimum.
    for i in 0..8 {
        let ev = seg.process_frame(&speech, true);
        assert_eq!(ev.len(), if i == 0 { 1 } else { 0 });
    }
    // 500 ms of silence = 16 frames (16 * 32 = 512 >= 500); the 16th ends it.
    for _ in 0..15 {
        assert!(seg.process_frame(&quiet, false).is_empty());
        assert!(seg.is_speaking());
    }
    let ev = seg.process_frame(&quiet, false);
    match &ev[0] {
        SegmentEvent::SpeechEnd { samples, duration_ms } => {
            assert_eq!(samples.len(), 24 * 512);
            assert_eq!(*duration_ms, (24 * 512 * 1000 / 16000) as u64);
        }
        other => panic!("unexpected {:?}", other),
    }
    assert!(!seg.is_speaking());
    assert_eq!(seg.speech_frames(), 0);
}

#[test]
fn short_speech_is_dropped() {
    let mut seg = segmenter(0);
    let speech = vec![1.0f32; 512];
    let quiet = vec![0.0f32; 512];
    seg.process_frame(&speech, true);
    let mut produced = 0;
    for _ in 0..16 {
        produced += seg.process_frame(&quiet, false).len();
    }
    assert_eq!(produced, 0);
    assert!(!seg.is_speaking());
    seg.reset();
    assert!(seg.current_speech().is_none());
}
