use vox::audio::buffer::AudioBuffer;

/// Number of samples in `secs` seconds at `rate` Hz, as the callers compute it.
fn samples_for(secs: f32, rate: u32) -> usize {
    (secs * rate as f32) as usize
}

fn buffer(secs: f32, rate: u32) -> AudioBuffer<f32> {
    AudioBuffer::new(samples_for(secs, rate), 0.0)
}

#[test]
fn push_and_retrieve() {
    let mut buf = buffer(1.0, 16000);
    let samples: Vec<f32> = (0..4800).map(|i| i as f32 / 4800.0).collect();
    buf.push(&samples);
    let last = buf.last_samples(samples_for(0.1, 16000));
    assert_eq!(last.len(), 1600);
    assert!((last[0] - 3200.0 / 4800.0).abs() < 1e-6);
}

#[test]
fn wraps_around() {
    let mut buf = buffer(0.1, 100);
    buf.push(&[1.0, 2.0, 3.0, 4.0, 5.0, 6.0, 7.0, 8.0, 9.0, 10.0]);
    buf.push(&[11.0, 12.0, 13.0]);
    let all = buf.last_samples(samples_for(0.1, 100));
    assert_eq!(all.len(), 10);
    assert_eq!(all, vec![4.0, 5.0, 6.0, 7.0, 8.0, 9.0, 10.0, 11.0, 12.0, 13.0]);
}

#[test]
fn drain_clears() {
    let mut buf = buffer(1.0, 100);
    buf.push(&[1.0, 2.0, 3.0]);
    let drained = buf.drain();
    assert_eq!(drained.len(), 3);
    assert_eq!(buf.last_samples(samples_for(1.0, 100)).len(), 0);
}

#[test]
fn empty_buffer_returns_empty() {
    let buf = buffer(1.0, 16000);
    let result = buf.last_samples(samples_for(0.5, 16000));
    assert!(result.is_empty());
}

#[test]
fn request_more_than_available() {
    let mut buf = buffer(1.0, 16000);
    buf.push(&[1.0, 2.0, 3.0]);
    let result = buf.last_samples(samples_for(10.0, 16000));
    assert_eq!(result.len(), 3);
    assert_eq!(result, vec![1.0, 2.0, 3.0]);
}

#[test]
fn multiple_wraps() {
    let mut buf = buffer(0.05, 100);
    for i in 0..20 {
        buf.push(&[i as f32]);
    }
    let result = buf.last_samples(samples_for(0.05, 100));
    assert_eq!(result, vec![15.0, 16.0, 17.0, 18.0, 19.0]);
}

#[test]
fn drain_then_push() {
    let mut buf = buffer(1.0, 100);
    buf.push(&[1.0, 2.0, 3.0]);
    buf.drain();
    buf.push(&[4.0, 5.0]);
    let result = buf.last_samples(samples_for(1.0, 100));
    assert_eq!(result.len(), 2);
    assert_eq!(result, vec![4.0, 5.0]);
}

#[test]
fn zero_duration_request() {
    let mut buf = buffer(1.0, 16000);
    buf.push(&[1.0, 2.0, 3.0]);
    let result = buf.last_samples(samples_for(0.0, 16000));
    assert!(result.is_empty());
}

#[test]
fn exact_capacity_fill() {
    let mut buf = buffer(0.1, 100);
    buf.push(&[1.0, 2.0, 3.0, 4.0, 5.0, 6.0, 7.0, 8.0, 9.0, 10.0]);
    let result = buf.last_samples(samples_for(0.1, 100));
    assert_eq!(result.len(), 10);
    assert_eq!(result[0], 1.0);
    assert_eq!(result[9], 10.0);
}

#[test]
fn pushes_compose() {
    let mut a: AudioBuffer<u16> = AudioBuffer::new(4, 0);
    let mut b: AudioBuffer<u16> = AudioBuffer::new(4, 0);
    a.push(&[1, 2, 3]);
    a.push(&[4, 5, 6]);
    b.push(&[1, 2, 3, 4, 5, 6]);
    assert_eq!(a.drain(), b.drain());
    assert_eq!(a.len(), 0);
    assert_eq!(a.capacity(), 4);
    let empty: AudioBuffer<u16> = AudioBuffer::new(0, 0);
    assert!(empty.last_samples(3).is_empty());
}
