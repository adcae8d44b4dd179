use vox::diarization::registry::SpeakerRegistry;

fn make_embedding(values: &[f32]) -> Vec<f32> {
    let norm: f32 = values.iter().map(|x| x * x).sum::<f32>().sqrt();
    values.iter().map(|x| x / norm).collect()
}

#[test]
fn test_enroll_duplicate_id() {
    let mut registry = SpeakerRegistry::new();

    let emb1 = make_embedding(&[1.0, 0.0, 0.0]);
    registry.enroll("alice", "Alice", emb1.clone()).unwrap();

    let result = registry.enroll("alice", "Alice2", emb1);
    assert!(result.is_err());
}

#[test]
fn test_forget_nonexistent_speaker() {
    let mut registry: SpeakerRegistry<f32> = SpeakerRegistry::new();
    let result = registry.forget("alice");
    assert!(result.is_err());
}

#[test]
fn test_rename_speaker() {
    let mut registry = SpeakerRegistry::new();
    let emb = make_embedding(&[1.0, 0.0, 0.0]);
    registry.enroll("speaker_1", "Speaker 1", emb).unwrap();

    registry.rename("speaker_1", "Alice").unwrap();
    assert_eq!(registry.get_speaker("speaker_1").unwrap().name, "Alice");

    // Renaming a non-existent speaker should error out.
    assert!(registry.rename("speaker_99", "Bob").is_err());
}

#[test]
fn recognition_test_list_speakers() {
    let mut registry = SpeakerRegistry::new();

    let emb1 = make_embedding(&[1.0, 0.0, 0.0]);
    let emb2 = make_embedding(&[0.0, 1.0, 0.0]);

    registry.enroll("alice", "Alice", emb1).unwrap();
    registry.enroll("bob", "Bob", emb2).unwrap();

    let speakers = registry.list_speakers();
    assert_eq!(speakers.len(), 2);
}

#[test]
fn test_get_speaker() {
    let mut registry = SpeakerRegistry::new();

    let emb = make_embedding(&[1.0, 0.0, 0.0]);
    registry.enroll("alice", "Alice", emb).unwrap();

    let speaker = registry.get_speaker("alice").unwrap();
    assert_eq!(speaker.id, "alice");
    assert_eq!(speaker.name, "Alice");

    assert!(registry.get_speaker("bob").is_none());
}

#[test]
fn recognition_test_clear() {
    let mut registry = SpeakerRegistry::new();

    let emb1 = make_embedding(&[1.0, 0.0, 0.0]);
    let emb2 = make_embedding(&[0.0, 1.0, 0.0]);

    registry.enroll("alice", "Alice", emb1).unwrap();
    registry.enroll("bob", "Bob", emb2).unwrap();

    assert_eq!(registry.speaker_count(), 2);

    registry.clear();
    assert_eq!(registry.speaker_count(), 0);
}

#[test]
fn registry_errors_and_forget() {
    let mut registry = SpeakerRegistry::new();
    registry.enroll("alice", "Alice", vec![1u32, 2]).unwrap();
    match registry.enroll("alice", "A", vec![]) {
        Err(vox::error::VoxError::Diarization(m)) => assert_eq!(m, "speaker with ID 'alice' already enrolled"),
        other => panic!("unexpected {other:?}"),
    }
    match registry.forget("bob") {
        Err(vox::error::VoxError::Diarization(m)) => assert_eq!(m, "speaker with ID 'bob' not found"),
        other => panic!("unexpected {other:?}"),
    }
    registry.forget("alice").unwrap();
    assert!(registry.get_speaker("alice").is_none());
    assert_eq!(registry.speaker_count(), 0);
}
