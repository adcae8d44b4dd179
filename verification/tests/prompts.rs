use vox::prompts::{build_system_prompt, VoicePromptMode};

#[test]
fn test_standard_prompt() {
    let prompt = build_system_prompt(VoicePromptMode::Standard);
    assert!(prompt.contains("markdown"));
    assert!(prompt.contains("helpful AI assistant"));
}

#[test]
fn test_voice_prompt() {
    let prompt = build_system_prompt(VoicePromptMode::Voice);
    assert!(prompt.contains("voice assistant"));
    assert!(prompt.contains("short"));
    assert!(prompt.contains("conversational"));
    assert!(!prompt.contains("markdown formatting is allowed"));
}

#[test]
fn test_different_modes_produce_different_prompts() {
    let standard = build_system_prompt(VoicePromptMode::Standard);
    let voice = build_system_prompt(VoicePromptMode::Voice);
    assert_ne!(standard, voice);
}
