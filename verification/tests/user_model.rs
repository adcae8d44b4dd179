use vox::intelligence::user_model::{record_question, tally};
use vox::intelligence::user_model::{
    extract_question_pattern, extract_topics, get_preference, set_preference, system_prompt_modifier,
    PreferenceKind, PreferenceType,
};

#[test]
fn user_model_test_set_preference() {
    let mut preferences: Vec<PreferenceType> = Vec::new();
    set_preference(&mut preferences, PreferenceType::ResponseStyle("casual".to_string()));
    set_preference(&mut preferences, PreferenceType::Verbosity(5));
    assert_eq!(preferences.len(), 2);
}

#[test]
fn test_get_preference() {
    let mut preferences: Vec<PreferenceType> = Vec::new();
    set_preference(&mut preferences, PreferenceType::ResponseStyle("casual".to_string()));
    let pref = get_preference(&preferences, "response_style");
    assert!(pref.is_some());
    if let Some(PreferenceType::ResponseStyle(style)) = pref {
        assert_eq!(style, "casual");
    } else {
        panic!("Expected ResponseStyle preference");
    }
}

#[test]
fn test_extract_topics() {
    let topics = extract_topics("What is the latest news about technology?");
    assert!(topics.contains(&"latest".to_string()));
    assert!(topics.contains(&"news".to_string()));
    assert!(topics.contains(&"technology".to_string()));
    assert_eq!(topics, vec!["latest", "news", "about", "technology"]);
}

#[test]
fn test_extract_question_pattern() {
    let pattern = extract_question_pattern("What is the time?");
    assert_eq!(pattern, "what is");
    let pattern = extract_question_pattern("How do I cook pasta?");
    assert_eq!(pattern, "how do");
    assert_eq!(extract_question_pattern("Why"), "why");
    assert_eq!(extract_question_pattern("   "), "unknown");
}

#[test]
fn test_system_prompt_modifier() {
    let mut preferences: Vec<PreferenceType> = Vec::new();
    set_preference(&mut preferences, PreferenceType::ResponseStyle("casual".to_string()));
    set_preference(&mut preferences, PreferenceType::Verbosity(8));
    let modifier = system_prompt_modifier(&preferences, &Vec::new());
    assert!(modifier.contains("casual"));
    assert!(modifier.contains("detailed"));
}

#[test]
fn preference_replaced_and_phrased() {
    let mut preferences: Vec<PreferenceType> = Vec::new();
    set_preference(&mut preferences, PreferenceType::Verbosity(2));
    set_preference(&mut preferences, PreferenceType::Language("French".into()));
    set_preference(&mut preferences, PreferenceType::Verbosity(11));
    set_preference(&mut preferences, PreferenceType::PreferredTopics(vec!["jazz".into(), "chess".into()]));
    set_preference(&mut preferences, PreferenceType::DislikedTopics(vec![]));
    set_preference(&mut preferences, PreferenceType::TimeOfDayPreferences(false));
    set_preference(&mut preferences, PreferenceType::Custom("tone".into(), "warm".into()));
    assert_eq!(preferences.len(), 6);
    assert_eq!(preferences[1].kind(), PreferenceKind::Verbosity);
    assert!(matches!(get_preference(&preferences, "tone"), Some(PreferenceType::Custom(_, v)) if v == "warm"));
    let topics = vec![("weather".to_string(), 3u32), ("news".to_string(), 2u32)];
    let m = system_prompt_modifier(&preferences, &topics);
    assert_eq!(
        m,
        "User preferences:\nRespond in French.\nKeep responses moderate.\nThe user is interested in: jazz, chess.\ntone: warm\nThe user frequently asks about: weather."
    );
    assert_eq!(system_prompt_modifier(&Vec::new(), &topics[1..].to_vec()), "");
}

#[test]
fn tally_counts_mentions() {
    let mut counts: Vec<(String, u32)> = Vec::new();
    tally(&mut counts, "weather");
    tally(&mut counts, "music");
    tally(&mut counts, "weather");
    assert_eq!(counts, vec![("weather".to_string(), 2), ("music".to_string(), 1)]);
}

#[test]
fn record_question_counts_topics_and_pattern() {
    let mut topics: Vec<(String, u32)> = Vec::new();
    let mut patterns: Vec<(String, u32)> = Vec::new();
    record_question(&mut topics, &mut patterns, "What is the weather in Paris?");
    record_question(&mut topics, &mut patterns, "What is good music for the weather?");
    assert_eq!(
        topics,
        vec![
            ("weather".to_string(), 2),
            ("paris".to_string(), 1),
            ("good".to_string(), 1),
            ("music".to_string(), 1),
        ]
    );
    assert_eq!(patterns, vec![("what is".to_string(), 2)]);
}
