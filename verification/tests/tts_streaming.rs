use vox::tts::streaming::split_sentences;

#[test]
fn splits_on_period() {
    assert_eq!(split_sentences("Hello. World."), vec!["Hello.", "World."]);
}

#[test]
fn splits_on_mixed_punctuation() {
    assert_eq!(
        split_sentences("Hello! How are you? Fine."),
        vec!["Hello!", "How are you?", "Fine."]
    );
}

#[test]
fn handles_no_punctuation() {
    assert_eq!(split_sentences("Hello world"), vec!["Hello world"]);
}

#[test]
fn handles_empty_string() {
    assert!(split_sentences("").is_empty());
}

#[test]
fn handles_whitespace_only() {
    assert!(split_sentences("   ").is_empty());
}

#[test]
fn preserves_decimals() {
    assert_eq!(
        split_sentences("The price is 3.50 dollars."),
        vec!["The price is 3.50 dollars."]
    );
}

#[test]
fn abbreviations_followed_by_space_split() {
    assert_eq!(
        split_sentences("Dr. Smith said hello."),
        vec!["Dr.", "Smith said hello."]
    );
}

#[test]
fn handles_trailing_text_without_punctuation() {
    assert_eq!(split_sentences("Hello. World"), vec!["Hello.", "World"]);
}

#[test]
fn split_sentences_pieces_are_trimmed_and_keep_text() {
    let text = "  One.  Two!\tThree?\nfour  ";
    let parts = split_sentences(text);
    assert_eq!(parts, vec!["One.", "Two!", "Three?", "four"]);
    for p in &parts {
        assert_eq!(p.trim(), p);
        assert!(!p.is_empty());
    }
    let joined: String = parts.concat().chars().filter(|c| !c.is_whitespace()).collect();
    let input: String = text.chars().filter(|c| !c.is_whitespace()).collect();
    assert_eq!(joined, input);
}
