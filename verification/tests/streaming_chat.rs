use vox::streaming_chat::{http_status_message, request_failed_message, stream_error_message, ChatLine, ChatStream};
use vox::streaming_chat::{is_punct_char, SentenceBuffer, StopReason};

#[test]
fn sentence_buffer_simple() {
    let mut buf = SentenceBuffer::new();

    assert_eq!(buf.push("Hello"), Vec::<String>::new());
    assert_eq!(buf.push(". "), vec!["Hello."]);
    assert_eq!(buf.push("World"), Vec::<String>::new());
    assert_eq!(buf.push("!"), Vec::<String>::new());

    assert_eq!(buf.finish(), vec!["Hello.", "World!"]);
}

#[test]
fn sentence_buffer_multiple_in_one_token() {
    let mut buf = SentenceBuffer::new();
    let sentences = buf.push("Hello. World!");
    assert_eq!(sentences, vec!["Hello."]);
    assert_eq!(buf.finish(), vec!["Hello.", "World!"]);
}

#[test]
fn sentence_buffer_question_and_exclamation() {
    let mut buf = SentenceBuffer::new();
    buf.push("How are you? ");
    buf.push("I'm fine!");
    let all = buf.finish();
    assert_eq!(all, vec!["How are you?", "I'm fine!"]);
}

#[test]
fn sentence_buffer_preserves_decimals() {
    let mut buf = SentenceBuffer::new();
    buf.push("The price is 3.50 dollars.");
    assert_eq!(buf.finish(), vec!["The price is 3.50 dollars."]);
}

#[test]
fn sentence_buffer_word_count_fallback() {
    let mut buf = SentenceBuffer::new();
    let words = "one two three four five six seven eight nine ten eleven twelve thirteen fourteen fifteen";
    let sentences = buf.push(words);
    assert!(!sentences.is_empty(), "should flush after 12+ words");
    assert_eq!(sentences.len(), 1);
    let remaining = buf.flush();
    assert!(remaining.is_none() || remaining.unwrap().split_whitespace().count() < 12);
}

#[test]
fn sentence_buffer_handles_abbreviations() {
    let mut buf = SentenceBuffer::new();
    let s1 = buf.push("Dr. ");
    assert_eq!(s1, vec!["Dr."]);
    buf.push("Smith said hello.");
    assert_eq!(buf.finish(), vec!["Dr.", "Smith said hello."]);
}

#[test]
fn sentence_buffer_keeps_every_character() {
    let tokens = ["Well", ", it", " is 3.5", "0. Then", " more! And", " the rest"];
    let mut buf = SentenceBuffer::new();
    let mut out: Vec<String> = Vec::new();
    for t in tokens {
        out.extend(buf.push(t));
    }
    out.extend(buf.flush());
    let joined: String = out.concat().chars().filter(|c| !c.is_whitespace()).collect();
    let input: String = tokens.concat().chars().filter(|c| !c.is_whitespace()).collect();
    assert_eq!(joined, input);
    assert_eq!(out, vec!["Well, it is 3.50.", "Then more!", "And the rest"]);
}

#[test]
fn sentence_buffer_flush_empty_is_none() {
    let buf = SentenceBuffer::new();
    assert_eq!(buf.flush(), None);
    let mut buf = SentenceBuffer::new();
    buf.push("   ");
    assert_eq!(buf.flush(), None);
}

#[test]
fn punctuation_characters() {
    assert!(is_punct_char('.'));
    assert!(is_punct_char('!'));
    assert!(is_punct_char('?'));
    assert!(!is_punct_char(','));
    assert_ne!(StopReason::Finished, StopReason::Cancelled);
}

use vox::streaming_chat::NdjsonLines;

#[test]
fn ndjson_lines_are_framed_across_chunks() {
    let mut f = NdjsonLines::new();
    assert!(f.push(b"{\"response\":\"Hel").is_empty());
    let lines = f.push(b"lo\"}\n  \r\n{\"done\":true}\n{\"par");
    assert_eq!(lines, vec![b"{\"response\":\"Hello\"}".to_vec(), b"{\"done\":true}".to_vec()]);
    let lines = f.push(b"tial\":1}\n");
    assert_eq!(lines, vec![b"{\"partial\":1}".to_vec()]);
    assert!(f.push(b"\n\n\t\n").is_empty());
}

#[test]
fn chat_stream_lines() {
    let mut c = ChatStream::new();
    assert!(c.on_line(ChatLine::Chunk { response: "Hello there.".into(), done: false }).is_empty());
    let s = c.on_line(ChatLine::Chunk { response: " How are".into(), done: false });
    assert_eq!(s, vec!["Hello there.".to_string()]);
    assert!(c.on_line(ChatLine::Malformed).is_empty());
    assert!(!c.is_done());
    assert!(c.on_line(ChatLine::DoneMarker).is_empty());
    assert!(c.is_done());
    assert_eq!(c.on_end().as_deref(), Some("How are"));
    assert_eq!(request_failed_message("x"), "Ollama request failed: x");
    assert_eq!(http_status_message("500"), "Ollama returned HTTP 500");
    assert_eq!(stream_error_message("x"), "Stream error: x");
}
