//! System prompts for LLM chat, tuned for text or for speech output.
use vstd::prelude::*;
use vstd::string::StringExecFns;

verus! {

/// Prompt optimisation mode.
#[derive(Debug, Clone, Copy, PartialEq, Eq, Structural)]
pub enum VoicePromptMode {
    /// Technical responses with markdown formatting.
    Standard,
    /// Conversational responses suited to text-to-speech.
    Voice,
}

/// System prompt for text-based chat: markdown and code blocks are welcome.
pub const STANDARD_PROMPT: &'static str = "You are a helpful AI assistant. Provide clear and accurate responses. You may use markdown formatting, code blocks, and technical language as appropriate for the user's questions.";

/// System prompt for spoken output: short sentences, no markdown.
pub const VOICE_PROMPT: &'static str = "You are a voice assistant. Keep responses conversational.

Rules for natural speech:
- Use short, clear sentences. Max twenty words per sentence.
- Speak naturally. Use contractions like you're, it's, don't.
- Avoid markdown. No asterisks, hashes, or code blocks.
- List items as first, second, third. Not bullet points.
- Spell out acronyms. Say A-P-I, not API.
- Keep technical explanations simple.
- Sound like a helpful friend talking.";

/// The prompt text of a mode.
pub open spec fn prompt_for(mode: VoicePromptMode) -> Seq<char> {
    match mode {
        VoicePromptMode::Standard => STANDARD_PROMPT@,
        VoicePromptMode::Voice => VOICE_PROMPT@,
    }
}

/// The system prompt for `mode`.
pub fn build_system_prompt(mode: VoicePromptMode) -> (r: String)
    ensures
        r@ == prompt_for(mode),
{
    match mode {
        VoicePromptMode::Standard => String::from_str(STANDARD_PROMPT),
        VoicePromptMode::Voice => String::from_str(VOICE_PROMPT),
    }
}

/// Law: the two modes produce different prompts.
pub proof fn lemma_modes_differ()
    ensures
        prompt_for(VoicePromptMode::Standard) != prompt_for(VoicePromptMode::Voice),
{
    reveal_strlit("You are a helpful AI assistant. Provide clear and accurate responses. You may use markdown formatting, code blocks, and technical language as appropriate for the user's questions.");
    reveal_strlit("You are a voice assistant. Keep responses conversational.

Rules for natural speech:
- Use short, clear sentences. Max twenty words per sentence.
- Speak naturally. Use contractions like you're, it's, don't.
- Avoid markdown. No asterisks, hashes, or code blocks.
- List items as first, second, third. Not bullet points.
- Spell out acronyms. Say A-P-I, not API.
- Keep technical explanations simple.
- Sound like a helpful friend talking.");
    assert(STANDARD_PROMPT@[10] != VOICE_PROMPT@[10]);
}

} // verus!
