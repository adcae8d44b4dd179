//! Voices of the Pocket TTS model and where a voice is loaded from.
use vstd::prelude::*;
use crate::text::{concat2, contains, contains_str, ends_with, has_suffix, str_eq};

verus! {

/// The voices shipped with the model.
pub open spec fn builtin_voices() -> Seq<Seq<char>> {
    seq![
        "alba"@,
        "marius"@,
        "javert"@,
        "jean"@,
        "fantine"@,
        "cosette"@,
        "eponine"@,
        "azelma"@,
    ]
}

/// Where the state of a voice comes from.
#[derive(Debug, Clone)]
pub enum VoiceSource {
    /// A voice name, resolved to this embedding file in the voices directory.
    Named(String),
    /// A pre-computed embedding file at the given path.
    EmbeddingFile,
    /// An audio file to clone the voice from.
    CloneFromAudio,
}

/// Whether `voice` names a voice rather than a file: a built-in voice, or
/// any text without a dot.
pub open spec fn names_voice(voice: Seq<char>) -> bool {
    builtin_voices().contains(voice) || !contains(voice, "."@)
}

/// The source of `voice`: a name resolves to `<voice>.safetensors` in the
/// voices directory; a path ending in `.safetensors` is an embedding file;
/// any other path is audio to clone from.
pub fn voice_source(voice: &str) -> (r: VoiceSource)
    ensures
        names_voice(voice@) ==> (r matches VoiceSource::Named(f) && f@ == voice@ + ".safetensors"@),
        !names_voice(voice@) && has_suffix(voice@, ".safetensors"@) ==> r is EmbeddingFile,
        !names_voice(voice@) && !has_suffix(voice@, ".safetensors"@) ==> r is CloneFromAudio,
{
    let builtin = str_eq(voice, "alba") || str_eq(voice, "marius") || str_eq(voice, "javert")
        || str_eq(voice, "jean") || str_eq(voice, "fantine") || str_eq(voice, "cosette")
        || str_eq(voice, "eponine") || str_eq(voice, "azelma");
    proof {
        let b = builtin_voices();
        if b.contains(voice@) {
            let i = choose|i: int| 0 <= i < b.len() && b[i] == voice@;
            assert(builtin);
        }
        if builtin {
            assert(b.contains(voice@)) by {
                if voice@ == "alba"@ { assert(b[0] == voice@); }
                else if voice@ == "marius"@ { assert(b[1] == voice@); }
                else if voice@ == "javert"@ { assert(b[2] == voice@); }
                else if voice@ == "jean"@ { assert(b[3] == voice@); }
                else if voice@ == "fantine"@ { assert(b[4] == voice@); }
                else if voice@ == "cosette"@ { assert(b[5] == voice@); }
                else if voice@ == "eponine"@ { assert(b[6] == voice@); }
                else { assert(b[7] == voice@); }
            }
        }
    }
    if builtin || !contains_str(voice, ".") {
        VoiceSource::Named(concat2(voice, ".safetensors"))
    } else if ends_with(voice, ".safetensors") {
        VoiceSource::EmbeddingFile
    } else {
        VoiceSource::CloneFromAudio
    }
}

} // verus!
