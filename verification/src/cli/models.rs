//! Model names, file names and the download registry.
use vstd::prelude::*;
use vstd::string::StringExecFns;
use crate::text::{
    concat2, concat3, ends_with, has_prefix, has_suffix, join, lowercase, push_joined, push_str, starts_with,
    str_eq, strings_view, to_lowercase, ascii_lower, is_ascii_str,
};

verus! {

/// Metadata for a downloadable model.
#[derive(Debug, Clone, Copy)]
pub struct ModelInfo {
    /// Human-readable name (used in `vox models download <name>`).
    pub name: &'static str,
    /// Filename on disk inside the models directory.
    pub filename: &'static str,
    /// Download URL.
    pub url: &'static str,
    /// Expected file size in bytes (approximate, for progress display).
    pub size_bytes: u64,
    /// Model kind label (VAD, STT, TTS).
    pub kind: &'static str,
}

/// A registry entry as plain values: name, file name, URL, size, kind.
pub open spec fn info_view(m: ModelInfo) -> (Seq<char>, Seq<char>, Seq<char>, u64, Seq<char>) {
    (m.name@, m.filename@, m.url@, m.size_bytes, m.kind@)
}

/// Every model that can be managed from the command line, in listing order.
///
/// `qwen3-0.6b` and `distil-whisper-tiny.en-int8` are the documented
/// download names of those models; their URLs follow the layout of the
/// neighbouring entries and their sizes are the documented approximate
/// sizes, neither checked against the host.
pub open spec fn model_registry() -> Seq<(Seq<char>, Seq<char>, Seq<char>, u64, Seq<char>)> {
    seq![
        ("silero-vad"@, "silero_vad.onnx"@, "https://raw.githubusercontent.com/snakers4/silero-vad/master/src/silero_vad/data/silero_vad.onnx"@, 2327524u64, "VAD"@),
        ("whisper-tiny.en"@, "ggml-tiny.en.bin"@, "https://huggingface.co/ggerganov/whisper.cpp/resolve/main/ggml-tiny.en.bin"@, 75000000u64, "STT"@),
        ("whisper-tiny.en-int8"@, "ggml-tiny.en-int8.bin"@, "https://huggingface.co/ggerganov/whisper.cpp/resolve/main/ggml-tiny.en-q8_0.bin"@, 42000000u64, "STT"@),
        ("whisper-base.en"@, "ggml-base.en.bin"@, "https://huggingface.co/ggerganov/whisper.cpp/resolve/main/ggml-base.en.bin"@, 142000000u64, "STT"@),
        ("whisper-base.en-int8"@, "ggml-base.en-int8.bin"@, "https://huggingface.co/ggerganov/whisper.cpp/resolve/main/ggml-base.en-q8_0.bin"@, 78000000u64, "STT"@),
        ("distil-whisper-tiny.en"@, "ggml-distil-tiny.en.bin"@, "https://huggingface.co/distil-whisper/distil-large-v3/resolve/main/ggml-distil-tiny.en.bin"@, 75000000u64, "STT"@),
        ("distil-whisper-tiny.en-int8"@, "ggml-distil-tiny.en-int8.bin"@, "https://huggingface.co/distil-whisper/distil-large-v3/resolve/main/ggml-distil-tiny.en-q8_0.bin"@, 42000000u64, "STT"@),
        ("distil-whisper-base.en"@, "ggml-distil-base.en.bin"@, "https://huggingface.co/distil-whisper/distil-large-v3/resolve/main/ggml-distil-base.en.bin"@, 142000000u64, "STT"@),
        ("distil-whisper-small.en"@, "ggml-distil-small.en.bin"@, "https://huggingface.co/distil-whisper/distil-small.en/resolve/main/ggml-model.bin"@, 466000000u64, "STT"@),
        ("distil-whisper-medium.en"@, "ggml-distil-medium.en.bin"@, "https://huggingface.co/distil-whisper/distil-medium.en/resolve/main/ggml-model.bin"@, 1500000000u64, "STT"@),
        ("whisper-large-v3-turbo"@, "ggml-large-v3-turbo.bin"@, "https://huggingface.co/ggerganov/whisper.cpp/resolve/main/ggml-large-v3-turbo.bin"@, 1550000000u64, "STT"@),
        ("whisper-large-v3-turbo-q5"@, "ggml-large-v3-turbo-q5_0.bin"@, "https://huggingface.co/ggerganov/whisper.cpp/resolve/main/ggml-large-v3-turbo-q5_0.bin"@, 574000000u64, "STT"@),
        ("whisper-large-v3-turbo-q8"@, "ggml-large-v3-turbo-q8_0.bin"@, "https://huggingface.co/ggerganov/whisper.cpp/resolve/main/ggml-large-v3-turbo-q8_0.bin"@, 842000000u64, "STT"@),
        ("kokoro"@, "kokoro-v1.0.onnx"@, "https://github.com/thewh1teagle/kokoro-onnx/releases/download/model-files-v1.0/kokoro-v1.0.onnx"@, 325532387u64, "TTS"@),
        ("kokoro-int8"@, "kokoro-v1.0.int8.onnx"@, "https://huggingface.co/onnx-community/Kokoro-82M-ONNX/resolve/main/onnx/model_quantized.onnx"@, 85000000u64, "TTS"@),
        ("kokoro-voices"@, "voices.bin"@, "https://github.com/thewh1teagle/kokoro-onnx/releases/download/model-files-v1.0/voices-v1.0.bin"@, 28214398u64, "TTS"@),
        ("qwen3-0.6b"@, "qwen3/model.safetensors"@, "https://huggingface.co/Qwen/Qwen3-TTS-12Hz-0.6B-CustomVoice/resolve/main/model.safetensors"@, 1200000000u64, "TTS"@),
        ("sherpa-sensevoice"@, "sensevoice/model.int8.onnx"@, "https://huggingface.co/csukuangfj/sherpa-onnx-sense-voice-zh-en-ja-ko-yue-2024-07-17/resolve/main/model.int8.onnx"@, 230000000u64, "STT"@),
        ("sherpa-sensevoice-tokens"@, "sensevoice/tokens.txt"@, "https://huggingface.co/csukuangfj/sherpa-onnx-sense-voice-zh-en-ja-ko-yue-2024-07-17/resolve/main/tokens.txt"@, 300000u64, "STT"@),
        ("sherpa-streaming-encoder"@, "sherpa-streaming/encoder.int8.onnx"@, "https://huggingface.co/csukuangfj/sherpa-onnx-streaming-zipformer-en-2023-06-26/resolve/main/encoder-epoch-99-avg-1-chunk-16-left-128.int8.onnx"@, 71000000u64, "STT"@),
        ("sherpa-streaming-decoder"@, "sherpa-streaming/decoder.int8.onnx"@, "https://huggingface.co/csukuangfj/sherpa-onnx-streaming-zipformer-en-2023-06-26/resolve/main/decoder-epoch-99-avg-1-chunk-16-left-128.int8.onnx"@, 1300000u64, "STT"@),
        ("sherpa-streaming-joiner"@, "sherpa-streaming/joiner.int8.onnx"@, "https://huggingface.co/csukuangfj/sherpa-onnx-streaming-zipformer-en-2023-06-26/resolve/main/joiner-epoch-99-avg-1-chunk-16-left-128.int8.onnx"@, 260000u64, "STT"@),
        ("sherpa-streaming-tokens"@, "sherpa-streaming/tokens.txt"@, "https://huggingface.co/csukuangfj/sherpa-onnx-streaming-zipformer-en-2023-06-26/resolve/main/tokens.txt"@, 50000u64, "STT"@),
        ("piper-en-us"@, "piper/en_US-lessac-medium.onnx"@, "https://huggingface.co/rhasspy/piper-voices/resolve/main/en/en_US/lessac/medium/en_US-lessac-medium.onnx"@, 63000000u64, "TTS"@),
        ("piper-en-us-config"@, "piper/en_US-lessac-medium.onnx.json"@, "https://huggingface.co/rhasspy/piper-voices/resolve/main/en/en_US/lessac/medium/en_US-lessac-medium.onnx.json"@, 5000u64, "TTS"@),
        ("piper-de"@, "piper/de_DE-thorsten-medium.onnx"@, "https://huggingface.co/rhasspy/piper-voices/resolve/main/de/de_DE/thorsten/medium/de_DE-thorsten-medium.onnx"@, 63000000u64, "TTS"@),
        ("piper-de-config"@, "piper/de_DE-thorsten-medium.onnx.json"@, "https://huggingface.co/rhasspy/piper-voices/resolve/main/de/de_DE/thorsten/medium/de_DE-thorsten-medium.onnx.json"@, 5000u64, "TTS"@),
        ("piper-es"@, "piper/es_ES-davefx-medium.onnx"@, "https://huggingface.co/rhasspy/piper-voices/resolve/main/es/es_ES/davefx/medium/es_ES-davefx-medium.onnx"@, 63000000u64, "TTS"@),
        ("piper-es-config"@, "piper/es_ES-davefx-medium.onnx.json"@, "https://huggingface.co/rhasspy/piper-voices/resolve/main/es/es_ES/davefx/medium/es_ES-davefx-medium.onnx.json"@, 5000u64, "TTS"@),
        ("piper-fr"@, "piper/fr_FR-siwis-medium.onnx"@, "https://huggingface.co/rhasspy/piper-voices/resolve/main/fr/fr_FR/siwis/medium/fr_FR-siwis-medium.onnx"@, 63000000u64, "TTS"@),
        ("piper-fr-config"@, "piper/fr_FR-siwis-medium.onnx.json"@, "https://huggingface.co/rhasspy/piper-voices/resolve/main/fr/fr_FR/siwis/medium/fr_FR-siwis-medium.onnx.json"@, 5000u64, "TTS"@),
        ("piper-zh"@, "piper/zh_CN-huayan-medium.onnx"@, "https://huggingface.co/rhasspy/piper-voices/resolve/main/zh/zh_CN/huayan/medium/zh_CN-huayan-medium.onnx"@, 63000000u64, "TTS"@),
        ("piper-zh-config"@, "piper/zh_CN-huayan-medium.onnx.json"@, "https://huggingface.co/rhasspy/piper-voices/resolve/main/zh/zh_CN/huayan/medium/zh_CN-huayan-medium.onnx.json"@, 5000u64, "TTS"@),
    ]
}

/// Every model that can be managed from the command line, in listing order.
pub fn known_models() -> (r: Vec<ModelInfo>)
    ensures
        r@.map_values(|m: ModelInfo| info_view(m)) == model_registry(),
{
    let mut v: Vec<ModelInfo> = Vec::new();
    v.push(ModelInfo { name: "silero-vad", filename: "silero_vad.onnx", url: "https://raw.githubusercontent.com/snakers4/silero-vad/master/src/silero_vad/data/silero_vad.onnx", size_bytes: 2327524, kind: "VAD" });
    v.push(ModelInfo { name: "whisper-tiny.en", filename: "ggml-tiny.en.bin", url: "https://huggingface.co/ggerganov/whisper.cpp/resolve/main/ggml-tiny.en.bin", size_bytes: 75000000, kind: "STT" });
    v.push(ModelInfo { name: "whisper-tiny.en-int8", filename: "ggml-tiny.en-int8.bin", url: "https://huggingface.co/ggerganov/whisper.cpp/resolve/main/ggml-tiny.en-q8_0.bin", size_bytes: 42000000, kind: "STT" });
    v.push(ModelInfo { name: "whisper-base.en", filename: "ggml-base.en.bin", url: "https://huggingface.co/ggerganov/whisper.cpp/resolve/main/ggml-base.en.bin", size_bytes: 142000000, kind: "STT" });
    v.push(ModelInfo { name: "whisper-base.en-int8", filename: "ggml-base.en-int8.bin", url: "https://huggingface.co/ggerganov/whisper.cpp/resolve/main/ggml-base.en-q8_0.bin", size_bytes: 78000000, kind: "STT" });
    v.push(ModelInfo { name: "distil-whisper-tiny.en", filename: "ggml-distil-tiny.en.bin", url: "https://huggingface.co/distil-whisper/distil-large-v3/resolve/main/ggml-distil-tiny.en.bin", size_bytes: 75000000, kind: "STT" });
    v.push(ModelInfo { name: "distil-whisper-tiny.en-int8", filename: "ggml-distil-tiny.en-int8.bin", url: "https://huggingface.co/distil-whisper/distil-large-v3/resolve/main/ggml-distil-tiny.en-q8_0.bin", size_bytes: 42000000, kind: "STT" });
    v.push(ModelInfo { name: "distil-whisper-base.en", filename: "ggml-distil-base.en.bin", url: "https://huggingface.co/distil-whisper/distil-large-v3/resolve/main/ggml-distil-base.en.bin", size_bytes: 142000000, kind: "STT" });
    v.push(ModelInfo { name: "distil-whisper-small.en", filename: "ggml-distil-small.en.bin", url: "https://huggingface.co/distil-whisper/distil-small.en/resolve/main/ggml-model.bin", size_bytes: 466000000, kind: "STT" });
    v.push(ModelInfo { name: "distil-whisper-medium.en", filename: "ggml-distil-medium.en.bin", url: "https://huggingface.co/distil-whisper/distil-medium.en/resolve/main/ggml-model.bin", size_bytes: 1500000000, kind: "STT" });
    v.push(ModelInfo { name: "whisper-large-v3-turbo", filename: "ggml-large-v3-turbo.bin", url: "https://huggingface.co/ggerganov/whisper.cpp/resolve/main/ggml-large-v3-turbo.bin", size_bytes: 1550000000, kind: "STT" });
    v.push(ModelInfo { name: "whisper-large-v3-turbo-q5", filename: "ggml-large-v3-turbo-q5_0.bin", url: "https://huggingface.co/ggerganov/whisper.cpp/resolve/main/ggml-large-v3-turbo-q5_0.bin", size_bytes: 574000000, kind: "STT" });
    v.push(ModelInfo { name: "whisper-large-v3-turbo-q8", filename: "ggml-large-v3-turbo-q8_0.bin", url: "https://huggingface.co/ggerganov/whisper.cpp/resolve/main/ggml-large-v3-turbo-q8_0.bin", size_bytes: 842000000, kind: "STT" });
    v.push(ModelInfo { name: "kokoro", filename: "kokoro-v1.0.onnx", url: "https://github.com/thewh1teagle/kokoro-onnx/releases/download/model-files-v1.0/kokoro-v1.0.onnx", size_bytes: 325532387, kind: "TTS" });
    v.push(ModelInfo { name: "kokoro-int8", filename: "kokoro-v1.0.int8.onnx", url: "https://huggingface.co/onnx-community/Kokoro-82M-ONNX/resolve/main/onnx/model_quantized.onnx", size_bytes: 85000000, kind: "TTS" });
    v.push(ModelInfo { name: "kokoro-voices", filename: "voices.bin", url: "https://github.com/thewh1teagle/kokoro-onnx/releases/download/model-files-v1.0/voices-v1.0.bin", size_bytes: 28214398, kind: "TTS" });
    v.push(ModelInfo { name: "qwen3-0.6b", filename: "qwen3/model.safetensors", url: "https://huggingface.co/Qwen/Qwen3-TTS-12Hz-0.6B-CustomVoice/resolve/main/model.safetensors", size_bytes: 1200000000, kind: "TTS" });
    v.push(ModelInfo { name: "sherpa-sensevoice", filename: "sensevoice/model.int8.onnx", url: "https://huggingface.co/csukuangfj/sherpa-onnx-sense-voice-zh-en-ja-ko-yue-2024-07-17/resolve/main/model.int8.onnx", size_bytes: 230000000, kind: "STT" });
    v.push(ModelInfo { name: "sherpa-sensevoice-tokens", filename: "sensevoice/tokens.txt", url: "https://huggingface.co/csukuangfj/sherpa-onnx-sense-voice-zh-en-ja-ko-yue-2024-07-17/resolve/main/tokens.txt", size_bytes: 300000, kind: "STT" });
    v.push(ModelInfo { name: "sherpa-streaming-encoder", filename: "sherpa-streaming/encoder.int8.onnx", url: "https://huggingface.co/csukuangfj/sherpa-onnx-streaming-zipformer-en-2023-06-26/resolve/main/encoder-epoch-99-avg-1-chunk-16-left-128.int8.onnx", size_bytes: 71000000, kind: "STT" });
    v.push(ModelInfo { name: "sherpa-streaming-decoder", filename: "sherpa-streaming/decoder.int8.onnx", url: "https://huggingface.co/csukuangfj/sherpa-onnx-streaming-zipformer-en-2023-06-26/resolve/main/decoder-epoch-99-avg-1-chunk-16-left-128.int8.onnx", size_bytes: 1300000, kind: "STT" });
    v.push(ModelInfo { name: "sherpa-streaming-joiner", filename: "sherpa-streaming/joiner.int8.onnx", url: "https://huggingface.co/csukuangfj/sherpa-onnx-streaming-zipformer-en-2023-06-26/resolve/main/joiner-epoch-99-avg-1-chunk-16-left-128.int8.onnx", size_bytes: 260000, kind: "STT" });
    v.push(ModelInfo { name: "sherpa-streaming-tokens", filename: "sherpa-streaming/tokens.txt", url: "https://huggingface.co/csukuangfj/sherpa-onnx-streaming-zipformer-en-2023-06-26/resolve/main/tokens.txt", size_bytes: 50000, kind: "STT" });
    v.push(ModelInfo { name: "piper-en-us", filename: "piper/en_US-lessac-medium.onnx", url: "https://huggingface.co/rhasspy/piper-voices/resolve/main/en/en_US/lessac/medium/en_US-lessac-medium.onnx", size_bytes: 63000000, kind: "TTS" });
    v.push(ModelInfo { name: "piper-en-us-config", filename: "piper/en_US-lessac-medium.onnx.json", url: "https://huggingface.co/rhasspy/piper-voices/resolve/main/en/en_US/lessac/medium/en_US-lessac-medium.onnx.json", size_bytes: 5000, kind: "TTS" });
    v.push(ModelInfo { name: "piper-de", filename: "piper/de_DE-thorsten-medium.onnx", url: "https://huggingface.co/rhasspy/piper-voices/resolve/main/de/de_DE/thorsten/medium/de_DE-thorsten-medium.onnx", size_bytes: 63000000, kind: "TTS" });
    v.push(ModelInfo { name: "piper-de-config", filename: "piper/de_DE-thorsten-medium.onnx.json", url: "https://huggingface.co/rhasspy/piper-voices/resolve/main/de/de_DE/thorsten/medium/de_DE-thorsten-medium.onnx.json", size_bytes: 5000, kind: "TTS" });
    v.push(ModelInfo { name: "piper-es", filename: "piper/es_ES-davefx-medium.onnx", url: "https://huggingface.co/rhasspy/piper-voices/resolve/main/es/es_ES/davefx/medium/es_ES-davefx-medium.onnx", size_bytes: 63000000, kind: "TTS" });
    v.push(ModelInfo { name: "piper-es-config", filename: "piper/es_ES-davefx-medium.onnx.json", url: "https://huggingface.co/rhasspy/piper-voices/resolve/main/es/es_ES/davefx/medium/es_ES-davefx-medium.onnx.json", size_bytes: 5000, kind: "TTS" });
    v.push(ModelInfo { name: "piper-fr", filename: "piper/fr_FR-siwis-medium.onnx", url: "https://huggingface.co/rhasspy/piper-voices/resolve/main/fr/fr_FR/siwis/medium/fr_FR-siwis-medium.onnx", size_bytes: 63000000, kind: "TTS" });
    v.push(ModelInfo { name: "piper-fr-config", filename: "piper/fr_FR-siwis-medium.onnx.json", url: "https://huggingface.co/rhasspy/piper-voices/resolve/main/fr/fr_FR/siwis/medium/fr_FR-siwis-medium.onnx.json", size_bytes: 5000, kind: "TTS" });
    v.push(ModelInfo { name: "piper-zh", filename: "piper/zh_CN-huayan-medium.onnx", url: "https://huggingface.co/rhasspy/piper-voices/resolve/main/zh/zh_CN/huayan/medium/zh_CN-huayan-medium.onnx", size_bytes: 63000000, kind: "TTS" });
    v.push(ModelInfo { name: "piper-zh-config", filename: "piper/zh_CN-huayan-medium.onnx.json", url: "https://huggingface.co/rhasspy/piper-voices/resolve/main/zh/zh_CN/huayan/medium/zh_CN-huayan-medium.onnx.json", size_bytes: 5000, kind: "TTS" });
    assert(v@.map_values(|m: ModelInfo| info_view(m)) =~= model_registry());
    v
}

/// The first registry entry named `name`, if any.
pub fn find_model(name: &str) -> (r: Option<ModelInfo>)
    ensures
        match r {
            Some(m) => exists|i: int| {
                &&& 0 <= i < model_registry().len()
                &&& model_registry()[i] == info_view(m)
                &&& model_registry()[i].0 == name@
                &&& forall|j: int| 0 <= j < i ==> model_registry()[j].0 != name@
            },
            None => forall|i: int| 0 <= i < model_registry().len() ==> model_registry()[i].0 != name@,
        },
{
    let models = known_models();
    let ghost reg = model_registry();
    let mut i: usize = 0;
    while i < models.len()
        invariant
            i <= models@.len(),
            models@.map_values(|m: ModelInfo| info_view(m)) == reg,
            reg == model_registry(),
            forall|j: int| 0 <= j < i ==> reg[j].0 != name@,
        decreases models@.len() - i,
    {
        let m = models[i];
        assert(reg[i as int] == info_view(m));
        if str_eq(m.name, name) {
            return Some(m);
        }
        i = i + 1;
    }
    None
}

/// The names of all registry entries, in order.
pub open spec fn registry_names() -> Seq<Seq<char>> {
    model_registry().map_values(|e: (Seq<char>, Seq<char>, Seq<char>, u64, Seq<char>)| e.0)
}

/// The error text for a name that is not in the registry.
pub fn unknown_model_message(name: &str) -> (r: String)
    ensures
        r@ == "Unknown model: '"@ + name@ + "'\n\nAvailable models:\n  "@ + join(registry_names(), "\n  "@),
{
    let models = known_models();
    let mut names: Vec<String> = Vec::new();
    let mut i: usize = 0;
    while i < models.len()
        invariant
            i <= models@.len(),
            models@.map_values(|m: ModelInfo| info_view(m)) == model_registry(),
            strings_view(names@) == registry_names().take(i as int),
        decreases models@.len() - i,
    {
        let ghost before = names@;
        let s = String::from_str(models[i].name);
        names.push(s);
        assert(strings_view(names@) =~= strings_view(before).push(s@));
        i = i + 1;
        assert(strings_view(names@) =~= registry_names().take(i as int));
    }
    let mut out = String::from_str("Unknown model: '");
    push_str(&mut out, name);
    push_str(&mut out, "'\n\nAvailable models:\n  ");
    let n = names.len();
    push_joined(&mut out, &names, n, "\n  ");
    assert(registry_names().take(n as int) =~= registry_names());
    out
}

/// Where a model file was found.
#[derive(Debug, Clone, Copy, PartialEq, Eq, Structural)]
pub enum ModelLocation {
    /// Inside the models directory.
    ModelsDir,
    /// At the given path relative to the working directory.
    WorkingDir,
}

/// Resolves a model file: the models directory is searched first, then the
/// working directory. The arguments say whether the file exists in each.
pub fn resolve_model(in_models_dir: bool, in_working_dir: bool) -> (r: Option<ModelLocation>)
    ensures
        in_models_dir ==> r == Some(ModelLocation::ModelsDir),
        !in_models_dir && in_working_dir ==> r == Some(ModelLocation::WorkingDir),
        !in_models_dir && !in_working_dir ==> r is None,
{
    if in_models_dir {
        Some(ModelLocation::ModelsDir)
    } else if in_working_dir {
        Some(ModelLocation::WorkingDir)
    } else {
        None
    }
}

/// The GGML file name of a user-facing Whisper model name.
pub open spec fn model_filename_spec(m: Seq<char>) -> Seq<char> {
    if m == "tiny"@ {
        "ggml-tiny.bin"@
    } else if m == "tiny.en"@ {
        "ggml-tiny.en.bin"@
    } else if m == "base"@ {
        "ggml-base.bin"@
    } else if m == "base.en"@ {
        "ggml-base.en.bin"@
    } else if m == "small"@ {
        "ggml-small.bin"@
    } else if m == "small.en"@ {
        "ggml-small.en.bin"@
    } else if m == "medium"@ {
        "ggml-medium.bin"@
    } else if m == "medium.en"@ {
        "ggml-medium.en.bin"@
    } else if m == "turbo"@ {
        "ggml-large-v3-turbo.bin"@
    } else if m == "turbo-q5"@ {
        "ggml-large-v3-turbo-q5_0.bin"@
    } else if m == "turbo-q8"@ {
        "ggml-large-v3-turbo-q8_0.bin"@
    } else if has_suffix(m, ".bin"@) {
        m
    } else {
        "ggml-"@ + m + ".bin"@
    }
}

/// Maps a user-facing Whisper model name (e.g. "base.en", "turbo") to its
/// GGML file name. Names ending in ".bin" are taken as file names.
pub fn model_filename(model: &str) -> (r: String)
    ensures
        r@ == model_filename_spec(model@),
{
    if str_eq(model, "tiny") {
        String::from_str("ggml-tiny.bin")
    } else if str_eq(model, "tiny.en") {
        String::from_str("ggml-tiny.en.bin")
    } else if str_eq(model, "base") {
        String::from_str("ggml-base.bin")
    } else if str_eq(model, "base.en") {
        String::from_str("ggml-base.en.bin")
    } else if str_eq(model, "small") {
        String::from_str("ggml-small.bin")
    } else if str_eq(model, "small.en") {
        String::from_str("ggml-small.en.bin")
    } else if str_eq(model, "medium") {
        String::from_str("ggml-medium.bin")
    } else if str_eq(model, "medium.en") {
        String::from_str("ggml-medium.en.bin")
    } else if str_eq(model, "turbo") {
        String::from_str("ggml-large-v3-turbo.bin")
    } else if str_eq(model, "turbo-q5") {
        String::from_str("ggml-large-v3-turbo-q5_0.bin")
    } else if str_eq(model, "turbo-q8") {
        String::from_str("ggml-large-v3-turbo-q8_0.bin")
    } else if ends_with(model, ".bin") {
        String::from_str(model)
    } else {
        concat3("ggml-", model, ".bin")
    }
}

/// The download-registry name of a user-facing Whisper model name.
pub open spec fn whisper_download_name_spec(m: Seq<char>) -> Seq<char> {
    if m == "tiny.en"@ {
        "whisper-tiny.en"@
    } else if m == "base.en"@ {
        "whisper-base.en"@
    } else if m == "small.en"@ {
        "whisper-small.en"@
    } else if m == "turbo"@ {
        "whisper-large-v3-turbo"@
    } else if m == "turbo-q5"@ {
        "whisper-large-v3-turbo-q5"@
    } else if m == "turbo-q8"@ {
        "whisper-large-v3-turbo-q8"@
    } else {
        "whisper-"@ + m
    }
}

/// Maps a user model name to the download registry name.
pub fn whisper_download_name(model: &str) -> (r: String)
    ensures
        r@ == whisper_download_name_spec(model@),
{
    if str_eq(model, "tiny.en") {
        String::from_str("whisper-tiny.en")
    } else if str_eq(model, "base.en") {
        String::from_str("whisper-base.en")
    } else if str_eq(model, "small.en") {
        String::from_str("whisper-small.en")
    } else if str_eq(model, "turbo") {
        String::from_str("whisper-large-v3-turbo")
    } else if str_eq(model, "turbo-q5") {
        String::from_str("whisper-large-v3-turbo-q5")
    } else if str_eq(model, "turbo-q8") {
        String::from_str("whisper-large-v3-turbo-q8")
    } else {
        concat2("whisper-", model)
    }
}

/// The registry has an entry named `name` that downloads the file `file`.
pub open spec fn registered(name: Seq<char>, file: Seq<char>) -> bool {
    exists|i: int| 0 <= i < model_registry().len() && (#[trigger] model_registry()[i]).0 == name && model_registry()[i].1 == file
}

/// The Whisper model names the loader accepts from the registry: for each,
/// the download name is an entry of the registry whose file is the one the
/// loader looks for.
pub proof fn lemma_whisper_names_registered(m: Seq<char>)
    requires
        m == "tiny.en"@ || m == "tiny.en-int8"@ || m == "base.en"@ || m == "base.en-int8"@ || m == "turbo"@
            || m == "turbo-q5"@ || m == "turbo-q8"@,
    ensures
        has_prefix(whisper_download_name_spec(m), "whisper-"@),
        registered(whisper_download_name_spec(m), model_filename_spec(m)),
{
    reveal_strlit("tiny");
    reveal_strlit("tiny.en");
    reveal_strlit("tiny.en-int8");
    reveal_strlit("base");
    reveal_strlit("base.en");
    reveal_strlit("base.en-int8");
    reveal_strlit("small");
    reveal_strlit("small.en");
    reveal_strlit("medium");
    reveal_strlit("medium.en");
    reveal_strlit("turbo");
    reveal_strlit("turbo-q5");
    reveal_strlit("turbo-q8");
    reveal_strlit(".bin");
    reveal_strlit("ggml-");
    reveal_strlit("whisper-");
    reveal_strlit("whisper-tiny.en");
    reveal_strlit("whisper-tiny.en-int8");
    reveal_strlit("whisper-base.en");
    reveal_strlit("whisper-base.en-int8");
    reveal_strlit("whisper-small.en");
    reveal_strlit("whisper-large-v3-turbo");
    reveal_strlit("whisper-large-v3-turbo-q5");
    reveal_strlit("whisper-large-v3-turbo-q8");
    reveal_strlit("ggml-tiny.en.bin");
    reveal_strlit("ggml-tiny.en-int8.bin");
    reveal_strlit("ggml-base.en.bin");
    reveal_strlit("ggml-base.en-int8.bin");
    reveal_strlit("ggml-large-v3-turbo.bin");
    reveal_strlit("ggml-large-v3-turbo-q5_0.bin");
    reveal_strlit("ggml-large-v3-turbo-q8_0.bin");
    assert("tiny"@.len() == 4 && "tiny.en"@.len() == 7 && "base"@.len() == 4 && "base.en"@.len() == 7);
    assert("small"@.len() == 5 && "small.en"@.len() == 8 && "medium"@.len() == 6 && "medium.en"@.len() == 9);
    assert("turbo"@.len() == 5 && "turbo-q5"@.len() == 8 && "turbo-q8"@.len() == 8);
    assert("tiny.en-int8"@.len() == 12 && "base.en-int8"@.len() == 12);
    assert("tiny.en"@[0] != "base.en"@[0] && "turbo"@[0] != "small"@[0] && "turbo-q5"@[0] != "small.en"@[0]);
    assert("turbo-q5"@[7] != "turbo-q8"@[7]);
    let reg = model_registry();
    let name = whisper_download_name_spec(m);
    let file = model_filename_spec(m);
    assert(has_prefix(name, "whisper-"@)) by {
        assert(name.subrange(0, 8) =~= "whisper-"@);
    }
    if m == "tiny.en"@ {
        assert(m != "tiny"@);
        assert(name == "whisper-tiny.en"@);
        assert(file == "ggml-tiny.en.bin"@);
        assert(reg[1].0 == name && reg[1].1 == file);
    } else if m == "tiny.en-int8"@ {
        assert(!has_suffix(m, ".bin"@)) by {
            assert(m.subrange(8, 12) != ".bin"@) by { assert(m.subrange(8, 12)[0] != ".bin"@[0]); }
        }
        assert(name =~= "whisper-tiny.en-int8"@);
        assert(file =~= "ggml-tiny.en-int8.bin"@);
        assert(reg[2].0 == name && reg[2].1 == file);
    } else if m == "base.en"@ {
        assert(reg[3].0 == name && reg[3].1 == file);
    } else if m == "base.en-int8"@ {
        assert(!has_suffix(m, ".bin"@)) by {
            assert(m.subrange(8, 12) != ".bin"@) by { assert(m.subrange(8, 12)[0] != ".bin"@[0]); }
        }
        assert(name =~= "whisper-base.en-int8"@);
        assert(file =~= "ggml-base.en-int8.bin"@);
        assert(reg[4].0 == name && reg[4].1 == file);
    } else if m == "turbo"@ {
        assert(m != "tiny"@ && m != "tiny.en"@ && m != "base"@ && m != "base.en"@ && m != "small"@);
        assert(m != "small.en"@ && m != "medium"@ && m != "medium.en"@);
        assert(name == "whisper-large-v3-turbo"@);
        assert(file == "ggml-large-v3-turbo.bin"@);
        assert(reg[10].0 == name && reg[10].1 == file);
    } else if m == "turbo-q5"@ {
        assert(reg[11].0 == name && reg[11].1 == file);
    } else {
        assert(reg[12].0 == name && reg[12].1 == file);
    }
}

/// The GGML file name of a user-facing Distil-Whisper model name.
pub open spec fn distil_whisper_model_filename_spec(m: Seq<char>) -> Seq<char> {
    if m == "tiny"@ {
        "ggml-distil-tiny.bin"@
    } else if m == "tiny.en"@ {
        "ggml-distil-tiny.en.bin"@
    } else if m == "base"@ {
        "ggml-distil-base.bin"@
    } else if m == "base.en"@ {
        "ggml-distil-base.en.bin"@
    } else if m == "small"@ {
        "ggml-distil-small.bin"@
    } else if m == "small.en"@ {
        "ggml-distil-small.en.bin"@
    } else if m == "medium"@ {
        "ggml-distil-medium.bin"@
    } else if m == "medium.en"@ {
        "ggml-distil-medium.en.bin"@
    } else if has_suffix(m, ".bin"@) {
        m
    } else {
        "ggml-distil-"@ + m + ".bin"@
    }
}

/// Maps a user-facing Distil-Whisper model name to its GGML file name.
pub fn distil_whisper_model_filename(model: &str) -> (r: String)
    ensures
        r@ == distil_whisper_model_filename_spec(model@),
{
    if str_eq(model, "tiny") {
        String::from_str("ggml-distil-tiny.bin")
    } else if str_eq(model, "tiny.en") {
        String::from_str("ggml-distil-tiny.en.bin")
    } else if str_eq(model, "base") {
        String::from_str("ggml-distil-base.bin")
    } else if str_eq(model, "base.en") {
        String::from_str("ggml-distil-base.en.bin")
    } else if str_eq(model, "small") {
        String::from_str("ggml-distil-small.bin")
    } else if str_eq(model, "small.en") {
        String::from_str("ggml-distil-small.en.bin")
    } else if str_eq(model, "medium") {
        String::from_str("ggml-distil-medium.bin")
    } else if str_eq(model, "medium.en") {
        String::from_str("ggml-distil-medium.en.bin")
    } else if ends_with(model, ".bin") {
        String::from_str(model)
    } else {
        concat3("ggml-distil-", model, ".bin")
    }
}

/// The Distil-Whisper download-registry name of a user model name.
pub open spec fn distil_whisper_download_name_spec(m: Seq<char>) -> Seq<char> {
    if m == "tiny.en"@ {
        "distil-whisper-tiny.en"@
    } else if m == "base.en"@ {
        "distil-whisper-base.en"@
    } else if m == "small.en"@ {
        "distil-whisper-small.en"@
    } else if m == "medium.en"@ {
        "distil-whisper-medium.en"@
    } else {
        "distil-whisper-"@ + m
    }
}

/// Maps a user model name to the Distil-Whisper download registry name.
pub fn distil_whisper_download_name(model: &str) -> (r: String)
    ensures
        r@ == distil_whisper_download_name_spec(model@),
{
    if str_eq(model, "tiny.en") {
        String::from_str("distil-whisper-tiny.en")
    } else if str_eq(model, "base.en") {
        String::from_str("distil-whisper-base.en")
    } else if str_eq(model, "small.en") {
        String::from_str("distil-whisper-small.en")
    } else if str_eq(model, "medium.en") {
        String::from_str("distil-whisper-medium.en")
    } else {
        concat2("distil-whisper-", model)
    }
}

/// `s` ends with ".bin" when it is `p` followed by ".bin".
proof fn lemma_bin_suffix(p: Seq<char>, s: Seq<char>)
    requires
        s == p + ".bin"@,
    ensures
        has_suffix(s, ".bin"@),
{
    assert(s.subrange(s.len() - ".bin"@.len(), s.len() as int) =~= ".bin"@);
}

/// Every Whisper file name ends in ".bin", and mapping a file name again
/// leaves it as it is.
pub proof fn lemma_model_filename_idempotent(m: Seq<char>)
    ensures
        has_suffix(model_filename_spec(m), ".bin"@),
        model_filename_spec(model_filename_spec(m)) == model_filename_spec(m),
        has_suffix(m, ".bin"@) ==> model_filename_spec(m) == m,
{
    reveal_strlit(".bin");
    reveal_strlit("tiny");
    reveal_strlit("tiny.en");
    reveal_strlit("base");
    reveal_strlit("base.en");
    reveal_strlit("small");
    reveal_strlit("small.en");
    reveal_strlit("medium");
    reveal_strlit("medium.en");
    reveal_strlit("turbo");
    reveal_strlit("turbo-q5");
    reveal_strlit("turbo-q8");
    reveal_strlit("ggml-tiny");
    reveal_strlit("ggml-tiny.bin");
    reveal_strlit("ggml-tiny.en");
    reveal_strlit("ggml-tiny.en.bin");
    reveal_strlit("ggml-base");
    reveal_strlit("ggml-base.bin");
    reveal_strlit("ggml-base.en");
    reveal_strlit("ggml-base.en.bin");
    reveal_strlit("ggml-small");
    reveal_strlit("ggml-small.bin");
    reveal_strlit("ggml-small.en");
    reveal_strlit("ggml-small.en.bin");
    reveal_strlit("ggml-medium");
    reveal_strlit("ggml-medium.bin");
    reveal_strlit("ggml-medium.en");
    reveal_strlit("ggml-medium.en.bin");
    reveal_strlit("ggml-large-v3-turbo");
    reveal_strlit("ggml-large-v3-turbo.bin");
    reveal_strlit("ggml-large-v3-turbo-q5_0");
    reveal_strlit("ggml-large-v3-turbo-q5_0.bin");
    reveal_strlit("ggml-large-v3-turbo-q8_0");
    reveal_strlit("ggml-large-v3-turbo-q8_0.bin");
    let r = model_filename_spec(m);
    if m == "tiny"@ {
        assert(r =~= "ggml-tiny"@ + ".bin"@);
        lemma_bin_suffix("ggml-tiny"@, r);
    } else if m == "tiny.en"@ {
        assert(r =~= "ggml-tiny.en"@ + ".bin"@);
        lemma_bin_suffix("ggml-tiny.en"@, r);
    } else if m == "base"@ {
        assert(r =~= "ggml-base"@ + ".bin"@);
        lemma_bin_suffix("ggml-base"@, r);
    } else if m == "base.en"@ {
        assert(r =~= "ggml-base.en"@ + ".bin"@);
        lemma_bin_suffix("ggml-base.en"@, r);
    } else if m == "small"@ {
        assert(r =~= "ggml-small"@ + ".bin"@);
        lemma_bin_suffix("ggml-small"@, r);
    } else if m == "small.en"@ {
        assert(r =~= "ggml-small.en"@ + ".bin"@);
        lemma_bin_suffix("ggml-small.en"@, r);
    } else if m == "medium"@ {
        assert(r =~= "ggml-medium"@ + ".bin"@);
        lemma_bin_suffix("ggml-medium"@, r);
    } else if m == "medium.en"@ {
        assert(r =~= "ggml-medium.en"@ + ".bin"@);
        lemma_bin_suffix("ggml-medium.en"@, r);
    } else if m == "turbo"@ {
        assert(r =~= "ggml-large-v3-turbo"@ + ".bin"@);
        lemma_bin_suffix("ggml-large-v3-turbo"@, r);
    } else if m == "turbo-q5"@ {
        assert(r =~= "ggml-large-v3-turbo-q5_0"@ + ".bin"@);
        lemma_bin_suffix("ggml-large-v3-turbo-q5_0"@, r);
    } else if m == "turbo-q8"@ {
        assert(r =~= "ggml-large-v3-turbo-q8_0"@ + ".bin"@);
        lemma_bin_suffix("ggml-large-v3-turbo-q8_0"@, r);
    } else if has_suffix(m, ".bin"@) {
    } else {
        assert(r =~= "ggml-"@ + m + ".bin"@);
        lemma_bin_suffix("ggml-"@ + m, r);
    }
    lemma_bin_not_short(r);
    if has_suffix(m, ".bin"@) {
        lemma_bin_not_short(m);
    }
}

/// A name ending in ".bin" is none of the short Whisper model names.
proof fn lemma_bin_not_short(r: Seq<char>)
    requires
        has_suffix(r, ".bin"@),
    ensures
        r != "tiny"@ && r != "tiny.en"@ && r != "base"@ && r != "base.en"@ && r != "small"@ && r != "small.en"@,
        r != "medium"@ && r != "medium.en"@ && r != "turbo"@ && r != "turbo-q5"@ && r != "turbo-q8"@,
{
    reveal_strlit(".bin");
    reveal_strlit("tiny");
    reveal_strlit("tiny.en");
    reveal_strlit("base");
    reveal_strlit("base.en");
    reveal_strlit("small");
    reveal_strlit("small.en");
    reveal_strlit("medium");
    reveal_strlit("medium.en");
    reveal_strlit("turbo");
    reveal_strlit("turbo-q5");
    reveal_strlit("turbo-q8");
    let b = ".bin"@;
    assert(b.len() == 4 && b[3] == 'n' && b[2] == 'i');
    let t = r.subrange(r.len() - 4, r.len() as int);
    assert(t == b);
    assert(t[3] == r[r.len() - 1] && t[2] == r[r.len() - 2]);
    assert(r[r.len() - 1] == 'n' && r[r.len() - 2] == 'i');
    assert("tiny"@[3] != 'n' && "base"@[3] != 'n' && "small"@[4] != 'n' && "medium"@[5] != 'n');
    assert("tiny.en"@[5] != 'i' && "base.en"@[5] != 'i' && "small.en"@[6] != 'i' && "medium.en"@[7] != 'i');
    assert("turbo"@[4] != 'n' && "turbo-q5"@[7] != 'n' && "turbo-q8"@[7] != 'n');
    assert("tiny"@.len() == 4 && "tiny.en"@.len() == 7 && "base"@.len() == 4 && "base.en"@.len() == 7);
    assert("small"@.len() == 5 && "small.en"@.len() == 8 && "medium"@.len() == 6 && "medium.en"@.len() == 9);
    assert("turbo"@.len() == 5 && "turbo-q5"@.len() == 8 && "turbo-q8"@.len() == 8);
}


/// The Distil-Whisper download name is "distil-whisper-" followed by the
/// model name, for every model name.
pub proof fn lemma_distil_download_name(m: Seq<char>)
    ensures
        distil_whisper_download_name_spec(m) == "distil-whisper-"@ + m,
{
    reveal_strlit("distil-whisper-");
    reveal_strlit("tiny.en");
    reveal_strlit("base.en");
    reveal_strlit("small.en");
    reveal_strlit("medium.en");
    reveal_strlit("distil-whisper-tiny.en");
    reveal_strlit("distil-whisper-base.en");
    reveal_strlit("distil-whisper-small.en");
    reveal_strlit("distil-whisper-medium.en");
    let r = distil_whisper_download_name_spec(m);
    assert(r =~= "distil-whisper-"@ + m);
}

/// The Distil-Whisper model names offered for download: each download name
/// is a registry entry whose file is the one the loader looks for.
pub proof fn lemma_distil_names_registered(m: Seq<char>)
    requires
        m == "tiny.en"@ || m == "tiny.en-int8"@ || m == "base.en"@ || m == "small.en"@ || m == "medium.en"@,
    ensures
        registered(distil_whisper_download_name_spec(m), distil_whisper_model_filename_spec(m)),
{
    lemma_distil_download_name(m);
    reveal_strlit("distil-whisper-");
    reveal_strlit(".bin");
    reveal_strlit("ggml-distil-");
    reveal_strlit("tiny");
    reveal_strlit("tiny.en");
    reveal_strlit("tiny.en-int8");
    reveal_strlit("base");
    reveal_strlit("base.en");
    reveal_strlit("small");
    reveal_strlit("small.en");
    reveal_strlit("medium");
    reveal_strlit("medium.en");
    reveal_strlit("distil-whisper-tiny.en");
    reveal_strlit("distil-whisper-tiny.en-int8");
    reveal_strlit("distil-whisper-base.en");
    reveal_strlit("distil-whisper-small.en");
    reveal_strlit("distil-whisper-medium.en");
    reveal_strlit("ggml-distil-tiny.en.bin");
    reveal_strlit("ggml-distil-tiny.en-int8.bin");
    reveal_strlit("ggml-distil-base.en.bin");
    reveal_strlit("ggml-distil-small.en.bin");
    reveal_strlit("ggml-distil-medium.en.bin");
    assert("tiny"@.len() == 4 && "tiny.en"@.len() == 7 && "base"@.len() == 4 && "base.en"@.len() == 7);
    assert("small"@.len() == 5 && "small.en"@.len() == 8 && "medium"@.len() == 6 && "medium.en"@.len() == 9);
    assert("tiny.en-int8"@.len() == 12);
    assert("tiny.en"@[0] != "base.en"@[0]);
    let reg = model_registry();
    let name = distil_whisper_download_name_spec(m);
    let file = distil_whisper_model_filename_spec(m);
    if m == "tiny.en"@ {
        assert(name =~= "distil-whisper-tiny.en"@);
        assert(file == "ggml-distil-tiny.en.bin"@);
        assert(reg[5].0 == name && reg[5].1 == file);
    } else if m == "tiny.en-int8"@ {
        assert(!has_suffix(m, ".bin"@)) by {
            assert(m.subrange(8, 12)[0] != ".bin"@[0]);
        }
        assert(name =~= "distil-whisper-tiny.en-int8"@);
        assert(file =~= "ggml-distil-tiny.en-int8.bin"@);
        assert(reg[6].0 == name && reg[6].1 == file);
    } else if m == "base.en"@ {
        assert(name =~= "distil-whisper-base.en"@);
        assert(file == "ggml-distil-base.en.bin"@);
        assert(reg[7].0 == name && reg[7].1 == file);
    } else if m == "small.en"@ {
        assert(name =~= "distil-whisper-small.en"@);
        assert(file == "ggml-distil-small.en.bin"@);
        assert(reg[8].0 == name && reg[8].1 == file);
    } else {
        assert(name =~= "distil-whisper-medium.en"@);
        assert(file == "ggml-distil-medium.en.bin"@);
        assert(reg[9].0 == name && reg[9].1 == file);
    }
}

/// The Piper registry name of a voice alias, given the alias in lower case.
pub open spec fn piper_alias_for(lower: Seq<char>) -> Seq<char> {
    if lower == "en"@ || lower == "en-us"@ || lower == "english"@ {
        "piper-en-us"@
    } else if lower == "de"@ || lower == "german"@ || lower == "deutsch"@ {
        "piper-de"@
    } else if lower == "es"@ || lower == "spanish"@ || lower == "espanol"@ {
        "piper-es"@
    } else if lower == "fr"@ || lower == "french"@ || lower == "francais"@ {
        "piper-fr"@
    } else if lower == "zh"@ || lower == "chinese"@ || lower == "mandarin"@ {
        "piper-zh"@
    } else if has_prefix(lower, "piper-"@) {
        lower
    } else {
        "piper-en-us"@
    }
}

/// The Piper registry name of a voice alias given in lower case.
pub fn piper_alias_of_lowered(lower: String) -> (r: String)
    ensures
        r@ == piper_alias_for(lower@),
{
    let l = lower.as_str();
    if str_eq(l, "en") || str_eq(l, "en-us") || str_eq(l, "english") {
        String::from_str("piper-en-us")
    } else if str_eq(l, "de") || str_eq(l, "german") || str_eq(l, "deutsch") {
        String::from_str("piper-de")
    } else if str_eq(l, "es") || str_eq(l, "spanish") || str_eq(l, "espanol") {
        String::from_str("piper-es")
    } else if str_eq(l, "fr") || str_eq(l, "french") || str_eq(l, "francais") {
        String::from_str("piper-fr")
    } else if str_eq(l, "zh") || str_eq(l, "chinese") || str_eq(l, "mandarin") {
        String::from_str("piper-zh")
    } else if starts_with(l, "piper-") {
        lower
    } else {
        String::from_str("piper-en-us")
    }
}

/// Maps a short voice alias ("en", "german", ...) or a full registry name
/// ("piper-de") to a Piper registry name, case-insensitively; anything
/// unknown falls back to English.
pub fn piper_voice_alias(voice: &str) -> (r: String)
    ensures
        r@ == piper_alias_for(lowercase(voice@)),
        is_ascii_str(voice@) ==> r@ == piper_alias_for(ascii_lower(voice@)),
{
    let lower = to_lowercase(voice);
    piper_alias_of_lowered(lower)
}

/// A downloaded file is rejected when its size differs from the expected
/// size by more than 1% and also differs from the size the server announced.
pub open spec fn size_mismatch_spec(actual: u64, expected: u64, announced: u64) -> bool {
    (if actual >= expected {
        actual - expected
    } else {
        expected - actual
    }) > expected / 100 && actual != announced
}

/// Whether a completed download has the wrong size.
pub fn size_mismatch(actual: u64, expected: u64, announced: u64) -> (r: bool)
    ensures
        r == size_mismatch_spec(actual, expected, announced),
{
    let diff = if actual >= expected {
        actual - expected
    } else {
        expected - actual
    };
    diff > expected / 100 && actual != announced
}

} // verus!
