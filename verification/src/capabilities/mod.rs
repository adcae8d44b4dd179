//! Environment-aware capability registry: facts about the host, the loaded
//! backends, the installed Ollama models and the compiled features, for the
//! assistant's system prompt.
pub mod hardware;
pub mod models;
pub mod ollama;

use vstd::prelude::*;
use vstd::string::StringExecFns;
use crate::capabilities::hardware::{GpuFacts, HardwareFacts};
use crate::capabilities::models::{LoadedModel, ModelInventory};
use crate::capabilities::ollama::OllamaModelSummary;
use crate::text::{dec, join, push_decimal, push_joined, push_str, strings_view};

verus! {

/// Compile-time feature flags.
#[derive(Debug, Clone, Copy)]
pub struct FeatureFlags {
    pub whisper: bool,
    pub distil_whisper: bool,
    pub sherpa: bool,
    pub silero: bool,
    pub kokoro: bool,
    pub piper: bool,
    pub pocket: bool,
    pub chatterbox: bool,
    pub qwen3: bool,
    pub diarization: bool,
    pub intelligence: bool,
    pub pocket_metal: bool,
    pub chatterbox_coreml: bool,
    pub qwen3_cuda: bool,
    pub qwen3_metal: bool,
}

/// No feature enabled.
pub open spec fn no_features(f: FeatureFlags) -> bool {
    &&& !f.whisper
    &&& !f.distil_whisper
    &&& !f.sherpa
    &&& !f.silero
    &&& !f.kokoro
    &&& !f.piper
    &&& !f.pocket
    &&& !f.chatterbox
    &&& !f.qwen3
    &&& !f.diarization
    &&& !f.intelligence
    &&& !f.pocket_metal
    &&& !f.chatterbox_coreml
    &&& !f.qwen3_cuda
    &&& !f.qwen3_metal
}

impl FeatureFlags {
    /// The features this library was built with. None of the optional
    /// inference backends is part of this build, so every flag is off.
    pub fn detect() -> (r: Self)
        ensures
            no_features(r),
    {
        FeatureFlags {
            whisper: false,
            distil_whisper: false,
            sherpa: false,
            silero: false,
            kokoro: false,
            piper: false,
            pocket: false,
            chatterbox: false,
            qwen3: false,
            diarization: false,
            intelligence: false,
            pocket_metal: false,
            chatterbox_coreml: false,
            qwen3_cuda: false,
            qwen3_metal: false,
        }
    }
}

impl Default for FeatureFlags {
    fn default() -> (r: Self)
        ensures
            no_features(r),
    {
        FeatureFlags::detect()
    }
}

/// Snapshot of everything the assistant knows about its own environment.
#[derive(Debug)]
pub struct CapabilityRegistry {
    pub hardware: HardwareFacts,
    pub models: ModelInventory,
    pub ollama_models: Vec<OllamaModelSummary>,
    pub features: FeatureFlags,
    pub generated_at_unix: u64,
}

/// How many Ollama models the facts block names at most.
pub const OLLAMA_LIST_CAP: usize = 12;

/// Opening of the facts block.
pub const FACTS_HEADER: &'static str = "\n\n===\nHost environment (do not mention unless asked):\n";

/// Closing of the facts block: what the assistant cannot do.
pub const LIMITATIONS: &'static str = "\nLimitations on this device (Phase 1 — read-only):\n- File system access: not available yet.\n- Shell execution: not available.\n- Image generation: not installed.\n";

/// The text of an optional string, or `d`.
pub open spec fn text_or(o: Option<String>, d: Seq<char>) -> Seq<char> {
    match o {
        Some(s) => s@,
        None => d,
    }
}

/// ", N MB" for a known size, nothing otherwise.
pub open spec fn size_suffix(s: Option<u64>) -> Seq<char> {
    match s {
        Some(n) => ", "@ + dec(n as nat) + " MB"@,
        None => Seq::empty(),
    }
}

/// The host line.
pub open spec fn platform_line(h: HardwareFacts) -> Seq<char> {
    "- Platform: "@ + h.os@ + " on "@ + h.arch@ + ", "@ + dec(h.cpu_cores as nat) + " cores, "@
        + dec(h.total_ram_mb as nat) + " MB RAM, class "@ + h.hardware_class@ + "\n"@
}

/// The compiled GPU backends, or "none".
pub open spec fn backends_text(g: GpuFacts) -> Seq<char> {
    if g.compiled_backends@.len() == 0 {
        "none"@
    } else {
        join(strings_view(g.compiled_backends@), ", "@)
    }
}

/// The GPU line.
pub open spec fn gpu_line(g: GpuFacts) -> Seq<char> {
    if g.present {
        "- GPU: "@ + text_or(g.name, "GPU"@) + " ("@ + text_or(g.kind, "unknown"@) + "). Compiled backends: "@
            + backends_text(g) + ".\n"@
    } else {
        "- GPU: none detected\n"@
    }
}

/// A backend line: `label` then backend, model and size, or "not loaded".
pub open spec fn model_line(label: Seq<char>, m: Option<LoadedModel>) -> Seq<char> {
    match m {
        Some(l) => label + l.backend@ + " backend, "@ + l.model_name@ + size_suffix(l.size_mb) + "\n"@,
        None => label + "not loaded\n"@,
    }
}

/// The VAD line.
pub open spec fn vad_line(m: Option<LoadedModel>) -> Seq<char> {
    match m {
        Some(l) => "- Voice activity detection: "@ + l.backend@ + "\n"@,
        None => "- Voice activity detection: not loaded\n"@,
    }
}

/// The streaming STT line, present only when one is loaded.
pub open spec fn streaming_line(m: Option<LoadedModel>) -> Seq<char> {
    match m {
        Some(l) => "- Streaming STT: "@ + l.backend@ + " backend, "@ + l.model_name@ + "\n"@,
        None => Seq::empty(),
    }
}

/// The names of the installed models.
pub open spec fn model_names(ms: Seq<OllamaModelSummary>) -> Seq<Seq<char>> {
    ms.map_values(|m: OllamaModelSummary| m.name@)
}

/// How many names are listed.
pub open spec fn listed_count(n: nat) -> nat {
    if n > OLLAMA_LIST_CAP {
        OLLAMA_LIST_CAP as nat
    } else {
        n
    }
}

/// " (+N more)" when names were left out.
pub open spec fn more_suffix(n: nat) -> Seq<char> {
    if n > OLLAMA_LIST_CAP {
        " (+"@ + dec((n - OLLAMA_LIST_CAP) as nat) + " more)"@
    } else {
        Seq::empty()
    }
}

/// The Ollama lines.
pub open spec fn ollama_lines(ms: Seq<OllamaModelSummary>) -> Seq<char> {
    if ms.len() == 0 {
        "- Local LLM runtime: none reachable\n"@
    } else {
        "- Local LLM runtime: Ollama\n- Ollama models installed: "@
            + join(model_names(ms).take(listed_count(ms.len()) as int), ", "@) + more_suffix(ms.len())
            + "\n"@
    }
}

/// `base` followed by the facts block of `r`.
pub open spec fn prompt_with_facts(base: Seq<char>, r: CapabilityRegistry) -> Seq<char> {
    base + FACTS_HEADER@ + platform_line(r.hardware) + gpu_line(r.hardware.gpu)
        + model_line("- Speech to text: "@, r.models.stt) + model_line("- Text to speech: "@, r.models.tts)
        + vad_line(r.models.vad) + streaming_line(r.models.streaming_stt) + ollama_lines(r.ollama_models@)
        + LIMITATIONS@
}

fn platform_text(h: &HardwareFacts) -> (r: String)
    ensures
        r@ == platform_line(*h),
{
    let mut line = String::from_str("- Platform: ");
    push_str(&mut line, h.os.as_str());
    push_str(&mut line, " on ");
    push_str(&mut line, h.arch.as_str());
    push_str(&mut line, ", ");
    push_decimal(&mut line, h.cpu_cores as u64);
    push_str(&mut line, " cores, ");
    push_decimal(&mut line, h.total_ram_mb);
    push_str(&mut line, " MB RAM, class ");
    push_str(&mut line, h.hardware_class.as_str());
    push_str(&mut line, "\n");
    line
}

fn gpu_text(g: &GpuFacts) -> (r: String)
    ensures
        r@ == gpu_line(*g),
{
    if g.present {
        let name: &str = match &g.name {
            Some(n) => n.as_str(),
            None => "GPU",
        };
        let kind: &str = match &g.kind {
            Some(k) => k.as_str(),
            None => "unknown",
        };
        let mut line = String::from_str("- GPU: ");
        push_str(&mut line, name);
        push_str(&mut line, " (");
        push_str(&mut line, kind);
        push_str(&mut line, "). Compiled backends: ");
        if g.compiled_backends.len() == 0 {
            push_str(&mut line, "none");
        } else {
            let n = g.compiled_backends.len();
            push_joined(&mut line, &g.compiled_backends, n, ", ");
            assert(strings_view(g.compiled_backends@).take(n as int) =~= strings_view(g.compiled_backends@));
        }
        push_str(&mut line, ".\n");
        line
    } else {
        String::from_str("- GPU: none detected\n")
    }
}

fn model_text(label: &str, m: &Option<LoadedModel>) -> (r: String)
    ensures
        r@ == model_line(label@, *m),
{
    let mut line = String::from_str(label);
    match m {
        Some(l) => {
            push_str(&mut line, l.backend.as_str());
            push_str(&mut line, " backend, ");
            push_str(&mut line, l.model_name.as_str());
            let ghost before = line@;
            match l.size_mb {
                Some(s) => {
                    push_str(&mut line, ", ");
                    push_decimal(&mut line, s);
                    push_str(&mut line, " MB");
                    assert(line@ =~= before + size_suffix(l.size_mb));
                },
                None => {
                    assert(line@ =~= before + size_suffix(l.size_mb));
                },
            }
            push_str(&mut line, "\n");
        },
        None => {
            push_str(&mut line, "not loaded\n");
        },
    }
    line
}

fn vad_text(m: &Option<LoadedModel>) -> (r: String)
    ensures
        r@ == vad_line(*m),
{
    match m {
        Some(l) => {
            let mut line = String::from_str("- Voice activity detection: ");
            push_str(&mut line, l.backend.as_str());
            push_str(&mut line, "\n");
            line
        },
        None => String::from_str("- Voice activity detection: not loaded\n"),
    }
}

fn streaming_text(m: &Option<LoadedModel>) -> (r: String)
    ensures
        r@ == streaming_line(*m),
{
    match m {
        Some(l) => {
            let mut line = String::from_str("- Streaming STT: ");
            push_str(&mut line, l.backend.as_str());
            push_str(&mut line, " backend, ");
            push_str(&mut line, l.model_name.as_str());
            push_str(&mut line, "\n");
            line
        },
        None => String::new(),
    }
}

fn ollama_text(ms: &Vec<OllamaModelSummary>) -> (r: String)
    ensures
        r@ == ollama_lines(ms@),
{
    let n = ms.len();
    if n == 0 {
        return String::from_str("- Local LLM runtime: none reachable\n");
    }
    let k: usize = if n > OLLAMA_LIST_CAP {
        OLLAMA_LIST_CAP
    } else {
        n
    };
    let mut names: Vec<String> = Vec::new();
    let mut i: usize = 0;
    while i < k
        invariant
            k <= n == ms@.len(),
            i <= k,
            strings_view(names@) == model_names(ms@).take(i as int),
        decreases k - i,
    {
        let ghost before = names@;
        let nm = ms[i].name.clone();
        assert(nm@ == model_names(ms@)[i as int]);
        names.push(nm);
        assert(names@ == before.push(nm));
        assert(strings_view(names@) =~= strings_view(before).push(nm@));
        i = i + 1;
        assert(strings_view(names@) =~= model_names(ms@).take(i as int));
    }
    let mut line = String::from_str("- Local LLM runtime: Ollama\n- Ollama models installed: ");
    push_joined(&mut line, &names, k, ", ");
    assert(strings_view(names@).take(k as int) =~= strings_view(names@));
    let ghost before = line@;
    if n > OLLAMA_LIST_CAP {
        push_str(&mut line, " (+");
        push_decimal(&mut line, (n - OLLAMA_LIST_CAP) as u64);
        push_str(&mut line, " more)");
        assert(line@ =~= before + more_suffix(n as nat));
    } else {
        assert(line@ =~= before + more_suffix(n as nat));
    }
    push_str(&mut line, "\n");
    line
}

/// Whether a snapshot taken at `generated_at` is older than `max_age_secs`
/// at time `now` (seconds since the Unix epoch; a clock behind the snapshot
/// counts as no age).
pub open spec fn stale_at(now: u64, generated_at: u64, max_age_secs: u64) -> bool {
    now > generated_at && now - generated_at > max_age_secs
}

/// The current time in whole seconds since the Unix epoch, 0 when the clock
/// reads before the epoch (`std::time::SystemTime::now`). Nothing is stated
/// of the value: it is the machine's clock.
#[verifier::external_body]
fn unix_time_secs() -> u64 {
    match std::time::SystemTime::now().duration_since(std::time::UNIX_EPOCH) {
        Ok(d) => d.as_secs(),
        Err(_) => 0,
    }
}

impl CapabilityRegistry {
    /// Assembles a snapshot from the probes' results. An Ollama probe that
    /// failed or timed out (`None`) counts as no models installed; the
    /// feature flags are those of this build.
    pub fn from_probes(
        hardware: HardwareFacts,
        models: ModelInventory,
        ollama_models: Option<Vec<OllamaModelSummary>>,
        generated_at_unix: u64,
    ) -> (r: Self)
        ensures
            r.hardware == hardware,
            r.models == models,
            r.ollama_models@ == (match ollama_models {
                Some(v) => v@,
                None => Seq::empty(),
            }),
            no_features(r.features),
            r.generated_at_unix == generated_at_unix,
    {
        let ollama_models = match ollama_models {
            Some(v) => v,
            None => Vec::new(),
        };
        CapabilityRegistry {
            hardware,
            models,
            ollama_models,
            features: FeatureFlags::detect(),
            generated_at_unix,
        }
    }

    /// Appends a compact facts block to a base system prompt: host, GPU,
    /// backends, Ollama models (at most twelve named) and limitations.
    pub fn inject_into_prompt(&self, base: &str) -> (r: String)
        ensures
            r@ == prompt_with_facts(base@, *self),
    {
        let mut out = String::from_str(base);
        push_str(&mut out, FACTS_HEADER);
        let line = platform_text(&self.hardware);
        push_str(&mut out, line.as_str());
        let line = gpu_text(&self.hardware.gpu);
        push_str(&mut out, line.as_str());
        let line = model_text("- Speech to text: ", &self.models.stt);
        push_str(&mut out, line.as_str());
        let line = model_text("- Text to speech: ", &self.models.tts);
        push_str(&mut out, line.as_str());
        let line = vad_text(&self.models.vad);
        push_str(&mut out, line.as_str());
        let line = streaming_text(&self.models.streaming_stt);
        push_str(&mut out, line.as_str());
        let line = ollama_text(&self.ollama_models);
        push_str(&mut out, line.as_str());
        push_str(&mut out, LIMITATIONS);
        out
    }

    /// Whether the snapshot is older than `max_age_secs` at time `now`.
    pub fn is_stale_at(&self, now: u64, max_age_secs: u64) -> (r: bool)
        ensures
            r == stale_at(now, self.generated_at_unix, max_age_secs),
    {
        let age = if now > self.generated_at_unix {
            now - self.generated_at_unix
        } else {
            0
        };
        age > max_age_secs
    }

    /// Whether the snapshot is older than `max_age_secs` now, by the clock
    /// of this machine.
    pub fn is_stale(&self, max_age_secs: u64) -> (r: bool)
        ensures
            exists|now: u64| r == stale_at(now, self.generated_at_unix, max_age_secs),
    {
        let now = unix_time_secs();
        self.is_stale_at(now, max_age_secs)
    }
}

impl Default for CapabilityRegistry {
    fn default() -> (r: Self)
        ensures
            r.hardware.cpu_cores == 0,
            !r.hardware.gpu.present,
            r.models.stt is None,
            r.models.streaming_stt is None,
            r.models.tts is None,
            r.models.vad is None,
            r.ollama_models@.len() == 0,
            no_features(r.features),
            r.generated_at_unix == 0,
    {
        CapabilityRegistry {
            hardware: HardwareFacts::default(),
            models: ModelInventory::empty(),
            ollama_models: Vec::new(),
            features: FeatureFlags::detect(),
            generated_at_unix: 0,
        }
    }
}

/// Where a capability's details come from.
#[derive(Debug, Clone, Copy, PartialEq, Eq, Structural)]
pub enum CapabilitySource {
    Hardware,
    Stt,
    Tts,
    Vad,
    StreamingStt,
    /// The Ollama model at this position of the registry's list.
    Ollama(usize),
}

/// One capability the assistant can claim.
#[derive(Debug)]
pub struct Capability {
    pub id: String,
    pub label: String,
    pub summary: String,
    pub available: bool,
    /// The registry entry whose details describe it.
    pub source: CapabilitySource,
}

/// A capability as plain values: id, label, summary, availability, source.
pub open spec fn capability_view(c: Capability) -> (Seq<char>, Seq<char>, Seq<char>, bool, CapabilitySource) {
    (c.id@, c.label@, c.summary@, c.available, c.source)
}

/// The host capability.
pub open spec fn host_capability(h: HardwareFacts) -> (Seq<char>, Seq<char>, Seq<char>, bool, CapabilitySource) {
    (
        "hw.host"@,
        "Host"@,
        h.os@ + " on "@ + h.arch@ + ", "@ + dec(h.cpu_cores as nat) + " cores, "@ + dec(h.total_ram_mb as nat)
            + " MB RAM"@,
        true,
        CapabilitySource::Hardware,
    )
}

/// The backend capabilities, in the order STT, TTS, VAD, streaming STT.
pub open spec fn backend_capabilities(m: ModelInventory) -> Seq<(Seq<char>, Seq<char>, Seq<char>, bool, CapabilitySource)> {
    let a: Seq<(Seq<char>, Seq<char>, Seq<char>, bool, CapabilitySource)> = match m.stt {
        Some(l) => seq![(
            "stt"@,
            "STT ("@ + l.backend@ + ")"@,
            "Speech-to-text via "@ + l.backend@ + " ("@ + l.model_name@ + ")"@,
            true,
            CapabilitySource::Stt,
        )],
        None => seq![],
    };
    let b = match m.tts {
        Some(l) => a.push((
            "tts"@,
            "TTS ("@ + l.backend@ + ")"@,
            "Text-to-speech via "@ + l.backend@ + " ("@ + l.model_name@ + ")"@,
            true,
            CapabilitySource::Tts,
        )),
        None => a,
    };
    let c = match m.vad {
        Some(l) => b.push((
            "vad"@,
            "VAD ("@ + l.backend@ + ")"@,
            "Voice activity detection via "@ + l.backend@,
            true,
            CapabilitySource::Vad,
        )),
        None => b,
    };
    match m.streaming_stt {
        Some(l) => c.push((
            "stt.streaming"@,
            "Streaming STT ("@ + l.backend@ + ")"@,
            "Real-time STT via "@ + l.backend@,
            true,
            CapabilitySource::StreamingStt,
        )),
        None => c,
    }
}

/// The capability of the Ollama model at position `i`.
pub open spec fn ollama_capability(m: OllamaModelSummary, i: int) -> (Seq<char>, Seq<char>, Seq<char>, bool, CapabilitySource) {
    (
        "ollama."@ + m.name@,
        m.name@,
        "Local Ollama model ("@ + dec(match m.size_mb {
            Some(s) => s as nat,
            None => 0,
        }) + " MB)"@,
        true,
        CapabilitySource::Ollama(i as usize),
    )
}

/// Every capability, in order: host, backends, Ollama models.
pub open spec fn flat_capabilities(r: CapabilityRegistry) -> Seq<(Seq<char>, Seq<char>, Seq<char>, bool, CapabilitySource)> {
    seq![host_capability(r.hardware)] + backend_capabilities(r.models) + Seq::new(
        r.ollama_models@.len(),
        |i: int| ollama_capability(r.ollama_models@[i], i),
    )
}

fn capability(id: String, label: String, summary: String, source: CapabilitySource) -> (r: Capability)
    ensures
        capability_view(r) == (id@, label@, summary@, true, source),
{
    Capability { id, label, summary, available: true, source }
}

fn text3(a: &str, b: &str, c: &str) -> (r: String)
    ensures
        r@ == a@ + b@ + c@,
{
    let mut out = String::from_str(a);
    push_str(&mut out, b);
    push_str(&mut out, c);
    out
}

impl CapabilityRegistry {
    /// Every capability as a flat list: the host, each loaded backend, each
    /// installed Ollama model.
    pub fn to_flat_list(&self) -> (r: Vec<Capability>)
        ensures
            r@.map_values(|c: Capability| capability_view(c)) == flat_capabilities(*self),
    {
        let mut out: Vec<Capability> = Vec::new();
        let h = &self.hardware;
        let mut summary = String::from_str(h.os.as_str());
        push_str(&mut summary, " on ");
        push_str(&mut summary, h.arch.as_str());
        push_str(&mut summary, ", ");
        push_decimal(&mut summary, h.cpu_cores as u64);
        push_str(&mut summary, " cores, ");
        push_decimal(&mut summary, h.total_ram_mb);
        push_str(&mut summary, " MB RAM");
        out.push(capability(String::from_str("hw.host"), String::from_str("Host"), summary, CapabilitySource::Hardware));
        let ghost v0 = out@.map_values(|c: Capability| capability_view(c));
        assert(v0 =~= seq![host_capability(self.hardware)]);
        if let Some(l) = &self.models.stt {
            let label = text3("STT (", l.backend.as_str(), ")");
            let mut summary = text3("Speech-to-text via ", l.backend.as_str(), " (");
            push_str(&mut summary, l.model_name.as_str());
            push_str(&mut summary, ")");
            out.push(capability(String::from_str("stt"), label, summary, CapabilitySource::Stt));
        }
        if let Some(l) = &self.models.tts {
            let label = text3("TTS (", l.backend.as_str(), ")");
            let mut summary = text3("Text-to-speech via ", l.backend.as_str(), " (");
            push_str(&mut summary, l.model_name.as_str());
            push_str(&mut summary, ")");
            out.push(capability(String::from_str("tts"), label, summary, CapabilitySource::Tts));
        }
        if let Some(l) = &self.models.vad {
            let label = text3("VAD (", l.backend.as_str(), ")");
            let summary = concat_text("Voice activity detection via ", l.backend.as_str());
            out.push(capability(String::from_str("vad"), label, summary, CapabilitySource::Vad));
        }
        if let Some(l) = &self.models.streaming_stt {
            let label = text3("Streaming STT (", l.backend.as_str(), ")");
            let summary = concat_text("Real-time STT via ", l.backend.as_str());
            out.push(capability(String::from_str("stt.streaming"), label, summary, CapabilitySource::StreamingStt));
        }
        let ghost head = out@.map_values(|c: Capability| capability_view(c));
        assert(head =~= seq![host_capability(self.hardware)] + backend_capabilities(self.models));
        let ghost ms = self.ollama_models@;
        let mut i: usize = 0;
        while i < self.ollama_models.len()
            invariant
                ms == self.ollama_models@,
                i <= ms.len(),
                out@.map_values(|c: Capability| capability_view(c)) == head + Seq::new(
                    i as nat,
                    |k: int| ollama_capability(ms[k], k),
                ),
            decreases ms.len() - i,
        {
            let m = &self.ollama_models[i];
            let id = concat_text("ollama.", m.name.as_str());
            let label = String::from_str(m.name.as_str());
            let mut summary = String::from_str("Local Ollama model (");
            let size = match m.size_mb {
                Some(s) => s,
                None => 0,
            };
            push_decimal(&mut summary, size);
            push_str(&mut summary, " MB)");
            let ghost before = out@.map_values(|c: Capability| capability_view(c));
            let c = capability(id, label, summary, CapabilitySource::Ollama(i));
            assert(m == ms[i as int]);
            assert(capability_view(c) == ollama_capability(ms[i as int], i as int));
            out.push(c);
            assert(out@.map_values(|c: Capability| capability_view(c)) =~= before.push(ollama_capability(ms[i as int], i as int)));
            assert(out@.map_values(|c: Capability| capability_view(c)) =~= head + Seq::new(
                (i + 1) as nat,
                |k: int| ollama_capability(ms[k], k),
            ));
            i = i + 1;
        }
        out
    }
}

fn concat_text(a: &str, b: &str) -> (r: String)
    ensures
        r@ == a@ + b@,
{
    let mut out = String::from_str(a);
    push_str(&mut out, b);
    out
}

/// Staleness only grows with time: a snapshot stale at `now` is stale at
/// every later time.
pub proof fn lemma_staleness_monotone(now: u64, later: u64, generated_at: u64, max_age_secs: u64)
    requires
        now <= later,
        stale_at(now, generated_at, max_age_secs),
    ensures
        stale_at(later, generated_at, max_age_secs),
{
}

} // verus!
