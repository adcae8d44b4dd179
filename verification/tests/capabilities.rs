use vox::capabilities::hardware::{
    compiled_backends, gpu_facts_linux, gpu_facts_macos, is_amdgpu_uevent, no_gpu, nvidia_gpu_name, GpuFacts,
    HardwareFacts,
};
use vox::capabilities::models::{LoadedModel, ModelInventory};
use vox::capabilities::ollama::{is_embedding_family, summarize_tags, OllamaModelSummary, OllamaTag};
use vox::capabilities::{CapabilityRegistry, FeatureFlags};
use vox::system_profile::{Arch, Device, HardwareClass, Os, SystemProfile};

fn sample_hardware() -> HardwareFacts {
    HardwareFacts {
        os: "Linux".to_string(),
        arch: "x86_64".to_string(),
        device_label: "Linux".to_string(),
        cpu_cores: 8,
        total_ram_mb: 16384,
        hardware_class: "large".to_string(),
        gpu: GpuFacts {
            present: true,
            kind: Some("CUDA".to_string()),
            name: Some("RTX 4090".to_string()),
            compiled_backends: vec!["cuda".to_string()],
        },
    }
}

fn summary(name: &str) -> OllamaModelSummary {
    OllamaModelSummary { name: name.to_string(), size_mb: None, family: None }
}

#[test]
fn facts_block_lists_everything_and_caps_models() {
    let models = ModelInventory::from_parts(
        Some(("whisper", "base.en", Some(142))),
        None,
        None,
        Some((None, Some(2_327_524))),
    );
    let ollama: Vec<OllamaModelSummary> = (0..13).map(|i| summary(&format!("m{i}"))).collect();
    let registry = CapabilityRegistry::from_probes(sample_hardware(), models, Some(ollama), 100);
    let prompt = registry.inject_into_prompt("BASE");
    let expected = "BASE\n\n===\nHost environment (do not mention unless asked):\n\
- Platform: Linux on x86_64, 8 cores, 16384 MB RAM, class large\n\
- GPU: RTX 4090 (CUDA). Compiled backends: cuda.\n\
- Speech to text: whisper backend, base.en, 142 MB\n\
- Text to speech: not loaded\n\
- Voice activity detection: silero\n\
- Local LLM runtime: Ollama\n\
- Ollama models installed: m0, m1, m2, m3, m4, m5, m6, m7, m8, m9, m10, m11 (+1 more)\n\
\nLimitations on this device (Phase 1 — read-only):\n\
- File system access: not available yet.\n\
- Shell execution: not available.\n\
- Image generation: not installed.\n";
    assert_eq!(prompt, expected);
}

#[test]
fn facts_block_for_a_bare_host() {
    let mut hardware = sample_hardware();
    hardware.gpu = no_gpu(Vec::new());
    let models = ModelInventory::from_parts(
        None,
        Some(("sherpa", "zipformer", None)),
        Some(("kokoro", "kokoro-v1.0", None)),
        None,
    );
    let registry = CapabilityRegistry::from_probes(hardware, models, None, 0);
    let prompt = registry.inject_into_prompt("");
    assert!(prompt.contains("- GPU: none detected\n"));
    assert!(prompt.contains("- Speech to text: not loaded\n"));
    assert!(prompt.contains("- Text to speech: kokoro backend, kokoro-v1.0\n"));
    assert!(prompt.contains("- Voice activity detection: not loaded\n"));
    assert!(prompt.contains("- Streaming STT: sherpa backend, zipformer\n"));
    assert!(prompt.contains("- Local LLM runtime: none reachable\n"));
}

#[test]
fn staleness_by_age() {
    let mut registry = CapabilityRegistry::default();
    registry.generated_at_unix = 1000;
    assert!(!registry.is_stale_at(1060, 60));
    assert!(registry.is_stale_at(1061, 60));
    assert!(!registry.is_stale_at(10, 60));
    let _ = registry.is_stale(60);
}

#[test]
fn inventory_from_parts() {
    let inv = ModelInventory::from_parts(
        Some(("whisper", "tiny.en", Some(75))),
        None,
        Some(("piper", "en_US", None)),
        Some((Some("silero_vad_v5"), Some(3 * 1024 * 1024 + 5))),
    );
    let stt: &LoadedModel = inv.stt.as_ref().unwrap();
    assert_eq!(stt.backend, "whisper");
    assert_eq!(stt.sample_rate, Some(16000));
    assert_eq!(inv.tts.as_ref().unwrap().sample_rate, None);
    let vad = inv.vad.as_ref().unwrap();
    assert_eq!(vad.backend, "silero");
    assert_eq!(vad.model_name, "silero_vad_v5");
    assert_eq!(vad.size_mb, Some(3));
    assert!(inv.streaming_stt.is_none());
    let empty = ModelInventory::default();
    assert!(empty.stt.is_none() && empty.vad.is_none());
}

#[test]
fn ollama_tags_drop_embedding_models() {
    let tags = vec![
        OllamaTag { name: Some("llama3.2:latest".into()), size: Some(2_019_393_189), family: Some("llama".into()) },
        OllamaTag { name: Some("nomic-embed-text:latest".into()), size: Some(274_302_450), family: Some("Nomic-BERT".into()) },
        OllamaTag { name: None, size: Some(1), family: None },
        OllamaTag { name: Some("custom".into()), size: None, family: None },
    ];
    let out = summarize_tags(&tags);
    assert_eq!(out.len(), 2);
    assert_eq!(out[0].name, "llama3.2:latest");
    assert_eq!(out[0].size_mb, Some(1925));
    assert_eq!(out[0].family.as_deref(), Some("llama"));
    assert_eq!(out[1].name, "custom");
    assert_eq!(out[1].size_mb, None);
    assert!(is_embedding_family("bert"));
    assert!(!is_embedding_family("BERT"));
}

#[test]
fn gpu_probes() {
    assert_eq!(nvidia_gpu_name("NVIDIA GeForce RTX 3080\nNVIDIA T4\n"), Some("NVIDIA GeForce RTX 3080".to_string()));
    assert_eq!(nvidia_gpu_name("  \n"), None);
    let g = gpu_facts_linux(None, true, true, Vec::new());
    assert!(g.present);
    assert_eq!(g.kind.as_deref(), Some("ROCm"));
    assert_eq!(g.name.as_deref(), Some("AMD GPU"));
    let m = gpu_facts_macos(None, vec!["metal".to_string()]);
    assert_eq!(m.name.as_deref(), Some("Apple GPU"));
    assert!(is_amdgpu_uevent("DRIVER=amdgpu\nPCI_ID=1002:73BF\n"));
    assert!(!is_amdgpu_uevent("DRIVER=nouveau\n"));
}

#[test]
fn backends_follow_features() {
    let mut f = FeatureFlags::detect();
    assert!(compiled_backends(&f).is_empty());
    f.pocket_metal = true;
    f.qwen3_metal = true;
    f.qwen3_cuda = true;
    assert_eq!(compiled_backends(&f), vec!["metal", "cuda"]);
    let d = FeatureFlags::default();
    assert!(!d.whisper && !d.qwen3_metal);
}

#[test]
fn hardware_facts_from_profile() {
    let p = SystemProfile::detect(Os::Linux, Arch::Other, Device::RaspberryPi4, 4096, 3000, 4);
    let h = HardwareFacts::from_profile(&p, no_gpu(Vec::new()));
    assert_eq!(h.os, "Linux");
    assert_eq!(h.arch, "unknown");
    assert_eq!(h.device_label, "Raspberry Pi 4");
    assert_eq!(h.hardware_class, "small");
    assert_eq!(p.class, HardwareClass::Small);
    assert_eq!(HardwareFacts::default().cpu_cores, 0);
}

use vox::capabilities::CapabilitySource;

#[test]
fn flat_list_names_every_capability() {
    let models = ModelInventory::from_parts(
        Some(("whisper", "base.en", None)),
        Some(("sherpa", "zipformer", None)),
        None,
        Some((None, None)),
    );
    let ollama = vec![OllamaModelSummary { name: "llama3.2".into(), size_mb: Some(2000), family: None }, summary("x")];
    let registry = CapabilityRegistry::from_probes(sample_hardware(), models, Some(ollama), 0);
    let list = registry.to_flat_list();
    let ids: Vec<&str> = list.iter().map(|c| c.id.as_str()).collect();
    assert_eq!(ids, vec!["hw.host", "stt", "vad", "stt.streaming", "ollama.llama3.2", "ollama.x"]);
    assert_eq!(list[0].summary, "Linux on x86_64, 8 cores, 16384 MB RAM");
    assert_eq!(list[1].label, "STT (whisper)");
    assert_eq!(list[1].summary, "Speech-to-text via whisper (base.en)");
    assert_eq!(list[2].summary, "Voice activity detection via silero");
    assert_eq!(list[3].summary, "Real-time STT via sherpa");
    assert_eq!(list[4].summary, "Local Ollama model (2000 MB)");
    assert_eq!(list[5].summary, "Local Ollama model (0 MB)");
    assert_eq!(list[5].source, CapabilitySource::Ollama(1));
    assert!(list.iter().all(|c| c.available));
}
