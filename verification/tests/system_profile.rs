use vox::system_profile::{
    classify, detect_device, device_from_model, Arch, Device, HardwareClass, Os, SystemProfile,
};

#[test]
fn detect_runs_without_panic() {
    // The probes' fallback values: nothing could be read, one CPU assumed.
    let device = detect_device(Os::Linux, None);
    let profile = SystemProfile::detect(Os::Linux, Arch::X86_64, device, 0, 0, 1);
    assert!(profile.num_cpus > 0);
}

#[test]
fn ollama_recommendation_honors_tiny() {
    let profile = SystemProfile {
        os: Os::Linux,
        arch: Arch::Aarch64,
        device: Device::RaspberryPiZero2W,
        total_ram_mb: 512,
        available_ram_mb: 300,
        num_cpus: 4,
        class: HardwareClass::Tiny,
    };
    assert_eq!(profile.recommended_ollama_model(), None);
    assert!(profile.requires_remote_llm());
}

#[test]
fn ollama_recommendation_for_pi4_4gb() {
    let profile = SystemProfile {
        os: Os::Linux,
        arch: Arch::Aarch64,
        device: Device::RaspberryPi4,
        total_ram_mb: 4096,
        available_ram_mb: 3000,
        num_cpus: 4,
        class: classify(4096, &Device::RaspberryPi4),
    };
    assert_eq!(profile.class, HardwareClass::Small);
    assert_eq!(profile.recommended_ollama_model(), Some("qwen2.5:1.5b"));
}

#[test]
fn ollama_recommendation_for_pi5_8gb() {
    let profile = SystemProfile {
        os: Os::Linux,
        arch: Arch::Aarch64,
        device: Device::RaspberryPi5,
        total_ram_mb: 8192,
        available_ram_mb: 7000,
        num_cpus: 4,
        class: classify(8192, &Device::RaspberryPi5),
    };
    assert_eq!(profile.class, HardwareClass::Medium);
    assert_eq!(profile.recommended_ollama_model(), Some("llama3.2:1b"));
}

#[test]
fn desktop_gets_largest_model() {
    let profile = SystemProfile {
        os: Os::MacOs,
        arch: Arch::Aarch64,
        device: Device::MacOs,
        total_ram_mb: 16384,
        available_ram_mb: 8000,
        num_cpus: 10,
        class: classify(16384, &Device::MacOs),
    };
    assert_eq!(profile.class, HardwareClass::Large);
    assert_eq!(profile.recommended_ollama_model(), Some("llama3.2:3b"));
}

#[test]
fn recommend_threads_leaves_headroom() {
    let profile = SystemProfile {
        os: Os::Linux,
        arch: Arch::X86_64,
        device: Device::LinuxDesktop,
        total_ram_mb: 16384,
        available_ram_mb: 8000,
        num_cpus: 8,
        class: HardwareClass::Large,
    };
    assert_eq!(profile.recommended_inference_threads(), 7);

    let tiny = SystemProfile { num_cpus: 2, ..profile };
    assert_eq!(tiny.recommended_inference_threads(), 2);
}

#[test]
fn raspberry_pi_models_from_device_tree() {
    assert_eq!(device_from_model("Raspberry Pi 5 Model B Rev 1.0\0"), Device::RaspberryPi5);
    assert_eq!(device_from_model("Raspberry Pi 4 Model B Rev 1.4\0\0"), Device::RaspberryPi4);
    assert_eq!(device_from_model("Raspberry Pi Zero 2 W Rev 1.0"), Device::RaspberryPiZero2W);
    assert_eq!(device_from_model("Raspberry Pi 3 Model B Plus"), Device::RaspberryPi3);
    assert_eq!(
        device_from_model("  Raspberry Pi Compute Module 4S \0"),
        Device::RaspberryPiOther("Raspberry Pi Compute Module 4S".to_string())
    );
    assert_eq!(device_from_model("Generic x86 board"), Device::LinuxDesktop);
    assert_eq!(detect_device(Os::MacOs, Some("Raspberry Pi 5")), Device::MacOs);
    assert_eq!(detect_device(Os::Other, None), Device::Unknown);
}

#[test]
fn classes_by_memory_and_summary() {
    assert_eq!(classify(512, &Device::RaspberryPiZero2W), HardwareClass::Tiny);
    assert_eq!(classify(2048, &Device::RaspberryPi3), HardwareClass::Constrained);
    let p = SystemProfile::detect(Os::Linux, Arch::Aarch64, Device::RaspberryPi5, 8192, 7000, 4);
    assert_eq!(p.class, HardwareClass::Medium);
    assert_eq!(p.summary(), "Raspberry Pi 5 aarch64 · 8192 MB RAM · 4 cores · class=medium");
    assert_eq!(p.recommended_whisper_model(), "ggml-base.en.bin");
    assert!(!p.requires_remote_llm());
}

use vox::system_profile::ram_from_meminfo;
use vox::text::parse_kb;

#[test]
fn meminfo_fields() {
    let text = "MemTotal:       16384000 kB\nMemFree:         1000 kB\r\nMemAvailable:    8192000 kB\n";
    assert_eq!(ram_from_meminfo(text), (16000, 8000));
    assert_eq!(ram_from_meminfo("MemAvailable: 2048"), (0, 2));
    assert_eq!(ram_from_meminfo("nothing here"), (0, 0));
    assert_eq!(ram_from_meminfo("MemTotal: 1024 kB\nMemTotal: 4096 kB"), (4, 0));
    assert_eq!(parse_kb("   16384000 kB"), 16384000);
    assert_eq!(parse_kb(" x"), 0);
}
