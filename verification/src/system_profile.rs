//! Hardware profile used to pick sensible STT, TTS and LLM defaults.
//!
//! The probing itself (reading `/proc/meminfo`, the device tree, `sysctl`)
//! is done by the caller; this module turns the probed facts into a profile
//! and recommendations.
use vstd::prelude::*;
use vstd::string::StringExecFns;
use crate::text::{
    chars_of, contains, contains_str, dec, has_prefix, occurs_at_exec, parse_kb_range,
    parse_kb_spec, push_decimal, push_str, string_from_chars, string_of_range, to_lowercase,
    lowercase, trim, trim_bounds,
};

verus! {

/// Coarse operating system classification.
#[derive(Debug, Clone, Copy, PartialEq, Eq, Structural)]
pub enum Os {
    MacOs,
    Linux,
    Other,
}

/// Coarse CPU architecture.
#[derive(Debug, Clone, Copy, PartialEq, Eq, Structural)]
pub enum Arch {
    X86_64,
    Aarch64,
    Armv7,
    Other,
}

/// Identified hardware model, or a generic class when unrecognised.
#[derive(Debug, Clone, PartialEq, Eq)]
pub enum Device {
    RaspberryPi5,
    RaspberryPi4,
    RaspberryPi3,
    RaspberryPiZero2W,
    RaspberryPiOther(String),
    MacOs,
    LinuxDesktop,
    Unknown,
}

/// Hardware capability class, from most to least constrained.
#[derive(Debug, Clone, Copy, PartialEq, Eq, PartialOrd, Ord, Structural)]
pub enum HardwareClass {
    /// At most 1 GB RAM (Pi Zero 2 W): no local LLM.
    Tiny,
    /// Up to 3 GB RAM: smallest models only.
    Constrained,
    /// Up to 5 GB RAM: small models.
    Small,
    /// Up to 10 GB RAM: 1-3 B models with STT and TTS co-resident.
    Medium,
    /// More than 10 GB RAM: full model selection.
    Large,
}

/// Result of a one-shot system probe.
#[derive(Debug, Clone)]
pub struct SystemProfile {
    pub os: Os,
    pub arch: Arch,
    pub device: Device,
    pub total_ram_mb: u64,
    pub available_ram_mb: u64,
    pub num_cpus: usize,
    pub class: HardwareClass,
}

/// The hardware class for `total_ram_mb` MB of RAM on `device`.
pub open spec fn class_for(total_ram_mb: u64, device: Device) -> HardwareClass {
    if device is RaspberryPiZero2W {
        HardwareClass::Tiny
    } else if total_ram_mb == 0 {
        HardwareClass::Small
    } else if total_ram_mb <= 1024 {
        HardwareClass::Tiny
    } else if total_ram_mb <= 3 * 1024 {
        HardwareClass::Constrained
    } else if total_ram_mb <= 5 * 1024 {
        HardwareClass::Small
    } else if total_ram_mb <= 10 * 1024 {
        HardwareClass::Medium
    } else {
        HardwareClass::Large
    }
}

/// Picks a hardware class from total RAM and the identified device. A Pi
/// Zero 2 is always `Tiny`; unknown RAM (0) is assumed `Small`.
pub fn classify(total_ram_mb: u64, device: &Device) -> (r: HardwareClass)
    ensures
        r == class_for(total_ram_mb, *device),
{
    if let Device::RaspberryPiZero2W = device {
        return HardwareClass::Tiny;
    }
    if total_ram_mb == 0 {
        HardwareClass::Small
    } else if total_ram_mb <= 1024 {
        HardwareClass::Tiny
    } else if total_ram_mb <= 3 * 1024 {
        HardwareClass::Constrained
    } else if total_ram_mb <= 5 * 1024 {
        HardwareClass::Small
    } else if total_ram_mb <= 10 * 1024 {
        HardwareClass::Medium
    } else {
        HardwareClass::Large
    }
}

/// The recommended Ollama model tag of a class.
pub open spec fn ollama_model_for(class: HardwareClass) -> Option<Seq<char>> {
    match class {
        HardwareClass::Tiny => None,
        HardwareClass::Constrained => Some("qwen2.5:0.5b"@),
        HardwareClass::Small => Some("qwen2.5:1.5b"@),
        HardwareClass::Medium => Some("llama3.2:1b"@),
        HardwareClass::Large => Some("llama3.2:3b"@),
    }
}

/// The recommended whisper.cpp model file of a class.
pub open spec fn whisper_model_for(class: HardwareClass) -> Seq<char> {
    match class {
        HardwareClass::Tiny => "ggml-tiny.en.bin"@,
        HardwareClass::Constrained => "ggml-tiny.en.bin"@,
        HardwareClass::Small => "ggml-base.en.bin"@,
        HardwareClass::Medium => "ggml-base.en.bin"@,
        HardwareClass::Large => "ggml-small.en.bin"@,
    }
}

/// Display label of an operating system.
pub open spec fn os_label(os: Os) -> Seq<char> {
    match os {
        Os::MacOs => "macOS"@,
        Os::Linux => "Linux"@,
        Os::Other => "other"@,
    }
}

/// Display label of an architecture.
pub open spec fn arch_label(arch: Arch) -> Seq<char> {
    match arch {
        Arch::X86_64 => "x86_64"@,
        Arch::Aarch64 => "aarch64"@,
        Arch::Armv7 => "armv7"@,
        Arch::Other => "unknown-arch"@,
    }
}

/// Display label of a device.
pub open spec fn device_label(device: Device) -> Seq<char> {
    match device {
        Device::RaspberryPi5 => "Raspberry Pi 5"@,
        Device::RaspberryPi4 => "Raspberry Pi 4"@,
        Device::RaspberryPi3 => "Raspberry Pi 3"@,
        Device::RaspberryPiZero2W => "Raspberry Pi Zero 2 W"@,
        Device::RaspberryPiOther(name) => name@,
        Device::MacOs => "macOS"@,
        Device::LinuxDesktop => "Linux"@,
        Device::Unknown => "unknown"@,
    }
}

/// Display label of a hardware class.
pub open spec fn class_label(class: HardwareClass) -> Seq<char> {
    match class {
        HardwareClass::Tiny => "tiny"@,
        HardwareClass::Constrained => "constrained"@,
        HardwareClass::Small => "small"@,
        HardwareClass::Medium => "medium"@,
        HardwareClass::Large => "large"@,
    }
}

impl Os {
    /// Human-readable name, as shown in logs.
    pub fn label(&self) -> (r: String)
        ensures
            r@ == os_label(*self),
    {
        match self {
            Os::MacOs => String::from_str("macOS"),
            Os::Linux => String::from_str("Linux"),
            Os::Other => String::from_str("other"),
        }
    }
}

impl Arch {
    /// Human-readable name, as shown in logs.
    pub fn label(&self) -> (r: String)
        ensures
            r@ == arch_label(*self),
    {
        match self {
            Arch::X86_64 => String::from_str("x86_64"),
            Arch::Aarch64 => String::from_str("aarch64"),
            Arch::Armv7 => String::from_str("armv7"),
            Arch::Other => String::from_str("unknown-arch"),
        }
    }
}

impl Device {
    /// Human-readable name, as shown in logs.
    pub fn label(&self) -> (r: String)
        ensures
            r@ == device_label(*self),
    {
        match self {
            Device::RaspberryPi5 => String::from_str("Raspberry Pi 5"),
            Device::RaspberryPi4 => String::from_str("Raspberry Pi 4"),
            Device::RaspberryPi3 => String::from_str("Raspberry Pi 3"),
            Device::RaspberryPiZero2W => String::from_str("Raspberry Pi Zero 2 W"),
            Device::RaspberryPiOther(name) => name.clone(),
            Device::MacOs => String::from_str("macOS"),
            Device::LinuxDesktop => String::from_str("Linux"),
            Device::Unknown => String::from_str("unknown"),
        }
    }
}

impl HardwareClass {
    /// Human-readable name, as shown in logs.
    pub fn label(&self) -> (r: String)
        ensures
            r@ == class_label(*self),
    {
        match self {
            HardwareClass::Tiny => String::from_str("tiny"),
            HardwareClass::Constrained => String::from_str("constrained"),
            HardwareClass::Small => String::from_str("small"),
            HardwareClass::Medium => String::from_str("medium"),
            HardwareClass::Large => String::from_str("large"),
        }
    }
}

/// The one-line summary of a profile.
pub open spec fn summary_text(p: SystemProfile) -> Seq<char> {
    device_label(p.device) + " "@ + arch_label(p.arch) + " · "@ + dec(p.total_ram_mb as nat)
        + " MB RAM · "@ + dec(p.num_cpus as nat) + " cores · class="@ + class_label(p.class)
}

impl SystemProfile {
    /// Builds the profile from the probed facts (operating system, architecture,
    /// device, RAM, CPU count); the class follows from RAM and device.
    pub fn detect(
        os: Os,
        arch: Arch,
        device: Device,
        total_ram_mb: u64,
        available_ram_mb: u64,
        num_cpus: usize,
    ) -> (r: Self)
        ensures
            r.os == os,
            r.arch == arch,
            r.device == device,
            r.total_ram_mb == total_ram_mb,
            r.available_ram_mb == available_ram_mb,
            r.num_cpus == num_cpus,
            r.class == class_for(total_ram_mb, device),
    {
        let class = classify(total_ram_mb, &device);
        SystemProfile { os, arch, device, total_ram_mb, available_ram_mb, num_cpus, class }
    }

    /// Recommended default Ollama model tag; `None` when a local LLM is not viable.
    pub fn recommended_ollama_model(&self) -> (r: Option<&'static str>)
        ensures
            r is Some == ollama_model_for(self.class) is Some,
            r matches Some(m) ==> ollama_model_for(self.class) == Some(m@),
    {
        match self.class {
            HardwareClass::Tiny => None,
            HardwareClass::Constrained => Some("qwen2.5:0.5b"),
            HardwareClass::Small => Some("qwen2.5:1.5b"),
            HardwareClass::Medium => Some("llama3.2:1b"),
            HardwareClass::Large => Some("llama3.2:3b"),
        }
    }

    /// Whether local Ollama is not viable and a remote host is needed.
    pub fn requires_remote_llm(&self) -> (r: bool)
        ensures
            r == (self.class == HardwareClass::Tiny),
    {
        self.class == HardwareClass::Tiny
    }

    /// Recommended whisper.cpp model file name.
    pub fn recommended_whisper_model(&self) -> (r: &'static str)
        ensures
            r@ == whisper_model_for(self.class),
    {
        match self.class {
            HardwareClass::Tiny => "ggml-tiny.en.bin",
            HardwareClass::Constrained => "ggml-tiny.en.bin",
            HardwareClass::Small => "ggml-base.en.bin",
            HardwareClass::Medium => "ggml-base.en.bin",
            HardwareClass::Large => "ggml-small.en.bin",
        }
    }

    /// Recommended number of inference threads: all cores on systems with at
    /// most two, otherwise one core left free for the audio thread.
    pub fn recommended_inference_threads(&self) -> (r: i32)
        ensures
            r == (if (self.num_cpus as i32) <= 2 {
                (self.num_cpus as i32) as int
            } else {
                (self.num_cpus as i32) - 1
            }),
    {
        let n = self.num_cpus as i32;
        if n <= 2 {
            n
        } else {
            n - 1
        }
    }

    /// One-line human-readable summary for startup logs.
    pub fn summary(&self) -> (r: String)
        ensures
            r@ == summary_text(*self),
    {
        let mut out = self.device.label();
        push_str(&mut out, " ");
        let a = self.arch.label();
        push_str(&mut out, a.as_str());
        push_str(&mut out, " · ");
        push_decimal(&mut out, self.total_ram_mb);
        push_str(&mut out, " MB RAM · ");
        push_decimal(&mut out, self.num_cpus as u64);
        push_str(&mut out, " cores · class=");
        let c = self.class.label();
        push_str(&mut out, c.as_str());
        out
    }
}

/// `s` without trailing NUL characters.
pub open spec fn trim_end_nul(s: Seq<char>) -> Seq<char>
    decreases s.len(),
{
    if s.len() > 0 && s.last() == '\0' {
        trim_end_nul(s.drop_last())
    } else {
        s
    }
}

/// The device-tree model string as shown: NULs stripped, then trimmed.
pub open spec fn model_label(model: Seq<char>) -> Seq<char> {
    trim(trim_end_nul(model))
}

/// The device named by a device-tree model string.
pub open spec fn device_for_model(model: Seq<char>) -> Device {
    let lower = lowercase(model_label(model));
    if contains(lower, "raspberry pi 5"@) {
        Device::RaspberryPi5
    } else if contains(lower, "raspberry pi 4"@) {
        Device::RaspberryPi4
    } else if contains(lower, "raspberry pi zero 2"@) {
        Device::RaspberryPiZero2W
    } else if contains(lower, "raspberry pi 3"@) {
        Device::RaspberryPi3
    } else if contains(lower, "raspberry"@) {
        Device::RaspberryPiOther(arbitrary())
    } else {
        Device::LinuxDesktop
    }
}

/// Identifies a Raspberry Pi from its device-tree model string (for example
/// "Raspberry Pi 5 Model B Rev 1.0\0"); any other Linux host is a desktop.
pub fn device_from_model(model: &str) -> (r: Device)
    ensures
        match r {
            Device::RaspberryPiOther(name) => device_for_model(model@) is RaspberryPiOther
                && name@ == model_label(model@),
            _ => r == device_for_model(model@),
        },
{
    let c = chars_of(model);
    let mut end = c.len();
    assert(c@.subrange(0, c@.len() as int) =~= c@);
    while end > 0 && c[end - 1] == '\0'
        invariant
            end <= c@.len(),
            trim_end_nul(c@) == trim_end_nul(c@.subrange(0, end as int)),
        decreases end,
    {
        assert(c@.subrange(0, end as int).drop_last() =~= c@.subrange(0, end - 1));
        end = end - 1;
    }
    assert(c@.subrange(0, c@.len() as int) =~= c@);
    assert(trim_end_nul(c@.subrange(0, end as int)) == c@.subrange(0, end as int));
    let (a, b) = trim_bounds(c.as_slice(), 0, end);
    let label = string_of_range(c.as_slice(), a, b);
    let lower = to_lowercase(label.as_str());
    if contains_str(lower.as_str(), "raspberry pi 5") {
        Device::RaspberryPi5
    } else if contains_str(lower.as_str(), "raspberry pi 4") {
        Device::RaspberryPi4
    } else if contains_str(lower.as_str(), "raspberry pi zero 2") {
        Device::RaspberryPiZero2W
    } else if contains_str(lower.as_str(), "raspberry pi 3") {
        Device::RaspberryPi3
    } else if contains_str(lower.as_str(), "raspberry") {
        Device::RaspberryPiOther(label)
    } else {
        Device::LinuxDesktop
    }
}

/// The device of a host: macOS hosts are `MacOs`; Linux hosts are identified
/// from the device-tree model when there is one, else `LinuxDesktop`; any
/// other OS is `Unknown`.
pub fn detect_device(os: Os, model: Option<&str>) -> (r: Device)
    ensures
        os == Os::MacOs ==> r == Device::MacOs,
        os == Os::Other ==> r == Device::Unknown,
        os == Os::Linux && model is None ==> r == Device::LinuxDesktop,
        os == Os::Linux && model is Some ==> match r {
            Device::RaspberryPiOther(name) => device_for_model(model.unwrap()@) is RaspberryPiOther
                && name@ == model_label(model.unwrap()@),
            _ => r == device_for_model(model.unwrap()@),
        },
{
    match os {
        Os::MacOs => Device::MacOs,
        Os::Linux => match model {
            Some(m) => device_from_model(m),
            None => Device::LinuxDesktop,
        },
        Os::Other => Device::Unknown,
    }
}

/// The effect of one `/proc/meminfo` line on (total kB, available kB).
pub open spec fn meminfo_line(line: Seq<char>, total: u64, avail: u64) -> (u64, u64) {
    if has_prefix(line, "MemTotal:"@) {
        (parse_kb_spec(line.skip("MemTotal:"@.len() as int)), avail)
    } else if has_prefix(line, "MemAvailable:"@) {
        (total, parse_kb_spec(line.skip("MemAvailable:"@.len() as int)))
    } else {
        (total, avail)
    }
}

/// Reading the first `i` characters of `/proc/meminfo`: the values of the
/// lines completed so far (a later line overrides an earlier one) and where
/// the current line starts.
pub open spec fn meminfo_scan(s: Seq<char>, i: int) -> (u64, u64, int)
    decreases i,
{
    if i <= 0 {
        (0, 0, 0)
    } else {
        let (t, a, st) = meminfo_scan(s, i - 1);
        if s[i - 1] == '\n' {
            let (t2, a2) = meminfo_line(s.subrange(st, i - 1), t, a);
            (t2, a2, i)
        } else {
            (t, a, st)
        }
    }
}

/// Total and available RAM in MB according to the text of `/proc/meminfo`
/// (0 when a field is missing).
pub open spec fn meminfo_ram_mb(s: Seq<char>) -> (u64, u64) {
    let (t, a, st) = meminfo_scan(s, s.len() as int);
    let (t2, a2) = meminfo_line(s.subrange(st, s.len() as int), t, a);
    ((t2 / 1024) as u64, (a2 / 1024) as u64)
}

fn apply_meminfo_line(c: &Vec<char>, lo: usize, hi: usize, total: u64, avail: u64) -> (r: (u64, u64))
    requires
        lo <= hi <= c@.len(),
    ensures
        r == meminfo_line(c@.subrange(lo as int, hi as int), total, avail),
{
    proof {
        reveal_strlit("MemTotal:");
        reveal_strlit("MemAvailable:");
    }
    let total_key = chars_of("MemTotal:");
    let avail_key = chars_of("MemAvailable:");
    let ghost line = c@.subrange(lo as int, hi as int);
    if hi - lo >= 9 && occurs_at_exec(c.as_slice(), total_key.as_slice(), lo) {
        assert(line.subrange(0, 9) =~= c@.subrange(lo as int, lo + 9));
        assert(line.skip(9) =~= c@.subrange(lo + 9, hi as int));
        (parse_kb_range(c.as_slice(), lo + 9, hi), avail)
    } else {
        assert(hi - lo >= 9 ==> line.subrange(0, 9) =~= c@.subrange(lo as int, lo + 9));
        if hi - lo >= 13 && occurs_at_exec(c.as_slice(), avail_key.as_slice(), lo) {
            assert(line.subrange(0, 13) =~= c@.subrange(lo as int, lo + 13));
            assert(line.skip(13) =~= c@.subrange(lo + 13, hi as int));
            (total, parse_kb_range(c.as_slice(), lo + 13, hi))
        } else {
            assert(hi - lo >= 13 ==> line.subrange(0, 13) =~= c@.subrange(lo as int, lo + 13));
            (total, avail)
        }
    }
}

/// Reads total and available RAM (in MB) from the text of `/proc/meminfo`:
/// the `MemTotal:` and `MemAvailable:` lines, in kB; 0 for a field that is
/// missing or unreadable.
pub fn ram_from_meminfo(content: &str) -> (r: (u64, u64))
    ensures
        r == meminfo_ram_mb(content@),
{
    let c = chars_of(content);
    let n = c.len();
    let mut total: u64 = 0;
    let mut avail: u64 = 0;
    let mut start: usize = 0;
    let mut i: usize = 0;
    while i < n
        invariant
            c@ == content@,
            n == c@.len(),
            i <= n,
            start <= i,
            meminfo_scan(c@, i as int) == (total, avail, start as int),
        decreases n - i,
    {
        if c[i] == '\n' {
            let (t, a) = apply_meminfo_line(&c, start, i, total, avail);
            total = t;
            avail = a;
            start = i + 1;
        }
        i = i + 1;
    }
    let (t, a) = apply_meminfo_line(&c, start, n, total, avail);
    (t / 1024, a / 1024)
}

/// The position of a class from most (0) to least (4) constrained.
pub open spec fn class_rank(class: HardwareClass) -> int {
    match class {
        HardwareClass::Tiny => 0,
        HardwareClass::Constrained => 1,
        HardwareClass::Small => 2,
        HardwareClass::Medium => 3,
        HardwareClass::Large => 4,
    }
}

/// Law: with known RAM on any device but a Pi Zero 2 W, each class covers
/// its band of RAM: Tiny at most 1 GB, Constrained up to 3 GB, Small up to
/// 5 GB, Medium up to 10 GB and Large above; a Pi Zero 2 W is always Tiny,
/// and unknown RAM (0) counts as Small.
pub proof fn lemma_class_bands(total_ram_mb: u64, device: Device)
    ensures
        device is RaspberryPiZero2W ==> class_for(total_ram_mb, device) == HardwareClass::Tiny,
        !(device is RaspberryPiZero2W) && total_ram_mb == 0 ==> class_for(total_ram_mb, device) == HardwareClass::Small,
        !(device is RaspberryPiZero2W) && total_ram_mb > 0 ==> {
            &&& (class_for(total_ram_mb, device) == HardwareClass::Tiny <==> total_ram_mb <= 1024)
            &&& (class_for(total_ram_mb, device) == HardwareClass::Constrained <==> 1024 < total_ram_mb <= 3072)
            &&& (class_for(total_ram_mb, device) == HardwareClass::Small <==> 3072 < total_ram_mb <= 5120)
            &&& (class_for(total_ram_mb, device) == HardwareClass::Medium <==> 5120 < total_ram_mb <= 10240)
            &&& (class_for(total_ram_mb, device) == HardwareClass::Large <==> 10240 < total_ram_mb)
        },
{
}

/// Law: a machine with 1 to 1024 MB of RAM, or any Pi Zero 2 W, is Tiny and
/// is recommended no local Ollama model (it needs a remote LLM); every other
/// machine with more than 1024 MB is recommended one.
pub proof fn lemma_no_local_llm_up_to_one_gb(total_ram_mb: u64, device: Device)
    ensures
        (0 < total_ram_mb <= 1024 || device is RaspberryPiZero2W) ==> {
            &&& class_for(total_ram_mb, device) == HardwareClass::Tiny
            &&& ollama_model_for(class_for(total_ram_mb, device)) is None
        },
        (1024 < total_ram_mb && !(device is RaspberryPiZero2W)) ==> ollama_model_for(class_for(total_ram_mb, device)) is Some,
{
}

/// Law: on the same device, more (known) RAM never gives a more
/// constrained class.
pub proof fn lemma_class_monotone_in_ram(r1: u64, r2: u64, device: Device)
    requires
        0 < r1 <= r2,
    ensures
        class_rank(class_for(r1, device)) <= class_rank(class_for(r2, device)),
{
}

} // verus!
