//! Hardware facts for the capability registry: the system profile plus
//! what the GPU probes found.
use vstd::prelude::*;
use vstd::string::StringExecFns;
use crate::capabilities::FeatureFlags;
use crate::system_profile::{class_label, device_label, os_label, Arch, HardwareClass, Os, SystemProfile};
use crate::text::{chars_of, contains, contains_str, str_eq, strings_view, string_of_range, trim, trim_bounds};

verus! {

/// What is known about the GPU.
#[derive(Debug)]
pub struct GpuFacts {
    pub present: bool,
    /// "Metal", "CUDA", "ROCm" or "amdgpu".
    pub kind: Option<String>,
    pub name: Option<String>,
    pub compiled_backends: Vec<String>,
}

/// Host facts as shown to the assistant.
#[derive(Debug)]
pub struct HardwareFacts {
    pub os: String,
    pub arch: String,
    pub device_label: String,
    pub cpu_cores: usize,
    pub total_ram_mb: u64,
    pub hardware_class: String,
    pub gpu: GpuFacts,
}

impl Default for GpuFacts {
    fn default() -> (r: Self)
        ensures
            !r.present,
            r.kind is None,
            r.name is None,
            r.compiled_backends@.len() == 0,
    {
        GpuFacts { present: false, kind: None, name: None, compiled_backends: Vec::new() }
    }
}

impl Default for HardwareFacts {
    fn default() -> (r: Self)
        ensures
            r.os@.len() == 0,
            r.arch@.len() == 0,
            r.device_label@.len() == 0,
            r.cpu_cores == 0,
            r.total_ram_mb == 0,
            r.hardware_class@.len() == 0,
            !r.gpu.present,
            r.gpu.kind is None,
            r.gpu.name is None,
            r.gpu.compiled_backends@.len() == 0,
    {
        HardwareFacts {
            os: String::new(),
            arch: String::new(),
            device_label: String::new(),
            cpu_cores: 0,
            total_ram_mb: 0,
            hardware_class: String::new(),
            gpu: GpuFacts::default(),
        }
    }
}

/// Architecture label used in the facts block (note: "unknown", not "unknown-arch").
pub open spec fn facts_arch_label(arch: Arch) -> Seq<char> {
    match arch {
        Arch::X86_64 => "x86_64"@,
        Arch::Aarch64 => "aarch64"@,
        Arch::Armv7 => "armv7"@,
        Arch::Other => "unknown"@,
    }
}

impl HardwareFacts {
    /// Facts for a probed profile and the result of the GPU probe.
    pub fn from_profile(profile: &SystemProfile, gpu: GpuFacts) -> (r: Self)
        ensures
            r.os@ == os_label(profile.os),
            r.arch@ == facts_arch_label(profile.arch),
            r.device_label@ == device_label(profile.device),
            r.cpu_cores == profile.num_cpus,
            r.total_ram_mb == profile.total_ram_mb,
            r.hardware_class@ == class_label(profile.class),
            r.gpu == gpu,
    {
        let arch = match profile.arch {
            Arch::X86_64 => String::from_str("x86_64"),
            Arch::Aarch64 => String::from_str("aarch64"),
            Arch::Armv7 => String::from_str("armv7"),
            Arch::Other => String::from_str("unknown"),
        };
        HardwareFacts {
            os: profile.os.label(),
            arch,
            device_label: profile.device.label(),
            cpu_cores: profile.num_cpus,
            total_ram_mb: profile.total_ram_mb,
            hardware_class: profile.class.label(),
            gpu,
        }
    }
}

/// The GPU backends compiled in, in the order they are listed.
pub open spec fn compiled_backends_for(f: FeatureFlags) -> Seq<Seq<char>> {
    let a: Seq<Seq<char>> = if f.pocket_metal {
        seq!["metal"@]
    } else {
        seq![]
    };
    let b = if f.chatterbox_coreml {
        a.push("coreml"@)
    } else {
        a
    };
    let c = if f.qwen3_cuda {
        b.push("cuda"@)
    } else {
        b
    };
    if f.qwen3_metal && !f.pocket_metal {
        c.push("metal"@)
    } else {
        c
    }
}

/// The GPU backends that the build enables; "metal" is listed once even
/// when two features provide it.
pub fn compiled_backends(f: &FeatureFlags) -> (r: Vec<String>)
    ensures
        strings_view(r@) == compiled_backends_for(*f),
{
    proof {
        reveal_strlit("metal");
        reveal_strlit("coreml");
        reveal_strlit("cuda");
        assert("coreml"@.len() == 6);
        assert("cuda"@[0] == 'c');
        assert("metal"@[0] == 'm');
        assert("coreml"@ != "metal"@);
        assert("cuda"@ != "metal"@);
    }
    let mut out: Vec<String> = Vec::new();
    if f.pocket_metal {
        out.push(String::from_str("metal"));
    }
    assert(f.pocket_metal ==> out@[0]@ == "metal"@);
    assert(forall|j: int| 0 <= j < out@.len() ==> out@[j]@ == "metal"@);
    let ghost n0 = out@.len();
    if f.chatterbox_coreml {
        out.push(String::from_str("coreml"));
    }
    assert(forall|j: int| 0 <= j < n0 ==> out@[j]@ == "metal"@);
    assert(forall|j: int| n0 <= j < out@.len() ==> out@[j]@ == "coreml"@);
    let ghost n1 = out@.len();
    if f.qwen3_cuda {
        out.push(String::from_str("cuda"));
    }
    assert(forall|j: int| 0 <= j < n0 ==> out@[j]@ == "metal"@);
    assert(forall|j: int| n0 <= j < n1 ==> out@[j]@ == "coreml"@);
    assert(forall|j: int| n1 <= j < out@.len() ==> out@[j]@ == "cuda"@);
    assert(n0 == (if f.pocket_metal { 1int } else { 0int }));
    let mut has_metal = false;
    let mut i: usize = 0;
    while i < out.len()
        invariant
            i <= out@.len(),
            out@.len() <= 3,
            has_metal == exists|j: int| 0 <= j < i && out@[j]@ == "metal"@,
            f.pocket_metal ==> out@[0]@ == "metal"@,
            !f.pocket_metal ==> forall|j: int| 0 <= j < out@.len() ==> out@[j]@ != "metal"@,
        decreases out@.len() - i,
    {
        if str_eq(out[i].as_str(), "metal") {
            has_metal = true;
        }
        i = i + 1;
    }
    if f.qwen3_metal && !has_metal {
        out.push(String::from_str("metal"));
    }
    assert(strings_view(out@) =~= compiled_backends_for(*f));
    out
}

/// No GPU found.
pub fn no_gpu(compiled_backends: Vec<String>) -> (r: GpuFacts)
    ensures
        !r.present,
        r.kind is None,
        r.name is None,
        r.compiled_backends == compiled_backends,
{
    GpuFacts { present: false, kind: None, name: None, compiled_backends }
}

/// GPU facts on macOS: always a Metal GPU, named by `system_profiler` when
/// it answered, else "Apple GPU".
pub fn gpu_facts_macos(probed_name: Option<String>, compiled_backends: Vec<String>) -> (r: GpuFacts)
    ensures
        r.present,
        r.kind matches Some(k) && k@ == "Metal"@,
        r.name matches Some(n) && n@ == (match probed_name {
            Some(p) => p@,
            None => "Apple GPU"@,
        }),
        r.compiled_backends == compiled_backends,
{
    let name = match probed_name {
        Some(p) => p,
        None => String::from_str("Apple GPU"),
    };
    GpuFacts {
        present: true,
        kind: Some(String::from_str("Metal")),
        name: Some(name),
        compiled_backends,
    }
}

/// The first line of a character sequence.
pub open spec fn first_line(s: Seq<char>) -> Seq<char> {
    if exists|i: int| 0 <= i < s.len() && s[i] == '\n' {
        s.take(choose|i: int| 0 <= i < s.len() && s[i] == '\n' && forall|j: int| 0 <= j < i ==> s[j] != '\n')
    } else {
        s
    }
}

/// The GPU name reported by `nvidia-smi --query-gpu=name`: the first line of
/// the trimmed output, trimmed; `None` when that is empty.
pub open spec fn nvidia_name_spec(output: Seq<char>) -> Option<Seq<char>> {
    let n = trim(first_line(trim(output)));
    if n.len() == 0 {
        None
    } else {
        Some(n)
    }
}

/// Extracts the GPU name from `nvidia-smi` output.
pub fn nvidia_gpu_name(output: &str) -> (r: Option<String>)
    ensures
        match r {
            Some(n) => nvidia_name_spec(output@) == Some(n@),
            None => nvidia_name_spec(output@) is None,
        },
{
    let c = chars_of(output);
    assert(c@.subrange(0, c@.len() as int) =~= c@);
    let (a, b) = trim_bounds(c.as_slice(), 0, c.len());
    let ghost t = c@.subrange(a as int, b as int);
    let mut e = a;
    while e < b && c[e] != '\n'
        invariant
            a <= e <= b <= c@.len(),
            forall|j: int| a <= j < e ==> c@[j] != '\n',
        decreases b - e,
    {
        e = e + 1;
    }
    proof {
        if e < b {
            let k = (e - a) as int;
            assert(t[k] == '\n');
            let w = choose|i: int| 0 <= i < t.len() && t[i] == '\n' && forall|j: int| 0 <= j < i ==> t[j] != '\n';
            assert(w == k) by {
                if w < k {
                    assert(t[w] == c@[a + w]);
                }
                if w > k {
                    assert(t[k] != '\n');
                }
            }
            assert(first_line(t) =~= c@.subrange(a as int, e as int));
        } else {
            assert forall|i: int| !(0 <= i < t.len() && t[i] == '\n') by {
                if 0 <= i < t.len() {
                    assert(t[i] == c@[a + i]);
                }
            }
            assert(first_line(t) =~= c@.subrange(a as int, e as int));
        }
    }
    let (x, y) = trim_bounds(c.as_slice(), a, e);
    if x < y {
        Some(string_of_range(c.as_slice(), x, y))
    } else {
        None
    }
}

/// GPU facts on Linux from the probes, in order: an NVIDIA name from
/// `nvidia-smi` gives CUDA; else an `amdgpu` driver gives "ROCm" when
/// `/dev/kfd` exists and "amdgpu" otherwise; else no GPU (a Raspberry Pi's
/// VideoCore counts as none).
pub fn gpu_facts_linux(
    nvidia_output: Option<&str>,
    amdgpu_driver: bool,
    kfd_present: bool,
    compiled_backends: Vec<String>,
) -> (r: GpuFacts)
    ensures
        r.compiled_backends == compiled_backends,
        match nvidia_output {
            Some(o) if nvidia_name_spec(o@) is Some => {
                &&& r.present
                &&& r.kind matches Some(k) && k@ == "CUDA"@
                &&& r.name matches Some(n) && Some(n@) == nvidia_name_spec(o@)
            },
            _ => if amdgpu_driver {
                &&& r.present
                &&& r.kind matches Some(k) && k@ == (if kfd_present {
                    "ROCm"@
                } else {
                    "amdgpu"@
                })
                &&& r.name matches Some(n) && n@ == "AMD GPU"@
            } else {
                !r.present && r.kind is None && r.name is None
            },
        },
{
    if let Some(o) = nvidia_output {
        if let Some(name) = nvidia_gpu_name(o) {
            return GpuFacts {
                present: true,
                kind: Some(String::from_str("CUDA")),
                name: Some(name),
                compiled_backends,
            };
        }
    }
    if amdgpu_driver {
        let kind = if kfd_present {
            String::from_str("ROCm")
        } else {
            String::from_str("amdgpu")
        };
        return GpuFacts {
            present: true,
            kind: Some(kind),
            name: Some(String::from_str("AMD GPU")),
            compiled_backends,
        };
    }
    no_gpu(compiled_backends)
}

/// Whether a DRM card's `uevent` file names the `amdgpu` driver.
pub fn is_amdgpu_uevent(contents: &str) -> (r: bool)
    ensures
        r == contains(contents@, "DRIVER=amdgpu"@),
{
    contains_str(contents, "DRIVER=amdgpu")
}

} // verus!
