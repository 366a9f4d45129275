//! The accelerator capability resolver: generation, runtime version, compute
//! capability and backend of the detected device, and the session configuration.

use crate::error::PortableSourceError;
use crate::gpu::{opt_str_view, GpuInfo, GpuType};
use crate::text::{
    chars_of, concat, contains_chars, contains_str, has_infix, string_of, to_upper, upper_of,
};
use vstd::prelude::*;

verus! {

pub const SERVER_DOMAIN: &'static str = "server.portables.dev";

pub const VERSION: &'static str = "0.1.0";

/// The operating-system family the engine runs on.
#[derive(Debug, Clone, Copy, PartialEq, Eq, Structural)]
pub enum Platform {
    Windows,
    Unix,
}

impl Platform {
    pub open spec fn spec_sep(&self) -> char {
        match self {
            Platform::Windows => '\\',
            Platform::Unix => '/',
        }
    }

    /// The path separator of the platform.
    pub fn sep(&self) -> (r: char)
        ensures
            r == self.spec_sep(),
    {
        match self {
            Platform::Windows => '\\',
            Platform::Unix => '/',
        }
    }
}

/// `seg` appended to the path `base`, with one separator between them.
pub open spec fn joined(base: Seq<char>, seg: Seq<char>, sep: char) -> Seq<char> {
    if base.len() == 0 {
        seg
    } else if base.last() == sep {
        base + seg
    } else {
        base + seq![sep] + seg
    }
}

/// `seg` appended to the path `base`, with one separator between them.
pub fn join_path(base: &str, seg: &str, sep: char) -> (r: String)
    ensures
        r@ == joined(base@, seg@, sep),
{
    let b = chars_of(base);
    if b.len() == 0 {
        return seg.to_owned();
    }
    let mut v = b;
    if v[v.len() - 1] != sep {
        v.push(sep);
    }
    let head = string_of(&v);
    let r = concat(head.as_str(), seg);
    proof {
        if base@.last() != sep {
            assert(v@ =~= base@ + seq![sep]);
        }
    }
    r
}

#[derive(Debug, Clone, Copy, PartialEq, Eq, Structural, Hash)]
pub enum GpuGeneration {
    Pascal,
    Turing,
    Ampere,
    AdaLovelace,
    Blackwell,
    Unknown,
}

impl GpuGeneration {
    pub open spec fn spec_name(&self) -> Seq<char> {
        match self {
            GpuGeneration::Pascal => "Pascal"@,
            GpuGeneration::Turing => "Turing"@,
            GpuGeneration::Ampere => "Ampere"@,
            GpuGeneration::AdaLovelace => "AdaLovelace"@,
            GpuGeneration::Blackwell => "Blackwell"@,
            GpuGeneration::Unknown => "Unknown"@,
        }
    }

    /// The display name of the generation.
    pub fn name(&self) -> (r: &'static str)
        ensures
            r@ == self.spec_name(),
    {
        match self {
            GpuGeneration::Pascal => "Pascal",
            GpuGeneration::Turing => "Turing",
            GpuGeneration::Ampere => "Ampere",
            GpuGeneration::AdaLovelace => "AdaLovelace",
            GpuGeneration::Blackwell => "Blackwell",
            GpuGeneration::Unknown => "Unknown",
        }
    }
}

/// Accelerator runtime releases shipped as portable archives.
#[derive(Debug, Clone, Copy, PartialEq, Eq, Structural)]
pub enum CudaVersion {
    Cuda118,
    Cuda124,
    Cuda128,
}

/// Accelerator runtime releases recognised on a system installation.
#[derive(Debug, Clone, Copy, PartialEq, Eq, Structural)]
pub enum CudaVersionLinux {
    Cuda118,
    Cuda121,
    Cuda124,
    Cuda126,
    Cuda128,
}

/// How the accelerator is best driven.
#[derive(Debug, Clone, Copy, PartialEq, Eq, Structural)]
pub enum Backend {
    Cuda,
    CudaTensorRT,
    DirectML,
    OpenVINO,
    Cpu,
}

impl Backend {
    pub open spec fn spec_name(&self) -> Seq<char> {
        match self {
            Backend::Cuda => "cuda"@,
            Backend::CudaTensorRT => "cuda_tensorrt"@,
            Backend::DirectML => "directml"@,
            Backend::OpenVINO => "openvino"@,
            Backend::Cpu => "cpu"@,
        }
    }

    /// The lower-case name of the backend.
    pub fn name(&self) -> (r: &'static str)
        ensures
            r@ == self.spec_name(),
    {
        match self {
            Backend::Cuda => "cuda",
            Backend::CudaTensorRT => "cuda_tensorrt",
            Backend::DirectML => "directml",
            Backend::OpenVINO => "openvino",
            Backend::Cpu => "cpu",
        }
    }
}

impl CudaVersion {
    pub open spec fn spec_download_url(&self) -> Seq<char> {
        match self {
            CudaVersion::Cuda118 => "https://files.portables.dev/CUDA/CUDA_118.tar.zst"@,
            CudaVersion::Cuda124 => "https://files.portables.dev/CUDA/CUDA_124.tar.zst"@,
            CudaVersion::Cuda128 => "https://files.portables.dev/CUDA/CUDA_128.tar.zst"@,
        }
    }

    /// The archive of the runtime release.
    pub fn get_download_url(&self) -> (r: &'static str)
        ensures
            r@ == self.spec_download_url(),
    {
        match self {
            CudaVersion::Cuda118 => "https://files.portables.dev/CUDA/CUDA_118.tar.zst",
            CudaVersion::Cuda124 => "https://files.portables.dev/CUDA/CUDA_124.tar.zst",
            CudaVersion::Cuda128 => "https://files.portables.dev/CUDA/CUDA_128.tar.zst",
        }
    }

    pub open spec fn spec_label(&self) -> Seq<char> {
        match self {
            CudaVersion::Cuda118 => "118"@,
            CudaVersion::Cuda124 => "124"@,
            CudaVersion::Cuda128 => "128"@,
        }
    }

    /// The canonical digits of the release, as archive and folder names use them.
    pub fn label(&self) -> (r: &'static str)
        ensures
            r@ == self.spec_label(),
    {
        match self {
            CudaVersion::Cuda118 => "118",
            CudaVersion::Cuda124 => "124",
            CudaVersion::Cuda128 => "128",
        }
    }
}

#[derive(Debug, Clone, Copy, PartialEq, Eq, Structural)]
pub enum ToolLinks {
    Git,
    Ffmpeg,
    Python311,
    MsvcBuildTools,
}

impl ToolLinks {
    pub open spec fn spec_url(&self) -> Seq<char> {
        match self {
            ToolLinks::Git => "https://files.portables.dev/git.tar.zst"@,
            ToolLinks::Ffmpeg => "https://files.portables.dev/ffmpeg.tar.zst"@,
            ToolLinks::Python311 => "https://files.portables.dev/python.tar.zst"@,
            ToolLinks::MsvcBuildTools => "https://aka.ms/vs/17/release/vs_buildtools.exe"@,
        }
    }

    /// Where the tool's archive or installer is downloaded from.
    pub fn url(&self) -> (r: &'static str)
        ensures
            r@ == self.spec_url(),
    {
        match self {
            ToolLinks::Git => "https://files.portables.dev/git.tar.zst",
            ToolLinks::Ffmpeg => "https://files.portables.dev/ffmpeg.tar.zst",
            ToolLinks::Python311 => "https://files.portables.dev/python.tar.zst",
            ToolLinks::MsvcBuildTools => "https://aka.ms/vs/17/release/vs_buildtools.exe",
        }
    }
}

/// The name patterns of each generation, in upper case.
pub open spec fn generation_patterns(g: GpuGeneration) -> Seq<Seq<char>> {
    match g {
        GpuGeneration::Pascal => seq![
            "GTX 10"@,
            "GTX 1050"@,
            "GTX 1060"@,
            "GTX 1070"@,
            "GTX 1080"@,
            "TITAN X"@,
            "TITAN XP"@,
        ],
        GpuGeneration::Turing => seq![
            "GTX 16"@,
            "GTX 1650"@,
            "GTX 1660"@,
            "RTX 20"@,
            "RTX 2060"@,
            "RTX 2070"@,
            "RTX 2080"@,
            "TITAN RTX"@,
        ],
        GpuGeneration::Ampere => seq![
            "RTX 30"@,
            "RTX 3060"@,
            "RTX 3070"@,
            "RTX 3080"@,
            "RTX 3090"@,
            "RTX A"@,
            "A40"@,
            "A100"@,
        ],
        GpuGeneration::AdaLovelace => seq![
            "RTX 40"@,
            "RTX 4060"@,
            "RTX 4070"@,
            "RTX 4080"@,
            "RTX 4090"@,
            "RTX ADA"@,
            "L40"@,
            "L4"@,
        ],
        GpuGeneration::Blackwell => seq![
            "RTX 50"@,
            "RTX 5060"@,
            "RTX 5070"@,
            "RTX 5080"@,
            "RTX 5090"@,
        ],
        GpuGeneration::Unknown => seq![],
    }
}

/// Some pattern of `ps` occurs in `u`.
pub open spec fn matches_any(u: Seq<char>, ps: Seq<Seq<char>>) -> bool {
    exists|i: int| 0 <= i < ps.len() && has_infix(u, #[trigger] ps[i])
}

/// The generation of an upper-cased device name: the newest generation one of whose
/// patterns occurs in it, or Unknown.
pub open spec fn generation_of_upper(u: Seq<char>) -> GpuGeneration {
    if matches_any(u, generation_patterns(GpuGeneration::Blackwell)) {
        GpuGeneration::Blackwell
    } else if matches_any(u, generation_patterns(GpuGeneration::AdaLovelace)) {
        GpuGeneration::AdaLovelace
    } else if matches_any(u, generation_patterns(GpuGeneration::Ampere)) {
        GpuGeneration::Ampere
    } else if matches_any(u, generation_patterns(GpuGeneration::Turing)) {
        GpuGeneration::Turing
    } else if matches_any(u, generation_patterns(GpuGeneration::Pascal)) {
        GpuGeneration::Pascal
    } else {
        GpuGeneration::Unknown
    }
}

/// The name patterns of a generation.
fn patterns_of(g: GpuGeneration) -> (r: Vec<&'static str>)
    ensures
        r@.len() == generation_patterns(g).len(),
        forall|i: int| 0 <= i < r@.len() ==> #[trigger] r@[i]@ == generation_patterns(g)[i],
{
    match g {
        GpuGeneration::Pascal => vec![
            "GTX 10",
            "GTX 1050",
            "GTX 1060",
            "GTX 1070",
            "GTX 1080",
            "TITAN X",
            "TITAN XP",
        ],
        GpuGeneration::Turing => vec![
            "GTX 16",
            "GTX 1650",
            "GTX 1660",
            "RTX 20",
            "RTX 2060",
            "RTX 2070",
            "RTX 2080",
            "TITAN RTX",
        ],
        GpuGeneration::Ampere => vec![
            "RTX 30",
            "RTX 3060",
            "RTX 3070",
            "RTX 3080",
            "RTX 3090",
            "RTX A",
            "A40",
            "A100",
        ],
        GpuGeneration::AdaLovelace => vec![
            "RTX 40",
            "RTX 4060",
            "RTX 4070",
            "RTX 4080",
            "RTX 4090",
            "RTX ADA",
            "L40",
            "L4",
        ],
        GpuGeneration::Blackwell => vec!["RTX 50", "RTX 5060", "RTX 5070", "RTX 5080", "RTX 5090"],
        GpuGeneration::Unknown => vec![],
    }
}

/// Whether a pattern of generation `g` occurs in `u`.
fn matches_generation(u: &Vec<char>, g: GpuGeneration) -> (r: bool)
    ensures
        r == matches_any(u@, generation_patterns(g)),
{
    let ps = patterns_of(g);
    let mut i: usize = 0;
    while i < ps.len()
        invariant
            i <= ps.len(),
            ps@.len() == generation_patterns(g).len(),
            forall|k: int| 0 <= k < ps@.len() ==> #[trigger] ps@[k]@ == generation_patterns(g)[k],
            forall|k: int| 0 <= k < i ==> !has_infix(u@, #[trigger] generation_patterns(g)[k]),
        decreases ps.len() - i,
    {
        let p = chars_of(ps[i]);
        if contains_chars(u, &p) {
            assert(has_infix(u@, generation_patterns(g)[i as int]));
            return true;
        }
        i = i + 1;
    }
    false
}

/// The runtime release recommended for a generation.
pub open spec fn cuda_for_generation(g: GpuGeneration) -> Option<CudaVersion> {
    match g {
        GpuGeneration::Pascal => Some(CudaVersion::Cuda118),
        GpuGeneration::Turing => Some(CudaVersion::Cuda124),
        GpuGeneration::Ampere => Some(CudaVersion::Cuda124),
        GpuGeneration::AdaLovelace => Some(CudaVersion::Cuda128),
        GpuGeneration::Blackwell => Some(CudaVersion::Cuda128),
        GpuGeneration::Unknown => None,
    }
}

/// The compute capability label of a generation.
pub open spec fn compute_capability_of(g: GpuGeneration) -> Seq<char> {
    match g {
        GpuGeneration::Pascal => "6.1"@,
        GpuGeneration::Turing => "7.5"@,
        GpuGeneration::Ampere => "8.6"@,
        GpuGeneration::AdaLovelace => "8.9"@,
        GpuGeneration::Blackwell => "9.0"@,
        GpuGeneration::Unknown => "5.0"@,
    }
}

/// An upper-cased device name that marks an Nvidia card.
pub open spec fn names_nvidia(u: Seq<char>) -> bool {
    has_infix(u, "NVIDIA"@) || has_infix(u, "GEFORCE"@) || has_infix(u, "RTX"@)
}

/// Whether an upper-cased device name marks an Nvidia card.
pub fn names_nvidia_upper(upper_name: &str) -> (r: bool)
    ensures
        r == names_nvidia(upper_name@),
{
    contains_str(upper_name, "NVIDIA") || contains_str(upper_name, "GEFORCE") || contains_str(
        upper_name,
        "RTX",
    )
}

/// The vendor of a device: Nvidia when the query said so or the name marks an Nvidia
/// card, else what the query said.
pub open spec fn vendor_of(info: GpuInfo) -> GpuType {
    if info.gpu_type == GpuType::Nvidia || names_nvidia(upper_of(info.name@)) {
        GpuType::Nvidia
    } else {
        info.gpu_type
    }
}

/// The runtime release for a vendor and generation: only Nvidia devices have one.
pub open spec fn runtime_for(vendor: GpuType, g: GpuGeneration) -> Option<CudaVersion> {
    if vendor == GpuType::Nvidia {
        cuda_for_generation(g)
    } else {
        None
    }
}

/// The backend decision table.
pub open spec fn backend_for(
    vendor: GpuType,
    g: GpuGeneration,
    runtime: Option<CudaVersion>,
    platform: Platform,
) -> Backend {
    if vendor == GpuType::Nvidia && g != GpuGeneration::Unknown && runtime is Some {
        if (runtime == Some(CudaVersion::Cuda124) || runtime == Some(CudaVersion::Cuda128)) && (g
            == GpuGeneration::Turing || g == GpuGeneration::Ampere || g
            == GpuGeneration::AdaLovelace || g == GpuGeneration::Blackwell) {
            Backend::CudaTensorRT
        } else {
            Backend::Cuda
        }
    } else if vendor == GpuType::Amd && platform == Platform::Windows {
        Backend::DirectML
    } else if vendor == GpuType::Intel {
        Backend::OpenVINO
    } else {
        Backend::Cpu
    }
}

/// TensorRT runs on Nvidia devices from the Turing generation on.
pub open spec fn tensorrt_for(vendor: GpuType, g: GpuGeneration) -> bool {
    vendor == GpuType::Nvidia && (g == GpuGeneration::Turing || g == GpuGeneration::Ampere || g
        == GpuGeneration::AdaLovelace || g == GpuGeneration::Blackwell)
}

/// The detected device summary of a session.
#[derive(Debug, Clone)]
pub struct AcceleratorProfile {
    pub device_name: String,
    pub vendor: GpuType,
    pub memory_mb: u32,
    pub driver_version: Option<String>,
    pub generation: GpuGeneration,
    pub compute_capability: String,
    pub runtime_version: Option<CudaVersion>,
    pub backend: Backend,
    pub tensorrt_capable: bool,
}

impl AcceleratorProfile {
    /// The profile's fields obey the resolver's tables.
    pub open spec fn wf(&self, platform: Platform) -> bool {
        &&& self.runtime_version == runtime_for(self.vendor, self.generation)
        &&& self.backend == backend_for(
            self.vendor,
            self.generation,
            self.runtime_version,
            platform,
        )
        &&& self.tensorrt_capable == tensorrt_for(self.vendor, self.generation)
        &&& self.compute_capability@ == compute_capability_of(self.generation)
    }
}

/// The character sequences of a list of name/value pairs.
pub open spec fn pair_views(s: Seq<(String, String)>) -> Seq<(Seq<char>, Seq<char>)> {
    Seq::new(s.len(), |i: int| (s[i].0@, s[i].1@))
}

/// The session configuration.
#[derive(Debug, Clone)]
pub struct PortableSourceConfig {
    pub version: String,
    pub install_path: String,
    pub environment_vars: Option<Vec<(String, String)>>,
    pub environment_setup_completed: bool,
}

impl PortableSourceConfig {
    /// The configuration of a fresh session: no install path, no variables, setup not done.
    pub fn fresh() -> (r: Self)
        ensures
            r.version@ == VERSION@,
            r.install_path@.len() == 0,
            r.environment_vars is None,
            !r.environment_setup_completed,
    {
        PortableSourceConfig {
            version: VERSION.to_owned(),
            install_path: String::new(),
            environment_vars: None,
            environment_setup_completed: false,
        }
    }
}

/// The session configuration together with the device detected at session start.
pub struct ConfigManager {
    pub config: PortableSourceConfig,
    pub config_path: String,
    pub gpu: Option<GpuInfo>,
    pub platform: Platform,
}

impl ConfigManager {
    /// The vendor of the detected device, Unknown without one.
    pub open spec fn spec_vendor(&self) -> GpuType {
        match self.gpu {
            Some(i) => vendor_of(i),
            None => GpuType::Unknown,
        }
    }

    /// The generation of the detected device, Unknown without one.
    pub open spec fn spec_generation(&self) -> GpuGeneration {
        match self.gpu {
            Some(i) => generation_of_upper(upper_of(i.name@)),
            None => GpuGeneration::Unknown,
        }
    }

    pub open spec fn spec_has_cuda(&self) -> bool {
        self.spec_vendor() == GpuType::Nvidia
    }

    pub open spec fn spec_cuda_version(&self) -> Option<CudaVersion> {
        runtime_for(self.spec_vendor(), self.spec_generation())
    }

    pub open spec fn spec_backend(&self) -> Backend {
        backend_for(
            self.spec_vendor(),
            self.spec_generation(),
            self.spec_cuda_version(),
            self.platform,
        )
    }

    pub open spec fn spec_cuda_base(&self) -> Seq<char> {
        joined(
            joined(self.config.install_path@, "ps_env"@, self.platform.spec_sep()),
            "CUDA"@,
            self.platform.spec_sep(),
        )
    }

    /// A manager for the configuration at `config_path`, with the device detected at
    /// session start.
    pub fn new(config_path: String, platform: Platform, gpu: Option<GpuInfo>) -> (r: Self)
        ensures
            r.config_path == config_path,
            r.platform == platform,
            r.gpu == gpu,
            r.config.install_path@.len() == 0,
            !r.config.environment_setup_completed,
            r.config.environment_vars is None,
    {
        ConfigManager { config: PortableSourceConfig::fresh(), config_path, gpu, platform }
    }

    /// The vendor of the detected device.
    pub fn vendor(&self) -> (r: GpuType)
        ensures
            r == self.spec_vendor(),
    {
        match &self.gpu {
            Some(info) => {
                if info.gpu_type == GpuType::Nvidia {
                    return GpuType::Nvidia;
                }
                let up = to_upper(info.name.as_str());
                if names_nvidia_upper(up.as_str()) {
                    GpuType::Nvidia
                } else {
                    info.gpu_type
                }
            },
            None => GpuType::Unknown,
        }
    }

    /// Whether the detected device is an Nvidia card, for which the runtime is installed.
    pub fn has_cuda(&self) -> (r: bool)
        ensures
            r == self.spec_has_cuda(),
    {
        self.vendor() == GpuType::Nvidia
    }

    /// The generation of a device name, matched against the pattern table in upper case.
    pub fn detect_gpu_generation(&self, gpu_name: &str) -> (r: GpuGeneration)
        ensures
            r == generation_of_upper(upper_of(gpu_name@)),
    {
        let up = to_upper(gpu_name);
        self.generation_from_upper(up.as_str())
    }

    /// The generation of an upper-cased device name, by the pattern table.
    pub fn generation_from_upper(&self, upper_name: &str) -> (r: GpuGeneration)
        ensures
            r == generation_of_upper(upper_name@),
    {
        let u = chars_of(upper_name);
        if matches_generation(&u, GpuGeneration::Blackwell) {
            GpuGeneration::Blackwell
        } else if matches_generation(&u, GpuGeneration::AdaLovelace) {
            GpuGeneration::AdaLovelace
        } else if matches_generation(&u, GpuGeneration::Ampere) {
            GpuGeneration::Ampere
        } else if matches_generation(&u, GpuGeneration::Turing) {
            GpuGeneration::Turing
        } else if matches_generation(&u, GpuGeneration::Pascal) {
            GpuGeneration::Pascal
        } else {
            GpuGeneration::Unknown
        }
    }

    /// The generation of the detected device.
    pub fn detect_current_gpu_generation(&self) -> (r: GpuGeneration)
        ensures
            r == self.spec_generation(),
    {
        match &self.gpu {
            Some(info) => self.detect_gpu_generation(info.name.as_str()),
            None => GpuGeneration::Unknown,
        }
    }

    /// The runtime release recommended for a generation.
    pub fn get_recommended_cuda_version(&self, generation: &GpuGeneration) -> (r: Option<
        CudaVersion,
    >)
        ensures
            r == cuda_for_generation(*generation),
    {
        match generation {
            GpuGeneration::Pascal => Some(CudaVersion::Cuda118),
            GpuGeneration::Turing => Some(CudaVersion::Cuda124),
            GpuGeneration::Ampere => Some(CudaVersion::Cuda124),
            GpuGeneration::AdaLovelace => Some(CudaVersion::Cuda128),
            GpuGeneration::Blackwell => Some(CudaVersion::Cuda128),
            GpuGeneration::Unknown => None,
        }
    }

    /// The runtime release for the detected device: none unless it is an Nvidia card of a
    /// known generation.
    pub fn get_cuda_version(&self) -> (r: Option<CudaVersion>)
        ensures
            r == self.spec_cuda_version(),
    {
        if !self.has_cuda() {
            return None;
        }
        let generation = self.detect_current_gpu_generation();
        self.get_recommended_cuda_version(&generation)
    }

    /// The compute capability label of a generation.
    pub fn get_compute_capability(&self, generation: &GpuGeneration) -> (r: String)
        ensures
            r@ == compute_capability_of(*generation),
    {
        let s = match generation {
            GpuGeneration::Pascal => "6.1",
            GpuGeneration::Turing => "7.5",
            GpuGeneration::Ampere => "8.6",
            GpuGeneration::AdaLovelace => "8.9",
            GpuGeneration::Blackwell => "9.0",
            GpuGeneration::Unknown => "5.0",
        };
        s.to_owned()
    }

    /// The backend of the detected device, by the decision table.
    pub fn recommended_backend(&self) -> (r: Backend)
        ensures
            r == self.spec_backend(),
    {
        let vendor = self.vendor();
        let g = self.detect_current_gpu_generation();
        let runtime = self.get_cuda_version();
        if vendor == GpuType::Nvidia && g != GpuGeneration::Unknown && runtime.is_some() {
            let upper_runtime = match runtime {
                Some(CudaVersion::Cuda124) => true,
                Some(CudaVersion::Cuda128) => true,
                _ => false,
            };
            let tensor_generation = match g {
                GpuGeneration::Turing => true,
                GpuGeneration::Ampere => true,
                GpuGeneration::AdaLovelace => true,
                GpuGeneration::Blackwell => true,
                _ => false,
            };
            if upper_runtime && tensor_generation {
                Backend::CudaTensorRT
            } else {
                Backend::Cuda
            }
        } else if vendor == GpuType::Amd && self.platform == Platform::Windows {
            Backend::DirectML
        } else if vendor == GpuType::Intel {
            Backend::OpenVINO
        } else {
            Backend::Cpu
        }
    }

    /// The name of the recommended backend.
    pub fn get_recommended_backend(&self) -> (r: String)
        ensures
            r@ == self.spec_backend().spec_name(),
    {
        self.recommended_backend().name().to_owned()
    }

    /// Whether the detected device runs TensorRT.
    pub fn supports_tensorrt(&self) -> (r: bool)
        ensures
            r == tensorrt_for(self.spec_vendor(), self.spec_generation()),
    {
        if !self.has_cuda() {
            return false;
        }
        let g = self.detect_current_gpu_generation();
        match g {
            GpuGeneration::Turing => true,
            GpuGeneration::Ampere => true,
            GpuGeneration::AdaLovelace => true,
            GpuGeneration::Blackwell => true,
            _ => false,
        }
    }

    /// The profile of the detected device; an empty name, Unknown vendor and generation and
    /// the Cpu backend without one.
    pub fn accelerator_profile(&self) -> (r: AcceleratorProfile)
        ensures
            r.wf(self.platform),
            r.vendor == self.spec_vendor(),
            r.generation == self.spec_generation(),
            r.runtime_version == self.spec_cuda_version(),
            r.backend == self.spec_backend(),
            match self.gpu {
                Some(i) => r.device_name@ == i.name@ && r.memory_mb == i.memory_mb
                    && opt_str_view(r.driver_version) == opt_str_view(i.driver_version),
                None => r.device_name@.len() == 0 && r.memory_mb == 0 && r.driver_version is None,
            },
    {
        let generation = self.detect_current_gpu_generation();
        let (device_name, memory_mb, driver_version) = match &self.gpu {
            Some(i) => (i.name.clone(), i.memory_mb, crate::gpu::copy_opt_string(&i.driver_version)),
            None => (String::new(), 0, None),
        };
        AcceleratorProfile {
            device_name,
            vendor: self.vendor(),
            memory_mb,
            driver_version,
            generation,
            compute_capability: self.get_compute_capability(&generation),
            runtime_version: self.get_cuda_version(),
            backend: self.recommended_backend(),
            tensorrt_capable: self.supports_tensorrt(),
        }
    }

    /// The name of the detected device, or "Unknown GPU".
    pub fn get_gpu_name(&self) -> (r: String)
        ensures
            match self.gpu {
                Some(i) => r@ == i.name@,
                None => r@ == "Unknown GPU"@,
            },
    {
        match &self.gpu {
            Some(i) => i.name.clone(),
            None => "Unknown GPU".to_owned(),
        }
    }

    /// A copy of the detected device.
    pub fn detect_gpu(&self) -> (r: Option<GpuInfo>)
        ensures
            match self.gpu {
                Some(i) => r matches Some(g) && g.view_parts() == i.view_parts(),
                None => r is None,
            },
    {
        match &self.gpu {
            Some(i) => Some(i.duplicate()),
            None => None,
        }
    }

    /// Where the portable runtime lives, for an Nvidia device.
    pub fn get_cuda_base_path(&self) -> (r: Option<String>)
        ensures
            self.spec_has_cuda() ==> (r matches Some(p) && p@ == self.spec_cuda_base()),
            !self.spec_has_cuda() ==> r is None,
    {
        if self.has_cuda() {
            let sep = self.platform.sep();
            let env = join_path(self.config.install_path.as_str(), "ps_env", sep);
            Some(join_path(env.as_str(), "CUDA", sep))
        } else {
            None
        }
    }

    fn cuda_subdir(&self, seg: &str) -> (r: Option<String>)
        ensures
            self.spec_has_cuda() ==> (r matches Some(p) && p@ == joined(
                self.spec_cuda_base(),
                seg@,
                self.platform.spec_sep(),
            )),
            !self.spec_has_cuda() ==> r is None,
    {
        match self.get_cuda_base_path() {
            Some(base) => Some(join_path(base.as_str(), seg, self.platform.sep())),
            None => None,
        }
    }

    pub fn get_cuda_bin(&self) -> (r: Option<String>)
        ensures
            self.spec_has_cuda() ==> (r matches Some(p) && p@ == joined(
                self.spec_cuda_base(),
                "bin"@,
                self.platform.spec_sep(),
            )),
            !self.spec_has_cuda() ==> r is None,
    {
        self.cuda_subdir("bin")
    }

    pub fn get_cuda_lib(&self) -> (r: Option<String>)
        ensures
            self.spec_has_cuda() ==> (r matches Some(p) && p@ == joined(
                self.spec_cuda_base(),
                "lib"@,
                self.platform.spec_sep(),
            )),
            !self.spec_has_cuda() ==> r is None,
    {
        self.cuda_subdir("lib")
    }

    pub fn get_cuda_lib_64(&self) -> (r: Option<String>)
        ensures
            self.spec_has_cuda() ==> (r matches Some(p) && p@ == joined(
                joined(self.spec_cuda_base(), "lib"@, self.platform.spec_sep()),
                "x64"@,
                self.platform.spec_sep(),
            )),
            !self.spec_has_cuda() ==> r is None,
    {
        match self.get_cuda_lib() {
            Some(lib) => Some(join_path(lib.as_str(), "x64", self.platform.sep())),
            None => None,
        }
    }

    pub fn get_cuda_include(&self) -> (r: Option<String>)
        ensures
            self.spec_has_cuda() ==> (r matches Some(p) && p@ == joined(
                self.spec_cuda_base(),
                "include"@,
                self.platform.spec_sep(),
            )),
            !self.spec_has_cuda() ==> r is None,
    {
        self.cuda_subdir("include")
    }

    /// Moves the configuration file into the install directory, once one is set.
    pub fn set_config_path_to_install_dir(&mut self)
        ensures
            old(self).config.install_path@.len() == 0 ==> *final(self) == *old(self),
            old(self).config.install_path@.len() > 0 ==> final(self).config_path@ == joined(
                old(self).config.install_path@,
                "portablesource_config.json"@,
                old(self).platform.spec_sep(),
            ),
            final(self).config == old(self).config,
            final(self).gpu == old(self).gpu,
            final(self).platform == old(self).platform,
    {
        if self.config.install_path.as_str().is_empty() {
            return;
        }
        let p = join_path(
            self.config.install_path.as_str(),
            "portablesource_config.json",
            self.platform.sep(),
        );
        self.config_path = p;
    }

    pub fn get_config(&self) -> (r: &PortableSourceConfig)
        ensures
            *r == self.config,
    {
        &self.config
    }

    /// The configuration, for the caller to change.
    pub fn get_config_mut(&mut self) -> (r: &mut PortableSourceConfig)
        ensures
            *r == old(self).config,
            final(self).config == *final(r),
            final(self).config_path == old(self).config_path,
            final(self).gpu == old(self).gpu,
            final(self).platform == old(self).platform,
    {
        &mut self.config
    }

    /// Sets the install path and returns it.
    pub fn configure_install_path(&mut self, install_path: &str) -> (r: String)
        ensures
            r@ == install_path@,
            final(self).config.install_path@ == install_path@,
            final(self).gpu == old(self).gpu,
            final(self).platform == old(self).platform,
            final(self).config_path == old(self).config_path,
            final(self).config.environment_setup_completed
                == old(self).config.environment_setup_completed,
    {
        self.config.install_path = install_path.to_owned();
        install_path.to_owned()
    }

    /// The variables that point temporary and profile directories into the install
    /// directory; none without an install path.
    pub open spec fn spec_environment_vars(&self) -> Seq<(Seq<char>, Seq<char>)> {
        if self.config.install_path@.len() == 0 {
            seq![]
        } else {
            let tmp = joined(self.config.install_path@, "tmp"@, self.platform.spec_sep());
            seq![("USERPROFILE"@, tmp), ("TEMP"@, tmp), ("TMP"@, tmp)]
        }
    }

    fn environment_vars(&self) -> (r: Vec<(String, String)>)
        ensures
            pair_views(r@) == self.spec_environment_vars(),
    {
        let mut vars: Vec<(String, String)> = Vec::new();
        if !self.config.install_path.as_str().is_empty() {
            let tmp = join_path(self.config.install_path.as_str(), "tmp", self.platform.sep());
            vars.push(("USERPROFILE".to_owned(), tmp.clone()));
            vars.push(("TEMP".to_owned(), tmp.clone()));
            vars.push(("TMP".to_owned(), tmp));
        }
        assert(pair_views(vars@) =~= self.spec_environment_vars());
        vars
    }

    /// Computes the variables of `spec_environment_vars` and records them in the
    /// configuration.
    pub fn configure_environment_vars(&mut self) -> (r: Vec<(String, String)>)
        ensures
            pair_views(r@) == old(self).spec_environment_vars(),
            final(self).config.environment_vars matches Some(v) && pair_views(v@) == pair_views(
                r@,
            ),
            final(self).config.install_path == old(self).config.install_path,
            final(self).gpu == old(self).gpu,
            final(self).platform == old(self).platform,
    {
        let recorded = self.environment_vars();
        let vars = self.environment_vars();
        self.config.environment_vars = Some(recorded);
        vars
    }

    /// The archive of the given runtime release, or of the detected device's release.
    pub fn get_cuda_download_link(&self, cuda_version: Option<CudaVersion>) -> (r: Option<String>)
        ensures
            match cuda_version {
                Some(v) => r matches Some(u) && u@ == v.spec_download_url(),
                None => match self.spec_cuda_version() {
                    Some(v) => r matches Some(u) && u@ == v.spec_download_url(),
                    None => r is None,
                },
            },
    {
        let version = match cuda_version {
            Some(v) => v,
            None => match self.get_cuda_version() {
                Some(v) => v,
                None => return None,
            },
        };
        Some(version.get_download_url().to_owned())
    }

    /// The build tools installer and its (empty) arguments.
    pub fn msvc_bt_config(&self) -> (r: (String, String))
        ensures
            r.0@ == ToolLinks::MsvcBuildTools.spec_url(),
            r.1@.len() == 0,
    {
        (ToolLinks::MsvcBuildTools.url().to_owned(), String::new())
    }

    pub fn is_environment_setup_completed(&self) -> (r: bool)
        ensures
            r == self.config.environment_setup_completed,
    {
        self.config.environment_setup_completed
    }

    /// Records whether the portable environment is set up; the setting lasts the session.
    pub fn mark_environment_setup_completed(&mut self, completed: bool) -> (r: Result<
        (),
        PortableSourceError,
    >)
        ensures
            r is Ok,
            final(self).config.environment_setup_completed == completed,
            final(self).config.install_path == old(self).config.install_path,
            final(self).gpu == old(self).gpu,
            final(self).platform == old(self).platform,
    {
        self.config.environment_setup_completed = completed;
        Ok(())
    }

    /// Marks the setup as completed when the portable tools, or on Unix the base
    /// environment, are present in the install directory.
    pub fn hydrate_from_existing_env(
        &mut self,
        env_dir_exists: bool,
        core_tools_exist: bool,
        base_env_python_exists: bool,
    ) -> (r: Result<(), PortableSourceError>)
        ensures
            r is Ok,
            final(self).config.environment_setup_completed == (old(
                self,
            ).config.environment_setup_completed || (old(self).config.install_path@.len() > 0
                && env_dir_exists && (core_tools_exist || (old(self).platform == Platform::Unix
                && base_env_python_exists)))),
            final(self).config.install_path == old(self).config.install_path,
            final(self).gpu == old(self).gpu,
            final(self).platform == old(self).platform,
    {
        if self.config.install_path.as_str().is_empty() || !env_dir_exists {
            return Ok(());
        }
        if core_tools_exist {
            self.config.environment_setup_completed = true;
        }
        if self.platform == Platform::Unix && !self.config.environment_setup_completed
            && base_env_python_exists {
            self.config.environment_setup_completed = true;
        }
        Ok(())
    }

    /// The configuration summary shown to the user.
    pub open spec fn spec_summary(&self) -> Seq<char> {
        let memory_gb = match self.gpu {
            Some(i) => (i.memory_mb / 1024) as nat,
            None => 0,
        };
        let name = match self.gpu {
            Some(i) => i.name@,
            None => "Unknown GPU"@,
        };
        let g = self.spec_generation();
        let cuda = self.spec_cuda_version();
        let vars = match self.config.environment_vars {
            Some(v) => v@.len(),
            None => 0,
        };
        "PortableSource Configuration Summary\n====================================\n\nEnvironment Setup: "@
            + (if self.config.environment_setup_completed {
            "[OK] Completed"@
        } else {
            "[ERROR] Not completed"@
        }) + "\n\nGPU Configuration:\n  Name: "@ + name + "\n  Generation: "@ + g.spec_name()
            + "\n  CUDA Version: "@ + (match cuda {
            Some(v) => "CUDA "@ + v.spec_label(),
            None => "None"@,
        }) + "\n  CUDA Paths Configured: "@ + (if cuda is Some {
            "Yes"@
        } else {
            "No"@
        }) + "\n  Compute Capability: "@ + compute_capability_of(g) + "\n  Memory: "@
            + crate::text::decimal_digits(memory_gb) + "GB\n  Backend: "@ + self.spec_backend().spec_name()
            + "\n  TensorRT Support: "@ + (if tensorrt_for(self.spec_vendor(), g) {
            "true"@
        } else {
            "false"@
        }) + "\n\nInstall Path: "@ + self.config.install_path@ + "\n\nEnvironment Variables: "@
            + crate::text::decimal_digits(vars) + " configured"@
    }

    /// The configuration summary shown to the user: setup state, the device's name,
    /// generation, runtime release, compute capability, memory, backend and TensorRT
    /// support, the install path and the number of configured variables.
    pub fn get_config_summary(&self) -> (r: String)
        ensures
            r@ == self.spec_summary(),
    {
        let memory_gb: u64 = match &self.gpu {
            Some(i) => (i.memory_mb / 1024) as u64,
            None => 0,
        };
        let g = self.detect_current_gpu_generation();
        let cuda = self.get_cuda_version();
        let vars: u64 = match &self.config.environment_vars {
            Some(v) => v.len() as u64,
            None => 0,
        };
        let mut s = "PortableSource Configuration Summary\n====================================\n\nEnvironment Setup: ".to_owned();
        s = concat(s.as_str(), if self.config.environment_setup_completed {
            "[OK] Completed"
        } else {
            "[ERROR] Not completed"
        });
        s = concat(s.as_str(), "\n\nGPU Configuration:\n  Name: ");
        let name = self.get_gpu_name();
        s = concat(s.as_str(), name.as_str());
        s = concat(s.as_str(), "\n  Generation: ");
        s = concat(s.as_str(), g.name());
        s = concat(s.as_str(), "\n  CUDA Version: ");
        match cuda {
            Some(v) => {
                s = concat(s.as_str(), "CUDA ");
                s = concat(s.as_str(), v.label());
            },
            None => {
                s = concat(s.as_str(), "None");
            },
        }
        s = concat(s.as_str(), "\n  CUDA Paths Configured: ");
        s = concat(s.as_str(), if cuda.is_some() { "Yes" } else { "No" });
        s = concat(s.as_str(), "\n  Compute Capability: ");
        let cc = self.get_compute_capability(&g);
        s = concat(s.as_str(), cc.as_str());
        s = concat(s.as_str(), "\n  Memory: ");
        let mem = crate::text::decimal_text(memory_gb);
        s = concat(s.as_str(), mem.as_str());
        s = concat(s.as_str(), "GB\n  Backend: ");
        s = concat(s.as_str(), self.recommended_backend().name());
        s = concat(s.as_str(), "\n  TensorRT Support: ");
        s = concat(s.as_str(), if self.supports_tensorrt() { "true" } else { "false" });
        s = concat(s.as_str(), "\n\nInstall Path: ");
        s = concat(s.as_str(), self.config.install_path.as_str());
        s = concat(s.as_str(), "\n\nEnvironment Variables: ");
        let n = crate::text::decimal_text(vars);
        s = concat(s.as_str(), n.as_str());
        s = concat(s.as_str(), " configured");
        proof {
            assert(s@ =~= self.spec_summary());
        }
        s
    }
}

/// A device whose name upper-cases to "NVIDIA GEFORCE RTX 4090" (as the vendor query's
/// "NVIDIA GeForce RTX 4090" does) resolves to the AdaLovelace generation, runtime 12.8,
/// the CudaTensorRT backend and TensorRT support.
pub proof fn lemma_rtx_4090_profile(cm: ConfigManager)
    requires
        cm.gpu is Some,
        upper_of(cm.gpu->0.name@) == "NVIDIA GEFORCE RTX 4090"@,
    ensures
        cm.spec_vendor() == GpuType::Nvidia,
        cm.spec_generation() == GpuGeneration::AdaLovelace,
        cm.spec_cuda_version() == Some(CudaVersion::Cuda128),
        cm.spec_backend() == Backend::CudaTensorRT,
        tensorrt_for(cm.spec_vendor(), cm.spec_generation()),
{
    crate::generation_table::lemma_rtx_4090_name();
}

} // verus!
