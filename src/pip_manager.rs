//! The dependency installation planner: buckets of packages per category, the
//! accelerator-specific package index and package names, and the package-manager
//! invocations in their canonical order.

use crate::config::{
    join_path, joined, AcceleratorProfile, ConfigManager, CudaVersion, CudaVersionLinux,
    GpuGeneration, Platform,
};
use crate::gpu::GpuType;
use crate::requirements::{kept_lines, PackageInfo, PackageType};
use crate::text::{
    contains_str, has_infix, has_prefix, has_suffix, push_text, replace_all, replace_text,
    same_text, starts_with_str, str_views,
};
use vstd::prelude::*;

verus! {

pub const TORCH_NIGHTLY_CU128: &'static str = "https://download.pytorch.org/whl/nightly/cu128";

pub const TORCH_CPU: &'static str = "https://download.pytorch.org/whl/cpu";

pub const INSIGHTFACE_WHEEL: &'static str = "https://huggingface.co/hanamizuki-ai/pypi-wheels/resolve/main/insightface/insightface-0.7.3-cp311-cp311-win_amd64.whl";

pub const NUMPY_PIN: &'static str = "numpy==1.26.4";

/// The package index for a system runtime release.
pub open spec fn linux_index(v: CudaVersionLinux) -> Seq<char> {
    match v {
        CudaVersionLinux::Cuda128 => TORCH_NIGHTLY_CU128@,
        CudaVersionLinux::Cuda126 => "https://download.pytorch.org/whl/cu126"@,
        CudaVersionLinux::Cuda124 => "https://download.pytorch.org/whl/cu124"@,
        CudaVersionLinux::Cuda121 => "https://download.pytorch.org/whl/cu121"@,
        CudaVersionLinux::Cuda118 => "https://download.pytorch.org/whl/cu118"@,
    }
}

/// The package index for the recommended runtime release.
pub open spec fn runtime_index(v: CudaVersion) -> Seq<char> {
    match v {
        CudaVersion::Cuda128 => TORCH_NIGHTLY_CU128@,
        CudaVersion::Cuda124 => "https://download.pytorch.org/whl/cu124"@,
        CudaVersion::Cuda118 => "https://download.pytorch.org/whl/cu118"@,
    }
}

/// Blackwell cards need pre-release builds.
pub open spec fn is_blackwell_nvidia(p: AcceleratorProfile) -> bool {
    p.vendor == GpuType::Nvidia && p.generation == GpuGeneration::Blackwell
}

/// The torch package index: the nightly index for Blackwell cards; else on Unix the index
/// of a system runtime; else, for an Nvidia device, that of its recommended runtime;
/// else the CPU index.
pub open spec fn torch_index_for(
    p: AcceleratorProfile,
    platform: Platform,
    system_cuda: Option<CudaVersionLinux>,
) -> Seq<char> {
    if is_blackwell_nvidia(p) {
        TORCH_NIGHTLY_CU128@
    } else if platform == Platform::Unix && system_cuda is Some {
        linux_index(system_cuda->0)
    } else if p.vendor == GpuType::Nvidia && p.runtime_version is Some {
        runtime_index(p.runtime_version->0)
    } else {
        TORCH_CPU@
    }
}

/// Pre-release builds are needed for Blackwell cards and a system runtime 12.8.
pub open spec fn prerelease_for(
    p: AcceleratorProfile,
    platform: Platform,
    system_cuda: Option<CudaVersionLinux>,
) -> bool {
    is_blackwell_nvidia(p) || (platform == Platform::Unix && system_cuda == Some(
        CudaVersionLinux::Cuda128,
    ))
}

/// Amd and Intel devices on Windows run through DirectML.
pub open spec fn uses_directml(p: AcceleratorProfile, platform: Platform) -> bool {
    (p.vendor == GpuType::Amd || p.vendor == GpuType::Intel) && platform == Platform::Windows
}

/// The onnxruntime package variant for the device.
pub open spec fn onnx_name_for(p: AcceleratorProfile, platform: Platform) -> Seq<char> {
    if p.vendor == GpuType::Nvidia {
        "onnxruntime-gpu"@
    } else if uses_directml(p, platform) {
        "onnxruntime-directml"@
    } else {
        "onnxruntime"@
    }
}

/// The onnxruntime requirement installed after the base requirements.
pub open spec fn onnx_spec_for(p: AcceleratorProfile, platform: Platform) -> Seq<char> {
    if is_blackwell_nvidia(p) {
        "onnxruntime-gpu>=1.20"@
    } else {
        onnx_name_for(p, platform)
    }
}

/// The torch package index for a device profile.
pub fn torch_index_url(
    p: &AcceleratorProfile,
    platform: Platform,
    system_cuda: Option<CudaVersionLinux>,
) -> (r: String)
    ensures
        r@ == torch_index_for(*p, platform, system_cuda),
{
    if p.vendor == GpuType::Nvidia && p.generation == GpuGeneration::Blackwell {
        return TORCH_NIGHTLY_CU128.to_owned();
    }
    if platform == Platform::Unix {
        match system_cuda {
            Some(cv) => {
                let s = match cv {
                    CudaVersionLinux::Cuda128 => TORCH_NIGHTLY_CU128,
                    CudaVersionLinux::Cuda126 => "https://download.pytorch.org/whl/cu126",
                    CudaVersionLinux::Cuda124 => "https://download.pytorch.org/whl/cu124",
                    CudaVersionLinux::Cuda121 => "https://download.pytorch.org/whl/cu121",
                    CudaVersionLinux::Cuda118 => "https://download.pytorch.org/whl/cu118",
                };
                return s.to_owned();
            },
            None => {},
        }
    }
    if p.vendor == GpuType::Nvidia {
        match p.runtime_version {
            Some(v) => {
                let s = match v {
                    CudaVersion::Cuda128 => TORCH_NIGHTLY_CU128,
                    CudaVersion::Cuda124 => "https://download.pytorch.org/whl/cu124",
                    CudaVersion::Cuda118 => "https://download.pytorch.org/whl/cu118",
                };
                return s.to_owned();
            },
            None => {},
        }
    }
    TORCH_CPU.to_owned()
}

/// The onnxruntime package variant for a device profile.
pub fn onnx_package_name(p: &AcceleratorProfile, platform: Platform) -> (r: String)
    ensures
        r@ == onnx_name_for(*p, platform),
{
    let v = p.vendor;
    if v == GpuType::Nvidia {
        "onnxruntime-gpu".to_owned()
    } else if (v == GpuType::Amd || v == GpuType::Intel) && platform == Platform::Windows {
        "onnxruntime-directml".to_owned()
    } else {
        "onnxruntime".to_owned()
    }
}

/// Whether a device profile needs pre-release builds.
pub fn prerelease_required(
    p: &AcceleratorProfile,
    platform: Platform,
    system_cuda: Option<CudaVersionLinux>,
) -> (r: bool)
    ensures
        r == prerelease_for(*p, platform, system_cuda),
{
    (p.vendor == GpuType::Nvidia && p.generation == GpuGeneration::Blackwell) || (platform
        == Platform::Unix && system_cuda == Some(CudaVersionLinux::Cuda128))
}

/// The module path of a script entry: what precedes the first `:`.
pub fn entry_module(value: &str) -> (r: String)
    ensures
        r@ == crate::text::before_char(value@, ':'),
{
    let c = crate::text::chars_of(value);
    let k = crate::text::index_of_char_exec(&c, ':');
    proof {
        crate::text::lemma_before_char(value@, ':');
    }
    crate::text::string_of(&crate::text::slice_chars(&c, 0, k))
}

/// The packages of `ps` of category `t`, in order.
pub open spec fn of_type(ps: Seq<PackageInfo>, t: PackageType) -> Seq<PackageInfo>
    decreases ps.len(),
{
    if ps.len() == 0 {
        seq![]
    } else if ps.last().package_type == t {
        of_type(ps.drop_last(), t).push(ps.last())
    } else {
        of_type(ps.drop_last(), t)
    }
}

/// Five ordered buckets of packages and the accelerator-specific choices.
#[derive(Debug, Clone)]
pub struct InstallationPlan {
    pub regular_packages: Vec<PackageInfo>,
    pub torch_packages: Vec<PackageInfo>,
    pub onnx_packages: Vec<PackageInfo>,
    pub triton_packages: Vec<PackageInfo>,
    pub insightface_packages: Vec<PackageInfo>,
    pub torch_index_url: Option<String>,
    pub onnx_package_name: Option<String>,
    pub prerelease_required: bool,
}

impl InstallationPlan {
    /// The bucket of category `t`.
    pub open spec fn bucket(&self, t: PackageType) -> Seq<PackageInfo> {
        match t {
            PackageType::Regular => self.regular_packages@,
            PackageType::Torch => self.torch_packages@,
            PackageType::Onnxruntime => self.onnx_packages@,
            PackageType::Triton => self.triton_packages@,
            PackageType::Insightface => self.insightface_packages@,
        }
    }
}

/// The step of making the faster resolver available in an environment.
#[derive(Debug, Clone, Copy, PartialEq, Eq, Structural)]
pub enum UvPhase {
    Probe,
    Install,
    Reprobe,
}

/// What the caller runs next while making the faster resolver available.
#[derive(Debug, Clone, Copy, PartialEq, Eq, Structural)]
pub enum UvAction {
    /// Run `uv_probe_command`.
    Probe,
    /// Run `uv_install_command`.
    Install,
    /// Done: use the faster resolver when `true`.
    Use(bool),
}

/// The resolver is used when a probe succeeds; a failed first probe installs it with the
/// baseline tool and probes again, whatever the installation reported.
pub open spec fn uv_step(phase: UvPhase, ok: bool) -> (UvPhase, UvAction) {
    match phase {
        UvPhase::Probe => if ok {
            (UvPhase::Probe, UvAction::Use(true))
        } else {
            (UvPhase::Install, UvAction::Install)
        },
        UvPhase::Install => (UvPhase::Reprobe, UvAction::Probe),
        UvPhase::Reprobe => (UvPhase::Reprobe, UvAction::Use(ok)),
    }
}

/// The step of a plan's execution in progress: the bucket at a position of the canonical
/// order (regular, onnx, torch, triton, insightface), its rerun with the baseline tool,
/// the unpinned torch retry, the final torch check and reinstall.
#[derive(Debug, Clone, Copy, PartialEq, Eq, Structural)]
pub enum ExecPhase {
    Bucket(u8),
    PipRetry(u8),
    TorchRetry,
    TorchCheck,
    Reinstall,
    Finished,
    Failed,
}

/// The execution state: the phase, and whether some step failed softly.
#[derive(Debug, Clone, Copy, PartialEq, Eq, Structural)]
pub struct ExecState {
    pub phase: ExecPhase,
    pub degraded: bool,
}

/// What the caller runs next.
#[derive(Debug, Clone, Copy, PartialEq, Eq, Structural)]
pub enum InstallAction {
    /// The bucket's invocation, with the faster resolver when it is available.
    Run(PackageType),
    /// The bucket's invocation again, with the baseline tool.
    RunWithPip(PackageType),
    /// The torch bucket without version pins (`torch_retry_command`).
    RetryTorchUnpinned,
    /// Ask whether torch is installed (`torch_check_command`).
    CheckTorch,
    /// Reinstall torch from the accelerated index (`torch_reinstall_command`).
    ReinstallTorch,
    /// Done; `degraded` when some step failed softly.
    Finish { degraded: bool },
    /// The installation failed.
    Fail,
}

/// The category at a position of the canonical order.
pub open spec fn slot_type(k: int) -> PackageType {
    if k == 0 {
        PackageType::Regular
    } else if k == 1 {
        PackageType::Onnxruntime
    } else if k == 2 {
        PackageType::Torch
    } else if k == 3 {
        PackageType::Triton
    } else {
        PackageType::Insightface
    }
}

/// The first position at or after `k` whose bucket is not empty, or 5.
pub open spec fn next_slot(plan: InstallationPlan, k: int) -> int
    decreases 5 - k,
{
    if k >= 5 {
        5
    } else if plan.bucket(slot_type(k)).len() > 0 {
        k
    } else {
        next_slot(plan, k + 1)
    }
}

/// Moves on to the next non-empty bucket from position `k`, or to the torch check.
pub open spec fn advance(plan: InstallationPlan, k: int, degraded: bool) -> (ExecState, InstallAction) {
    let n = next_slot(plan, k);
    if n < 5 {
        (ExecState { phase: ExecPhase::Bucket(n as u8), degraded }, InstallAction::Run(slot_type(n)))
    } else {
        (ExecState { phase: ExecPhase::TorchCheck, degraded }, InstallAction::CheckTorch)
    }
}

/// The bucket at `k` failed for good: torch gets one unpinned retry; any other bucket is
/// a soft failure and the next bucket runs.
pub open spec fn bucket_failed(plan: InstallationPlan, k: int, degraded: bool) -> (
    ExecState,
    InstallAction,
) {
    if slot_type(k) == PackageType::Torch {
        (ExecState { phase: ExecPhase::TorchRetry, degraded }, InstallAction::RetryTorchUnpinned)
    } else {
        advance(plan, k + 1, true)
    }
}

/// The start of a plan's execution.
pub open spec fn exec_start(plan: InstallationPlan) -> (ExecState, InstallAction) {
    advance(plan, 0, false)
}

/// The last action finished, successfully when `ok`; `uv` tells whether it ran with the
/// faster resolver. For the torch check, `ok` means torch is installed.
pub open spec fn exec_step(plan: InstallationPlan, s: ExecState, uv: bool, ok: bool) -> (
    ExecState,
    InstallAction,
) {
    match s.phase {
        ExecPhase::Bucket(k) => if ok {
            advance(plan, k + 1, s.degraded)
        } else if uv {
            (ExecState { phase: ExecPhase::PipRetry(k), ..s }, InstallAction::RunWithPip(slot_type(k as int)))
        } else {
            bucket_failed(plan, k as int, s.degraded)
        },
        ExecPhase::PipRetry(k) => if ok {
            advance(plan, k + 1, s.degraded)
        } else {
            bucket_failed(plan, k as int, s.degraded)
        },
        ExecPhase::TorchRetry => if ok {
            advance(plan, 3, s.degraded)
        } else {
            (ExecState { phase: ExecPhase::Failed, ..s }, InstallAction::Fail)
        },
        ExecPhase::TorchCheck => if ok && plan.torch_packages@.len() == 0 {
            (ExecState { phase: ExecPhase::Reinstall, ..s }, InstallAction::ReinstallTorch)
        } else {
            (ExecState { phase: ExecPhase::Finished, ..s }, InstallAction::Finish { degraded: s.degraded })
        },
        ExecPhase::Reinstall => (
            ExecState { phase: ExecPhase::Finished, degraded: s.degraded || !ok },
            InstallAction::Finish { degraded: s.degraded || !ok },
        ),
        ExecPhase::Finished => (s, InstallAction::Finish { degraded: s.degraded }),
        ExecPhase::Failed => (s, InstallAction::Fail),
    }
}

fn slot_type_exec(k: u8) -> (r: PackageType)
    ensures
        r == slot_type(k as int),
{
    match k {
        0 => PackageType::Regular,
        1 => PackageType::Onnxruntime,
        2 => PackageType::Torch,
        3 => PackageType::Triton,
        _ => PackageType::Insightface,
    }
}

fn bucket_len(plan: &InstallationPlan, t: PackageType) -> (r: usize)
    ensures
        r == plan.bucket(t).len(),
{
    match t {
        PackageType::Regular => plan.regular_packages.len(),
        PackageType::Torch => plan.torch_packages.len(),
        PackageType::Onnxruntime => plan.onnx_packages.len(),
        PackageType::Triton => plan.triton_packages.len(),
        PackageType::Insightface => plan.insightface_packages.len(),
    }
}

fn advance_exec(plan: &InstallationPlan, k: u8, degraded: bool) -> (r: (ExecState, InstallAction))
    ensures
        r == advance(*plan, k as int, degraded),
{
    let mut j: u8 = if k >= 5 { 5 } else { k };
    while j < 5 && bucket_len(plan, slot_type_exec(j)) == 0
        invariant
            j <= 5,
            k >= 5 ==> j == 5,
            next_slot(*plan, k as int) == next_slot(*plan, j as int),
        decreases 5 - j,
    {
        j = j + 1;
    }
    if j < 5 {
        (ExecState { phase: ExecPhase::Bucket(j), degraded }, InstallAction::Run(slot_type_exec(j)))
    } else {
        (ExecState { phase: ExecPhase::TorchCheck, degraded }, InstallAction::CheckTorch)
    }
}

fn bucket_failed_exec(plan: &InstallationPlan, k: u8, degraded: bool) -> (r: (ExecState, InstallAction))
    ensures
        r == bucket_failed(*plan, k as int, degraded),
{
    if slot_type_exec(k) == PackageType::Torch {
        (ExecState { phase: ExecPhase::TorchRetry, degraded }, InstallAction::RetryTorchUnpinned)
    } else {
        let next: u8 = if k >= 5 { 5 } else { k + 1 };
        assert(next_slot(*plan, k + 1) == next_slot(*plan, next as int));
        advance_exec(plan, next, true)
    }
}

/// Failure semantics of a plan's execution: a failed bucket other than torch, once rerun
/// with the baseline tool, is a soft failure and the next bucket (or the torch check)
/// follows; a failed torch bucket gets one retry without version pins, and only the
/// failure of that retry ends the installation.
pub proof fn lemma_failure_semantics(plan: InstallationPlan, k: u8, degraded: bool, uv: bool)
    requires
        k < 5,
    ensures
        slot_type(k as int) != PackageType::Torch ==> exec_step(
            plan,
            ExecState { phase: ExecPhase::PipRetry(k), degraded },
            false,
            false,
        ) == advance(plan, k + 1, true) && advance(plan, k + 1, true).1 != InstallAction::Fail
            && advance(plan, k + 1, true).0.degraded,
        slot_type(k as int) == PackageType::Torch ==> exec_step(
            plan,
            ExecState { phase: ExecPhase::PipRetry(k), degraded },
            false,
            false,
        ).1 == InstallAction::RetryTorchUnpinned,
        exec_step(plan, ExecState { phase: ExecPhase::TorchRetry, degraded }, uv, false).1
            == InstallAction::Fail,
{
}

/// The requirements manifests looked for first, relative to the working tree.
pub open spec fn fixed_requirements() -> Seq<Seq<char>> {
    seq![
        "requirements.txt"@,
        "requirements_pyp.txt"@,
        "requirements/requirements_nvidia.txt"@,
        "requirements/requirements.txt"@,
        "install/requirements.txt"@,
    ]
}

/// The tests a file name of the working tree can be put to.
pub enum NameTest {
    /// `requirements_*.txt`.
    Variant,
    /// `requirements*.txt` other than `requirements.txt`.
    Other,
    /// `requirements*.txt`.
    Any,
}

pub open spec fn name_ok(t: NameTest, n: Seq<char>) -> bool {
    match t {
        NameTest::Variant => has_prefix(n, "requirements_"@) && has_suffix(n, ".txt"@),
        NameTest::Other => has_prefix(n, "requirements"@) && has_suffix(n, ".txt"@) && n
            != "requirements.txt"@,
        NameTest::Any => has_prefix(n, "requirements"@) && has_suffix(n, ".txt"@),
    }
}

/// The position of the first name passing `t`, or the number of names.
pub open spec fn first_name(names: Seq<Seq<char>>, t: NameTest) -> int
    decreases names.len(),
{
    if names.len() == 0 {
        0
    } else if name_ok(t, names[0]) {
        0
    } else {
        1 + first_name(names.drop_first(), t)
    }
}

/// The position of the first `true` among the first five flags, or 5.
pub open spec fn first_present(present: Seq<bool>, i: int) -> int
    decreases 5 - i,
{
    if i >= 5 {
        5
    } else if i < present.len() && present[i] {
        i
    } else {
        first_present(present, i + 1)
    }
}

/// The requirements manifest to install from: the first fixed candidate present, else
/// the first `requirements_*.txt` of the tree's root, else its first other
/// `requirements*.txt`, else the first `requirements*.txt` under `requirements/`.
pub open spec fn chosen_requirements(
    present: Seq<bool>,
    root: Seq<Seq<char>>,
    sub: Seq<Seq<char>>,
) -> Option<Seq<char>> {
    let f = first_present(present, 0);
    let v = first_name(root, NameTest::Variant);
    let o = first_name(root, NameTest::Other);
    let a = first_name(sub, NameTest::Any);
    if f < 5 {
        Some(fixed_requirements()[f])
    } else if v < root.len() {
        Some(root[v])
    } else if o < root.len() {
        Some(root[o])
    } else if a < sub.len() {
        Some("requirements/"@ + sub[a])
    } else {
        None
    }
}

proof fn lemma_first_name(names: Seq<Seq<char>>, t: NameTest, i: int)
    requires
        0 <= i <= names.len(),
        forall|j: int| 0 <= j < i ==> !name_ok(t, #[trigger] names[j]),
        i == names.len() || name_ok(t, names[i]),
    ensures
        first_name(names, t) == i,
    decreases i,
{
    if i > 0 {
        lemma_first_name(names.drop_first(), t, i - 1);
    }
}

fn name_ok_exec(t: &NameTest, n: &str) -> (r: bool)
    ensures
        r == name_ok(*t, n@),
{
    match t {
        NameTest::Variant => starts_with_str(n, "requirements_") && crate::text::ends_with_str(
            n,
            ".txt",
        ),
        NameTest::Other => starts_with_str(n, "requirements") && crate::text::ends_with_str(
            n,
            ".txt",
        ) && !same_text(n, "requirements.txt"),
        NameTest::Any => starts_with_str(n, "requirements") && crate::text::ends_with_str(
            n,
            ".txt",
        ),
    }
}

fn first_name_exec(names: &Vec<String>, t: NameTest) -> (r: usize)
    ensures
        r == first_name(str_views(names@), t),
        r <= names.len(),
{
    let ghost v = str_views(names@);
    let mut i: usize = 0;
    while i < names.len() && !name_ok_exec(&t, names[i].as_str())
        invariant
            i <= names.len(),
            v == str_views(names@),
            forall|j: int| 0 <= j < i ==> !name_ok(t, #[trigger] v[j]),
        decreases names.len() - i,
    {
        assert(v[i as int] == names@[i as int]@);
        i = i + 1;
    }
    proof {
        if i < names.len() {
            assert(v[i as int] == names@[i as int]@);
        }
        lemma_first_name(v, t, i as int);
    }
    i
}

/// Builds plans from parsed requirements and the session's device profile.
pub struct RequirementsAnalyzer {
    pub profile: AcceleratorProfile,
    pub platform: Platform,
    pub system_cuda: Option<CudaVersionLinux>,
}

impl RequirementsAnalyzer {
    pub fn new(config_manager: &ConfigManager, system_cuda: Option<CudaVersionLinux>) -> (r: Self)
        ensures
            r.profile.wf(config_manager.platform),
            r.profile.vendor == config_manager.spec_vendor(),
            r.profile.generation == config_manager.spec_generation(),
            r.platform == config_manager.platform,
            r.system_cuda == system_cuda,
    {
        RequirementsAnalyzer {
            profile: config_manager.accelerator_profile(),
            platform: config_manager.platform,
            system_cuda,
        }
    }

    /// The torch package index for the session's device.
    pub fn get_torch_index_url(&self) -> (r: String)
        ensures
            r@ == torch_index_for(self.profile, self.platform, self.system_cuda),
    {
        torch_index_url(&self.profile, self.platform, self.system_cuda)
    }

    /// The onnxruntime package variant for the session's device.
    pub fn get_onnx_package_name(&self) -> (r: String)
        ensures
            r@ == onnx_name_for(self.profile, self.platform),
    {
        onnx_package_name(&self.profile, self.platform)
    }

    /// Sorts the packages into the five buckets, keeping their order, and records the
    /// torch index, the onnxruntime variant and whether pre-release builds are needed.
    pub fn create_installation_plan(&self, packages: Vec<PackageInfo>) -> (r: InstallationPlan)
        ensures
            r.regular_packages@ == of_type(packages@, PackageType::Regular),
            r.torch_packages@ == of_type(packages@, PackageType::Torch),
            r.onnx_packages@ == of_type(packages@, PackageType::Onnxruntime),
            r.triton_packages@ == of_type(packages@, PackageType::Triton),
            r.insightface_packages@ == of_type(packages@, PackageType::Insightface),
            r.torch_index_url matches Some(u) && u@ == torch_index_for(
                self.profile,
                self.platform,
                self.system_cuda,
            ),
            r.onnx_package_name matches Some(n) && n@ == onnx_name_for(self.profile, self.platform),
            r.prerelease_required == prerelease_for(self.profile, self.platform, self.system_cuda),
    {
        let ghost all = packages@;
        let mut plan = InstallationPlan {
            regular_packages: Vec::new(),
            torch_packages: Vec::new(),
            onnx_packages: Vec::new(),
            triton_packages: Vec::new(),
            insightface_packages: Vec::new(),
            torch_index_url: None,
            onnx_package_name: None,
            prerelease_required: false,
        };
        let mut rest = packages;
        let ghost mut done: Seq<PackageInfo> = seq![];
        while rest.len() > 0
            invariant
                all == done + rest@,
                plan.regular_packages@ == of_type(done, PackageType::Regular),
                plan.torch_packages@ == of_type(done, PackageType::Torch),
                plan.onnx_packages@ == of_type(done, PackageType::Onnxruntime),
                plan.triton_packages@ == of_type(done, PackageType::Triton),
                plan.insightface_packages@ == of_type(done, PackageType::Insightface),
            decreases rest.len(),
        {
            let p = rest.remove(0);
            let ghost gp = p;
            proof {
                assert(done.push(gp).drop_last() =~= done);
                assert(done.push(gp).last() == gp);
            }
            match p.package_type {
                PackageType::Regular => plan.regular_packages.push(p),
                PackageType::Torch => plan.torch_packages.push(p),
                PackageType::Onnxruntime => plan.onnx_packages.push(p),
                PackageType::Triton => plan.triton_packages.push(p),
                PackageType::Insightface => plan.insightface_packages.push(p),
            }
            proof {
                assert(all =~= done.push(gp) + rest@);
                done = done.push(gp);
            }
        }
        assert(done =~= all);
        plan.torch_index_url = Some(self.get_torch_index_url());
        plan.onnx_package_name = Some(self.get_onnx_package_name());
        plan.prerelease_required = prerelease_required(&self.profile, self.platform, self.system_cuda);
        plan
    }
}

/// The categories and argument lists of a list of invocations.
pub open spec fn command_views(v: Seq<(PackageType, Vec<String>)>) -> Seq<
    (PackageType, Seq<Seq<char>>),
> {
    Seq::new(v.len(), |i: int| (v[i].0, str_views(v[i].1@)))
}

fn push_command(v: &mut Vec<(PackageType, Vec<String>)>, t: PackageType, c: Vec<String>)
    ensures
        command_views(final(v)@) == command_views(old(v)@).push((t, str_views(c@))),
{
    let ghost before = v@;
    let ghost cv = str_views(c@);
    v.push((t, c));
    assert(command_views(v@) =~= command_views(before).push((t, cv)));
}

/// Where the interpreter of a repository's environment lives.
pub open spec fn python_in_env(install: Seq<char>, repo: Seq<char>, platform: Platform) -> Seq<char> {
    let env = joined(joined(install, "envs"@, platform.spec_sep()), repo, platform.spec_sep());
    match platform {
        Platform::Windows => joined(env, "python.exe"@, '\\'),
        Platform::Unix => joined(joined(env, "bin"@, '/'), "python"@, '/'),
    }
}

/// The package-manager invocations of a repository's environment.
pub struct PipManager {
    pub install_path: String,
    pub platform: Platform,
    pub profile: AcceleratorProfile,
    pub system_cuda: Option<CudaVersionLinux>,
}

impl PipManager {
    /// The interpreter that runs the package managers: the environment's own when it
    /// exists, else the one on the search path.
    pub open spec fn spec_python(&self, repo: Seq<char>, python_exists: bool, uv: bool) -> Seq<
        char,
    > {
        if python_exists {
            python_in_env(self.install_path@, repo, self.platform)
        } else if !uv {
            "python"@
        } else if self.platform == Platform::Windows {
            "python.exe"@
        } else {
            "python3"@
        }
    }

    /// `<python> -m uv pip install` or `<python> -m pip install`.
    pub open spec fn spec_install_prefix(&self, repo: Seq<char>, uv: bool, python_exists: bool) -> Seq<
        Seq<char>,
    > {
        if uv {
            seq![self.spec_python(repo, python_exists, true), "-m"@, "uv"@, "pip"@, "install"@]
        } else {
            seq![self.spec_python(repo, python_exists, false), "-m"@, "pip"@, "install"@]
        }
    }

    pub fn new(config_manager: &ConfigManager, system_cuda: Option<CudaVersionLinux>) -> (r: Self)
        ensures
            r.install_path == config_manager.config.install_path,
            r.profile.wf(config_manager.platform),
            r.profile.vendor == config_manager.spec_vendor(),
            r.profile.generation == config_manager.spec_generation(),
            r.platform == config_manager.platform,
            r.system_cuda == system_cuda,
    {
        PipManager {
            install_path: config_manager.config.install_path.clone(),
            platform: config_manager.platform,
            profile: config_manager.accelerator_profile(),
            system_cuda,
        }
    }

    /// The interpreter of the repository's environment.
    pub fn get_python_in_env(&self, repo_name: &str) -> (r: String)
        ensures
            r@ == python_in_env(self.install_path@, repo_name@, self.platform),
    {
        let sep = self.platform.sep();
        let envs = join_path(self.install_path.as_str(), "envs", sep);
        let env = join_path(envs.as_str(), repo_name, sep);
        match self.platform {
            Platform::Windows => join_path(env.as_str(), "python.exe", '\\'),
            Platform::Unix => {
                let bin = join_path(env.as_str(), "bin", '/');
                join_path(bin.as_str(), "python", '/')
            },
        }
    }

    fn python_for(&self, repo_name: &str, python_exists: bool, uv: bool) -> (r: String)
        ensures
            r@ == self.spec_python(repo_name@, python_exists, uv),
    {
        if python_exists {
            self.get_python_in_env(repo_name)
        } else if !uv {
            "python".to_owned()
        } else if self.platform == Platform::Windows {
            "python.exe".to_owned()
        } else {
            "python3".to_owned()
        }
    }

    /// `<python> -m pip`, with the environment's interpreter when it exists.
    pub fn get_pip_executable(&self, repo_name: &str, python_exists: bool) -> (r: Vec<String>)
        ensures
            str_views(r@) == seq![self.spec_python(repo_name@, python_exists, false), "-m"@, "pip"@],
    {
        let mut r: Vec<String> = Vec::new();
        let py = self.python_for(repo_name, python_exists, false);
        push_text(&mut r, py.as_str());
        push_text(&mut r, "-m");
        push_text(&mut r, "pip");
        assert(str_views(r@) =~= seq![self.spec_python(repo_name@, python_exists, false), "-m"@, "pip"@]);
        r
    }

    /// `<python> -m uv`, with the environment's interpreter when it exists.
    pub fn get_uv_executable(&self, repo_name: &str, python_exists: bool) -> (r: Vec<String>)
        ensures
            str_views(r@) == seq![self.spec_python(repo_name@, python_exists, true), "-m"@, "uv"@],
    {
        let mut r: Vec<String> = Vec::new();
        let py = self.python_for(repo_name, python_exists, true);
        push_text(&mut r, py.as_str());
        push_text(&mut r, "-m");
        push_text(&mut r, "uv");
        assert(str_views(r@) =~= seq![self.spec_python(repo_name@, python_exists, true), "-m"@, "uv"@]);
        r
    }

    /// The start of every installation: the faster resolver when it is available, else
    /// the baseline tool.
    pub fn install_prefix(&self, repo_name: &str, uv_available: bool, python_exists: bool) -> (r:
        Vec<String>)
        ensures
            str_views(r@) == self.spec_install_prefix(repo_name@, uv_available, python_exists),
    {
        if uv_available {
            let mut r = self.get_uv_executable(repo_name, python_exists);
            push_text(&mut r, "pip");
            push_text(&mut r, "install");
            assert(str_views(r@) =~= self.spec_install_prefix(repo_name@, uv_available, python_exists));
            r
        } else {
            let mut r = self.get_pip_executable(repo_name, python_exists);
            push_text(&mut r, "install");
            assert(str_views(r@) =~= self.spec_install_prefix(repo_name@, uv_available, python_exists));
            r
        }
    }

    /// Installs the repository itself as a package.
    pub fn install_repo_as_package(&self, repo_name: &str, uv_available: bool, python_exists: bool) -> (r:
        Vec<String>)
        ensures
            str_views(r@) == self.spec_install_prefix(repo_name@, uv_available, python_exists).push(
                "."@,
            ),
    {
        let mut r = self.install_prefix(repo_name, uv_available, python_exists);
        push_text(&mut r, ".");
        r
    }

    /// The torch package index for the session's device.
    pub fn get_default_torch_index_url(&self) -> (r: String)
        ensures
            r@ == torch_index_for(self.profile, self.platform, self.system_cuda),
    {
        torch_index_url(&self.profile, self.platform, self.system_cuda)
    }

    /// The torch package index, always present.
    pub fn get_default_torch_index_url_opt(&self) -> (r: Option<String>)
        ensures
            r matches Some(u) && u@ == torch_index_for(self.profile, self.platform, self.system_cuda),
    {
        Some(self.get_default_torch_index_url())
    }

    /// Whether pre-release onnxruntime builds are needed.
    pub fn needs_onnx_nightly(&self) -> (r: bool)
        ensures
            r == prerelease_for(self.profile, self.platform, self.system_cuda),
    {
        prerelease_required(&self.profile, self.platform, self.system_cuda)
    }

    /// The onnxruntime requirement installed after the base requirements.
    pub fn get_onnx_package_spec(&self) -> (r: String)
        ensures
            r@ == onnx_spec_for(self.profile, self.platform),
    {
        if self.profile.vendor == GpuType::Nvidia && self.profile.generation
            == GpuGeneration::Blackwell {
            "onnxruntime-gpu>=1.20".to_owned()
        } else {
            onnx_package_name(&self.profile, self.platform)
        }
    }

    /// A plain onnxruntime requirement turned into the device's variant.
    pub open spec fn spec_onnx_variant(&self, base: Seq<char>) -> Seq<char> {
        if has_prefix(base, "onnxruntime"@) && !has_infix(base, "-gpu"@) && !has_infix(
            base,
            "-directml"@,
        ) {
            if self.profile.vendor == GpuType::Nvidia {
                replace_all(base, "onnxruntime"@, "onnxruntime-gpu"@)
            } else if uses_directml(self.profile, self.platform) {
                replace_all(base, "onnxruntime"@, "onnxruntime-directml"@)
            } else {
                base
            }
        } else {
            base
        }
    }

    /// A plain onnxruntime requirement turned into the device's variant: `onnxruntime`
    /// becomes `onnxruntime-gpu` for Nvidia and `onnxruntime-directml` for Amd or Intel on
    /// Windows; other requirements are kept.
    pub fn apply_onnx_gpu_detection(&self, base: &str) -> (r: String)
        ensures
            r@ == self.spec_onnx_variant(base@),
    {
        proof {
            reveal_strlit("onnxruntime");
        }
        if starts_with_str(base, "onnxruntime") && !contains_str(base, "-gpu") && !contains_str(
            base,
            "-directml",
        ) {
            if self.profile.vendor == GpuType::Nvidia {
                return replace_text(base, "onnxruntime", "onnxruntime-gpu");
            }
            if (self.profile.vendor == GpuType::Amd || self.profile.vendor == GpuType::Intel)
                && self.platform == Platform::Windows {
                return replace_text(base, "onnxruntime", "onnxruntime-directml");
            }
        }
        base.to_owned()
    }

    pub open spec fn spec_insightface_command(&self, repo: Seq<char>, uv: bool, py: bool) -> Seq<
        Seq<char>,
    > {
        self.spec_install_prefix(repo, uv, py) + seq![
            "--force-reinstall"@,
            "-U"@,
            if self.platform == Platform::Windows {
                INSIGHTFACE_WHEEL@
            } else {
                "insightface"@
            },
            NUMPY_PIN@,
        ]
    }

    /// Installs insightface together with the pinned numerical library: from a prebuilt
    /// wheel on Windows, from the published package elsewhere.
    pub fn handle_insightface_package(&self, repo_name: &str, uv_available: bool, python_exists: bool) -> (r:
        Vec<String>)
        ensures
            str_views(r@) == self.spec_insightface_command(repo_name@, uv_available, python_exists),
    {
        let mut r = self.install_prefix(repo_name, uv_available, python_exists);
        push_text(&mut r, "--force-reinstall");
        push_text(&mut r, "-U");
        if self.platform == Platform::Windows {
            push_text(&mut r, INSIGHTFACE_WHEEL);
        } else {
            push_text(&mut r, "insightface");
        }
        push_text(&mut r, NUMPY_PIN);
        assert(str_views(r@) =~= self.spec_insightface_command(repo_name@, uv_available, python_exists));
        r
    }

    /// The requirement given to the package manager for a regular package: unversioned
    /// tensorflow is pinned (to its CPU build on Unix without an Nvidia device), a pinned
    /// typing-extensions is relaxed, others are kept.
    pub open spec fn spec_regular_requirement(&self, p: PackageInfo) -> Seq<char> {
        if p.name@ == "tensorflow"@ && p.version is None {
            if self.platform == Platform::Windows || self.profile.vendor == GpuType::Nvidia {
                "tensorflow==2.15.0"@
            } else {
                "tensorflow-cpu==2.15.0"@
            }
        } else if p.name@ == "typing-extensions"@ && p.version is Some {
            "typing-extensions>=4.7.1"@
        } else {
            p.spec_requirement()
        }
    }

    pub fn regular_requirement(&self, p: &PackageInfo) -> (r: String)
        ensures
            r@ == self.spec_regular_requirement(*p),
    {
        if same_text(p.name.as_str(), "tensorflow") && p.version.is_none() {
            if self.platform == Platform::Windows || self.profile.vendor == GpuType::Nvidia {
                "tensorflow==2.15.0".to_owned()
            } else {
                "tensorflow-cpu==2.15.0".to_owned()
            }
        } else if same_text(p.name.as_str(), "typing-extensions") && p.version.is_some() {
            "typing-extensions>=4.7.1".to_owned()
        } else {
            p.requirement()
        }
    }

    pub open spec fn spec_regular_command(&self, b: Seq<PackageInfo>, repo: Seq<char>, uv: bool, py: bool) -> Seq<
        Seq<char>,
    > {
        self.spec_install_prefix(repo, uv, py) + seq![
            "--resolution"@,
            "highest"@,
            "--index-strategy"@,
            "unsafe-best-match"@,
        ] + Seq::new(b.len(), |i: int| self.spec_regular_requirement(b[i]))
    }

    pub open spec fn spec_onnx_command(
        &self,
        b: Seq<PackageInfo>,
        pre: bool,
        repo: Seq<char>,
        uv: bool,
        py: bool,
    ) -> Seq<Seq<char>> {
        self.spec_install_prefix(repo, uv, py) + (if pre {
            seq!["--pre"@]
        } else {
            seq![]
        }) + seq!["--index-strategy"@, "unsafe-best-match"@] + Seq::new(
            b.len(),
            |i: int| self.spec_onnx_variant(b[i].spec_requirement()),
        )
    }

    pub open spec fn spec_torch_command(
        &self,
        b: Seq<PackageInfo>,
        index: Seq<char>,
        repo: Seq<char>,
        uv: bool,
        py: bool,
    ) -> Seq<Seq<char>> {
        self.spec_install_prefix(repo, uv, py) + seq![
            "--index-url"@,
            index,
            "--index-strategy"@,
            "unsafe-best-match"@,
        ] + Seq::new(b.len(), |i: int| b[i].spec_requirement())
    }

    pub open spec fn spec_triton_command(&self, repo: Seq<char>, uv: bool, py: bool) -> Seq<Seq<char>> {
        self.spec_install_prefix(repo, uv, py).push(
            if self.platform == Platform::Windows {
                "triton-windows"@
            } else {
                "triton"@
            },
        )
    }

    /// The torch index a plan uses: its own, or the session's.
    pub open spec fn spec_plan_index(&self, plan: InstallationPlan) -> Seq<char> {
        match plan.torch_index_url {
            Some(u) => u@,
            None => torch_index_for(self.profile, self.platform, self.system_cuda),
        }
    }

    /// The invocations of a plan: one per non-empty bucket, in the order regular, onnx,
    /// torch, triton, insightface.
    pub open spec fn spec_commands(&self, plan: InstallationPlan, repo: Seq<char>, uv: bool, py: bool) -> Seq<
        (PackageType, Seq<Seq<char>>),
    > {
        (if plan.regular_packages@.len() > 0 {
            seq![
                (
                    PackageType::Regular,
                    self.spec_regular_command(plan.regular_packages@, repo, uv, py),
                ),
            ]
        } else {
            seq![]
        }) + (if plan.onnx_packages@.len() > 0 {
            seq![
                (
                    PackageType::Onnxruntime,
                    self.spec_onnx_command(
                        plan.onnx_packages@,
                        plan.prerelease_required,
                        repo,
                        uv,
                        py,
                    ),
                ),
            ]
        } else {
            seq![]
        }) + (if plan.torch_packages@.len() > 0 {
            seq![
                (
                    PackageType::Torch,
                    self.spec_torch_command(
                        plan.torch_packages@,
                        self.spec_plan_index(plan),
                        repo,
                        uv,
                        py,
                    ),
                ),
            ]
        } else {
            seq![]
        }) + (if plan.triton_packages@.len() > 0 {
            seq![(PackageType::Triton, self.spec_triton_command(repo, uv, py))]
        } else {
            seq![]
        }) + (if plan.insightface_packages@.len() > 0 {
            seq![(PackageType::Insightface, self.spec_insightface_command(repo, uv, py))]
        } else {
            seq![]
        })
    }

    fn regular_command(&self, b: &Vec<PackageInfo>, repo_name: &str, uv: bool, py: bool) -> (r: Vec<
        String,
    >)
        ensures
            str_views(r@) == self.spec_regular_command(b@, repo_name@, uv, py),
    {
        let mut r = self.install_prefix(repo_name, uv, py);
        push_text(&mut r, "--resolution");
        push_text(&mut r, "highest");
        push_text(&mut r, "--index-strategy");
        push_text(&mut r, "unsafe-best-match");
        let ghost head = str_views(r@);
        let mut i: usize = 0;
        while i < b.len()
            invariant
                i <= b.len(),
                str_views(r@) == head + Seq::new(i as nat, |k: int| self.spec_regular_requirement(b@[k])),
            decreases b.len() - i,
        {
            let s = self.regular_requirement(&b[i]);
            push_text(&mut r, s.as_str());
            i = i + 1;
            assert(str_views(r@) =~= head + Seq::new(i as nat, |k: int| self.spec_regular_requirement(b@[k])));
        }
        assert(str_views(r@) =~= self.spec_regular_command(b@, repo_name@, uv, py));
        r
    }

    fn onnx_command(&self, b: &Vec<PackageInfo>, pre: bool, repo_name: &str, uv: bool, py: bool) -> (r:
        Vec<String>)
        ensures
            str_views(r@) == self.spec_onnx_command(b@, pre, repo_name@, uv, py),
    {
        let mut r = self.install_prefix(repo_name, uv, py);
        if pre {
            push_text(&mut r, "--pre");
        }
        push_text(&mut r, "--index-strategy");
        push_text(&mut r, "unsafe-best-match");
        let ghost head = str_views(r@);
        let mut i: usize = 0;
        while i < b.len()
            invariant
                i <= b.len(),
                str_views(r@) == head + Seq::new(
                    i as nat,
                    |k: int| self.spec_onnx_variant(b@[k].spec_requirement()),
                ),
            decreases b.len() - i,
        {
            let req = b[i].requirement();
            let s = self.apply_onnx_gpu_detection(req.as_str());
            push_text(&mut r, s.as_str());
            i = i + 1;
            assert(str_views(r@) =~= head + Seq::new(
                i as nat,
                |k: int| self.spec_onnx_variant(b@[k].spec_requirement()),
            ));
        }
        assert(str_views(r@) =~= self.spec_onnx_command(b@, pre, repo_name@, uv, py));
        r
    }

    fn torch_command(&self, b: &Vec<PackageInfo>, index: &str, repo_name: &str, uv: bool, py: bool) -> (r:
        Vec<String>)
        ensures
            str_views(r@) == self.spec_torch_command(b@, index@, repo_name@, uv, py),
    {
        let mut r = self.install_prefix(repo_name, uv, py);
        push_text(&mut r, "--index-url");
        push_text(&mut r, index);
        push_text(&mut r, "--index-strategy");
        push_text(&mut r, "unsafe-best-match");
        let ghost head = str_views(r@);
        let mut i: usize = 0;
        while i < b.len()
            invariant
                i <= b.len(),
                str_views(r@) == head + Seq::new(i as nat, |k: int| b@[k].spec_requirement()),
            decreases b.len() - i,
        {
            let s = b[i].requirement();
            push_text(&mut r, s.as_str());
            i = i + 1;
            assert(str_views(r@) =~= head + Seq::new(i as nat, |k: int| b@[k].spec_requirement()));
        }
        assert(str_views(r@) =~= self.spec_torch_command(b@, index@, repo_name@, uv, py));
        r
    }

    fn triton_command(&self, repo_name: &str, uv: bool, py: bool) -> (r: Vec<String>)
        ensures
            str_views(r@) == self.spec_triton_command(repo_name@, uv, py),
    {
        let mut r = self.install_prefix(repo_name, uv, py);
        if self.platform == Platform::Windows {
            push_text(&mut r, "triton-windows");
        } else {
            push_text(&mut r, "triton");
        }
        r
    }

    /// The package-manager invocations of a plan, one per non-empty bucket, in the
    /// canonical order regular, onnx, torch, triton, insightface.
    #[verifier::rlimit(40)]
    pub fn installation_commands(
        &self,
        plan: &InstallationPlan,
        repo_name: &str,
        uv_available: bool,
        python_exists: bool,
    ) -> (r: Vec<(PackageType, Vec<String>)>)
        ensures
            command_views(r@) == self.spec_commands(*plan, repo_name@, uv_available, python_exists),
    {
        let ghost repo = repo_name@;
        let ghost uv = uv_available;
        let ghost py = python_exists;
        let mut r: Vec<(PackageType, Vec<String>)> = Vec::new();
        let ghost regular_part = if plan.regular_packages@.len() > 0 {
            seq![(PackageType::Regular, self.spec_regular_command(plan.regular_packages@, repo, uv, py))]
        } else {
            seq![]
        };
        let ghost onnx_part = if plan.onnx_packages@.len() > 0 {
            seq![
                (
                    PackageType::Onnxruntime,
                    self.spec_onnx_command(plan.onnx_packages@, plan.prerelease_required, repo, uv, py),
                ),
            ]
        } else {
            seq![]
        };
        let ghost torch_part = if plan.torch_packages@.len() > 0 {
            seq![
                (
                    PackageType::Torch,
                    self.spec_torch_command(plan.torch_packages@, self.spec_plan_index(*plan), repo, uv, py),
                ),
            ]
        } else {
            seq![]
        };
        let ghost triton_part = if plan.triton_packages@.len() > 0 {
            seq![(PackageType::Triton, self.spec_triton_command(repo, uv, py))]
        } else {
            seq![]
        };
        let ghost insightface_part = if plan.insightface_packages@.len() > 0 {
            seq![(PackageType::Insightface, self.spec_insightface_command(repo, uv, py))]
        } else {
            seq![]
        };
        assert(self.spec_commands(*plan, repo, uv, py) == regular_part + onnx_part + torch_part + triton_part + insightface_part);
        if plan.regular_packages.len() > 0 {
            let c = self.regular_command(&plan.regular_packages, repo_name, uv_available, python_exists);
            push_command(&mut r, PackageType::Regular, c);
        }
        assert(command_views(r@) =~= regular_part);
        if plan.onnx_packages.len() > 0 {
            let c = self.onnx_command(
                &plan.onnx_packages,
                plan.prerelease_required,
                repo_name,
                uv_available,
                python_exists,
            );
            push_command(&mut r, PackageType::Onnxruntime, c);
        }
        assert(command_views(r@) =~= regular_part + onnx_part);
        if plan.torch_packages.len() > 0 {
            let index = match &plan.torch_index_url {
                Some(u) => u.clone(),
                None => self.get_default_torch_index_url(),
            };
            let c = self.torch_command(
                &plan.torch_packages,
                index.as_str(),
                repo_name,
                uv_available,
                python_exists,
            );
            push_command(&mut r, PackageType::Torch, c);
        }
        assert(command_views(r@) =~= regular_part + onnx_part + torch_part);
        if plan.triton_packages.len() > 0 {
            let c = self.triton_command(repo_name, uv_available, python_exists);
            push_command(&mut r, PackageType::Triton, c);
        }
        assert(command_views(r@) =~= regular_part + onnx_part + torch_part + triton_part);
        if plan.insightface_packages.len() > 0 {
            let c = self.handle_insightface_package(repo_name, uv_available, python_exists);
            push_command(&mut r, PackageType::Insightface, c);
        }
        assert(command_views(r@) =~= regular_part + onnx_part + torch_part + triton_part + insightface_part);
        r
    }

    /// Decides what follows the last step of making the faster resolver available; the
    /// first step is `UvAction::Probe` in phase `UvPhase::Probe`.
    pub fn install_uv_in_venv(&self, phase: UvPhase, ok: bool) -> (r: (UvPhase, UvAction))
        ensures
            r == uv_step(phase, ok),
    {
        match phase {
            UvPhase::Probe => if ok {
                (UvPhase::Probe, UvAction::Use(true))
            } else {
                (UvPhase::Install, UvAction::Install)
            },
            UvPhase::Install => (UvPhase::Reprobe, UvAction::Probe),
            UvPhase::Reprobe => (UvPhase::Reprobe, UvAction::Use(ok)),
        }
    }

    /// `<python> -m uv --version`.
    pub fn uv_probe_command(&self, repo_name: &str, python_exists: bool) -> (r: Vec<String>)
        ensures
            str_views(r@) == seq![self.spec_python(repo_name@, python_exists, true), "-m"@, "uv"@, "--version"@],
    {
        let mut r = self.get_uv_executable(repo_name, python_exists);
        push_text(&mut r, "--version");
        assert(str_views(r@) =~= seq![self.spec_python(repo_name@, python_exists, true), "-m"@, "uv"@, "--version"@]);
        r
    }

    /// `<python> -m pip install uv`.
    pub fn uv_install_command(&self, repo_name: &str, python_exists: bool) -> (r: Vec<String>)
        ensures
            str_views(r@) == seq![self.spec_python(repo_name@, python_exists, false), "-m"@, "pip"@, "install"@, "uv"@],
    {
        let mut r = self.get_pip_executable(repo_name, python_exists);
        push_text(&mut r, "install");
        push_text(&mut r, "uv");
        assert(str_views(r@) =~= seq![self.spec_python(repo_name@, python_exists, false), "-m"@, "pip"@, "install"@, "uv"@]);
        r
    }

    /// The first action of a plan's execution.
    pub fn start_installation(&self, plan: &InstallationPlan) -> (r: (ExecState, InstallAction))
        ensures
            r == exec_start(*plan),
    {
        advance_exec(plan, 0, false)
    }

    /// Decides what follows the last action of a plan's execution: buckets run in the
    /// canonical order; a failed run with the faster resolver is repeated with the baseline
    /// tool; torch then gets one unpinned retry and a second failure is fatal; any other
    /// failure is soft and the next bucket runs; at the end torch is checked, and
    /// reinstalled from the accelerated index when it arrived without being asked for.
    pub fn on_bucket_result(&self, plan: &InstallationPlan, s: ExecState, uv: bool, ok: bool) -> (r:
        (ExecState, InstallAction))
        ensures
            r == exec_step(*plan, s, uv, ok),
    {
        match s.phase {
            ExecPhase::Bucket(k) => if ok {
                let next: u8 = if k >= 5 { 5 } else { k + 1 };
                assert(next_slot(*plan, k + 1) == next_slot(*plan, next as int));
                advance_exec(plan, next, s.degraded)
            } else if uv {
                (ExecState { phase: ExecPhase::PipRetry(k), degraded: s.degraded }, InstallAction::RunWithPip(slot_type_exec(k)))
            } else {
                bucket_failed_exec(plan, k, s.degraded)
            },
            ExecPhase::PipRetry(k) => if ok {
                let next: u8 = if k >= 5 { 5 } else { k + 1 };
                assert(next_slot(*plan, k + 1) == next_slot(*plan, next as int));
                advance_exec(plan, next, s.degraded)
            } else {
                bucket_failed_exec(plan, k, s.degraded)
            },
            ExecPhase::TorchRetry => if ok {
                advance_exec(plan, 3, s.degraded)
            } else {
                (ExecState { phase: ExecPhase::Failed, degraded: s.degraded }, InstallAction::Fail)
            },
            ExecPhase::TorchCheck => if ok && plan.torch_packages.len() == 0 {
                (ExecState { phase: ExecPhase::Reinstall, degraded: s.degraded }, InstallAction::ReinstallTorch)
            } else {
                (ExecState { phase: ExecPhase::Finished, degraded: s.degraded }, InstallAction::Finish { degraded: s.degraded })
            },
            ExecPhase::Reinstall => (
                ExecState { phase: ExecPhase::Finished, degraded: s.degraded || !ok },
                InstallAction::Finish { degraded: s.degraded || !ok },
            ),
            ExecPhase::Finished => (s, InstallAction::Finish { degraded: s.degraded }),
            ExecPhase::Failed => (s, InstallAction::Fail),
        }
    }

    /// Chooses the requirements manifest: `present[i]` tells whether fixed candidate `i`
    /// exists; `root` and `sub` list the files of the working tree and of its
    /// `requirements/` directory, in listing order. The choice is relative to the tree.
    pub fn find_requirements_files(&self, present: &Vec<bool>, root: &Vec<String>, sub: &Vec<String>) -> (r:
        Option<String>)
        ensures
            match chosen_requirements(present@, str_views(root@), str_views(sub@)) {
                Some(c) => r matches Some(p) && p@ == c,
                None => r is None,
            },
    {
        let fixed = [
            "requirements.txt",
            "requirements_pyp.txt",
            "requirements/requirements_nvidia.txt",
            "requirements/requirements.txt",
            "install/requirements.txt",
        ];
        let mut i: usize = 0;
        while i < 5 && !(i < present.len() && present[i])
            invariant
                i <= 5,
                first_present(present@, 0) == first_present(present@, i as int),
            decreases 5 - i,
        {
            i = i + 1;
        }
        if i < 5 {
            assert(fixed@[i as int]@ == fixed_requirements()[i as int]);
            return Some(fixed[i].to_owned());
        }
        let v = first_name_exec(root, NameTest::Variant);
        if v < root.len() {
            assert(str_views(root@)[v as int] == root@[v as int]@);
            return Some(root[v].clone());
        }
        let o = first_name_exec(root, NameTest::Other);
        if o < root.len() {
            assert(str_views(root@)[o as int] == root@[o as int]@);
            return Some(root[o].clone());
        }
        let a = first_name_exec(sub, NameTest::Any);
        if a < sub.len() {
            assert(str_views(sub@)[a as int] == sub@[a as int]@);
            return Some(crate::text::concat("requirements/", sub[a].as_str()));
        }
        None
    }

    /// Asks the baseline tool whether torch ended up installed.
    pub fn torch_check_command(&self, repo_name: &str, python_exists: bool) -> (r: Vec<String>)
        ensures
            str_views(r@) == seq![
                self.spec_python(repo_name@, python_exists, false),
                "-m"@,
                "pip"@,
                "show"@,
                "torch"@,
            ],
    {
        let mut r = self.get_pip_executable(repo_name, python_exists);
        push_text(&mut r, "show");
        push_text(&mut r, "torch");
        assert(str_views(r@) =~= seq![
            self.spec_python(repo_name@, python_exists, false),
            "-m"@,
            "pip"@,
            "show"@,
            "torch"@,
        ]);
        r
    }

    /// Reinstalls torch from the accelerator-specific index, so that the accelerated build
    /// replaces any CPU build that another package pulled in.
    pub fn torch_reinstall_command(&self, repo_name: &str, uv_available: bool, python_exists: bool) -> (r:
        Vec<String>)
        ensures
            str_views(r@) == self.spec_install_prefix(repo_name@, uv_available, python_exists) + seq![
                "--force-reinstall"@,
                "--index-url"@,
                torch_index_for(self.profile, self.platform, self.system_cuda),
                "torch"@,
                "torchvision"@,
                "torchaudio"@,
            ],
    {
        let mut r = self.install_prefix(repo_name, uv_available, python_exists);
        let ghost head = str_views(r@);
        let index = self.get_default_torch_index_url();
        push_text(&mut r, "--force-reinstall");
        push_text(&mut r, "--index-url");
        push_text(&mut r, index.as_str());
        push_text(&mut r, "torch");
        push_text(&mut r, "torchvision");
        push_text(&mut r, "torchaudio");
        assert(str_views(r@) =~= head + seq![
            "--force-reinstall"@,
            "--index-url"@,
            torch_index_for(self.profile, self.platform, self.system_cuda),
            "torch"@,
            "torchvision"@,
            "torchaudio"@,
        ]);
        r
    }

    /// The torch bucket again, with the bare package names instead of pinned versions.
    pub fn torch_retry_command(
        &self,
        plan: &InstallationPlan,
        repo_name: &str,
        uv_available: bool,
        python_exists: bool,
    ) -> (r: Vec<String>)
        ensures
            str_views(r@) == self.spec_install_prefix(repo_name@, uv_available, python_exists) + seq![
                "--index-url"@,
                self.spec_plan_index(*plan),
                "--index-strategy"@,
                "unsafe-best-match"@,
            ] + Seq::new(plan.torch_packages@.len(), |i: int| plan.torch_packages@[i].name@),
    {
        let index = match &plan.torch_index_url {
            Some(u) => u.clone(),
            None => self.get_default_torch_index_url(),
        };
        let mut r = self.install_prefix(repo_name, uv_available, python_exists);
        push_text(&mut r, "--index-url");
        push_text(&mut r, index.as_str());
        push_text(&mut r, "--index-strategy");
        push_text(&mut r, "unsafe-best-match");
        let ghost head = str_views(r@);
        let b = &plan.torch_packages;
        let mut i: usize = 0;
        while i < b.len()
            invariant
                i <= b.len(),
                str_views(r@) == head + Seq::new(i as nat, |k: int| b@[k].name@),
            decreases b.len() - i,
        {
            push_text(&mut r, b[i].name.as_str());
            i = i + 1;
            assert(str_views(r@) =~= head + Seq::new(i as nat, |k: int| b@[k].name@));
        }
        r
    }

    /// The module a project-manifest script runs: an entry `module:function` or `module`,
    /// without the function.
    pub open spec fn spec_module_path(value: Seq<char>) -> Seq<char> {
        crate::text::before_char(value, ':')
    }

    /// A script that launches a Gradio inference interface.
    pub open spec fn spec_is_gradio_infer(name: Seq<char>, value: Seq<char>) -> bool {
        let n = crate::text::lower_of(name);
        let v = crate::text::lower_of(value);
        (has_infix(n, "gradio"@) && has_infix(n, "infer"@)) || (has_infix(v, "gradio"@) && has_infix(
            v,
            "infer"@,
        ))
    }

    /// Chooses the entry point among the scripts of the project manifest, given in table
    /// order: the first Gradio inference script, else the first script; the module path of
    /// its entry is returned.
    pub fn check_scripts_in_pyproject(&self, scripts: &Vec<(String, String)>) -> (r: (
        bool,
        Option<String>,
    ))
        ensures
            r.0 == (scripts@.len() > 0),
            crate::gpu::opt_str_view(r.1) == chosen_script(scripts@),
    {
        let mut i: usize = 0;
        while i < scripts.len()
            invariant
                i <= scripts@.len(),
                forall|j: int|
                    0 <= j < i ==> !Self::spec_is_gradio_infer(scripts@[j].0@, scripts@[j].1@),
            decreases scripts.len() - i,
        {
            let n = crate::text::to_lower(scripts[i].0.as_str());
            let v = crate::text::to_lower(scripts[i].1.as_str());
            if (contains_str(n.as_str(), "gradio") && contains_str(n.as_str(), "infer")) || (
            contains_str(v.as_str(), "gradio") && contains_str(v.as_str(), "infer")) {
                proof {
                    lemma_first_gradio(scripts@, i as int);
                }
                return (true, Some(entry_module(scripts[i].1.as_str())));
            }
            i = i + 1;
        }
        proof {
            lemma_first_gradio(scripts@, i as int);
        }
        if scripts.len() == 0 {
            return (false, None);
        }
        (true, Some(entry_module(scripts[0].1.as_str())))
    }
}

/// The position of the first Gradio inference script, or the number of scripts.
pub open spec fn first_gradio(s: Seq<(String, String)>) -> int
    decreases s.len(),
{
    if s.len() == 0 {
        0
    } else if PipManager::spec_is_gradio_infer(s[0].0@, s[0].1@) {
        0
    } else {
        1 + first_gradio(s.drop_first())
    }
}

/// The module of the entry point chosen among the scripts of a project manifest: the
/// first Gradio inference script, else the first script, else none.
pub open spec fn chosen_script(s: Seq<(String, String)>) -> Option<Seq<char>> {
    let g = first_gradio(s);
    if g < s.len() {
        Some(PipManager::spec_module_path(s[g].1@))
    } else if s.len() > 0 {
        Some(PipManager::spec_module_path(s[0].1@))
    } else {
        None
    }
}

proof fn lemma_first_gradio(s: Seq<(String, String)>, i: int)
    requires
        0 <= i <= s.len(),
        forall|j: int| 0 <= j < i ==> !PipManager::spec_is_gradio_infer(s[j].0@, s[j].1@),
        i == s.len() || PipManager::spec_is_gradio_infer(s[i].0@, s[i].1@),
    ensures
        first_gradio(s) == i,
    decreases i,
{
    if i > 0 {
        assert forall|j: int| 0 <= j < i - 1 implies !PipManager::spec_is_gradio_infer(
            s.drop_first()[j].0@,
            s.drop_first()[j].1@,
        ) by {
            assert(s.drop_first()[j] == s[j + 1]);
        }
        lemma_first_gradio(s.drop_first(), i - 1);
    }
}

/// An Nvidia Ampere profile without a system runtime installs torch from the cu124 index,
/// uses the GPU build of onnxruntime without pre-release builds, and turns the
/// requirement "onnxruntime==1.16.0" into "onnxruntime-gpu==1.16.0".
pub proof fn lemma_ampere_plan(pm: PipManager)
    requires
        pm.profile.wf(pm.platform),
        pm.profile.vendor == GpuType::Nvidia,
        pm.profile.generation == GpuGeneration::Ampere,
    ensures
        torch_index_for(pm.profile, pm.platform, None) == "https://download.pytorch.org/whl/cu124"@,
        onnx_name_for(pm.profile, pm.platform) == "onnxruntime-gpu"@,
        !prerelease_for(pm.profile, pm.platform, None),
        pm.spec_onnx_variant("onnxruntime==1.16.0"@) == "onnxruntime-gpu==1.16.0"@,
{
    let base = "onnxruntime==1.16.0"@;
    reveal_strlit("onnxruntime==1.16.0");
    reveal_strlit("onnxruntime");
    reveal_strlit("onnxruntime-gpu");
    reveal_strlit("onnxruntime-gpu==1.16.0");
    reveal_strlit("-gpu");
    reveal_strlit("-directml");
    assert(base =~= seq!['o', 'n', 'n', 'x', 'r', 'u', 'n', 't', 'i', 'm', 'e', '=', '=', '1', '.', '1', '6', '.', '0']);
    assert(base.subrange(0, 11) =~= "onnxruntime"@);
    assert(has_prefix(base, "onnxruntime"@));
    crate::generation_table::lemma_absent_char(base, "-gpu"@, 1);
    crate::generation_table::lemma_absent_char(base, "-directml"@, 1);
    let rest = base.subrange(11, 19);
    assert(replace_all(rest, "onnxruntime"@, "onnxruntime-gpu"@) == rest);
    assert(replace_all(base, "onnxruntime"@, "onnxruntime-gpu"@) == "onnxruntime-gpu"@ + rest);
    assert("onnxruntime-gpu"@ + rest =~= "onnxruntime-gpu==1.16.0"@);
}

/// The plan's choices are a function of the profile: two profiles with the same vendor,
/// generation and runtime release give the same torch index, onnxruntime variant and
/// pre-release flag; and well-formed profiles of the same vendor and generation agree on
/// runtime release, backend and TensorRT support.
pub proof fn lemma_plan_choices_deterministic(
    first: AcceleratorProfile,
    second: AcceleratorProfile,
    platform: Platform,
    system_cuda: Option<CudaVersionLinux>,
)
    requires
        first.wf(platform),
        second.wf(platform),
        first.vendor == second.vendor,
        first.generation == second.generation,
    ensures
        first.runtime_version == second.runtime_version,
        first.backend == second.backend,
        first.tensorrt_capable == second.tensorrt_capable,
        torch_index_for(first, platform, system_cuda) == torch_index_for(second, platform, system_cuda),
        onnx_name_for(first, platform) == onnx_name_for(second, platform),
        onnx_spec_for(first, platform) == onnx_spec_for(second, platform),
        prerelease_for(first, platform, system_cuda) == prerelease_for(second, platform, system_cuda),
{
}

proof fn lemma_of_type_members(ps: Seq<PackageInfo>, t: PackageType)
    ensures
        forall|k: int|
            0 <= k < of_type(ps, t).len() ==> (#[trigger] of_type(ps, t)[k]).package_type == t
                && ps.contains(of_type(ps, t)[k]),
    decreases ps.len(),
{
    if ps.len() > 0 {
        lemma_of_type_members(ps.drop_last(), t);
        assert forall|k: int|
            0 <= k < of_type(ps, t).len() implies (#[trigger] of_type(ps, t)[k]).package_type == t
                && ps.contains(of_type(ps, t)[k]) by {
            if k < of_type(ps.drop_last(), t).len() {
                let x = of_type(ps.drop_last(), t)[k];
                assert(ps.drop_last().contains(x));
                let j = choose|j: int| 0 <= j < ps.drop_last().len() && ps.drop_last()[j] == x;
                assert(ps[j] == x);
            } else {
                assert(ps[ps.len() - 1] == ps.last());
            }
        }
    }
}

proof fn lemma_bucket_sizes(ps: Seq<PackageInfo>)
    ensures
        of_type(ps, PackageType::Regular).len() + of_type(ps, PackageType::Torch).len() + of_type(
            ps,
            PackageType::Onnxruntime,
        ).len() + of_type(ps, PackageType::Triton).len() + of_type(
            ps,
            PackageType::Insightface,
        ).len() == ps.len(),
    decreases ps.len(),
{
    if ps.len() > 0 {
        lemma_bucket_sizes(ps.drop_last());
    }
}

/// Classification is a partition: the five buckets of a plan together hold as many
/// packages as the requirement list has lines that name one, and since a package's
/// category follows from its name, no name appears in two buckets.
pub proof fn lemma_buckets_partition(lines: Seq<Seq<char>>, ps: Seq<PackageInfo>)
    requires
        ps.len() == kept_lines(lines).len(),
        forall|k: int| 0 <= k < ps.len() ==> (#[trigger] ps[k]).wf(),
    ensures
        of_type(ps, PackageType::Regular).len() + of_type(ps, PackageType::Torch).len() + of_type(
            ps,
            PackageType::Onnxruntime,
        ).len() + of_type(ps, PackageType::Triton).len() + of_type(
            ps,
            PackageType::Insightface,
        ).len() == kept_lines(lines).len(),
        forall|t1: PackageType, t2: PackageType, i: int, j: int|
            t1 != t2 && 0 <= i < of_type(ps, t1).len() && 0 <= j < of_type(ps, t2).len() ==> (
            #[trigger] of_type(ps, t1)[i]).name@ != (#[trigger] of_type(ps, t2)[j]).name@,
{
    lemma_bucket_sizes(ps);
    assert forall|t1: PackageType, t2: PackageType, i: int, j: int|
        t1 != t2 && 0 <= i < of_type(ps, t1).len() && 0 <= j < of_type(
            ps,
            t2,
        ).len() implies (#[trigger] of_type(ps, t1)[i]).name@ != (#[trigger] of_type(
        ps,
        t2,
    )[j]).name@ by {
        lemma_of_type_members(ps, t1);
        lemma_of_type_members(ps, t2);
        let a = of_type(ps, t1)[i];
        let b = of_type(ps, t2)[j];
        let ia = choose|x: int| 0 <= x < ps.len() && ps[x] == a;
        let ib = choose|x: int| 0 <= x < ps.len() && ps[x] == b;
        assert(ps[ia].wf());
        assert(ps[ib].wf());
    }
}

} // verus!
