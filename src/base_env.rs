//! The Unix base-environment provider: a micromamba environment holding the interpreter,
//! the version-control client, the media tool and, when asked for, the accelerator
//! runtime. The caller downloads, runs the commands and looks at the disk.

use crate::config::{CudaVersion, CudaVersionLinux};
use crate::text::{has_infix, has_prefix, lower_of, push_text, same_text, str_views, to_lower};
use vstd::prelude::*;

verus! {

pub const MICROMAMBA_LATEST: &'static str = "https://github.com/mamba-org/micromamba-releases/releases/latest/download/micromamba-linux-64";

pub const MICROMAMBA_PINNED: &'static str = "https://github.com/mamba-org/micromamba-releases/releases/download/2.3.1-0/micromamba-linux-64";

/// How a Unix host is provisioned: with the system's tools, or with a base environment.
#[derive(Debug, Clone, Copy, PartialEq, Eq, Structural)]
pub enum LinuxMode {
    Cloud,
    Desk,
}

/// The mode: an explicit `cloud` or `desk` setting (any case) wins; else a host whose
/// runtime compiler prints its banner is `Cloud`; else `Desk`.
pub open spec fn mode_for(setting: Option<Seq<char>>, nvcc_output: Option<Seq<char>>) -> LinuxMode {
    if setting is Some && lower_of(setting->0) == "cloud"@ {
        LinuxMode::Cloud
    } else if setting is Some && lower_of(setting->0) == "desk"@ {
        LinuxMode::Desk
    } else if nvcc_output is Some && has_infix(nvcc_output->0, "Cuda compilation tools"@) {
        LinuxMode::Cloud
    } else {
        LinuxMode::Desk
    }
}

/// The provisioning mode, from the mode setting of the environment and the output of a
/// successful `nvcc --version`.
pub fn detect_linux_mode(setting: Option<&str>, nvcc_output: Option<&str>) -> (r: LinuxMode)
    ensures
        r == mode_for(
            match setting {
                Some(s) => Some(s@),
                None => None,
            },
            match nvcc_output {
                Some(s) => Some(s@),
                None => None,
            },
        ),
{
    match setting {
        Some(s) => {
            let m = to_lower(s);
            if same_text(m.as_str(), "cloud") {
                return LinuxMode::Cloud;
            }
            if same_text(m.as_str(), "desk") {
                return LinuxMode::Desk;
            }
        },
        None => {},
    }
    match nvcc_output {
        Some(o) => if crate::text::contains_str(o, "Cuda compilation tools") {
            LinuxMode::Cloud
        } else {
            LinuxMode::Desk
        },
        None => LinuxMode::Desk,
    }
}

pub open spec fn spec_runtime_spec(v: CudaVersionLinux) -> Seq<char> {
    match v {
        CudaVersionLinux::Cuda118 => "11.8"@,
        CudaVersionLinux::Cuda121 => "12.1"@,
        CudaVersionLinux::Cuda124 => "12.4"@,
        CudaVersionLinux::Cuda126 => "12.6"@,
        CudaVersionLinux::Cuda128 => "12.8"@,
    }
}

/// The toolkit version a runtime release is installed as.
pub fn runtime_spec(v: CudaVersionLinux) -> (r: &'static str)
    ensures
        r@ == spec_runtime_spec(v),
{
    match v {
        CudaVersionLinux::Cuda118 => "11.8",
        CudaVersionLinux::Cuda121 => "12.1",
        CudaVersionLinux::Cuda124 => "12.4",
        CudaVersionLinux::Cuda126 => "12.6",
        CudaVersionLinux::Cuda128 => "12.8",
    }
}

/// The toolkit the base environment is given: none when the system has a runtime,
/// else the device's recommended release.
pub fn base_env_cuda(system: Option<CudaVersionLinux>, recommended: Option<CudaVersion>) -> (r:
    Option<CudaVersionLinux>)
    ensures
        system is Some ==> r is None,
        system is None ==> r == match recommended {
            Some(CudaVersion::Cuda118) => Some(CudaVersionLinux::Cuda118),
            Some(CudaVersion::Cuda124) => Some(CudaVersionLinux::Cuda124),
            Some(CudaVersion::Cuda128) => Some(CudaVersionLinux::Cuda128),
            None => None::<CudaVersionLinux>,
        },
{
    if system.is_some() {
        return None;
    }
    match recommended {
        Some(CudaVersion::Cuda118) => Some(CudaVersionLinux::Cuda118),
        Some(CudaVersion::Cuda124) => Some(CudaVersionLinux::Cuda124),
        Some(CudaVersion::Cuda128) => Some(CudaVersionLinux::Cuda128),
        None => None,
    }
}

/// The arguments of `micromamba` that create the base environment at `prefix` under the
/// root `root`.
pub fn micromamba_create_args(root: &str, prefix: &str, cuda: Option<CudaVersionLinux>) -> (r: Vec<
    String,
>)
    ensures
        str_views(r@) == seq![
            "create"@,
            "-y"@,
            "-r"@,
            root@,
            "-p"@,
            prefix@,
            "-c"@,
            "nvidia"@,
            "-c"@,
            "conda-forge"@,
            "python=3.11"@,
            "git"@,
            "ffmpeg"@,
        ] + match cuda {
            Some(v) => seq!["cuda-toolkit="@ + spec_runtime_spec(v), "cudnn"@],
            None => seq![],
        },
{
    let mut r: Vec<String> = Vec::new();
    push_text(&mut r, "create");
    push_text(&mut r, "-y");
    push_text(&mut r, "-r");
    push_text(&mut r, root);
    push_text(&mut r, "-p");
    push_text(&mut r, prefix);
    push_text(&mut r, "-c");
    push_text(&mut r, "nvidia");
    push_text(&mut r, "-c");
    push_text(&mut r, "conda-forge");
    push_text(&mut r, "python=3.11");
    push_text(&mut r, "git");
    push_text(&mut r, "ffmpeg");
    let ghost head = str_views(r@);
    match cuda {
        Some(v) => {
            let t = crate::text::concat("cuda-toolkit=", runtime_spec(v));
            push_text(&mut r, t.as_str());
            push_text(&mut r, "cudnn");
        },
        None => {},
    }
    proof {
        let tail = match cuda {
            Some(v) => seq!["cuda-toolkit="@ + spec_runtime_spec(v), "cudnn"@],
            None => seq![],
        };
        assert(str_views(r@) =~= head + tail);
    }
    r
}

/// The pip fallback that brings the accelerator libraries when the environment lacks the
/// runtime library.
pub fn tensorrt_fallback_args(python: &str) -> (r: Vec<String>)
    ensures
        str_views(r@) == seq![
            python@,
            "-m"@,
            "pip"@,
            "install"@,
            "--extra-index-url"@,
            "https://pypi.nvidia.com"@,
            "nvidia-tensorrt"@,
        ],
{
    let mut r: Vec<String> = Vec::new();
    push_text(&mut r, python);
    push_text(&mut r, "-m");
    push_text(&mut r, "pip");
    push_text(&mut r, "install");
    push_text(&mut r, "--extra-index-url");
    push_text(&mut r, "https://pypi.nvidia.com");
    push_text(&mut r, "nvidia-tensorrt");
    r
}

/// Whether a library directory listing holds the accelerator runtime library.
pub fn libcudart_present(names: &Vec<String>) -> (r: bool)
    ensures
        r == exists|i: int| 0 <= i < names@.len() && has_prefix(#[trigger] names@[i]@, "libcudart.so"@),
{
    let mut i: usize = 0;
    while i < names.len()
        invariant
            i <= names@.len(),
            forall|j: int| 0 <= j < i ==> !has_prefix(#[trigger] names@[j]@, "libcudart.so"@),
        decreases names.len() - i,
    {
        if crate::text::starts_with_str(names[i].as_str(), "libcudart.so") {
            return true;
        }
        i = i + 1;
    }
    false
}

/// The step of the base environment's setup.
#[derive(Debug, Clone, Copy, PartialEq, Eq, Structural)]
pub enum BaseEnvPhase {
    DownloadLatest,
    DownloadPinned,
    Create,
    CheckPython,
    CheckRuntime,
    InstallFallback,
    RecheckRuntime,
    Done,
    Failed,
}

/// Why the setup gave up.
#[derive(Debug, Clone, Copy, PartialEq, Eq, Structural)]
pub enum BaseEnvFailure {
    Download,
    Create,
    PythonMissing,
    RuntimeMissing,
}

/// What the caller performs next.
#[derive(Debug, Clone, Copy, PartialEq, Eq, Structural)]
pub enum BaseEnvAction {
    /// Download the package manager from the latest release, or the pinned one.
    Download { pinned: bool },
    /// Run `micromamba` with `micromamba_create_args`.
    Create,
    /// Look for the environment's interpreter.
    CheckPython,
    /// Look for the runtime library in the environment's library directories.
    CheckRuntime,
    /// Run `tensorrt_fallback_args`.
    InstallFallback,
    Done,
    Fail(BaseEnvFailure),
}

/// The setup's state: its phase and whether a toolkit was asked for.
#[derive(Debug, Clone, Copy, PartialEq, Eq, Structural)]
pub struct BaseEnvState {
    pub phase: BaseEnvPhase,
    pub with_cuda: bool,
}

/// The start of the setup: the package manager is downloaded unless it is present.
pub open spec fn base_env_start(mamba_present: bool, with_cuda: bool) -> (BaseEnvState, BaseEnvAction) {
    if mamba_present {
        (BaseEnvState { phase: BaseEnvPhase::Create, with_cuda }, BaseEnvAction::Create)
    } else {
        (BaseEnvState { phase: BaseEnvPhase::DownloadLatest, with_cuda }, BaseEnvAction::Download { pinned: false })
    }
}

/// The last action finished, successfully (or finding what it looked for) when `ok`. A
/// toolkit that was asked for must leave the runtime library in the environment.
pub open spec fn base_env_step(s: BaseEnvState, ok: bool) -> (BaseEnvState, BaseEnvAction) {
    match s.phase {
        BaseEnvPhase::DownloadLatest => if ok {
            (BaseEnvState { phase: BaseEnvPhase::Create, ..s }, BaseEnvAction::Create)
        } else {
            (BaseEnvState { phase: BaseEnvPhase::DownloadPinned, ..s }, BaseEnvAction::Download { pinned: true })
        },
        BaseEnvPhase::DownloadPinned => if ok {
            (BaseEnvState { phase: BaseEnvPhase::Create, ..s }, BaseEnvAction::Create)
        } else {
            (BaseEnvState { phase: BaseEnvPhase::Failed, ..s }, BaseEnvAction::Fail(BaseEnvFailure::Download))
        },
        BaseEnvPhase::Create => if ok {
            (BaseEnvState { phase: BaseEnvPhase::CheckPython, ..s }, BaseEnvAction::CheckPython)
        } else {
            (BaseEnvState { phase: BaseEnvPhase::Failed, ..s }, BaseEnvAction::Fail(BaseEnvFailure::Create))
        },
        BaseEnvPhase::CheckPython => if !ok {
            (BaseEnvState { phase: BaseEnvPhase::Failed, ..s }, BaseEnvAction::Fail(BaseEnvFailure::PythonMissing))
        } else if s.with_cuda {
            (BaseEnvState { phase: BaseEnvPhase::CheckRuntime, ..s }, BaseEnvAction::CheckRuntime)
        } else {
            (BaseEnvState { phase: BaseEnvPhase::Done, ..s }, BaseEnvAction::Done)
        },
        BaseEnvPhase::CheckRuntime => if ok {
            (BaseEnvState { phase: BaseEnvPhase::Done, ..s }, BaseEnvAction::Done)
        } else {
            (BaseEnvState { phase: BaseEnvPhase::InstallFallback, ..s }, BaseEnvAction::InstallFallback)
        },
        BaseEnvPhase::InstallFallback => if ok {
            (BaseEnvState { phase: BaseEnvPhase::RecheckRuntime, ..s }, BaseEnvAction::CheckRuntime)
        } else {
            (BaseEnvState { phase: BaseEnvPhase::Failed, ..s }, BaseEnvAction::Fail(BaseEnvFailure::RuntimeMissing))
        },
        BaseEnvPhase::RecheckRuntime => if ok {
            (BaseEnvState { phase: BaseEnvPhase::Done, ..s }, BaseEnvAction::Done)
        } else {
            (BaseEnvState { phase: BaseEnvPhase::Failed, ..s }, BaseEnvAction::Fail(BaseEnvFailure::RuntimeMissing))
        },
        BaseEnvPhase::Done => (s, BaseEnvAction::Done),
        BaseEnvPhase::Failed => (s, BaseEnvAction::Fail(BaseEnvFailure::Create)),
    }
}

/// The first action of the setup.
pub fn start_base_env(mamba_present: bool, with_cuda: bool) -> (r: (BaseEnvState, BaseEnvAction))
    ensures
        r == base_env_start(mamba_present, with_cuda),
{
    if mamba_present {
        (BaseEnvState { phase: BaseEnvPhase::Create, with_cuda }, BaseEnvAction::Create)
    } else {
        (BaseEnvState { phase: BaseEnvPhase::DownloadLatest, with_cuda }, BaseEnvAction::Download { pinned: false })
    }
}

/// What follows the last action of the setup.
pub fn on_base_env_result(s: BaseEnvState, ok: bool) -> (r: (BaseEnvState, BaseEnvAction))
    ensures
        r == base_env_step(s, ok),
{
    let failed = BaseEnvState { phase: BaseEnvPhase::Failed, with_cuda: s.with_cuda };
    match s.phase {
        BaseEnvPhase::DownloadLatest => if ok {
            (BaseEnvState { phase: BaseEnvPhase::Create, with_cuda: s.with_cuda }, BaseEnvAction::Create)
        } else {
            (BaseEnvState { phase: BaseEnvPhase::DownloadPinned, with_cuda: s.with_cuda }, BaseEnvAction::Download { pinned: true })
        },
        BaseEnvPhase::DownloadPinned => if ok {
            (BaseEnvState { phase: BaseEnvPhase::Create, with_cuda: s.with_cuda }, BaseEnvAction::Create)
        } else {
            (failed, BaseEnvAction::Fail(BaseEnvFailure::Download))
        },
        BaseEnvPhase::Create => if ok {
            (BaseEnvState { phase: BaseEnvPhase::CheckPython, with_cuda: s.with_cuda }, BaseEnvAction::CheckPython)
        } else {
            (failed, BaseEnvAction::Fail(BaseEnvFailure::Create))
        },
        BaseEnvPhase::CheckPython => if !ok {
            (failed, BaseEnvAction::Fail(BaseEnvFailure::PythonMissing))
        } else if s.with_cuda {
            (BaseEnvState { phase: BaseEnvPhase::CheckRuntime, with_cuda: s.with_cuda }, BaseEnvAction::CheckRuntime)
        } else {
            (BaseEnvState { phase: BaseEnvPhase::Done, with_cuda: s.with_cuda }, BaseEnvAction::Done)
        },
        BaseEnvPhase::CheckRuntime => if ok {
            (BaseEnvState { phase: BaseEnvPhase::Done, with_cuda: s.with_cuda }, BaseEnvAction::Done)
        } else {
            (BaseEnvState { phase: BaseEnvPhase::InstallFallback, with_cuda: s.with_cuda }, BaseEnvAction::InstallFallback)
        },
        BaseEnvPhase::InstallFallback => if ok {
            (BaseEnvState { phase: BaseEnvPhase::RecheckRuntime, with_cuda: s.with_cuda }, BaseEnvAction::CheckRuntime)
        } else {
            (failed, BaseEnvAction::Fail(BaseEnvFailure::RuntimeMissing))
        },
        BaseEnvPhase::RecheckRuntime => if ok {
            (BaseEnvState { phase: BaseEnvPhase::Done, with_cuda: s.with_cuda }, BaseEnvAction::Done)
        } else {
            (failed, BaseEnvAction::Fail(BaseEnvFailure::RuntimeMissing))
        },
        BaseEnvPhase::Done => (s, BaseEnvAction::Done),
        BaseEnvPhase::Failed => (s, BaseEnvAction::Fail(BaseEnvFailure::Create)),
    }
}

/// A setup that asked for a toolkit finishes only once the runtime library was found.
pub proof fn lemma_toolkit_needs_runtime(s: BaseEnvState, ok: bool)
    requires
        s.with_cuda,
        s.phase != BaseEnvPhase::Done,
    ensures
        base_env_step(s, ok).1 == BaseEnvAction::Done ==> ok && (s.phase == BaseEnvPhase::CheckRuntime
            || s.phase == BaseEnvPhase::RecheckRuntime),
{
}

} // verus!
