use portablesource::artifact::{ArtifactAction, ArtifactTask};
use portablesource::base_env::{
    base_env_cuda, detect_linux_mode, libcudart_present, micromamba_create_args, on_base_env_result,
    runtime_spec, start_base_env, tensorrt_fallback_args, BaseEnvAction, BaseEnvFailure, LinuxMode,
};
use portablesource::config::{Backend, ConfigManager, CudaVersion, CudaVersionLinux, GpuGeneration, Platform};
use portablesource::git_manager::{GitAction, GitFailure, LinkProvenance, RepositoryHandle};
use portablesource::gpu::{GpuDetector, GpuInfo, GpuType};
use portablesource::pip_manager::{ExecPhase, InstallAction, PipManager, RequirementsAnalyzer};
use portablesource::requirements::{analyze_requirements, PackageType};

fn nvidia(name: &str, platform: Platform) -> ConfigManager {
    let g = GpuInfo { name: name.to_string(), gpu_type: GpuType::Nvidia, memory_mb: 8192, driver_version: None };
    ConfigManager::new("c.json".to_string(), platform, Some(g))
}

fn plan_for(lines: &[&str]) -> (PipManager, portablesource::pip_manager::InstallationPlan) {
    let cm = nvidia("NVIDIA GeForce RTX 3080", Platform::Unix);
    let text: Vec<String> = lines.iter().map(|s| s.to_string()).collect();
    let plan = RequirementsAnalyzer::new(&cm, None).create_installation_plan(analyze_requirements(&text));
    (PipManager::new(&cm, None), plan)
}

#[test]
fn ignored_range_restarts_from_zero() {
    let mut t = ArtifactTask::new("u".into(), "/d".into(), "/m".into());
    t.begin(false, 400);
    assert_eq!(t.on_response(true, false, Some(1000), None), ArtifactAction::Write { append: false });
    assert_eq!(t.offset, 0);
    assert_eq!(t.total, Some(1000));
}

#[test]
fn ampere_unix_without_system_runtime_uses_cu124() {
    let cm = nvidia("NVIDIA GeForce RTX 3080", Platform::Unix);
    let plan = RequirementsAnalyzer::new(&cm, None).create_installation_plan(Vec::new());
    assert_eq!(plan.torch_index_url.as_deref(), Some("https://download.pytorch.org/whl/cu124"));
    let pm = PipManager::new(&cm, None);
    assert_eq!(pm.apply_onnx_gpu_detection("onnxruntime==1.16.0"), "onnxruntime-gpu==1.16.0");
}

#[test]
fn turing_supports_tensorrt() {
    let cm = nvidia("GeForce RTX 2080", Platform::Unix);
    assert!(cm.supports_tensorrt());
    assert!(cm.accelerator_profile().tensorrt_capable);
    assert_eq!(cm.recommended_backend(), Backend::CudaTensorRT);
    assert!(!nvidia("GeForce GTX 1080", Platform::Unix).supports_tensorrt());
}

#[test]
fn upper_cased_names() {
    let cm = ConfigManager::new("c".into(), Platform::Unix, None);
    assert_eq!(cm.generation_from_upper("NVIDIA GEFORCE RTX 4090"), GpuGeneration::AdaLovelace);
    assert_eq!(cm.generation_from_upper("nvidia geforce rtx 4090"), GpuGeneration::Unknown);
    assert_eq!(GpuDetector::new().gpu_type_from_upper("RADEON PRO"), GpuType::Amd);
    assert!(portablesource::config::names_nvidia_upper("GEFORCE GTX"));
}

#[test]
fn execution_runs_buckets_in_order() {
    let (pm, plan) = plan_for(&["numpy", "torch==2.1.0", "triton"]);
    let (mut s, mut a) = pm.start_installation(&plan);
    assert_eq!(a, InstallAction::Run(PackageType::Regular));
    let mut seen = vec![a];
    while !matches!(a, InstallAction::Finish { .. } | InstallAction::Fail) {
        let r = pm.on_bucket_result(&plan, s, true, true);
        s = r.0;
        a = r.1;
        seen.push(a);
    }
    assert_eq!(seen, vec![
        InstallAction::Run(PackageType::Regular),
        InstallAction::Run(PackageType::Torch),
        InstallAction::Run(PackageType::Triton),
        InstallAction::CheckTorch,
        InstallAction::Finish { degraded: false },
    ]);
}

#[test]
fn execution_failure_semantics() {
    let (pm, plan) = plan_for(&["numpy", "torch==2.1.0"]);
    let (s, a) = pm.start_installation(&plan);
    assert_eq!(a, InstallAction::Run(PackageType::Regular));
    let (s, a) = pm.on_bucket_result(&plan, s, true, false);
    assert_eq!(a, InstallAction::RunWithPip(PackageType::Regular));
    let (s, a) = pm.on_bucket_result(&plan, s, false, false);
    assert_eq!(a, InstallAction::Run(PackageType::Torch));
    assert!(s.degraded);
    let (s, a) = pm.on_bucket_result(&plan, s, false, false);
    assert_eq!(a, InstallAction::RetryTorchUnpinned);
    let (s, a) = pm.on_bucket_result(&plan, s, false, false);
    assert_eq!(a, InstallAction::Fail);
    assert_eq!(s.phase, ExecPhase::Failed);
}

#[test]
fn transitive_torch_is_reinstalled() {
    let (pm, plan) = plan_for(&["numpy"]);
    let (s, _) = pm.start_installation(&plan);
    let (s, a) = pm.on_bucket_result(&plan, s, false, true);
    assert_eq!(a, InstallAction::CheckTorch);
    let (s, a) = pm.on_bucket_result(&plan, s, false, true);
    assert_eq!(a, InstallAction::ReinstallTorch);
    let (_, a) = pm.on_bucket_result(&plan, s, false, true);
    assert_eq!(a, InstallAction::Finish { degraded: false });
    let (pm2, plan2) = plan_for(&["torch"]);
    let (s, _) = pm2.start_installation(&plan2);
    let (s, _) = pm2.on_bucket_result(&plan2, s, false, true);
    let (_, a) = pm2.on_bucket_result(&plan2, s, false, true);
    assert_eq!(a, InstallAction::Finish { degraded: false });
    let (pm3, plan3) = plan_for(&[]);
    assert_eq!(pm3.start_installation(&plan3).1, InstallAction::CheckTorch);
}

#[test]
fn requirements_file_choice() {
    let (pm, _) = plan_for(&[]);
    let s = |v: &[&str]| v.iter().map(|x| x.to_string()).collect::<Vec<String>>();
    assert_eq!(pm.find_requirements_files(&vec![false, true, false, false, false], &s(&[]), &s(&[])).as_deref(), Some("requirements_pyp.txt"));
    let root = s(&["requirements-dev.txt", "requirements_gpu.txt"]);
    assert_eq!(pm.find_requirements_files(&vec![false; 5], &root, &s(&[])).as_deref(), Some("requirements_gpu.txt"));
    let root = s(&["README.md", "requirements-dev.txt"]);
    assert_eq!(pm.find_requirements_files(&vec![false; 5], &root, &s(&[])).as_deref(), Some("requirements-dev.txt"));
    assert_eq!(pm.find_requirements_files(&vec![false; 5], &s(&["requirements.txt"]), &s(&["requirements_cpu.txt"])).as_deref(), Some("requirements/requirements_cpu.txt"));
    assert_eq!(pm.find_requirements_files(&vec![false; 5], &s(&["x.txt"]), &s(&["y.txt"])), None);
}

#[test]
fn base_environment_commands() {
    assert_eq!(runtime_spec(CudaVersionLinux::Cuda126), "12.6");
    let args = micromamba_create_args("/ps/ps_env", "/ps/ps_env/mamba_env", Some(CudaVersionLinux::Cuda124));
    assert_eq!(args[..6].to_vec(), vec!["create", "-y", "-r", "/ps/ps_env", "-p", "/ps/ps_env/mamba_env"]);
    assert_eq!(args[args.len() - 2..].to_vec(), vec!["cuda-toolkit=12.4", "cudnn"]);
    assert_eq!(micromamba_create_args("r", "p", None).last().unwrap(), "ffmpeg");
    assert_eq!(tensorrt_fallback_args("py")[6], "nvidia-tensorrt");
    assert!(libcudart_present(&vec!["libc.so".into(), "libcudart.so.12".into()]));
    assert!(!libcudart_present(&vec!["libcublas.so".into()]));
    assert_eq!(base_env_cuda(None, Some(CudaVersion::Cuda128)), Some(CudaVersionLinux::Cuda128));
    assert_eq!(base_env_cuda(Some(CudaVersionLinux::Cuda121), Some(CudaVersion::Cuda128)), None);
}

#[test]
fn base_environment_requires_runtime_library() {
    let (s, a) = start_base_env(false, true);
    assert_eq!(a, BaseEnvAction::Download { pinned: false });
    let (s, a) = on_base_env_result(s, false);
    assert_eq!(a, BaseEnvAction::Download { pinned: true });
    let (s, a) = on_base_env_result(s, true);
    assert_eq!(a, BaseEnvAction::Create);
    let (s, a) = on_base_env_result(s, true);
    assert_eq!(a, BaseEnvAction::CheckPython);
    let (s, a) = on_base_env_result(s, true);
    assert_eq!(a, BaseEnvAction::CheckRuntime);
    let (s, a) = on_base_env_result(s, false);
    assert_eq!(a, BaseEnvAction::InstallFallback);
    let (s, a) = on_base_env_result(s, true);
    assert_eq!(a, BaseEnvAction::CheckRuntime);
    let (_, a) = on_base_env_result(s, false);
    assert_eq!(a, BaseEnvAction::Fail(BaseEnvFailure::RuntimeMissing));
    let (s, _) = start_base_env(true, false);
    let (s, _) = on_base_env_result(s, true);
    assert_eq!(on_base_env_result(s, true).1, BaseEnvAction::Done);
}

#[test]
fn provisioning_mode() {
    assert_eq!(detect_linux_mode(Some("CLOUD"), None), LinuxMode::Cloud);
    assert_eq!(detect_linux_mode(Some("desk"), Some("Cuda compilation tools, release 12.4")), LinuxMode::Desk);
    assert_eq!(detect_linux_mode(None, Some("Cuda compilation tools, release 12.4")), LinuxMode::Cloud);
    assert_eq!(detect_linux_mode(Some("other"), None), LinuxMode::Desk);
}

#[test]
fn removal_without_url_fails() {
    let mut h = RepositoryHandle::new("d".into(), None, "/p".into(), LinkProvenance::ServerLookup);
    assert_eq!(h.on_removed(), GitAction::Fail(GitFailure::MissingUrl));
}
