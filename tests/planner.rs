use portablesource::config::{ConfigManager, CudaVersionLinux, Platform};
use portablesource::gpu::{GpuInfo, GpuType};
use portablesource::pip_manager::{PipManager, RequirementsAnalyzer};
use portablesource::requirements::{analyze_requirements, parse_requirement_line, PackageType};

fn nvidia(name: &str, platform: Platform) -> ConfigManager {
    let g = GpuInfo { name: name.to_string(), gpu_type: GpuType::Nvidia, memory_mb: 12288, driver_version: None };
    let mut cm = ConfigManager::new("c.json".to_string(), platform, Some(g));
    cm.configure_install_path("/ps");
    cm
}

fn lines(v: &[&str]) -> Vec<String> {
    v.iter().map(|s| s.to_string()).collect()
}

#[test]
fn requirement_line_parts() {
    let p = parse_requirement_line("NumPy[extra1,extra2]>=1.26.4  # pinned").unwrap();
    assert_eq!(p.name, "numpy");
    assert_eq!(p.version.as_deref(), Some("1.26.4"));
    assert_eq!(p.extras, Some(vec!["extra1".to_string(), "extra2".to_string()]));
    assert_eq!(p.package_type, PackageType::Regular);
    assert_eq!(p.original_line, "NumPy[extra1,extra2]>=1.26.4  # pinned");
    assert_eq!(p.requirement(), "numpy==1.26.4");
    let t = parse_requirement_line("torchvision").unwrap();
    assert_eq!(t.package_type, PackageType::Torch);
    assert_eq!(t.version, None);
    assert_eq!(parse_requirement_line("onnxruntime-gpu==1.17").unwrap().package_type, PackageType::Onnxruntime);
    assert_eq!(parse_requirement_line("insightface==0.7.3").unwrap().package_type, PackageType::Insightface);
    assert_eq!(parse_requirement_line("triton-windows").unwrap().package_type, PackageType::Triton);
    assert_eq!(parse_requirement_line("torchmetrics").unwrap().package_type, PackageType::Regular);
}

#[test]
fn skipped_lines() {
    assert!(parse_requirement_line("").is_none());
    assert!(parse_requirement_line("   ").is_none());
    assert!(parse_requirement_line("# comment").is_none());
    assert!(parse_requirement_line("-r other.txt").is_none());
    assert!(parse_requirement_line("--extra-index-url https://x").is_none());
    assert!(parse_requirement_line("foo --index-url https://x").is_none());
}

#[test]
fn buckets_partition_the_named_lines() {
    let text = lines(&[
        "numpy==1.26.4", "", "# a comment", "--index-url https://download.pytorch.org/whl/cu124",
        "torch==2.1.0", "torchaudio", "onnxruntime==1.16.0", "triton==2.1.0", "insightface==0.7.3",
        "opencv-python", "-e .",
    ]);
    let pkgs = analyze_requirements(&text);
    assert_eq!(pkgs.len(), 7);
    let cm = nvidia("NVIDIA GeForce RTX 3080", Platform::Windows);
    let plan = RequirementsAnalyzer::new(&cm, None).create_installation_plan(pkgs);
    let sizes = [plan.regular_packages.len(), plan.torch_packages.len(), plan.onnx_packages.len(),
        plan.triton_packages.len(), plan.insightface_packages.len()];
    assert_eq!(sizes, [2, 2, 1, 1, 1]);
    assert_eq!(sizes.iter().sum::<usize>(), 7);
    assert_eq!(plan.regular_packages[1].name, "opencv-python");
    assert_eq!(plan.torch_packages[0].name, "torch");
    assert_eq!(plan.torch_packages[1].name, "torchaudio");
}

#[test]
fn scenario_ampere_buckets_windows() {
    let text = lines(&["numpy==1.26.4", "torch==2.1.0", "onnxruntime==1.16.0", "triton==2.1.0", "insightface==0.7.3"]);
    let cm = nvidia("NVIDIA GeForce RTX 3080", Platform::Windows);
    let plan = RequirementsAnalyzer::new(&cm, None).create_installation_plan(analyze_requirements(&text));
    assert_eq!(plan.torch_index_url.as_deref(), Some("https://download.pytorch.org/whl/cu124"));
    assert_eq!(plan.onnx_package_name.as_deref(), Some("onnxruntime-gpu"));
    assert!(!plan.prerelease_required);
    let pm = PipManager::new(&cm, None);
    let cmds = pm.installation_commands(&plan, "demo", false, true);
    let kinds: Vec<PackageType> = cmds.iter().map(|c| c.0).collect();
    assert_eq!(kinds, vec![PackageType::Regular, PackageType::Onnxruntime, PackageType::Torch, PackageType::Triton, PackageType::Insightface]);
    let py = "/ps\\envs\\demo\\python.exe".to_string();
    assert_eq!(cmds[0].1, vec![py.clone(), "-m".into(), "pip".into(), "install".into(), "--resolution".into(), "highest".into(), "--index-strategy".into(), "unsafe-best-match".into(), "numpy==1.26.4".into()]);
    assert_eq!(cmds[1].1.last().unwrap(), "onnxruntime-gpu==1.16.0");
    assert_eq!(cmds[2].1[4..7].to_vec(), vec!["--index-url".to_string(), "https://download.pytorch.org/whl/cu124".to_string(), "--index-strategy".to_string()]);
    assert_eq!(cmds[2].1.last().unwrap(), "torch==2.1.0");
    assert_eq!(cmds[3].1.last().unwrap(), "triton-windows");
    assert!(cmds[4].1.iter().any(|a| a.ends_with("insightface-0.7.3-cp311-cp311-win_amd64.whl")));
    assert_eq!(cmds[4].1.last().unwrap(), "numpy==1.26.4");
}

#[test]
fn scenario_ampere_buckets_unix() {
    let text = lines(&["numpy==1.26.4", "torch==2.1.0", "onnxruntime==1.16.0", "triton==2.1.0", "insightface==0.7.3"]);
    let cm = nvidia("NVIDIA GeForce RTX 3080", Platform::Unix);
    let plan = RequirementsAnalyzer::new(&cm, Some(CudaVersionLinux::Cuda124)).create_installation_plan(analyze_requirements(&text));
    let pm = PipManager::new(&cm, Some(CudaVersionLinux::Cuda124));
    let cmds = pm.installation_commands(&plan, "demo", true, false);
    assert_eq!(cmds[0].1[..5].to_vec(), vec!["python3".to_string(), "-m".into(), "uv".into(), "pip".into(), "install".into()]);
    assert!(cmds[2].1.contains(&"https://download.pytorch.org/whl/cu124".to_string()));
    assert_eq!(cmds[3].1.last().unwrap(), "triton");
    assert_eq!(cmds[4].1[cmds[4].1.len() - 2..].to_vec(), vec!["insightface".to_string(), "numpy==1.26.4".to_string()]);
}

#[test]
fn onnx_variant_per_vendor() {
    let pm = PipManager::new(&nvidia("NVIDIA RTX A4000", Platform::Unix), None);
    assert_eq!(pm.apply_onnx_gpu_detection("onnxruntime==1.16.0"), "onnxruntime-gpu==1.16.0");
    assert_eq!(pm.apply_onnx_gpu_detection("onnxruntime-gpu==1.16.0"), "onnxruntime-gpu==1.16.0");
    assert_eq!(pm.apply_onnx_gpu_detection("numpy"), "numpy");
    let amd = GpuInfo { name: "AMD Radeon RX 7900".to_string(), gpu_type: GpuType::Amd, memory_mb: 0, driver_version: None };
    let win = ConfigManager::new("c.json".to_string(), Platform::Windows, Some(amd));
    let pm = PipManager::new(&win, None);
    assert_eq!(pm.apply_onnx_gpu_detection("onnxruntime"), "onnxruntime-directml");
    assert_eq!(pm.get_onnx_package_spec(), "onnxruntime-directml");
    assert_eq!(pm.get_default_torch_index_url(), "https://download.pytorch.org/whl/cpu");
}

#[test]
fn system_runtime_selects_index_on_unix() {
    let none = ConfigManager::new("c.json".to_string(), Platform::Unix, None);
    let pm = PipManager::new(&none, Some(CudaVersionLinux::Cuda128));
    assert_eq!(pm.get_default_torch_index_url(), "https://download.pytorch.org/whl/nightly/cu128");
    assert!(pm.needs_onnx_nightly());
    let pm = PipManager::new(&none, Some(CudaVersionLinux::Cuda121));
    assert_eq!(pm.get_default_torch_index_url_opt().as_deref(), Some("https://download.pytorch.org/whl/cu121"));
    let pm = PipManager::new(&none, None);
    assert_eq!(pm.get_default_torch_index_url(), "https://download.pytorch.org/whl/cpu");
}

#[test]
fn regular_requirement_adjustments() {
    let unix_cpu = PipManager::new(&ConfigManager::new("c.json".to_string(), Platform::Unix, None), None);
    let tf = parse_requirement_line("tensorflow").unwrap();
    assert_eq!(unix_cpu.regular_requirement(&tf), "tensorflow-cpu==2.15.0");
    let te = parse_requirement_line("typing-extensions==4.5.0").unwrap();
    assert_eq!(unix_cpu.regular_requirement(&te), "typing-extensions>=4.7.1");
    let win = PipManager::new(&ConfigManager::new("c.json".to_string(), Platform::Windows, None), None);
    assert_eq!(win.regular_requirement(&tf), "tensorflow==2.15.0");
}

#[test]
fn environment_commands() {
    let pm = PipManager::new(&nvidia("NVIDIA GeForce RTX 3080", Platform::Unix), None);
    assert_eq!(pm.get_python_in_env("demo"), "/ps/envs/demo/bin/python");
    assert_eq!(pm.get_pip_executable("demo", false), vec!["python".to_string(), "-m".into(), "pip".into()]);
    assert_eq!(pm.get_uv_executable("demo", true), vec!["/ps/envs/demo/bin/python".to_string(), "-m".into(), "uv".into()]);
    assert_eq!(pm.install_repo_as_package("demo", false, false).last().unwrap(), ".");
    assert_eq!(pm.torch_check_command("demo", false), vec!["python".to_string(), "-m".into(), "pip".into(), "show".into(), "torch".into()]);
    let re = pm.torch_reinstall_command("demo", true, false);
    assert_eq!(re[5..].to_vec(), vec!["--force-reinstall".to_string(), "--index-url".into(), "https://download.pytorch.org/whl/cu124".into(), "torch".into(), "torchvision".into(), "torchaudio".into()]);
    let plan = RequirementsAnalyzer::new(&nvidia("NVIDIA GeForce RTX 3080", Platform::Unix), None)
        .create_installation_plan(analyze_requirements(&lines(&["torch==2.1.0", "torchvision==0.16"])));
    let retry = pm.torch_retry_command(&plan, "demo", false, false);
    assert_eq!(retry[retry.len() - 2..].to_vec(), vec!["torch".to_string(), "torchvision".to_string()]);
}

#[test]
fn scenario_ampere_buckets_unix_without_system_runtime() {
    let text = lines(&["numpy==1.26.4", "torch==2.1.0", "onnxruntime==1.16.0", "triton==2.1.0", "insightface==0.7.3"]);
    let cm = nvidia("NVIDIA GeForce RTX 3080", Platform::Unix);
    let plan = RequirementsAnalyzer::new(&cm, None).create_installation_plan(analyze_requirements(&text));
    assert_eq!(plan.torch_index_url.as_deref(), Some("https://download.pytorch.org/whl/cu124"));
    let cmds = PipManager::new(&cm, None).installation_commands(&plan, "demo", false, false);
    assert!(cmds[2].1.contains(&"https://download.pytorch.org/whl/cu124".to_string()));
    assert_eq!(cmds[2].1.last().unwrap(), "torch==2.1.0");
    assert_eq!(cmds[1].1.last().unwrap(), "onnxruntime-gpu==1.16.0");
}
