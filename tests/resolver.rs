use portablesource::config::{
    Backend, ConfigManager, CudaVersion, GpuGeneration, Platform, ToolLinks,
};
use portablesource::gpu::{check_nv_gpu, GpuDetector, GpuInfo, GpuType};
use portablesource::pip_manager::{PipManager, RequirementsAnalyzer};

fn device(name: &str, gpu_type: GpuType) -> GpuInfo {
    GpuInfo { name: name.to_string(), gpu_type, memory_mb: 24576, driver_version: Some("555.85".to_string()) }
}

fn manager(name: &str, gpu_type: GpuType, platform: Platform) -> ConfigManager {
    ConfigManager::new("config.json".to_string(), platform, Some(device(name, gpu_type)))
}

#[test]
fn every_table_pattern_maps_to_its_generation() {
    let cm = ConfigManager::new("c.json".to_string(), Platform::Unix, None);
    let table: Vec<(GpuGeneration, Vec<&str>)> = vec![
        (GpuGeneration::Pascal, vec!["GTX 10", "GTX 1050", "GTX 1060", "GTX 1070", "GTX 1080", "TITAN X", "TITAN XP"]),
        (GpuGeneration::Turing, vec!["GTX 16", "GTX 1650", "GTX 1660", "RTX 20", "RTX 2060", "RTX 2070", "RTX 2080", "TITAN RTX"]),
        (GpuGeneration::Ampere, vec!["RTX 30", "RTX 3060", "RTX 3070", "RTX 3080", "RTX 3090", "RTX A", "A40", "A100"]),
        (GpuGeneration::AdaLovelace, vec!["RTX 40", "RTX 4060", "RTX 4070", "RTX 4080", "RTX 4090", "RTX ADA", "L40", "L4"]),
        (GpuGeneration::Blackwell, vec!["RTX 50", "RTX 5060", "RTX 5070", "RTX 5080", "RTX 5090"]),
    ];
    for (g, patterns) in table {
        for p in patterns {
            assert_eq!(cm.detect_gpu_generation(p), g, "pattern {}", p);
            assert_eq!(cm.detect_gpu_generation(&p.to_lowercase()), g, "lower-case {}", p);
        }
    }
}

#[test]
fn unrecognised_name_is_unknown() {
    let cm = ConfigManager::new("c.json".to_string(), Platform::Unix, None);
    assert_eq!(cm.detect_gpu_generation("Matrox G200"), GpuGeneration::Unknown);
    assert_eq!(cm.detect_gpu_generation(""), GpuGeneration::Unknown);
}

#[test]
fn scenario_rtx_4090() {
    let cm = manager("NVIDIA GeForce RTX 4090", GpuType::Nvidia, Platform::Windows);
    let p = cm.accelerator_profile();
    assert_eq!(p.generation, GpuGeneration::AdaLovelace);
    assert_eq!(p.backend, Backend::CudaTensorRT);
    assert!(p.tensorrt_capable);
    assert_eq!(p.runtime_version, Some(CudaVersion::Cuda128));
    assert_eq!(p.compute_capability, "8.9");
    assert_eq!(cm.get_recommended_backend(), "cuda_tensorrt");
    assert!(cm.supports_tensorrt());
    assert!(cm.has_cuda());
}

#[test]
fn scenario_rtx_5090_prerelease() {
    let cm = manager("RTX 5090", GpuType::Unknown, Platform::Unix);
    assert_eq!(cm.detect_current_gpu_generation(), GpuGeneration::Blackwell);
    let pm = PipManager::new(&cm, None);
    assert_eq!(pm.get_default_torch_index_url(), "https://download.pytorch.org/whl/nightly/cu128");
    assert!(pm.needs_onnx_nightly());
    assert_eq!(pm.get_onnx_package_spec(), "onnxruntime-gpu>=1.20");
    let ra = RequirementsAnalyzer::new(&cm, None);
    let plan = ra.create_installation_plan(Vec::new());
    assert!(plan.prerelease_required);
    assert_eq!(plan.torch_index_url.as_deref(), Some("https://download.pytorch.org/whl/nightly/cu128"));
}

#[test]
fn backend_decision_table() {
    assert_eq!(manager("GeForce GTX 1080", GpuType::Nvidia, Platform::Unix).recommended_backend(), Backend::Cuda);
    assert_eq!(manager("GeForce RTX 2080", GpuType::Nvidia, Platform::Unix).recommended_backend(), Backend::CudaTensorRT);
    assert_eq!(manager("NVIDIA Mystery", GpuType::Nvidia, Platform::Unix).recommended_backend(), Backend::Cpu);
    assert_eq!(manager("AMD Radeon RX 7900", GpuType::Amd, Platform::Windows).recommended_backend(), Backend::DirectML);
    assert_eq!(manager("AMD Radeon RX 7900", GpuType::Amd, Platform::Unix).recommended_backend(), Backend::Cpu);
    assert_eq!(manager("Intel Arc A770", GpuType::Intel, Platform::Unix).recommended_backend(), Backend::OpenVINO);
    let none = ConfigManager::new("c.json".to_string(), Platform::Windows, None);
    assert_eq!(none.recommended_backend(), Backend::Cpu);
    assert_eq!(none.get_gpu_name(), "Unknown GPU");
    assert_eq!(none.get_cuda_version(), None);
}

#[test]
fn identical_profiles_give_identical_choices() {
    let a = PipManager::new(&manager("NVIDIA GeForce RTX 3080", GpuType::Nvidia, Platform::Windows), None);
    let b = PipManager::new(&manager("NVIDIA GeForce RTX 3080", GpuType::Nvidia, Platform::Windows), None);
    assert_eq!(a.get_default_torch_index_url(), b.get_default_torch_index_url());
    assert_eq!(a.get_onnx_package_spec(), b.get_onnx_package_spec());
    assert_eq!(a.needs_onnx_nightly(), b.needs_onnx_nightly());
    assert_eq!(a.get_default_torch_index_url(), "https://download.pytorch.org/whl/cu124");
}

#[test]
fn runtime_and_capability_tables() {
    let cm = ConfigManager::new("c.json".to_string(), Platform::Unix, None);
    assert_eq!(cm.get_recommended_cuda_version(&GpuGeneration::Pascal), Some(CudaVersion::Cuda118));
    assert_eq!(cm.get_recommended_cuda_version(&GpuGeneration::Turing), Some(CudaVersion::Cuda124));
    assert_eq!(cm.get_recommended_cuda_version(&GpuGeneration::Blackwell), Some(CudaVersion::Cuda128));
    assert_eq!(cm.get_recommended_cuda_version(&GpuGeneration::Unknown), None);
    assert_eq!(cm.get_compute_capability(&GpuGeneration::Pascal), "6.1");
    assert_eq!(cm.get_compute_capability(&GpuGeneration::Unknown), "5.0");
    assert_eq!(CudaVersion::Cuda124.get_download_url(), "https://files.portables.dev/CUDA/CUDA_124.tar.zst");
    assert_eq!(ToolLinks::Git.url(), "https://files.portables.dev/git.tar.zst");
}

#[test]
fn cuda_paths_follow_install_path() {
    let mut cm = manager("NVIDIA GeForce RTX 3060", GpuType::Nvidia, Platform::Unix);
    assert_eq!(cm.configure_install_path("/opt/ps"), "/opt/ps");
    assert_eq!(cm.get_cuda_base_path().as_deref(), Some("/opt/ps/ps_env/CUDA"));
    assert_eq!(cm.get_cuda_bin().as_deref(), Some("/opt/ps/ps_env/CUDA/bin"));
    assert_eq!(cm.get_cuda_lib_64().as_deref(), Some("/opt/ps/ps_env/CUDA/lib/x64"));
    assert_eq!(cm.get_cuda_include().as_deref(), Some("/opt/ps/ps_env/CUDA/include"));
    assert_eq!(cm.get_config().install_path, "/opt/ps");
    let vars = cm.configure_environment_vars();
    assert_eq!(vars.len(), 3);
    assert_eq!(vars[1], ("TEMP".to_string(), "/opt/ps/tmp".to_string()));
    cm.set_config_path_to_install_dir();
    assert_eq!(cm.config_path, "/opt/ps/portablesource_config.json");
    let amd = manager("AMD Radeon", GpuType::Amd, Platform::Unix);
    assert_eq!(amd.get_cuda_base_path(), None);
    assert_eq!(amd.get_cuda_download_link(None), None);
    assert_eq!(amd.get_cuda_download_link(Some(CudaVersion::Cuda118)).as_deref(), Some("https://files.portables.dev/CUDA/CUDA_118.tar.zst"));
}

#[test]
fn setup_state_is_recorded() {
    let mut cm = ConfigManager::new("c.json".to_string(), Platform::Unix, None);
    assert!(!cm.is_environment_setup_completed());
    cm.hydrate_from_existing_env(true, true, false).unwrap();
    assert!(!cm.is_environment_setup_completed(), "no install path yet");
    cm.configure_install_path("/p");
    cm.hydrate_from_existing_env(true, false, true).unwrap();
    assert!(cm.is_environment_setup_completed());
    cm.mark_environment_setup_completed(false).unwrap();
    assert!(!cm.is_environment_setup_completed());
}

#[test]
fn vendor_from_device_name() {
    let d = GpuDetector::new();
    assert_eq!(d.determine_gpu_type("nvidia geforce rtx 3060"), GpuType::Nvidia);
    assert_eq!(d.determine_gpu_type("Quadro P4000"), GpuType::Nvidia);
    assert_eq!(d.determine_gpu_type("Radeon RX 580"), GpuType::Amd);
    assert_eq!(d.determine_gpu_type("Intel(R) UHD Graphics"), GpuType::Intel);
    assert_eq!(d.determine_gpu_type("Matrox"), GpuType::Unknown);
}

#[test]
fn nvidia_query_line() {
    let d = GpuDetector::new();
    let g = d.parse_nvidia_smi_output("NVIDIA GeForce RTX 4090, 24564, 555.85").unwrap().unwrap();
    assert_eq!(g.name, "NVIDIA GeForce RTX 4090");
    assert_eq!(g.memory_mb, 24564);
    assert_eq!(g.driver_version.as_deref(), Some("555.85"));
    assert_eq!(g.gpu_type, GpuType::Nvidia);
    assert!(d.parse_nvidia_smi_output("NVIDIA, lots, 1").is_err());
    assert!(d.parse_nvidia_smi_output("only one field").is_err());
    assert!(d.parse_nvidia_smi_output("x, 99999999999, 1").is_err());
    assert!(d.has_nvidia_gpu(Some("A, 1, 2")));
    assert!(!d.has_nvidia_gpu(None));
}

#[test]
fn device_listing_lines() {
    let d = GpuDetector::new();
    let g = d.parse_lspci_line("01:00.0 \"VGA compatible controller\" \"NVIDIA Corporation\" \"AD102 [GeForce RTX 4090]\"").unwrap();
    assert_eq!(g.gpu_type, GpuType::Nvidia);
    assert_eq!(g.name, "VGA compatible controller");
    assert!(d.parse_lspci_line("00:02.0 \"Host bridge\" \"Foo\"").is_none());
    let r = d.parse_glxinfo_line("OpenGL renderer string: AMD Radeon Graphics");
    assert_eq!(r.gpu_type, GpuType::Amd);
}

#[test]
fn best_device_prefers_nvidia() {
    let d = GpuDetector::new();
    let devices = vec![device("Intel UHD", GpuType::Intel), device("GeForce GTX 1080", GpuType::Nvidia)];
    assert_eq!(d.get_best_gpu(None, devices).unwrap().name, "GeForce GTX 1080");
    let devices = vec![device("Intel UHD", GpuType::Intel), device("AMD Radeon", GpuType::Amd)];
    assert_eq!(d.get_best_gpu(None, devices).unwrap().name, "Intel UHD");
    assert!(d.get_best_gpu(None, Vec::new()).is_none());
    let q = device("NVIDIA A100", GpuType::Nvidia);
    assert_eq!(d.get_best_gpu(Some(q), vec![device("Intel UHD", GpuType::Intel)]).unwrap().name, "NVIDIA A100");
}

#[test]
fn modern_nvidia_cards() {
    assert!(check_nv_gpu(&vec![device("Intel UHD", GpuType::Intel), device("NVIDIA GeForce GTX 1660", GpuType::Nvidia)]));
    assert!(check_nv_gpu(&vec![device("nvidia a100-sxm4", GpuType::Nvidia)]));
    assert!(!check_nv_gpu(&vec![device("NVIDIA GeForce GTX 980", GpuType::Nvidia)]));
    assert!(!check_nv_gpu(&vec![device("RTX 3060 clone", GpuType::Amd)]));
}

#[test]
fn management_interface_lines() {
    let d = GpuDetector::new();
    let g = d.parse_wmic_line("DESKTOP,31.0.15.5585,4293918720,NVIDIA GeForce RTX 3060").unwrap();
    assert_eq!(g.name, "NVIDIA GeForce RTX 3060");
    assert_eq!(g.memory_mb, 4095);
    assert_eq!(g.driver_version.as_deref(), Some("31.0.15.5585"));
    assert_eq!(g.gpu_type, GpuType::Nvidia);
    assert!(d.parse_wmic_line("Node,DriverVersion,AdapterRAM,Name").is_none());
    assert!(d.parse_wmic_line("   ").is_none());
    assert!(d.parse_wmic_line("a,b").is_none());
    let h = d.parse_wmic_line("PC,,x,Intel(R) UHD Graphics 630").unwrap();
    assert_eq!(h.memory_mb, 0);
    assert_eq!(h.driver_version, None);
    assert_eq!(h.gpu_type, GpuType::Intel);
}

#[test]
fn configuration_summary_text() {
    let mut cm = manager("NVIDIA GeForce RTX 4090", GpuType::Nvidia, Platform::Unix);
    cm.configure_install_path("/ps");
    cm.configure_environment_vars();
    let s = cm.get_config_summary();
    assert!(s.starts_with("PortableSource Configuration Summary\n"));
    assert!(s.contains("Environment Setup: [ERROR] Not completed"));
    assert!(s.contains("  Name: NVIDIA GeForce RTX 4090\n"));
    assert!(s.contains("  Generation: AdaLovelace\n"));
    assert!(s.contains("  CUDA Version: CUDA 128\n"));
    assert!(s.contains("  Memory: 24GB\n"));
    assert!(s.contains("  Backend: cuda_tensorrt\n"));
    assert!(s.contains("  TensorRT Support: true\n"));
    assert!(s.ends_with("Install Path: /ps\n\nEnvironment Variables: 3 configured"));
    let none = ConfigManager::new("c".to_string(), Platform::Unix, None).get_config_summary();
    assert!(none.contains("  Name: Unknown GPU\n  Generation: Unknown\n  CUDA Version: None\n  CUDA Paths Configured: No\n  Compute Capability: 5.0\n  Memory: 0GB\n  Backend: cpu"));
}

#[test]
fn configuration_can_be_changed_in_place() {
    let mut cm = ConfigManager::new("c.json".to_string(), Platform::Unix, None);
    cm.get_config_mut().environment_setup_completed = true;
    assert!(cm.is_environment_setup_completed());
    let em = portablesource::envs_manager::PortableEnvironmentManager::new("/ps", Platform::Windows);
    assert_eq!(em.ps_env_path, "/ps\\ps_env");
}
