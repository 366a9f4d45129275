use portablesource::artifact::{ArtifactAction, ArtifactState, ArtifactTask};
use portablesource::cli::{Cli, Commands};
use portablesource::command_runner::{CommandRunner, CommandType};
use portablesource::config::{ConfigManager, CudaVersionLinux, Platform};
use portablesource::envs_manager::{
    cuda_release_from_nvcc_output, extract_percent, extract_version_from_output, format_7z_out_arg,
    parse_total_from_content_range, sanitize_windows_path_for_7z, PortableEnvironmentManager,
};
use portablesource::error::PortableSourceError;
use portablesource::envs_manager::tool_status;
use portablesource::pip_manager::{entry_module, PipManager};
use portablesource::git_manager::{GitAction, GitFailure, GitManager, LinkProvenance, RepoState, RepositoryHandle};
use portablesource::main_file_finder::MainFileFinder;
use portablesource::repository_installer::{default_fallback_repositories, FallbackRepo, RepositoryInstaller};
use portablesource::server_client::ServerClient;

fn task() -> ArtifactTask {
    ArtifactTask::new("https://files.portables.dev/git.tar.zst".into(), "/ps/ps_env/git.tar.zst".into(), "/ps/ps_env/git/bin/git".into())
}

#[test]
fn acquisition_is_idempotent() {
    let mut t = task();
    assert_eq!(t.begin(true, 0), ArtifactAction::Done);
    assert_eq!(t.state, ArtifactState::Installed);
    assert_eq!(t.begin(false, 123), ArtifactAction::Done);
    assert_eq!(t.state, ArtifactState::Installed);
    assert_eq!(t.offset, 0);
}

#[test]
fn resume_from_forty_megabytes() {
    let mut t = task();
    assert_eq!(t.begin(false, 40_000_000), ArtifactAction::Request { from: Some(40_000_000) });
    assert_eq!(t.on_response(true, true, Some(60_000_000), Some(100_000_000)), ArtifactAction::Write { append: true });
    assert_eq!(t.total, Some(100_000_000));
    for _ in 0..60 {
        t.on_chunk(1_000_000);
    }
    assert_eq!(t.offset, 100_000_000);
    assert_eq!(t.offset, t.total.unwrap());
    assert_eq!(t.progress_position(), 100_000_000);
    assert_eq!(t.on_download_complete(), ArtifactAction::Extract);
    assert_eq!(t.on_extract_exit(true), ArtifactAction::RemoveArchiveAndVerify);
    assert_eq!(t.on_verify(true), ArtifactAction::Done);
    assert_eq!(t.state, ArtifactState::Installed);
}

#[test]
fn resumed_bytes_equal_fresh_download() {
    let resource: Vec<u8> = (0..1000u32).map(|i| (i * 7 % 251) as u8).collect();
    let mut file: Vec<u8> = resource[..400].to_vec();
    let mut t = task();
    let from = match t.begin(false, file.len() as u64) {
        ArtifactAction::Request { from: Some(f) } => f as usize,
        other => panic!("unexpected {:?}", other),
    };
    let body = &resource[from..];
    match t.on_response(true, true, Some(body.len() as u64), None) {
        ArtifactAction::Write { append: true } => {}
        other => panic!("unexpected {:?}", other),
    }
    for chunk in body.chunks(64) {
        file.extend_from_slice(chunk);
        t.on_chunk(chunk.len() as u64);
    }
    assert_eq!(file, resource);
    assert_eq!(t.total, Some(1000));
    assert_eq!(t.offset, 1000);
}

#[test]
fn rejected_range_restarts_from_zero() {
    let mut t = task();
    t.begin(false, 500);
    assert_eq!(t.on_response(false, false, None, None), ArtifactAction::RequestFresh);
    assert_eq!(t.offset, 0);
    assert_eq!(t.on_fresh_response(true, Some(2048)), ArtifactAction::Write { append: false });
    assert_eq!(t.total, Some(2048));
    let mut u = task();
    u.begin(false, 0);
    assert_eq!(u.on_response(false, false, None, None), ArtifactAction::Fail);
    assert_eq!(u.state, ArtifactState::Failed);
    let mut w = task();
    w.begin(false, 0);
    w.on_response(true, false, None, None);
    w.on_download_complete();
    assert_eq!(w.on_extract_exit(false), ArtifactAction::Fail);
}

#[test]
fn corruption_recovery_reclones() {
    let mut h = RepositoryHandle::new("demo".into(), Some("https://github.com/a/demo.git".into()), "/ps/repos/demo".into(), LinkProvenance::DirectUrl);
    assert_eq!(h.ensure(true, true), GitAction::FetchAll);
    assert_eq!(h.on_command(false, Some(1)), GitAction::ResetPrimary);
    assert_eq!(h.on_command(false, Some(1)), GitAction::ResetSecondary);
    assert_eq!(h.on_command(true, Some(0)), GitAction::Pull);
    assert_eq!(h.on_command(false, Some(128)), GitAction::RemoveDirectory);
    assert_eq!(h.state, RepoState::Corrupted);
    assert_eq!(h.on_removed(), GitAction::Clone);
    assert_eq!(h.on_command(true, Some(0)), GitAction::Done);
    assert_eq!(h.state, RepoState::Clean);
    let mut again = RepositoryHandle::new("demo".into(), Some("u".into()), "/p".into(), LinkProvenance::DirectUrl);
    assert_eq!(again.ensure(false, false), GitAction::Clone);
}

#[test]
fn update_gives_up_after_three_pulls() {
    let mut h = RepositoryHandle::new("demo".into(), Some("u".into()), "/p".into(), LinkProvenance::ServerLookup);
    h.ensure(true, true);
    h.on_command(true, Some(0));
    assert_eq!(h.on_command(true, Some(0)), GitAction::Pull);
    for _ in 0..2 {
        assert_eq!(h.on_command(false, Some(1)), GitAction::FixFetch);
        assert_eq!(h.on_command(true, Some(0)), GitAction::FixReset);
        assert_eq!(h.on_command(true, Some(0)), GitAction::Pull);
    }
    assert_eq!(h.on_command(false, Some(1)), GitAction::Fail(GitFailure::UpdateFailed));
    let mut plain = RepositoryHandle::new("d".into(), None, "/p".into(), LinkProvenance::HostShorthand);
    assert_eq!(plain.ensure(true, false), GitAction::Fail(GitFailure::NotARepository));
    assert_eq!(plain.ensure(false, false), GitAction::Fail(GitFailure::MissingUrl));
}

#[test]
fn git_commands() {
    let g = GitManager::new(None);
    assert_eq!(g.git_executable, "git");
    assert_eq!(g.command_for(GitAction::Clone, "https://x/y.git", "y").unwrap(), vec!["git", "clone", "https://x/y.git", "y"]);
    assert_eq!(g.command_for(GitAction::ResetSecondary, "", "").unwrap(), vec!["git", "reset", "--hard", "origin/master"]);
    assert!(g.command_for(GitAction::Done, "", "").is_none());
    let fixes = GitManager::new(Some("/ps/git/bin/git".into())).fix_git_issues();
    assert_eq!(fixes[0], vec!["/ps/git/bin/git", "fetch", "origin"]);
    assert_eq!(fixes[1], vec!["/ps/git/bin/git", "reset", "--hard", "origin/main"]);
}

#[test]
fn progress_and_ranges() {
    assert_eq!(extract_percent(" 45% 12 - file.dll"), Some(45));
    assert_eq!(extract_percent("100%"), Some(100));
    assert_eq!(extract_percent("250%"), Some(100));
    assert_eq!(extract_percent("no digits %"), None);
    assert_eq!(extract_percent("plain"), None);
    assert_eq!(extract_percent("99999999999%"), None);
    assert_eq!(parse_total_from_content_range("bytes 40000000-99999999/100000000"), Some(100_000_000));
    assert_eq!(parse_total_from_content_range("bytes 0-1/ 7 "), Some(7));
    assert_eq!(parse_total_from_content_range("bytes */*"), None);
    assert_eq!(parse_total_from_content_range("garbage"), None);
}

#[test]
fn unpack_paths() {
    assert_eq!(sanitize_windows_path_for_7z("\\\\?\\C:\\ps\\ps_env\\"), "C:\\ps\\ps_env");
    assert_eq!(sanitize_windows_path_for_7z("\"C:\\a b\""), "C:\\a b");
    assert_eq!(format_7z_out_arg("C:\\a b\\"), "-o\"C:\\a b\"");
    assert_eq!(format_7z_out_arg("/ps/ps_env"), "-o/ps/ps_env");
}

#[test]
fn version_lines() {
    assert_eq!(extract_version_from_output("python", "Python 3.11.9\n"), "Python 3.11.9");
    assert_eq!(extract_version_from_output("git", "warning: x\ngit version 2.45.1\n"), "git version 2.45.1");
    assert_eq!(extract_version_from_output("nvcc", "nvcc: NVIDIA (R) Cuda compiler driver\nCuda compilation tools, release 12.4, V12.4.131"), "nvcc: NVIDIA (R) Cuda compiler driver");
    assert_eq!(extract_version_from_output("tool", "C:\\> set X\n(venv) > y\n  v1.2  "), "v1.2");
    assert_eq!(extract_version_from_output("tool", "   "), "Unknown version");
    assert_eq!(extract_version_from_output("tool", "SET A\r\nset b"), "Unknown version");
}

#[test]
fn system_runtime_from_compiler_banner() {
    let out = "nvcc: NVIDIA (R) Cuda compiler driver\nCuda compilation tools, release 12.4, V12.4.131\nBuild cuda_12.4";
    assert_eq!(cuda_release_from_nvcc_output(out), Some(CudaVersionLinux::Cuda124));
    assert_eq!(cuda_release_from_nvcc_output("Cuda compilation tools, release 12.8, V12.8.61"), Some(CudaVersionLinux::Cuda128));
    assert_eq!(cuda_release_from_nvcc_output("Cuda compilation tools, release 10.2, V10.2.89"), None);
    assert_eq!(cuda_release_from_nvcc_output("command not found"), None);
}

#[test]
fn toolchain_layout() {
    let cm = ConfigManager::new("c.json".into(), Platform::Unix, None);
    let em = PortableEnvironmentManager::with_config("/ps", cm);
    assert_eq!(em.ps_env_path, "/ps/ps_env");
    let specs = em.build_tool_specs();
    assert_eq!(specs.len(), 3);
    assert_eq!(specs[1].executable_path, "git/bin/git");
    assert_eq!(em.tool_executable_path("python").as_deref(), Some("/ps/ps_env/python/bin/python"));
    assert_eq!(em.tool_executable_path("cuda"), None);
    assert_eq!(em.python_candidates(), vec!["/ps/ps_env/mamba_env/bin/python".to_string(), "/ps/ps_env/python/bin/python".to_string()]);
    assert_eq!(em.get_python_executable(&vec![false, true]).as_deref(), Some("/ps/ps_env/python/bin/python"));
    assert_eq!(em.get_python_executable(&vec![false, false]), None);
    assert_eq!(em.get_ffmpeg_executable(true).as_deref(), Some("/ps/ps_env/ffmpeg/ffmpeg.exe"));
    assert!(!em.check_environment_status(true, true, false, true));
    assert_eq!(em.cuda_directory(), "/ps/ps_env/CUDA");
}

#[test]
fn repository_names_and_labels() {
    let cm = ConfigManager::new("c.json".into(), Platform::Unix, None);
    let ri = RepositoryInstaller::new("/ps", cm);
    assert_eq!(ri.server_client.server_url, "https://server.portables.dev");
    assert!(ri.is_repository_url("https://github.com/a/b"));
    assert!(ri.is_repository_url("git@github.com:a/b.git"));
    assert!(!ri.is_repository_url("comfyui"));
    assert_eq!(ri.extract_repo_name_from_url("https://github.com/comfyanonymous/ComfyUI.git").unwrap(), "ComfyUI");
    assert_eq!(ri.extract_repo_name_from_url("https://github.com/a/b").unwrap(), "b");
    assert_eq!(ri.extract_repo_name_from_url("https://github.com/a/b.git?tab=readme#top").unwrap(), "b");
    assert!(ri.extract_repo_name_from_url("https://github.com/").is_err());
    assert!(ri.extract_repo_name_from_url("not a url").is_err());
    let info = ri.get_repository_info("comfyui", None).unwrap();
    assert_eq!(info.main_file.as_deref(), Some("main.py"));
    assert!(ri.get_repository_info("unknown", None).is_none());
    let from_server = FallbackRepo { url: Some("https://h/x/y.git".into()), main_file: None, program_args: None };
    assert_eq!(ri.get_repository_info("comfyui", Some(from_server.clone())).unwrap().url.as_deref(), Some("https://h/x/y.git"));
    assert_eq!(ri.normalize_repo_name("whatever", &from_server).unwrap(), "y");
    assert_eq!(ri.normalize_repo_name("whatever", &FallbackRepo { url: None, main_file: None, program_args: None }).unwrap(), "whatever");
    assert_eq!(ri.repository_paths("demo"), ("/ps/repos/demo".to_string(), "/ps/envs/demo".to_string()));
    assert!(ri.delete_repository("demo", false, false).is_err());
    assert_eq!(ri.delete_repository("demo", true, false).unwrap(), (true, false));
    assert_eq!(ri.repository_label("demo", Some("https://GitHub.com/a/demo")), "demo [From github]");
    assert_eq!(ri.repository_label("demo", Some("https://gitlab.com/a/demo")), "demo [From git]");
    assert_eq!(ri.repository_label("demo", None), "demo [From server]");
    assert_eq!(ri.apply_special_setup("ComfyUI"), vec!["models/checkpoints", "custom_nodes", "output"]);
    assert_eq!(ri.apply_special_setup("stable-diffusion-webui").len(), 3);
    assert!(ri.apply_special_setup("other").is_empty());
    assert_eq!(default_fallback_repositories()[0].0, "stable-diffusion-webui");
}

#[test]
fn metadata_service_addresses() {
    let c = ServerClient::new("https://server.portables.dev//");
    assert_eq!(c.server_url, "https://server.portables.dev");
    assert_eq!(c.timeout_secs, 10);
    assert_eq!(c.repository_info_url("ComfyUI"), "https://server.portables.dev/api/repositories/comfyui");
    assert_eq!(c.installation_plan_url("X"), "https://server.portables.dev/api/repositories/x/install-plan");
    assert_eq!(c.download_stats_url("X"), "https://server.portables.dev/api/repositories/x/download");
}

#[test]
fn main_file_choice() {
    let f = MainFileFinder::new(ServerClient::new("https://s"));
    assert_eq!(f.common_main_files()[0], "run.py");
    let files = vec!["setup.py".to_string(), "test_a.py".into(), "inference.py".into(), "README.md".into()];
    assert_eq!(f.pick_from_files(&files).as_deref(), Some("inference.py"));
    let files = vec!["utils.py".to_string(), "my_app.py".into(), "x.py".into()];
    assert_eq!(f.pick_from_files(&files).as_deref(), Some("my_app.py"));
    let files = vec!["utils.py".to_string(), "x.py".into()];
    assert_eq!(f.pick_from_files(&files), None);
    assert_eq!(f.main_file_from_url_path("/a/Demo.git"), "Demo.py");
    assert!(!f.is_candidate("install_deps.py"));
}

#[test]
fn command_kinds() {
    let r = CommandRunner::new();
    let v = |a: &[&str]| a.iter().map(|s| s.to_string()).collect::<Vec<String>>();
    assert_eq!(r.determine_command_type(&v(&["/venv/bin/python3", "-m", "pip", "install"])), CommandType::Pip);
    assert_eq!(r.determine_command_type(&v(&["C:/py/Python.exe", "-m", "uv"])), CommandType::Uv);
    assert_eq!(r.determine_command_type(&v(&["python", "main.py"])), CommandType::Python);
    assert_eq!(r.determine_command_type(&v(&["/usr/bin/git", "pull"])), CommandType::Git);
    assert_eq!(r.determine_command_type(&v(&["git"])), CommandType::Other);
    assert_eq!(r.error_prefix(CommandType::Uv), "UV command failed");
}

#[test]
fn command_line_defaults() {
    let cli = Cli { debug: false, install_path: None, command: None };
    assert!(!cli.has_command());
    assert_eq!(*cli.get_command(), Commands::SystemInfo);
    let cli = Cli { debug: true, install_path: Some("/ps".into()), command: Some(Commands::InstallRepo { repo: "x".into() }) };
    assert!(cli.has_command());
    assert_eq!(*cli.get_command(), Commands::InstallRepo { repo: "x".into() });
}

#[test]
fn error_messages() {
    assert_eq!(PortableSourceError::repository("gone").to_message(), "Repository error: gone");
    assert_eq!(PortableSourceError::invalid_path("/x").to_message(), "Path validation error: /x");
    assert_eq!(PortableSourceError::missing_dependency("git").to_message(), "Missing dependency: git");
    assert_eq!(PortableSourceError::config("c").to_message(), "Configuration error: c");
}

#[test]
fn environment_status_and_info() {
    let cm = ConfigManager::new("c.json".into(), Platform::Unix, None);
    let em = PortableEnvironmentManager::with_config("/ps", cm);
    let st = em.get_environment_status(false, Vec::new());
    assert_eq!(st.overall_status, "Environment not found");
    let runs = vec![
        ("python".to_string(), Some(("Python 3.11.9\n".to_string(), String::new()))),
        ("git".to_string(), Some(("".to_string(), "  fatal: nope \n".to_string()))),
        ("ffmpeg".to_string(), None),
    ];
    let st = em.get_environment_status(true, runs);
    assert_eq!(st.tools_status.len(), 3);
    assert!(st.tools_status[0].1.working);
    assert_eq!(st.tools_status[0].1.version.as_deref(), Some("Python 3.11.9"));
    assert!(!st.tools_status[1].1.working);
    assert_eq!(st.tools_status[1].1.stderr.as_deref(), Some("fatal: nope"));
    assert!(!st.all_tools_working);
    assert_eq!(st.overall_status, "Issues detected");
    let ok = em.get_environment_status(true, vec![("git".to_string(), Some(("git version 2.45.1".to_string(), String::new())))]);
    assert_eq!(ok.overall_status, "Ready");
    assert!(tool_status("ffmpeg", Some(("ffmpeg version 7.0".into(), String::new()))).working);
    let info = em.get_environment_info(true, Some("/ps/ps_env/python/bin/python".into()), &vec![true, false, true]);
    assert!(info.base_env_exists);
    assert_eq!(info.installed_tools[1], ("git".to_string(), false));
    assert_eq!(info.paths.ps_env_path, "/ps/ps_env");
}

#[test]
fn project_manifest_scripts() {
    let pm = PipManager::new(&ConfigManager::new("c.json".into(), Platform::Unix, None), None);
    let scripts = vec![
        ("cli".to_string(), "demo.cli:main".to_string()),
        ("web".to_string(), "demo.gradio_infer:launch".to_string()),
    ];
    assert_eq!(pm.check_scripts_in_pyproject(&scripts), (true, Some("demo.gradio_infer".to_string())));
    let scripts = vec![("cli".to_string(), "demo.cli:main".to_string()), ("x".to_string(), "other".to_string())];
    assert_eq!(pm.check_scripts_in_pyproject(&scripts), (true, Some("demo.cli".to_string())));
    assert_eq!(pm.check_scripts_in_pyproject(&Vec::new()), (false, None));
    assert_eq!(entry_module("pkg.mod"), "pkg.mod");
}

#[test]
fn failure_kinds() {
    let mut h = RepositoryHandle::new("demo".into(), Some("u".into()), "/p".into(), LinkProvenance::DirectUrl);
    assert_eq!(h.ensure(false, false), GitAction::Clone);
    assert_eq!(h.on_command(false, Some(128)), GitAction::Fail(GitFailure::CloneFailed));
    assert_eq!(h.state, RepoState::Absent);
    assert!(matches!(portablesource::git_manager::failure_error(GitFailure::CloneFailed), PortableSourceError::Repository { .. }));
    let ri = RepositoryInstaller::new("/ps", ConfigManager::new("c.json".into(), Platform::Unix, None));
    assert!(matches!(ri.extract_repo_name_from_url("not a url"), Err(PortableSourceError::Url { .. })));
    assert!(matches!(ri.extract_repo_name_from_url("https://host/"), Err(PortableSourceError::Repository { .. })));
    assert!(matches!(portablesource::gpu::GpuDetector::new().parse_nvidia_smi_output("x"), Err(PortableSourceError::GpuDetection { .. })));
}
