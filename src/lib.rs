//! Provisioning of GPU-aware machine-learning environments: the accelerator
//! capability resolver, the dependency installation planner, the resumable
//! artifact pipeline and the repository lifecycle manager.

pub mod text;
pub mod error;
pub mod gpu;
pub mod config;
pub mod requirements;
pub mod pip_manager;
pub mod artifact;
pub mod git_manager;
pub mod envs_manager;
pub mod command_runner;
pub mod repository_installer;
pub mod server_client;
pub mod cli;
pub mod main_file_finder;
pub mod generation_table;
pub mod base_env;
