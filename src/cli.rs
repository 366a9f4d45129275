//! The commands the tool accepts.

use vstd::prelude::*;

verus! {

/// A subcommand with its arguments.
#[allow(inconsistent_fields)]
#[derive(Debug, Clone, PartialEq, Eq)]
pub enum Commands {
    SetupEnv,
    SetupReg,
    Unregister,
    Uninstall,
    ChangePath,
    InstallRepo { repo: String },
    UpdateRepo { repo: Option<String> },
    DeleteRepo { repo: String },
    ListRepos,
    RunRepo { repo: String, args: Vec<String> },
    SystemInfo,
    CheckEnv,
    InstallMsvc,
    CheckMsvc,
    CheckGpu,
    Version,
}

/// The parsed command line.
#[derive(Debug, Clone)]
pub struct Cli {
    pub debug: bool,
    pub install_path: Option<String>,
    pub command: Option<Commands>,
}

impl Cli {
    /// Whether a subcommand was given.
    pub fn has_command(&self) -> (r: bool)
        ensures
            r == self.command is Some,
    {
        self.command.is_some()
    }

    /// The subcommand, or the system information when none was given.
    pub fn get_command(&self) -> (r: &Commands)
        ensures
            match self.command {
                Some(c) => *r == c,
                None => *r == Commands::SystemInfo,
            },
    {
        match &self.command {
            Some(c) => c,
            None => &Commands::SystemInfo,
        }
    }
}

} // verus!
