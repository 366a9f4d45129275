//! Error kinds of the provisioning engine.

use crate::text::concat;
use vstd::prelude::*;

verus! {

/// An error of the provisioning engine; each variant carries a readable message.
#[derive(Debug, Clone)]
pub enum PortableSourceError {
    Io { message: String },
    Reqwest { message: String },
    Json { message: String },
    Registry { message: String },
    Url { message: String },
    Config { message: String },
    GpuDetection { message: String },
    Installation { message: String },
    Repository { message: String },
    Environment { message: String },
    Command { message: String },
    InvalidPath { path: String },
    MissingDependency { dependency: String },
}

/// Result type of the provisioning engine.
pub type Result<T> = core::result::Result<T, PortableSourceError>;

impl PortableSourceError {
    pub fn config(message: &str) -> (r: Self)
        ensures
            r matches PortableSourceError::Config { message: m } && m@ == message@,
    {
        PortableSourceError::Config { message: message.to_owned() }
    }

    pub fn gpu_detection(message: &str) -> (r: Self)
        ensures
            r matches PortableSourceError::GpuDetection { message: m } && m@ == message@,
    {
        PortableSourceError::GpuDetection { message: message.to_owned() }
    }

    pub fn installation(message: &str) -> (r: Self)
        ensures
            r matches PortableSourceError::Installation { message: m } && m@ == message@,
    {
        PortableSourceError::Installation { message: message.to_owned() }
    }

    pub fn repository(message: &str) -> (r: Self)
        ensures
            r matches PortableSourceError::Repository { message: m } && m@ == message@,
    {
        PortableSourceError::Repository { message: message.to_owned() }
    }

    pub fn environment(message: &str) -> (r: Self)
        ensures
            r matches PortableSourceError::Environment { message: m } && m@ == message@,
    {
        PortableSourceError::Environment { message: message.to_owned() }
    }

    pub fn command(message: &str) -> (r: Self)
        ensures
            r matches PortableSourceError::Command { message: m } && m@ == message@,
    {
        PortableSourceError::Command { message: message.to_owned() }
    }

    pub fn invalid_path(path: &str) -> (r: Self)
        ensures
            r matches PortableSourceError::InvalidPath { path: p } && p@ == path@,
    {
        PortableSourceError::InvalidPath { path: path.to_owned() }
    }

    pub fn missing_dependency(dependency: &str) -> (r: Self)
        ensures
            r matches PortableSourceError::MissingDependency { dependency: d } && d@
                == dependency@,
    {
        PortableSourceError::MissingDependency { dependency: dependency.to_owned() }
    }

    /// The readable form of the error: a kind prefix followed by its message.
    pub fn to_message(&self) -> (r: String)
        ensures
            r@ == self.prefix() + self.detail(),
    {
        match self {
            PortableSourceError::Io { message } => concat("IO error: ", message.as_str()),
            PortableSourceError::Reqwest { message } => concat(
                "HTTP request error: ",
                message.as_str(),
            ),
            PortableSourceError::Json { message } => concat("JSON parsing error: ", message.as_str()),
            PortableSourceError::Registry { message } => concat("Registry error: ", message.as_str()),
            PortableSourceError::Url { message } => concat("URL parsing error: ", message.as_str()),
            PortableSourceError::Config { message } => concat(
                "Configuration error: ",
                message.as_str(),
            ),
            PortableSourceError::GpuDetection { message } => concat(
                "GPU detection error: ",
                message.as_str(),
            ),
            PortableSourceError::Installation { message } => concat(
                "Installation error: ",
                message.as_str(),
            ),
            PortableSourceError::Repository { message } => concat(
                "Repository error: ",
                message.as_str(),
            ),
            PortableSourceError::Environment { message } => concat(
                "Environment error: ",
                message.as_str(),
            ),
            PortableSourceError::Command { message } => concat(
                "Command execution failed: ",
                message.as_str(),
            ),
            PortableSourceError::InvalidPath { path } => concat(
                "Path validation error: ",
                path.as_str(),
            ),
            PortableSourceError::MissingDependency { dependency } => concat(
                "Missing dependency: ",
                dependency.as_str(),
            ),
        }
    }

    pub open spec fn prefix(&self) -> Seq<char> {
        match self {
            PortableSourceError::Io { .. } => "IO error: "@,
            PortableSourceError::Reqwest { .. } => "HTTP request error: "@,
            PortableSourceError::Json { .. } => "JSON parsing error: "@,
            PortableSourceError::Registry { .. } => "Registry error: "@,
            PortableSourceError::Url { .. } => "URL parsing error: "@,
            PortableSourceError::Config { .. } => "Configuration error: "@,
            PortableSourceError::GpuDetection { .. } => "GPU detection error: "@,
            PortableSourceError::Installation { .. } => "Installation error: "@,
            PortableSourceError::Repository { .. } => "Repository error: "@,
            PortableSourceError::Environment { .. } => "Environment error: "@,
            PortableSourceError::Command { .. } => "Command execution failed: "@,
            PortableSourceError::InvalidPath { .. } => "Path validation error: "@,
            PortableSourceError::MissingDependency { .. } => "Missing dependency: "@,
        }
    }

    pub open spec fn detail(&self) -> Seq<char> {
        match self {
            PortableSourceError::Io { message } => message@,
            PortableSourceError::Reqwest { message } => message@,
            PortableSourceError::Json { message } => message@,
            PortableSourceError::Registry { message } => message@,
            PortableSourceError::Url { message } => message@,
            PortableSourceError::Config { message } => message@,
            PortableSourceError::GpuDetection { message } => message@,
            PortableSourceError::Installation { message } => message@,
            PortableSourceError::Repository { message } => message@,
            PortableSourceError::Environment { message } => message@,
            PortableSourceError::Command { message } => message@,
            PortableSourceError::InvalidPath { path } => path@,
            PortableSourceError::MissingDependency { dependency } => dependency@,
        }
    }
}

} // verus!
