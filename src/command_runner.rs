//! Classification of external commands by the program they run.

use crate::text::{lower_of, same_text, str_views, to_lower};
use vstd::prelude::*;

verus! {

/// The kind of program a command runs.
#[derive(Clone, Copy, Debug, PartialEq, Eq, Structural)]
pub enum CommandType {
    Git,
    Pip,
    Uv,
    Python,
    Other,
}

/// The file stem of a path, as `Path::file_stem` gives it.
pub uninterp spec fn file_stem_of(p: Seq<char>) -> Option<Seq<char>>;

/// Relies on `std::path::Path::file_stem`: the final component of the path without its
/// extension, `None` when the path has no final component.
#[verifier::external_body]
fn file_stem(p: &str) -> (r: Option<String>)
    ensures
        match r {
            Some(s) => file_stem_of(p@) == Some(s@),
            None => file_stem_of(p@) is None,
        },
{
    match std::path::Path::new(p).file_stem() {
        Some(s) => Some(s.to_string_lossy().into_owned()),
        None => None,
    }
}

/// The program name a command's first argument designates, in lower case.
pub open spec fn exe_name_of(first: Seq<char>) -> Seq<char> {
    match file_stem_of(first) {
        Some(s) => lower_of(s),
        None => lower_of(first),
    }
}

/// The kind of a command with the given lower-cased program name.
pub open spec fn command_type_of(args: Seq<Seq<char>>, exe: Seq<char>) -> CommandType {
    if args.len() < 2 {
        CommandType::Other
    } else if exe == "python"@ || exe == "python3"@ {
        if args.len() >= 3 && args[1] == "-m"@ {
            if args[2] == "pip"@ {
                CommandType::Pip
            } else if args[2] == "uv"@ {
                CommandType::Uv
            } else {
                CommandType::Python
            }
        } else {
            CommandType::Python
        }
    } else if exe == "pip"@ || exe == "pip3"@ {
        CommandType::Pip
    } else if exe == "uv"@ {
        CommandType::Uv
    } else if exe == "git"@ {
        CommandType::Git
    } else {
        CommandType::Other
    }
}

/// Runs external commands; the running itself happens outside the library.
pub struct CommandRunner;

impl CommandRunner {
    pub fn new() -> Self {
        CommandRunner
    }

    /// The kind of a command: a module run by the interpreter (`-m pip`, `-m uv`), the
    /// package managers, the version-control client, or another program.
    pub fn determine_command_type(&self, args: &Vec<String>) -> (r: CommandType)
        ensures
            args@.len() < 2 ==> r == CommandType::Other,
            args@.len() >= 2 ==> r == command_type_of(str_views(args@), exe_name_of(args@[0]@)),
    {
        if args.len() < 2 {
            return CommandType::Other;
        }
        let exe = match file_stem(args[0].as_str()) {
            Some(s) => to_lower(s.as_str()),
            None => to_lower(args[0].as_str()),
        };
        let e = exe.as_str();
        assert(str_views(args@)[1] == args@[1]@);
        if same_text(e, "python") || same_text(e, "python3") {
            if args.len() >= 3 && same_text(args[1].as_str(), "-m") {
                assert(str_views(args@)[2] == args@[2]@);
                if same_text(args[2].as_str(), "pip") {
                    CommandType::Pip
                } else if same_text(args[2].as_str(), "uv") {
                    CommandType::Uv
                } else {
                    CommandType::Python
                }
            } else {
                CommandType::Python
            }
        } else if same_text(e, "pip") || same_text(e, "pip3") {
            CommandType::Pip
        } else if same_text(e, "uv") {
            CommandType::Uv
        } else if same_text(e, "git") {
            CommandType::Git
        } else {
            CommandType::Other
        }
    }

    /// The prefix of the message of a failed command of each kind.
    pub fn error_prefix(&self, t: CommandType) -> (r: &'static str)
        ensures
            r@ == match t {
                CommandType::Git => "Git command failed"@,
                CommandType::Pip => "Pip command failed"@,
                CommandType::Uv => "UV command failed"@,
                CommandType::Python => "Python command failed"@,
                CommandType::Other => "Command failed"@,
            },
    {
        match t {
            CommandType::Git => "Git command failed",
            CommandType::Pip => "Pip command failed",
            CommandType::Uv => "UV command failed",
            CommandType::Python => "Python command failed",
            CommandType::Other => "Command failed",
        }
    }
}

} // verus!
