//! The repository lifecycle manager: clone, update with bounded remediation, and
//! recovery from a corrupted working tree, as a state machine. The caller runs the
//! version-control commands and removes directories.

use crate::error::PortableSourceError;
use crate::text::{push_text, str_views};
use vstd::prelude::*;

verus! {

/// The version-control client exits with this code when the directory is not a usable
/// repository.
pub const CORRUPTION_EXIT_CODE: i32 = 128;

/// How many times an update pulls before giving up.
pub const MAX_PULL_ATTEMPTS: u32 = 3;

/// State of a managed working tree.
#[derive(Debug, Clone, Copy, PartialEq, Eq, Structural)]
pub enum RepoState {
    Absent,
    Cloning,
    Clean,
    Corrupted,
}

/// How the repository's origin was found; kept for display.
#[derive(Debug, Clone, Copy, PartialEq, Eq, Structural)]
pub enum LinkProvenance {
    DirectUrl,
    HostShorthand,
    ServerLookup,
}

/// The step of the update in progress.
#[derive(Debug, Clone, Copy, PartialEq, Eq, Structural)]
pub enum UpdatePhase {
    Idle,
    FetchAll,
    ResetPrimary,
    ResetSecondary,
    Pull,
    FixFetch,
    FixReset,
}

/// Why the lifecycle gave up.
#[derive(Debug, Clone, Copy, PartialEq, Eq, Structural)]
pub enum GitFailure {
    MissingUrl,
    NotARepository,
    CloneFailed,
    UpdateFailed,
}

/// What the caller performs next.
#[derive(Debug, Clone, Copy, PartialEq, Eq, Structural)]
pub enum GitAction {
    Clone,
    FetchAll,
    ResetPrimary,
    ResetSecondary,
    Pull,
    FixFetch,
    FixReset,
    RemoveDirectory,
    Done,
    Fail(GitFailure),
}

/// The part of a handle the lifecycle decides on.
#[derive(Debug, Clone, Copy, PartialEq, Eq, Structural)]
pub struct Lifecycle {
    pub state: RepoState,
    pub phase: UpdatePhase,
    pub pulls: u32,
}

/// Starting `ensure`: clone into an absent path, update a repository, refuse a directory
/// that is not one.
pub open spec fn ensure_step(l: Lifecycle, has_url: bool, exists: bool, has_vcs: bool) -> (
    Lifecycle,
    GitAction,
) {
    if !exists {
        if has_url {
            (Lifecycle { state: RepoState::Cloning, phase: UpdatePhase::Idle, pulls: 0 }, GitAction::Clone)
        } else {
            (Lifecycle { state: RepoState::Absent, phase: UpdatePhase::Idle, pulls: 0 }, GitAction::Fail(GitFailure::MissingUrl))
        }
    } else if has_vcs {
        (Lifecycle { state: RepoState::Clean, phase: UpdatePhase::FetchAll, pulls: 0 }, GitAction::FetchAll)
    } else {
        (l, GitAction::Fail(GitFailure::NotARepository))
    }
}

/// A command of the lifecycle finished, with its success and exit code.
pub open spec fn command_step(l: Lifecycle, ok: bool, exit_code: Option<i32>) -> (
    Lifecycle,
    GitAction,
) {
    if l.state == RepoState::Cloning {
        if ok {
            (Lifecycle { state: RepoState::Clean, phase: UpdatePhase::Idle, ..l }, GitAction::Done)
        } else {
            (Lifecycle { state: RepoState::Absent, phase: UpdatePhase::Idle, ..l }, GitAction::Fail(GitFailure::CloneFailed))
        }
    } else {
        match l.phase {
            UpdatePhase::FetchAll => (Lifecycle { phase: UpdatePhase::ResetPrimary, ..l }, GitAction::ResetPrimary),
            UpdatePhase::ResetPrimary => if ok {
                (Lifecycle { phase: UpdatePhase::Pull, ..l }, GitAction::Pull)
            } else {
                (Lifecycle { phase: UpdatePhase::ResetSecondary, ..l }, GitAction::ResetSecondary)
            },
            UpdatePhase::ResetSecondary => (Lifecycle { phase: UpdatePhase::Pull, ..l }, GitAction::Pull),
            UpdatePhase::Pull => if ok {
                (Lifecycle { phase: UpdatePhase::Idle, pulls: 0, ..l }, GitAction::Done)
            } else if exit_code == Some(CORRUPTION_EXIT_CODE) {
                (Lifecycle { state: RepoState::Corrupted, phase: UpdatePhase::Idle, pulls: 0 }, GitAction::RemoveDirectory)
            } else if l.pulls + 1 < MAX_PULL_ATTEMPTS {
                (Lifecycle { phase: UpdatePhase::FixFetch, pulls: (l.pulls + 1) as u32, ..l }, GitAction::FixFetch)
            } else {
                (Lifecycle { phase: UpdatePhase::Idle, pulls: 0, ..l }, GitAction::Fail(GitFailure::UpdateFailed))
            },
            UpdatePhase::FixFetch => (Lifecycle { phase: UpdatePhase::FixReset, ..l }, GitAction::FixReset),
            UpdatePhase::FixReset => (Lifecycle { phase: UpdatePhase::Pull, ..l }, GitAction::Pull),
            UpdatePhase::Idle => (l, GitAction::Done),
        }
    }
}

/// The corrupted directory was removed: the repository is cloned afresh, as `ensure`
/// would on the now absent path.
pub open spec fn removed_step(l: Lifecycle, has_url: bool) -> (Lifecycle, GitAction) {
    ensure_step(l, has_url, false, false)
}

/// One managed working tree.
#[derive(Debug, Clone)]
pub struct RepositoryHandle {
    pub name: String,
    pub url: Option<String>,
    pub path: String,
    pub provenance: LinkProvenance,
    pub state: RepoState,
    pub phase: UpdatePhase,
    pub pulls: u32,
}

impl RepositoryHandle {
    pub open spec fn lifecycle(&self) -> Lifecycle {
        Lifecycle { state: self.state, phase: self.phase, pulls: self.pulls }
    }

    pub open spec fn same_tree(&self, other: &RepositoryHandle) -> bool {
        self.name == other.name && self.url == other.url && self.path == other.path
            && self.provenance == other.provenance
    }

    fn set_lifecycle(&mut self, l: Lifecycle)
        ensures
            final(self).lifecycle() == l,
            final(self).same_tree(old(self)),
    {
        self.state = l.state;
        self.phase = l.phase;
        self.pulls = l.pulls;
    }

    /// A handle for a working tree that has not been looked at yet.
    pub fn new(name: String, url: Option<String>, path: String, provenance: LinkProvenance) -> (r:
        Self)
        ensures
            r.name == name,
            r.url == url,
            r.path == path,
            r.provenance == provenance,
            r.lifecycle() == (Lifecycle { state: RepoState::Absent, phase: UpdatePhase::Idle, pulls: 0 }),
    {
        RepositoryHandle {
            name,
            url,
            path,
            provenance,
            state: RepoState::Absent,
            phase: UpdatePhase::Idle,
            pulls: 0,
        }
    }

    /// Starts `ensure`, given whether the path exists and holds version-control metadata.
    pub fn ensure(&mut self, exists: bool, has_vcs: bool) -> (r: GitAction)
        ensures
            (final(self).lifecycle(), r) == ensure_step(old(self).lifecycle(), old(self).url is Some, exists, has_vcs),
            final(self).same_tree(old(self)),
    {
        if !exists {
            if self.url.is_some() {
                self.set_lifecycle(Lifecycle { state: RepoState::Cloning, phase: UpdatePhase::Idle, pulls: 0 });
                GitAction::Clone
            } else {
                self.set_lifecycle(Lifecycle { state: RepoState::Absent, phase: UpdatePhase::Idle, pulls: 0 });
                GitAction::Fail(GitFailure::MissingUrl)
            }
        } else if has_vcs {
            self.set_lifecycle(Lifecycle { state: RepoState::Clean, phase: UpdatePhase::FetchAll, pulls: 0 });
            GitAction::FetchAll
        } else {
            GitAction::Fail(GitFailure::NotARepository)
        }
    }

    /// The last command finished; `exit_code` is its exit status when it ran.
    pub fn on_command(&mut self, ok: bool, exit_code: Option<i32>) -> (r: GitAction)
        ensures
            (final(self).lifecycle(), r) == command_step(old(self).lifecycle(), ok, exit_code),
            final(self).same_tree(old(self)),
    {
        if self.state == RepoState::Cloning {
            if ok {
                self.state = RepoState::Clean;
                self.phase = UpdatePhase::Idle;
                return GitAction::Done;
            } else {
                self.state = RepoState::Absent;
                self.phase = UpdatePhase::Idle;
                return GitAction::Fail(GitFailure::CloneFailed);
            }
        }
        match self.phase {
            UpdatePhase::FetchAll => {
                self.phase = UpdatePhase::ResetPrimary;
                GitAction::ResetPrimary
            },
            UpdatePhase::ResetPrimary => if ok {
                self.phase = UpdatePhase::Pull;
                GitAction::Pull
            } else {
                self.phase = UpdatePhase::ResetSecondary;
                GitAction::ResetSecondary
            },
            UpdatePhase::ResetSecondary => {
                self.phase = UpdatePhase::Pull;
                GitAction::Pull
            },
            UpdatePhase::Pull => if ok {
                self.phase = UpdatePhase::Idle;
                self.pulls = 0;
                GitAction::Done
            } else if exit_code == Some(CORRUPTION_EXIT_CODE) {
                self.set_lifecycle(Lifecycle { state: RepoState::Corrupted, phase: UpdatePhase::Idle, pulls: 0 });
                GitAction::RemoveDirectory
            } else if self.pulls < MAX_PULL_ATTEMPTS - 1 {
                self.phase = UpdatePhase::FixFetch;
                self.pulls = self.pulls + 1;
                GitAction::FixFetch
            } else {
                self.phase = UpdatePhase::Idle;
                self.pulls = 0;
                GitAction::Fail(GitFailure::UpdateFailed)
            },
            UpdatePhase::FixFetch => {
                self.phase = UpdatePhase::FixReset;
                GitAction::FixReset
            },
            UpdatePhase::FixReset => {
                self.phase = UpdatePhase::Pull;
                GitAction::Pull
            },
            UpdatePhase::Idle => GitAction::Done,
        }
    }

    /// The corrupted directory was removed.
    pub fn on_removed(&mut self) -> (r: GitAction)
        ensures
            (final(self).lifecycle(), r) == removed_step(old(self).lifecycle(), old(self).url is Some),
            final(self).same_tree(old(self)),
    {
        self.ensure(false, false)
    }
}

/// The error the caller reports for a failure.
pub fn failure_error(f: GitFailure) -> (r: PortableSourceError)
    ensures
        r is Repository,
{
    match f {
        GitFailure::MissingUrl => PortableSourceError::repository("Missing repository URL"),
        GitFailure::NotARepository => PortableSourceError::repository(
            "Directory exists but is not a git repository",
        ),
        GitFailure::CloneFailed => PortableSourceError::repository("Failed to clone repository"),
        GitFailure::UpdateFailed => PortableSourceError::repository("Failed to update repository"),
    }
}

/// The arguments of the command for an action, `None` for actions that run no command.
pub open spec fn spec_git_args(a: GitAction, git: Seq<char>, url: Seq<char>, dir: Seq<char>) -> Option<
    Seq<Seq<char>>,
> {
    match a {
        GitAction::Clone => Some(seq![git, "clone"@, url, dir]),
        GitAction::FetchAll => Some(seq![git, "fetch"@, "--all"@]),
        GitAction::ResetPrimary => Some(seq![git, "reset"@, "--hard"@, "origin/main"@]),
        GitAction::ResetSecondary => Some(seq![git, "reset"@, "--hard"@, "origin/master"@]),
        GitAction::Pull => Some(seq![git, "pull"@]),
        GitAction::FixFetch => Some(seq![git, "fetch"@, "origin"@]),
        GitAction::FixReset => Some(seq![git, "reset"@, "--hard"@, "origin/main"@]),
        _ => None,
    }
}

pub struct GitManager {
    pub git_executable: String,
}

impl GitManager {
    /// A manager running the portable client when it is installed, else `git` from the
    /// search path.
    pub fn new(portable_git: Option<String>) -> (r: Self)
        ensures
            match portable_git {
                Some(p) => r.git_executable@ == p@,
                None => r.git_executable@ == "git"@,
            },
    {
        GitManager { git_executable: Self::get_git_executable(portable_git) }
    }

    /// The client to run: the portable one when installed, else `git`.
    pub fn get_git_executable(portable_git: Option<String>) -> (r: String)
        ensures
            match portable_git {
                Some(p) => r@ == p@,
                None => r@ == "git"@,
            },
    {
        match portable_git {
            Some(p) => p,
            None => "git".to_owned(),
        }
    }

    /// The arguments of the command for an action; `None` for actions without a command.
    /// A clone goes into `dir_name` under the parent directory.
    pub fn command_for(&self, action: GitAction, url: &str, dir_name: &str) -> (r: Option<Vec<String>>)
        ensures
            match spec_git_args(action, self.git_executable@, url@, dir_name@) {
                Some(a) => r matches Some(v) && str_views(v@) == a,
                None => r is None,
            },
    {
        let mut v: Vec<String> = Vec::new();
        push_text(&mut v, self.git_executable.as_str());
        match action {
            GitAction::Clone => {
                push_text(&mut v, "clone");
                push_text(&mut v, url);
                push_text(&mut v, dir_name);
            },
            GitAction::FetchAll => {
                push_text(&mut v, "fetch");
                push_text(&mut v, "--all");
            },
            GitAction::ResetPrimary => {
                push_text(&mut v, "reset");
                push_text(&mut v, "--hard");
                push_text(&mut v, "origin/main");
            },
            GitAction::ResetSecondary => {
                push_text(&mut v, "reset");
                push_text(&mut v, "--hard");
                push_text(&mut v, "origin/master");
            },
            GitAction::Pull => {
                push_text(&mut v, "pull");
            },
            GitAction::FixFetch => {
                push_text(&mut v, "fetch");
                push_text(&mut v, "origin");
            },
            GitAction::FixReset => {
                push_text(&mut v, "reset");
                push_text(&mut v, "--hard");
                push_text(&mut v, "origin/main");
            },
            _ => {
                return None;
            },
        }
        proof {
            let a = spec_git_args(action, self.git_executable@, url@, dir_name@)->0;
            assert(str_views(v@) =~= a);
        }
        Some(v)
    }

    /// The remediation run between pull attempts: fetch the origin, then reset hard to
    /// its primary branch.
    pub fn fix_git_issues(&self) -> (r: Vec<Vec<String>>)
        ensures
            r@.len() == 2,
            str_views(r@[0]@) == seq![self.git_executable@, "fetch"@, "origin"@],
            str_views(r@[1]@) == seq![self.git_executable@, "reset"@, "--hard"@, "origin/main"@],
    {
        let mut r: Vec<Vec<String>> = Vec::new();
        match self.command_for(GitAction::FixFetch, "", "") {
            Some(c) => r.push(c),
            None => {},
        }
        match self.command_for(GitAction::FixReset, "", "") {
            Some(c) => r.push(c),
            None => {},
        }
        r
    }
}

/// Recovery from corruption: when a pull of a repository with a URL reports that the
/// directory is not a usable repository, the lifecycle marks the tree corrupted and has the directory removed at
/// once; after the removal it clones afresh (as a new `ensure` on the now absent path
/// would), and a successful clone leaves a clean tree.
pub proof fn lemma_corruption_recovery(l: Lifecycle)
    requires
        l.state == RepoState::Clean,
        l.phase == UpdatePhase::Pull,
    ensures
        ({
            let (detected, removal) = command_step(l, false, Some(CORRUPTION_EXIT_CODE));
            let (removed, reclone) = removed_step(detected, true);
            let (cloned, finish) = command_step(removed, true, None);
            &&& detected.state == RepoState::Corrupted
            &&& removal == GitAction::RemoveDirectory
            &&& ensure_step(detected, true, false, false).1 == GitAction::Clone
            &&& removed.state == RepoState::Cloning
            &&& reclone == GitAction::Clone
            &&& cloned.state == RepoState::Clean
            &&& finish == GitAction::Done
        }),
{
}

/// A corrupted tree never stays: the step that detects corruption is the one that asks
/// for the directory's removal.
pub proof fn lemma_corrupted_is_removed(l: Lifecycle, ok: bool, exit_code: Option<i32>)
    requires
        l.state != RepoState::Corrupted,
    ensures
        command_step(l, ok, exit_code).0.state == RepoState::Corrupted ==> command_step(
            l,
            ok,
            exit_code,
        ).1 == GitAction::RemoveDirectory,
{
}

/// The update pulls at most three times: each failed pull other than the last is
/// followed by the remediation, the last one by failure.
pub proof fn lemma_pull_attempts_bounded(l: Lifecycle, exit_code: Option<i32>)
    requires
        l.state == RepoState::Clean,
        l.phase == UpdatePhase::Pull,
        l.pulls < MAX_PULL_ATTEMPTS,
        exit_code != Some(CORRUPTION_EXIT_CODE),
    ensures
        command_step(l, false, exit_code).1 == if l.pulls + 1 < MAX_PULL_ATTEMPTS {
            GitAction::FixFetch
        } else {
            GitAction::Fail(GitFailure::UpdateFailed)
        },
        command_step(l, false, exit_code).0.pulls <= MAX_PULL_ATTEMPTS,
{
}

} // verus!
