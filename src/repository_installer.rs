//! Resolution of repositories: names from URLs, the built-in fallback list, the
//! on-disk layout of a repository and its listing label.

use crate::config::{join_path, joined, ConfigManager, SERVER_DOMAIN};
use crate::error::PortableSourceError;
use crate::gpu::opt_str_view;
use crate::server_client::ServerClient;
use crate::text::{
    chars_of, concat, contains_str, has_infix, has_prefix, has_suffix, lower_of, rfind_char,
    same_text, slice_chars, starts_with_str, str_views, string_of, to_lower,
};
use vstd::prelude::*;

verus! {

/// The path component of a URL, as the `url` crate parses it; `None` when it does not
/// parse.
pub uninterp spec fn url_path_of(s: Seq<char>) -> Option<Seq<char>>;

/// Relies on `url::Url::parse` and `Url::path`: the path of the parsed absolute URL, or
/// `None` when the text is not one.
#[verifier::external_body]
fn url_path(s: &str) -> (r: Option<String>)
    ensures
        match r {
            Some(p) => url_path_of(s@) == Some(p@),
            None => url_path_of(s@) is None,
        },
{
    match url::Url::parse(s) {
        Ok(u) => Some(u.path().to_owned()),
        Err(_) => None,
    }
}

/// A repository known without the metadata service.
#[derive(Clone, Debug)]
pub struct FallbackRepo {
    pub url: Option<String>,
    pub main_file: Option<String>,
    pub program_args: Option<String>,
}

impl FallbackRepo {
    pub open spec fn view_parts(&self) -> (Option<Seq<char>>, Option<Seq<char>>, Option<Seq<char>>) {
        (opt_str_view(self.url), opt_str_view(self.main_file), opt_str_view(self.program_args))
    }
}

/// The last `/`-separated segment of a path.
pub open spec fn last_segment(path: Seq<char>) -> Seq<char> {
    if exists|i: int| 0 <= i < path.len() && path[i] == '/' {
        let i = choose|i: int|
            0 <= i < path.len() && path[i] == '/' && forall|j: int|
                i < j < path.len() ==> path[j] != '/';
        path.subrange(i + 1, path.len() as int)
    } else {
        path
    }
}

/// The repository name a URL path ends with, without a `.git` suffix.
pub open spec fn repo_name_of_path(path: Seq<char>) -> Seq<char> {
    let seg = last_segment(path);
    if has_suffix(seg, ".git"@) {
        seg.subrange(0, seg.len() - 4)
    } else {
        seg
    }
}

/// The last `/`-separated segment of `path`.
pub fn last_path_segment(path: &str) -> (r: String)
    ensures
        r@ == last_segment(path@),
{
    let s = chars_of(path);
    match rfind_char(&s, '/') {
        Some(i) => {
            let ghost k = choose|k: int|
                0 <= k < path@.len() && path@[k] == '/' && forall|j: int|
                    k < j < path@.len() ==> path@[j] != '/';
            assert(k == i as int) by {
                if k < i {
                } else if k > i {
                }
            }
            string_of(&slice_chars(&s, i + 1, s.len()))
        },
        None => path.to_owned(),
    }
}

/// The repository name at the end of a URL path.
pub fn repo_name_from_path(path: &str) -> (r: String)
    ensures
        r@ == repo_name_of_path(path@),
{
    let seg = last_path_segment(path);
    if crate::text::ends_with_str(seg.as_str(), ".git") {
        proof {
            reveal_strlit(".git");
        }
        let c = chars_of(seg.as_str());
        string_of(&slice_chars(&c, 0, c.len() - 4))
    } else {
        seg
    }
}

/// The name under which a repository URL is installed: `Err` when the URL does not parse
/// or names nothing.
pub open spec fn repo_name_of_url(url: Seq<char>) -> Option<Seq<char>> {
    match url_path_of(url) {
        Some(p) => if repo_name_of_path(p).len() > 0 {
            Some(repo_name_of_path(p))
        } else {
            None
        },
        None => None,
    }
}

/// The repository installer's view of the install root and the known repositories.
pub struct RepositoryInstaller {
    pub install_path: String,
    pub config_manager: ConfigManager,
    pub server_client: ServerClient,
    pub fallback_repositories: Vec<(String, FallbackRepo)>,
}

/// The built-in repositories.
pub fn default_fallback_repositories() -> (r: Vec<(String, FallbackRepo)>)
    ensures
        r@.len() == 2,
        r@[0].0@ == "stable-diffusion-webui"@,
        opt_str_view(r@[0].1.url) == Some(
            "https://github.com/AUTOMATIC1111/stable-diffusion-webui.git"@,
        ),
        opt_str_view(r@[0].1.main_file) == Some("webui.py"@),
        r@[0].1.program_args is None,
        r@[1].0@ == "comfyui"@,
        opt_str_view(r@[1].1.url) == Some("https://github.com/comfyanonymous/ComfyUI.git"@),
        opt_str_view(r@[1].1.main_file) == Some("main.py"@),
        r@[1].1.program_args is None,
{
    let mut r: Vec<(String, FallbackRepo)> = Vec::new();
    r.push(
        (
            "stable-diffusion-webui".to_owned(),
            FallbackRepo {
                url: Some("https://github.com/AUTOMATIC1111/stable-diffusion-webui.git".to_owned()),
                main_file: Some("webui.py".to_owned()),
                program_args: None,
            },
        ),
    );
    r.push(
        (
            "comfyui".to_owned(),
            FallbackRepo {
                url: Some("https://github.com/comfyanonymous/ComfyUI.git".to_owned()),
                main_file: Some("main.py".to_owned()),
                program_args: None,
            },
        ),
    );
    r
}

/// The label of an installed repository: where it came from, read from its link file.
pub open spec fn label_of(name: Seq<char>, link: Option<Seq<char>>) -> Seq<char> {
    name + match link {
        Some(l) => if has_infix(lower_of(l), "github.com"@) {
            " [From github]"@
        } else {
            " [From git]"@
        },
        None => " [From server]"@,
    }
}

/// Sub-directories some well-known repositories expect to find.
pub open spec fn special_dirs_of(lname: Seq<char>) -> Seq<Seq<char>> {
    (if has_infix(lname, "stable-diffusion"@) {
        seq!["models/Stable-diffusion"@, "models/VAE"@, "models/Lora"@]
    } else {
        seq![]
    }) + (if has_infix(lname, "comfyui"@) {
        seq!["models/checkpoints"@, "custom_nodes"@, "output"@]
    } else {
        seq![]
    })
}

impl RepositoryInstaller {
    /// An installer for the install root; the configuration is anchored to it.
    pub fn new(install_path: &str, config_manager: ConfigManager) -> (r: Self)
        ensures
            r.install_path@ == install_path@,
            r.config_manager.config.install_path@ == install_path@,
            r.config_manager.platform == config_manager.platform,
            r.config_manager.gpu == config_manager.gpu,
            r.server_client.server_url@ == "https://"@ + SERVER_DOMAIN@,
            install_path@.len() > 0 ==> r.config_manager.config_path@ == joined(
                install_path@,
                "portablesource_config.json"@,
                config_manager.platform.spec_sep(),
            ),
            install_path@.len() == 0 ==> r.config_manager.config_path == config_manager.config_path,
            r.fallback_repositories@.len() == 2,
            r.fallback_repositories@[0].0@ == "stable-diffusion-webui"@,
            r.fallback_repositories@[1].0@ == "comfyui"@,
    {
        let mut cm = config_manager;
        cm.configure_install_path(install_path);
        cm.set_config_path_to_install_dir();
        let url = concat("https://", SERVER_DOMAIN);
        let server_client = ServerClient::new(url.as_str());
        proof {
            reveal_strlit("https://");
            reveal_strlit("server.portables.dev");
            assert(url@.last() != '/');
        }
        RepositoryInstaller {
            install_path: install_path.to_owned(),
            config_manager: cm,
            server_client,
            fallback_repositories: default_fallback_repositories(),
        }
    }

    /// Whether the input is a URL rather than a repository name.
    pub fn is_repository_url(&self, input: &str) -> (r: bool)
        ensures
            r == (has_prefix(input@, "http://"@) || has_prefix(input@, "https://"@) || has_prefix(
                input@,
                "git@"@,
            )),
    {
        starts_with_str(input, "http://") || starts_with_str(input, "https://") || starts_with_str(
            input,
            "git@",
        )
    }

    /// The name under which the repository at `url` is installed.
    pub fn extract_repo_name_from_url(&self, url: &str) -> (r: Result<String, PortableSourceError>)
        ensures
            match repo_name_of_url(url@) {
                Some(n) => r matches Ok(s) && s@ == n,
                None => r is Err,
            },
            url_path_of(url@) is None ==> (r matches Err(PortableSourceError::Url { .. })),
            url_path_of(url@) is Some && repo_name_of_url(url@) is None ==> (r matches Err(
                PortableSourceError::Repository { .. },
            )),
    {
        match url_path(url) {
            Some(path) => {
                let name = repo_name_from_path(path.as_str());
                if name.as_str().is_empty() {
                    Err(PortableSourceError::repository("Could not extract repository name from URL"))
                } else {
                    Ok(name)
                }
            },
            None => Err(PortableSourceError::Url { message: concat("Invalid repository URL: ", url) }),
        }
    }

    /// What is known of a repository: the metadata service's answer when there is one,
    /// else the built-in entry of that name.
    pub fn get_repository_info(&self, repo_name: &str, from_server: Option<FallbackRepo>) -> (r:
        Option<FallbackRepo>)
        ensures
            from_server is Some ==> r == from_server,
            from_server is None ==> match r {
                Some(f) => exists|i: int|
                    0 <= i < self.fallback_repositories@.len()
                        && self.fallback_repositories@[i].0@ == repo_name@
                        && self.fallback_repositories@[i].1.view_parts() == f.view_parts(),
                None => forall|i: int|
                    0 <= i < self.fallback_repositories@.len()
                        ==> self.fallback_repositories@[i].0@ != repo_name@,
            },
    {
        if from_server.is_some() {
            return from_server;
        }
        let mut i: usize = 0;
        while i < self.fallback_repositories.len()
            invariant
                from_server is None,
                i <= self.fallback_repositories@.len(),
                forall|j: int| 0 <= j < i ==> self.fallback_repositories@[j].0@ != repo_name@,
            decreases self.fallback_repositories.len() - i,
        {
            if same_text(self.fallback_repositories[i].0.as_str(), repo_name) {
                let f = &self.fallback_repositories[i].1;
                let copy = FallbackRepo {
                    url: crate::gpu::copy_opt_string(&f.url),
                    main_file: crate::gpu::copy_opt_string(&f.main_file),
                    program_args: crate::gpu::copy_opt_string(&f.program_args),
                };
                return Some(copy);
            }
            i = i + 1;
        }
        None
    }

    /// The name a repository is installed under: taken from its URL when it has one that
    /// parses, else the name it was asked for.
    pub fn normalize_repo_name(&self, input_name: &str, repo_info: &FallbackRepo) -> (r: Result<
        String,
        PortableSourceError,
    >)
        ensures
            match repo_info.url {
                Some(u) => match url_path_of(u@) {
                    Some(p) => match repo_name_of_url(u@) {
                        Some(n) => r matches Ok(s) && s@ == n,
                        None => r is Err,
                    },
                    None => r matches Ok(s) && s@ == input_name@,
                },
                None => r matches Ok(s) && s@ == input_name@,
            },
    {
        match &repo_info.url {
            Some(u) => match url_path(u.as_str()) {
                Some(_) => self.extract_repo_name_from_url(u.as_str()),
                None => Ok(input_name.to_owned()),
            },
            None => Ok(input_name.to_owned()),
        }
    }

    /// The working tree and the environment directory of a repository.
    pub fn repository_paths(&self, repo_name: &str) -> (r: (String, String))
        ensures
            r.0@ == joined(
                joined(self.install_path@, "repos"@, self.config_manager.platform.spec_sep()),
                repo_name@,
                self.config_manager.platform.spec_sep(),
            ),
            r.1@ == joined(
                joined(self.install_path@, "envs"@, self.config_manager.platform.spec_sep()),
                repo_name@,
                self.config_manager.platform.spec_sep(),
            ),
    {
        let sep = self.config_manager.platform.sep();
        let repos = join_path(self.install_path.as_str(), "repos", sep);
        let envs = join_path(self.install_path.as_str(), "envs", sep);
        (join_path(repos.as_str(), repo_name, sep), join_path(envs.as_str(), repo_name, sep))
    }

    /// Deleting a repository removes its working tree and its environment; it is an error
    /// when neither exists.
    pub fn delete_repository(&self, repo_name: &str, repo_exists: bool, env_exists: bool) -> (r:
        Result<(bool, bool), PortableSourceError>)
        ensures
            !repo_exists && !env_exists ==> r is Err,
            repo_exists || env_exists ==> r == Ok::<(bool, bool), PortableSourceError>(
                (repo_exists, env_exists),
            ),
    {
        if !repo_exists && !env_exists {
            let head = concat("Repository '", repo_name);
            let msg = concat(head.as_str(), "' not found");
            return Err(PortableSourceError::repository(msg.as_str()));
        }
        Ok((repo_exists, env_exists))
    }

    /// The listing label of an installed repository, given the text of its link file.
    pub fn repository_label(&self, name: &str, link: Option<&str>) -> (r: String)
        ensures
            r@ == label_of(
                name@,
                match link {
                    Some(l) => Some(l@),
                    None => None,
                },
            ),
    {
        let suffix = match link {
            Some(l) => {
                let low = to_lower(l);
                if contains_str(low.as_str(), "github.com") {
                    " [From github]"
                } else {
                    " [From git]"
                }
            },
            None => " [From server]",
        };
        concat(name, suffix)
    }

    /// The directories created inside a freshly installed well-known repository,
    /// relative to its working tree.
    pub fn apply_special_setup(&self, repo_name: &str) -> (r: Vec<String>)
        ensures
            str_views(r@) == special_dirs_of(lower_of(repo_name@)),
    {
        let low = to_lower(repo_name);
        let mut r: Vec<String> = Vec::new();
        if contains_str(low.as_str(), "stable-diffusion") {
            crate::text::push_text(&mut r, "models/Stable-diffusion");
            crate::text::push_text(&mut r, "models/VAE");
            crate::text::push_text(&mut r, "models/Lora");
        }
        if contains_str(low.as_str(), "comfyui") {
            crate::text::push_text(&mut r, "models/checkpoints");
            crate::text::push_text(&mut r, "custom_nodes");
            crate::text::push_text(&mut r, "output");
        }
        assert(str_views(r@) =~= special_dirs_of(lower_of(repo_name@)));
        r
    }
}

} // verus!
