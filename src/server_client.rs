//! Addresses of the repository metadata service and the reading of its answers.

use crate::text::{chars_of, concat, lower_of, slice_chars, string_of, to_lower};
use vstd::prelude::*;

verus! {

/// What the metadata service knows of a repository.
#[derive(Clone, Debug)]
pub struct RepositoryInfo {
    pub url: Option<String>,
    pub main_file: Option<String>,
    pub program_args: Option<String>,
}

/// `s` without trailing `/`.
pub open spec fn trim_slashes_end(s: Seq<char>) -> Seq<char>
    decreases s.len(),
{
    if s.len() > 0 && s.last() == '/' {
        trim_slashes_end(s.drop_last())
    } else {
        s
    }
}

/// A client of the metadata service at `server_url`.
#[derive(Clone, Debug)]
pub struct ServerClient {
    pub server_url: String,
    pub timeout_secs: u64,
}

impl ServerClient {
    /// A client for the service at `server_url`, without trailing slashes; requests time
    /// out after ten seconds.
    pub fn new(server_url: &str) -> (r: Self)
        ensures
            r.server_url@ == trim_slashes_end(server_url@),
            r.timeout_secs == 10,
    {
        let s = chars_of(server_url);
        let mut n = s.len();
        assert(s@.subrange(0, n as int) =~= s@);
        while n > 0 && s[n - 1] == '/'
            invariant
                n <= s.len(),
                trim_slashes_end(s@) == trim_slashes_end(s@.subrange(0, n as int)),
            decreases n,
        {
            assert(s@.subrange(0, n as int).drop_last() =~= s@.subrange(0, n - 1));
            n = n - 1;
        }
        ServerClient { server_url: string_of(&slice_chars(&s, 0, n)), timeout_secs: 10 }
    }

    /// `<server>/api/repositories/<name in lower case><tail>`.
    pub open spec fn spec_repository_url(&self, name: Seq<char>, tail: Seq<char>) -> Seq<char> {
        self.server_url@ + "/api/repositories/"@ + lower_of(name) + tail
    }

    fn repository_url(&self, name: &str, tail: &str) -> (r: String)
        ensures
            r@ == self.spec_repository_url(name@, tail@),
    {
        let a = concat(self.server_url.as_str(), "/api/repositories/");
        let low = to_lower(name);
        let b = concat(a.as_str(), low.as_str());
        concat(b.as_str(), tail)
    }

    /// Where a repository's description is fetched.
    pub fn repository_info_url(&self, name: &str) -> (r: String)
        ensures
            r@ == self.spec_repository_url(name@, ""@),
    {
        self.repository_url(name, "")
    }

    /// Where a repository's installation plan is fetched.
    pub fn installation_plan_url(&self, name: &str) -> (r: String)
        ensures
            r@ == self.spec_repository_url(name@, "/install-plan"@),
    {
        self.repository_url(name, "/install-plan")
    }

    /// Where a download is reported.
    pub fn download_stats_url(&self, name: &str) -> (r: String)
        ensures
            r@ == self.spec_repository_url(name@, "/download"@),
    {
        self.repository_url(name, "/download")
    }

    /// Reads a repository description: the current shape (`success` with a `repository`
    /// object) or the legacy one (fields at the top level, at least a URL or a main file).
    pub fn repository_info_from_response(
        &self,
        success: bool,
        current: Option<RepositoryInfo>,
        legacy: RepositoryInfo,
    ) -> (r: Option<RepositoryInfo>)
        ensures
            success ==> r == current,
            !success ==> (if legacy.url is Some || legacy.main_file is Some {
                r == Some(legacy)
            } else {
                r is None
            }),
    {
        if success {
            current
        } else if legacy.url.is_some() || legacy.main_file.is_some() {
            Some(legacy)
        } else {
            None
        }
    }
}

} // verus!
