//! The choice of a repository's main script among its files.

use crate::repository_installer::{last_path_segment, last_segment};
use crate::server_client::ServerClient;
use crate::text::{
    chars_of, concat, contains_str, ends_with_str, has_infix, has_suffix, lower_of, same_text,
    slice_chars, str_views, string_of, to_lower,
};
use vstd::prelude::*;

verus! {

/// The names tried, in order, before looking at the files themselves.
pub open spec fn common_names() -> Seq<Seq<char>> {
    seq![
        "run.py"@,
        "app.py"@,
        "webui.py"@,
        "main.py"@,
        "start.py"@,
        "launch.py"@,
        "gui.py"@,
        "interface.py"@,
        "server.py"@,
    ]
}

/// A Python file that is not a test, setup, dunder or installer script.
pub open spec fn is_candidate(name: Seq<char>) -> bool {
    &&& has_suffix(lower_of(name), ".py"@)
    &&& !has_infix(name, "test_"@)
    &&& name != "setup.py"@
    &&& !has_infix(name, "__"@)
    &&& !has_infix(name, "install"@)
}

/// A name that suggests an entry point.
pub open spec fn is_preferred(name: Seq<char>) -> bool {
    let l = lower_of(name);
    has_infix(l, "main"@) || has_infix(l, "run"@) || has_infix(l, "start"@) || has_infix(l, "app"@)
}

/// The candidates among `files`, in order.
pub open spec fn candidates_of(files: Seq<Seq<char>>) -> Seq<Seq<char>>
    decreases files.len(),
{
    if files.len() == 0 {
        seq![]
    } else if is_candidate(files.last()) {
        candidates_of(files.drop_last()).push(files.last())
    } else {
        candidates_of(files.drop_last())
    }
}

/// The position of the first candidate whose name suggests an entry point, or the number
/// of candidates.
pub open spec fn first_preferred(cs: Seq<Seq<char>>) -> int
    decreases cs.len(),
{
    if cs.len() == 0 {
        0
    } else if is_preferred(cs[0]) {
        0
    } else {
        1 + first_preferred(cs.drop_first())
    }
}

/// The main script among the candidates: the only one, else the first whose name
/// suggests an entry point, else none.
pub open spec fn picked_file(cs: Seq<Seq<char>>) -> Option<Seq<char>> {
    if cs.len() == 1 {
        Some(cs[0])
    } else if first_preferred(cs) < cs.len() {
        Some(cs[first_preferred(cs)])
    } else {
        None
    }
}

proof fn lemma_first_preferred(cs: Seq<Seq<char>>, i: int)
    requires
        0 <= i <= cs.len(),
        forall|j: int| 0 <= j < i ==> !is_preferred(cs[j]),
        i == cs.len() || is_preferred(cs[i]),
    ensures
        first_preferred(cs) == i,
    decreases i,
{
    if i > 0 {
        assert forall|j: int| 0 <= j < i - 1 implies !is_preferred(cs.drop_first()[j]) by {
            assert(cs.drop_first()[j] == cs[j + 1]);
        }
        lemma_first_preferred(cs.drop_first(), i - 1);
    }
}

/// `s` without trailing `.git` suffixes.
pub open spec fn trim_git_suffixes(s: Seq<char>) -> Seq<char>
    decreases s.len(),
{
    if s.len() >= 4 && has_suffix(s, ".git"@) {
        trim_git_suffixes(s.subrange(0, s.len() - 4))
    } else {
        s
    }
}

/// Finds the main script of a repository.
#[derive(Clone, Debug)]
pub struct MainFileFinder {
    pub server_client: ServerClient,
}

impl MainFileFinder {
    pub fn new(server_client: ServerClient) -> (r: Self)
        ensures
            r.server_client == server_client,
    {
        MainFileFinder { server_client }
    }

    /// The names tried first, in order.
    pub fn common_main_files(&self) -> (r: Vec<String>)
        ensures
            str_views(r@) == common_names(),
    {
        let mut r: Vec<String> = Vec::new();
        crate::text::push_text(&mut r, "run.py");
        crate::text::push_text(&mut r, "app.py");
        crate::text::push_text(&mut r, "webui.py");
        crate::text::push_text(&mut r, "main.py");
        crate::text::push_text(&mut r, "start.py");
        crate::text::push_text(&mut r, "launch.py");
        crate::text::push_text(&mut r, "gui.py");
        crate::text::push_text(&mut r, "interface.py");
        crate::text::push_text(&mut r, "server.py");
        assert(str_views(r@) =~= common_names());
        r
    }

    /// Whether a file name could be the main script.
    pub fn is_candidate(&self, name: &str) -> (r: bool)
        ensures
            r == is_candidate(name@),
    {
        let low = to_lower(name);
        ends_with_str(low.as_str(), ".py") && !contains_str(name, "test_") && !same_text(
            name,
            "setup.py",
        ) && !contains_str(name, "__") && !contains_str(name, "install")
    }

    /// The main script among the files of the working tree: the only candidate when
    /// there is one, else the first candidate whose name suggests an entry point.
    pub fn pick_from_files(&self, files: &Vec<String>) -> (r: Option<String>)
        ensures
            crate::gpu::opt_str_view(r) == picked_file(candidates_of(str_views(files@))),
    {
        let ghost all = str_views(files@);
        let mut cands: Vec<String> = Vec::new();
        let mut i: usize = 0;
        while i < files.len()
            invariant
                i <= files.len(),
                all == str_views(files@),
                str_views(cands@) == candidates_of(all.subrange(0, i as int)),
            decreases files.len() - i,
        {
            assert(all.subrange(0, i + 1).drop_last() =~= all.subrange(0, i as int));
            assert(all.subrange(0, i + 1).last() == files@[i as int]@);
            if self.is_candidate(files[i].as_str()) {
                crate::text::push_text(&mut cands, files[i].as_str());
            }
            i = i + 1;
        }
        assert(all.subrange(0, files.len() as int) =~= all);
        let ghost cs = candidates_of(all);
        if cands.len() == 1 {
            assert(str_views(cands@)[0] == cands@[0]@);
            return Some(cands[0].clone());
        }
        let mut k: usize = 0;
        while k < cands.len()
            invariant
                k <= cands.len(),
                cands@.len() != 1,
                cs == candidates_of(str_views(files@)),
                str_views(cands@) == cs,
                forall|j: int| 0 <= j < k ==> !is_preferred(cs[j]),
            decreases cands.len() - k,
        {
            assert(str_views(cands@)[k as int] == cands@[k as int]@);
            let low = to_lower(cands[k].as_str());
            let l = low.as_str();
            if contains_str(l, "main") || contains_str(l, "run") || contains_str(l, "start")
                || contains_str(l, "app") {
                proof {
                    lemma_first_preferred(cs, k as int);
                }
                return Some(cands[k].clone());
            }
            k = k + 1;
        }
        proof {
            lemma_first_preferred(cs, k as int);
        }
        None
    }

    /// The script named after the repository: the last segment of its URL path, without
    /// `.git`, with `.py` appended.
    pub fn main_file_from_url_path(&self, url_path: &str) -> (r: String)
        ensures
            r@ == trim_git_suffixes(last_segment(url_path@)) + ".py"@,
    {
        let seg = last_path_segment(url_path);
        let c = chars_of(seg.as_str());
        let mut n = c.len();
        assert(c@.subrange(0, n as int) =~= c@);
        while n >= 4 && ends_with_str(string_of(&slice_chars(&c, 0, n)).as_str(), ".git")
            invariant
                n <= c.len(),
                trim_git_suffixes(c@) == trim_git_suffixes(c@.subrange(0, n as int)),
            decreases n,
        {
            proof {
                reveal_strlit(".git");
            }
            assert(c@.subrange(0, n as int).subrange(0, n - 4) =~= c@.subrange(0, n - 4));
            n = n - 4;
        }
        let stem = string_of(&slice_chars(&c, 0, n));
        concat(stem.as_str(), ".py")
    }
}

} // verus!
