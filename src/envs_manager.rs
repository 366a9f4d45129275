//! The portable toolchain layout: where each tool lives, how archives are named and
//! unpacked, and how the output of tools and servers is read.

use crate::config::{join_path, joined, ConfigManager, CudaVersionLinux, Platform, ToolLinks};
use crate::text::{
    chars_of, concat, decimal_of, has_infix, has_prefix, is_ws, occurs_at_exec,
    parse_decimal, rfind_char, slice_chars, string_of, trim, trim_chars,
};
use vstd::prelude::*;

verus! {

/// One portable tool: its archive and where its executable lands under the toolchain
/// directory.
#[derive(Debug, Clone)]
pub struct PortableToolSpec {
    pub name: String,
    pub url: String,
    pub extract_path: String,
    pub executable_path: String,
}

/// The toolchain directory of an install root and the session configuration.
pub struct PortableEnvironmentManager {
    pub install_path: String,
    pub ps_env_path: String,
    pub config_manager: ConfigManager,
}

/// The relative executable of a tool under the toolchain directory.
pub open spec fn tool_executable(name: Seq<char>, platform: Platform) -> Option<Seq<char>> {
    if name == "ffmpeg"@ {
        Some(
            if platform == Platform::Windows {
                "ffmpeg/ffmpeg.exe"@
            } else {
                "ffmpeg/ffmpeg"@
            },
        )
    } else if name == "git"@ {
        Some(
            if platform == Platform::Windows {
                "git/cmd/git.exe"@
            } else {
                "git/bin/git"@
            },
        )
    } else if name == "python"@ {
        Some(
            if platform == Platform::Windows {
                "python/python.exe"@
            } else {
                "python/bin/python"@
            },
        )
    } else {
        None
    }
}

fn tool_spec(name: &str, link: ToolLinks, windows_exe: &str, unix_exe: &str, platform: Platform) -> (r:
    PortableToolSpec)
    ensures
        r.name@ == name@,
        r.url@ == link.spec_url(),
        r.extract_path@ == name@,
        r.executable_path@ == if platform == Platform::Windows {
            windows_exe@
        } else {
            unix_exe@
        },
{
    PortableToolSpec {
        name: name.to_owned(),
        url: link.url().to_owned(),
        extract_path: name.to_owned(),
        executable_path: if platform == Platform::Windows {
            windows_exe.to_owned()
        } else {
            unix_exe.to_owned()
        },
    }
}

impl PortableEnvironmentManager {
    /// A manager for the toolchain under `install_path`, with a fresh configuration and
    /// no detected device.
    pub fn new(install_path: &str, platform: Platform) -> (r: Self)
        ensures
            r.install_path@ == install_path@,
            r.ps_env_path@ == joined(install_path@, "ps_env"@, platform.spec_sep()),
            r.config_manager.platform == platform,
            r.config_manager.gpu is None,
    {
        Self::with_config(install_path, ConfigManager::new(String::new(), platform, None))
    }

    /// A manager for the toolchain under `install_path`.
    pub fn with_config(install_path: &str, config_manager: ConfigManager) -> (r: Self)
        ensures
            r.install_path@ == install_path@,
            r.ps_env_path@ == joined(install_path@, "ps_env"@, config_manager.platform.spec_sep()),
            r.config_manager == config_manager,
    {
        let ps_env_path = join_path(install_path, "ps_env", config_manager.platform.sep());
        PortableEnvironmentManager {
            install_path: install_path.to_owned(),
            ps_env_path,
            config_manager,
        }
    }

    /// The portable tools: media tool, version-control client and interpreter.
    pub fn build_tool_specs(&self) -> (r: Vec<PortableToolSpec>)
        ensures
            r@.len() == 3,
            r@[0].name@ == "ffmpeg"@ && r@[0].url@ == ToolLinks::Ffmpeg.spec_url(),
            r@[1].name@ == "git"@ && r@[1].url@ == ToolLinks::Git.spec_url(),
            r@[2].name@ == "python"@ && r@[2].url@ == ToolLinks::Python311.spec_url(),
            forall|i: int|
                0 <= i < 3 ==> (#[trigger] r@[i]).extract_path@ == r@[i].name@ && tool_executable(
                    r@[i].name@,
                    self.config_manager.platform,
                ) == Some(r@[i].executable_path@),
    {
        let platform = self.config_manager.platform;
        let mut r: Vec<PortableToolSpec> = Vec::new();
        r.push(tool_spec("ffmpeg", ToolLinks::Ffmpeg, "ffmpeg/ffmpeg.exe", "ffmpeg/ffmpeg", platform));
        r.push(tool_spec("git", ToolLinks::Git, "git/cmd/git.exe", "git/bin/git", platform));
        r.push(
            tool_spec("python", ToolLinks::Python311, "python/python.exe", "python/bin/python", platform),
        );
        proof {
            reveal_strlit("ffmpeg");
            reveal_strlit("git");
            reveal_strlit("python");
            assert("git"@.len() == 3 && "ffmpeg"@.len() == 6 && "python"@.len() == 6);
            assert("python"@[0] == 'p' && "ffmpeg"@[0] == 'f');
            assert("git"@ != "ffmpeg"@);
            assert("python"@ != "ffmpeg"@ && "python"@ != "git"@);
            assert(tool_executable(r@[0].name@, platform) == Some(r@[0].executable_path@));
            assert(tool_executable(r@[1].name@, platform) == Some(r@[1].executable_path@));
            assert(tool_executable(r@[2].name@, platform) == Some(r@[2].executable_path@));
        }
        r
    }

    /// Where the executable of a tool lands; `None` for an unknown tool.
    pub fn tool_executable_path(&self, key: &str) -> (r: Option<String>)
        ensures
            match tool_executable(key@, self.config_manager.platform) {
                Some(rel) => r matches Some(p) && p@ == joined(
                    self.ps_env_path@,
                    rel,
                    self.config_manager.platform.spec_sep(),
                ),
                None => r is None,
            },
    {
        let specs = self.build_tool_specs();
        let mut i: usize = 0;
        while i < specs.len()
            invariant
                i <= specs.len(),
                specs@.len() == 3,
                specs@[0].name@ == "ffmpeg"@,
                specs@[1].name@ == "git"@,
                specs@[2].name@ == "python"@,
                forall|k: int|
                    0 <= k < 3 ==> tool_executable(
                        (#[trigger] specs@[k]).name@,
                        self.config_manager.platform,
                    ) == Some(specs@[k].executable_path@),
                forall|k: int| 0 <= k < i ==> key@ != (#[trigger] specs@[k]).name@,
            decreases specs.len() - i,
        {
            if crate::text::same_text(key, specs[i].name.as_str()) {
                let p = join_path(
                    self.ps_env_path.as_str(),
                    specs[i].executable_path.as_str(),
                    self.config_manager.platform.sep(),
                );
                return Some(p);
            }
            i = i + 1;
        }
        None
    }

    /// The directory whose `bin` shows that the runtime is installed.
    pub fn cuda_directory(&self) -> (r: String)
        ensures
            r@ == joined(self.ps_env_path@, "CUDA"@, self.config_manager.platform.spec_sep()),
    {
        join_path(self.ps_env_path.as_str(), "CUDA", self.config_manager.platform.sep())
    }

    /// The candidate interpreters, in order of preference: on Unix the base environment's
    /// one first, then the portable one.
    pub open spec fn spec_python_candidates(&self) -> Seq<Seq<char>> {
        let sep = self.config_manager.platform.spec_sep();
        if self.config_manager.platform == Platform::Windows {
            seq![joined(joined(self.ps_env_path@, "python"@, sep), "python.exe"@, sep)]
        } else {
            seq![
                joined(
                    joined(
                        joined(joined(self.install_path@, "ps_env"@, sep), "mamba_env"@, sep),
                        "bin"@,
                        sep,
                    ),
                    "python"@,
                    sep,
                ),
                joined(joined(joined(self.ps_env_path@, "python"@, sep), "bin"@, sep), "python"@, sep),
            ]
        }
    }

    pub fn python_candidates(&self) -> (r: Vec<String>)
        ensures
            crate::text::str_views(r@) == self.spec_python_candidates(),
    {
        let sep = self.config_manager.platform.sep();
        let mut r: Vec<String> = Vec::new();
        if self.config_manager.platform == Platform::Windows {
            let d = join_path(self.ps_env_path.as_str(), "python", sep);
            r.push(join_path(d.as_str(), "python.exe", sep));
        } else {
            let a = join_path(self.install_path.as_str(), "ps_env", sep);
            let b = join_path(a.as_str(), "mamba_env", sep);
            let c = join_path(b.as_str(), "bin", sep);
            r.push(join_path(c.as_str(), "python", sep));
            let d = join_path(self.ps_env_path.as_str(), "python", sep);
            let e = join_path(d.as_str(), "bin", sep);
            r.push(join_path(e.as_str(), "python", sep));
        }
        assert(crate::text::str_views(r@) =~= self.spec_python_candidates());
        r
    }

    /// The first candidate interpreter that exists (`present[i]` tells whether candidate
    /// `i` does).
    pub fn get_python_executable(&self, present: &Vec<bool>) -> (r: Option<String>)
        ensures
            match r {
                Some(p) => exists|i: int|
                    0 <= i < present@.len() && i < self.spec_python_candidates().len()
                        && present@[i] && p@ == self.spec_python_candidates()[i] && forall|j: int|
                        0 <= j < i ==> !present@[j],
                None => forall|i: int|
                    0 <= i < present@.len() && i < self.spec_python_candidates().len()
                        ==> !present@[i],
            },
    {
        let c = self.python_candidates();
        let mut i: usize = 0;
        while i < c.len() && i < present.len()
            invariant
                i <= c.len(),
                crate::text::str_views(c@) == self.spec_python_candidates(),
                forall|j: int| 0 <= j < i && j < present@.len() ==> !present@[j],
            decreases c.len() - i,
        {
            if present[i] {
                assert(c@[i as int]@ == self.spec_python_candidates()[i as int]);
                return Some(c[i].clone());
            }
            i = i + 1;
        }
        None
    }

    /// The portable version-control client, when it exists.
    pub fn get_git_executable(&self, exists: bool) -> (r: Option<String>)
        ensures
            exists ==> (r matches Some(p) && p@ == joined(
                joined(
                    joined(self.ps_env_path@, "git"@, self.config_manager.platform.spec_sep()),
                    "bin"@,
                    self.config_manager.platform.spec_sep(),
                ),
                "git.exe"@,
                self.config_manager.platform.spec_sep(),
            )),
            !exists ==> r is None,
    {
        if !exists {
            return None;
        }
        let sep = self.config_manager.platform.sep();
        let a = join_path(self.ps_env_path.as_str(), "git", sep);
        let b = join_path(a.as_str(), "bin", sep);
        Some(join_path(b.as_str(), "git.exe", sep))
    }

    /// The portable media tool, when it exists.
    pub fn get_ffmpeg_executable(&self, exists: bool) -> (r: Option<String>)
        ensures
            exists ==> (r matches Some(p) && p@ == joined(
                joined(self.ps_env_path@, "ffmpeg"@, self.config_manager.platform.spec_sep()),
                "ffmpeg.exe"@,
                self.config_manager.platform.spec_sep(),
            )),
            !exists ==> r is None,
    {
        if !exists {
            return None;
        }
        let sep = self.config_manager.platform.sep();
        let a = join_path(self.ps_env_path.as_str(), "ffmpeg", sep);
        Some(join_path(a.as_str(), "ffmpeg.exe", sep))
    }

    /// The environment is usable when the toolchain directory and the three tools exist.
    pub fn check_environment_status(
        &self,
        env_dir_exists: bool,
        python_exists: bool,
        git_exists: bool,
        ffmpeg_exists: bool,
    ) -> (r: bool)
        ensures
            r == (env_dir_exists && python_exists && git_exists && ffmpeg_exists),
    {
        env_dir_exists && python_exists && git_exists && ffmpeg_exists
    }
}

/// `s` without the leading `\\?\` markers.
pub open spec fn strip_verbatim(s: Seq<char>) -> Seq<char>
    decreases s.len(),
{
    if s.len() >= 4 && s.subrange(0, 4) == "\\\\?\\"@ {
        strip_verbatim(s.subrange(4, s.len() as int))
    } else {
        s
    }
}

/// `s` without one pair of surrounding double quotes.
pub open spec fn strip_quotes(s: Seq<char>) -> Seq<char> {
    if s.len() >= 2 && s[0] == '"' && s.last() == '"' {
        s.subrange(1, s.len() - 1)
    } else {
        s
    }
}

/// `s` without trailing backslashes.
pub open spec fn strip_trailing_backslashes(s: Seq<char>) -> Seq<char>
    decreases s.len(),
{
    if s.len() > 0 && s.last() == '\\' {
        strip_trailing_backslashes(s.drop_last())
    } else {
        s
    }
}

/// A Windows path as the unpack utility takes it.
pub open spec fn sanitized_path(s: Seq<char>) -> Seq<char> {
    strip_trailing_backslashes(strip_quotes(strip_verbatim(s)))
}

/// A path as the unpack utility takes it: without the verbatim prefix, surrounding quotes
/// or trailing backslashes.
pub fn sanitize_windows_path_for_7z(path: &str) -> (r: String)
    ensures
        r@ == sanitized_path(path@),
{
    let s = chars_of(path);
    let marker = chars_of("\\\\?\\");
    let mut a: usize = 0;
    assert(s@.subrange(0, s.len() as int) =~= s@);
    while occurs_at_exec(&s, &marker, a)
        invariant
            a <= s.len(),
            marker@ == "\\\\?\\"@,
            strip_verbatim(s@) == strip_verbatim(s@.subrange(a as int, s.len() as int)),
        decreases s.len() - a,
    {
        proof {
            reveal_strlit("\\\\?\\");
            let t = s@.subrange(a as int, s.len() as int);
            assert(t.subrange(0, 4) =~= s@.subrange(a as int, a + 4));
            assert(t.subrange(4, t.len() as int) =~= s@.subrange(a + 4, s.len() as int));
        }
        a = a + 4;
    }
    proof {
        reveal_strlit("\\\\?\\");
        let t = s@.subrange(a as int, s.len() as int);
        if t.len() >= 4 {
            assert(t.subrange(0, 4) =~= s@.subrange(a as int, a + 4));
        }
    }
    let mut from = a;
    let mut to = s.len();
    if to - from >= 2 && s[from] == '"' && s[to - 1] == '"' {
        from = from + 1;
        to = to - 1;
    }
    let ghost q = s@.subrange(from as int, to as int);
    assert(q == strip_quotes(s@.subrange(a as int, s.len() as int)));
    assert(q.subrange(0, (to - from) as int) =~= q);
    while to > from && s[to - 1] == '\\'
        invariant
            from <= to <= s.len(),
            q == strip_quotes(s@.subrange(a as int, s.len() as int)),
            strip_trailing_backslashes(q) == strip_trailing_backslashes(
                s@.subrange(from as int, to as int),
            ),
        decreases to,
    {
        assert(s@.subrange(from as int, to as int).drop_last() =~= s@.subrange(
            from as int,
            to - 1,
        ));
        to = to - 1;
    }
    let out = slice_chars(&s, from, to);
    string_of(&out)
}

/// The output-directory argument of the unpack utility, quoted when the path holds a space.
pub open spec fn out_arg(path: Seq<char>) -> Seq<char> {
    let s = sanitized_path(path);
    if has_infix(s, " "@) {
        "-o\""@ + s + "\""@
    } else {
        "-o"@ + s
    }
}

pub fn format_7z_out_arg(path: &str) -> (r: String)
    ensures
        r@ == out_arg(path@),
{
    let s = sanitize_windows_path_for_7z(path);
    if crate::text::contains_str(s.as_str(), " ") {
        let a = concat("-o\"", s.as_str());
        concat(a.as_str(), "\"")
    } else {
        concat("-o", s.as_str())
    }
}

/// The total size that a `Content-Range` value (`bytes start-end/total`) states.
pub open spec fn range_total(hv: Seq<char>) -> Option<int> {
    if exists|i: int| 0 <= i < hv.len() && hv[i] == '/' {
        let i = choose|i: int|
            0 <= i < hv.len() && hv[i] == '/' && forall|j: int| i < j < hv.len() ==> hv[j] != '/';
        decimal_of(trim(hv.subrange(i + 1, hv.len() as int)), u64::MAX as int)
    } else {
        None
    }
}

/// The total size that a `Content-Range` value states, after its last `/`.
pub fn parse_total_from_content_range(hv: &str) -> (r: Option<u64>)
    ensures
        match r {
            Some(v) => range_total(hv@) == Some(v as int),
            None => range_total(hv@) is None,
        },
{
    let s = chars_of(hv);
    match rfind_char(&s, '/') {
        Some(i) => {
            let ghost k = choose|k: int|
                0 <= k < hv@.len() && hv@[k] == '/' && forall|j: int|
                    k < j < hv@.len() ==> hv@[j] != '/';
            assert(k == i as int) by {
                if k < i {
                } else if k > i {
                }
            }
            let rest = slice_chars(&s, i + 1, s.len());
            let t = trim_chars(&rest);
            parse_decimal(&t, 0xffff_ffff_ffff_ffff)
        },
        None => None,
    }
}

/// The number of ASCII digits that end `s`.
pub open spec fn trailing_digits(s: Seq<char>) -> nat
    decreases s.len(),
{
    if s.len() > 0 && '0' <= s.last() && s.last() <= '9' {
        1 + trailing_digits(s.drop_last())
    } else {
        0
    }
}

/// The percentage a progress line of the unpack utility shows: the digits right before
/// its last `%`, at most 100.
pub open spec fn percent_of(line: Seq<char>) -> Option<int> {
    if exists|i: int| 0 <= i < line.len() && line[i] == '%' {
        let i = choose|i: int|
            0 <= i < line.len() && line[i] == '%' && forall|j: int|
                i < j < line.len() ==> line[j] != '%';
        let before = line.subrange(0, i);
        let digits = before.subrange(before.len() - trailing_digits(before), before.len() as int);
        match decimal_of(digits, u32::MAX as int) {
            Some(v) => Some(
                if v <= 100 {
                    v
                } else {
                    100
                },
            ),
            None => None,
        }
    } else {
        None
    }
}

/// The percentage a progress line of the unpack utility shows.
pub fn extract_percent(line: &str) -> (r: Option<u32>)
    ensures
        match r {
            Some(v) => percent_of(line@) == Some(v as int),
            None => percent_of(line@) is None,
        },
{
    let s = chars_of(line);
    match rfind_char(&s, '%') {
        Some(p) => {
            let ghost k = choose|k: int|
                0 <= k < line@.len() && line@[k] == '%' && forall|j: int|
                    k < j < line@.len() ==> line@[j] != '%';
            assert(k == p as int) by {
                if k < p {
                } else if k > p {
                }
            }
            let ghost before = s@.subrange(0, p as int);
            let mut start = p;
            while start > 0 && '0' <= s[start - 1] && s[start - 1] <= '9'
                invariant
                    start <= p,
                    p < s.len(),
                    before == s@.subrange(0, p as int),
                    trailing_digits(before) == (p - start) + trailing_digits(
                        s@.subrange(0, start as int),
                    ),
                decreases start,
            {
                assert(s@.subrange(0, start as int).drop_last() =~= s@.subrange(0, start - 1));
                start = start - 1;
            }
            assert(trailing_digits(s@.subrange(0, start as int)) == 0);
            let digits = slice_chars(&s, start, p);
            assert(digits@ =~= before.subrange(
                before.len() - trailing_digits(before),
                before.len() as int,
            ));
            match parse_decimal(&digits, 0xffff_ffff) {
                Some(v) => {
                    if v <= 100 {
                        Some(v as u32)
                    } else {
                        Some(100)
                    }
                },
                None => None,
            }
        },
        None => None,
    }
}

/// A piece of text without its final carriage return.
pub open spec fn strip_cr(s: Seq<char>) -> Seq<char> {
    if s.len() > 0 && s.last() == '\r' {
        s.drop_last()
    } else {
        s
    }
}

/// The lines of a non-empty text that does not end in a line break, as `str::lines`
/// yields them.
pub open spec fn lines_of(s: Seq<char>) -> Seq<Seq<char>> {
    strip_crs(crate::text::split_char(s, '\n'))
}

/// Each piece without its final carriage return.
pub open spec fn strip_crs(ls: Seq<Seq<char>>) -> Seq<Seq<char>> {
    Seq::new(ls.len(), |i: int| strip_cr(ls[i]))
}

/// The tests a line of tool output can be put to.
pub enum LineTest {
    /// The banner of the runtime compiler.
    Banner,
    /// A trimmed line that may carry the runtime compiler's version.
    NvccPlausible,
    /// A line holding the given marker.
    Marker(Seq<char>),
    /// A trimmed line that may carry a version.
    Plausible,
}

pub open spec fn line_ok(t: LineTest, l: Seq<char>) -> bool {
    match t {
        LineTest::Banner => has_infix(l, "nvcc:"@) || has_infix(l, "Cuda compilation tools"@),
        LineTest::NvccPlausible => plausible_nvcc_line(trim(l)),
        LineTest::Marker(m) => has_infix(l, m),
        LineTest::Plausible => plausible_line(trim(l)),
    }
}

/// The position of the first line satisfying `f`.
pub open spec fn first_line(ls: Seq<Seq<char>>, f: LineTest) -> Option<int>
    decreases ls.len(),
{
    if ls.len() == 0 {
        None
    } else if line_ok(f, ls[0]) {
        Some(0)
    } else {
        match first_line(ls.drop_first(), f) {
            Some(i) => Some(i + 1),
            None => None,
        }
    }
}

/// The position of the last line satisfying `f`.
pub open spec fn last_line(ls: Seq<Seq<char>>, f: LineTest) -> Option<int>
    decreases ls.len(),
{
    if ls.len() == 0 {
        None
    } else if line_ok(f, ls.last()) {
        Some(ls.len() - 1)
    } else {
        last_line(ls.drop_last(), f)
    }
}

/// A trimmed line that may carry the version of the runtime compiler.
pub open spec fn plausible_nvcc_line(l: Seq<char>) -> bool {
    l.len() > 0 && !has_prefix(l, "C:\\"@) && !has_infix(l, "SET"@) && !has_infix(l, "set"@)
}

/// A trimmed line that may carry a version.
pub open spec fn plausible_line(l: Seq<char>) -> bool {
    plausible_nvcc_line(l) && !has_prefix(l, "("@) && !has_infix(l, ">"@)
}

/// The text that marks a tool's version line.
pub open spec fn version_marker(tool: Seq<char>) -> Option<Seq<char>> {
    if tool == "python"@ {
        Some("Python "@)
    } else if tool == "git"@ {
        Some("git version"@)
    } else if tool == "ffmpeg"@ {
        Some("ffmpeg version"@)
    } else {
        None
    }
}

/// The version line of a tool's output, or "Unknown version".
pub open spec fn version_line(tool: Seq<char>, output: Seq<char>) -> Seq<char> {
    let out = trim(output);
    let ls = lines_of(out);
    let nvcc_hit = first_line(ls, LineTest::Banner);
    let nvcc_last = last_line(ls, LineTest::NvccPlausible);
    let marked = match version_marker(tool) {
        Some(m) => first_line(ls, LineTest::Marker(m)),
        None => None,
    };
    let general = first_line(ls, LineTest::Plausible);
    if out.len() == 0 {
        "Unknown version"@
    } else if tool == "nvcc"@ && nvcc_hit is Some {
        trim(ls[nvcc_hit->0])
    } else if tool == "nvcc"@ && nvcc_last is Some {
        trim(ls[nvcc_last->0])
    } else if marked is Some {
        trim(ls[marked->0])
    } else if general is Some {
        trim(ls[general->0])
    } else {
        "Unknown version"@
    }
}

proof fn lemma_first_line_step(ls: Seq<Seq<char>>, f: LineTest, i: int)
    requires
        0 <= i <= ls.len(),
        forall|j: int| 0 <= j < i ==> !line_ok(f, #[trigger] ls[j]),
    ensures
        first_line(ls, f) == match first_line(ls.subrange(i, ls.len() as int), f) {
            Some(k) => Some(k + i),
            None => None::<int>,
        },
    decreases i,
{
    if i > 0 {
        assert(ls.subrange(i, ls.len() as int) =~= ls.drop_first().subrange(
            i - 1,
            ls.drop_first().len() as int,
        ));
        lemma_first_line_step(ls.drop_first(), f, i - 1);
    } else {
        assert(ls.subrange(0, ls.len() as int) =~= ls);
    }
}

proof fn lemma_last_line_step(ls: Seq<Seq<char>>, f: LineTest, n: int)
    requires
        0 <= n <= ls.len(),
        forall|j: int| n <= j < ls.len() ==> !line_ok(f, #[trigger] ls[j]),
    ensures
        last_line(ls, f) == last_line(ls.subrange(0, n), f),
    decreases ls.len() - n,
{
    if n < ls.len() {
        assert(ls.drop_last().subrange(0, n) =~= ls.subrange(0, n));
        lemma_last_line_step(ls.drop_last(), f, n);
    } else {
        assert(ls.subrange(0, n) =~= ls);
    }
}

/// The lines of a text, each without its final carriage return.
fn text_lines(s: &Vec<char>) -> (r: Vec<Vec<char>>)
    ensures
        crate::text::views(r@) == strip_crs(crate::text::split_char(s@, '\n')),
{
    let pieces = crate::text::split_chars(s, '\n');
    let mut r: Vec<Vec<char>> = Vec::new();
    let mut i: usize = 0;
    while i < pieces.len()
        invariant
            i <= pieces.len(),
            crate::text::views(r@) == strip_crs(crate::text::views(pieces@).subrange(0, i as int)),
        decreases pieces.len() - i,
    {
        let p = &pieces[i];
        let l = if p.len() > 0 && p[p.len() - 1] == '\r' {
            slice_chars(p, 0, p.len() - 1)
        } else {
            slice_chars(p, 0, p.len())
        };
        assert(p@.subrange(0, p@.len() as int) =~= p@);
        assert(p@.subrange(0, p@.len() - 1) =~= p@.drop_last());
        assert(l@ == strip_cr(crate::text::views(pieces@)[i as int]));
        let ghost before = crate::text::views(r@);
        let ghost lv = l@;
        r.push(l);
        assert(crate::text::views(r@) =~= before.push(lv));
        i = i + 1;
        assert(crate::text::views(r@) =~= strip_crs(crate::text::views(pieces@).subrange(0, i as int)));
    }
    assert(crate::text::views(pieces@).subrange(0, pieces.len() as int) =~= crate::text::views(
        pieces@,
    ));
    r
}

fn plausible_nvcc_exec(l: &str) -> (r: bool)
    ensures
        r == plausible_nvcc_line(l@),
{
    !l.is_empty() && !crate::text::starts_with_str(l, "C:\\") && !crate::text::contains_str(
        l,
        "SET",
    ) && !crate::text::contains_str(l, "set")
}

fn plausible_exec(l: &str) -> (r: bool)
    ensures
        r == plausible_line(l@),
{
    plausible_nvcc_exec(l) && !crate::text::starts_with_str(l, "(") && !crate::text::contains_str(
        l,
        ">",
    )
}

/// The version line of a tool's output: for the runtime compiler its banner line or else
/// its last plausible line; for the interpreter, the version-control client and the media
/// tool the line with their version marker; else the first plausible line; else
/// "Unknown version".
#[verifier::loop_isolation(false)]
pub fn extract_version_from_output(tool_name: &str, output: &str) -> (r: String)
    ensures
        r@ == version_line(tool_name@, output@),
{
    let out = crate::text::trim_str(output);
    if out.as_str().is_empty() {
        return "Unknown version".to_owned();
    }
    let oc = chars_of(out.as_str());
    let ls = text_lines(&oc);
    let ghost lsv = crate::text::views(ls@);
    assert(lsv == lines_of(trim(output@)));
    if crate::text::same_text(tool_name, "nvcc") {
        let mut i: usize = 0;
        while i < ls.len()
            invariant
                i <= ls.len(),
                lsv == crate::text::views(ls@),
                forall|j: int| 0 <= j < i ==> !line_ok(LineTest::Banner, #[trigger] lsv[j]),
            decreases ls.len() - i,
        {
            let line = string_of(&ls[i]);
            assert(lsv[i as int] == ls@[i as int]@);
            if crate::text::contains_str(line.as_str(), "nvcc:") || crate::text::contains_str(
                line.as_str(),
                "Cuda compilation tools",
            ) {
                proof {
                    lemma_first_line_step(lsv, LineTest::Banner, i as int);
                }
                return crate::text::trim_str(line.as_str());
            }
            i = i + 1;
        }
        proof {
            lemma_first_line_step(lsv, LineTest::Banner, ls.len() as int);
        }
        let mut n: usize = ls.len();
        while n > 0
            invariant
                n <= ls.len(),
                lsv == crate::text::views(ls@),
                first_line(lsv, LineTest::Banner) is None,
                forall|j: int| n <= j < ls.len() ==> !line_ok(LineTest::NvccPlausible, #[trigger] lsv[j]),
            decreases n,
        {
            let line = string_of(&ls[n - 1]);
            assert(lsv[n - 1] == ls@[n - 1]@);
            let t = crate::text::trim_str(line.as_str());
            if plausible_nvcc_exec(t.as_str()) {
                proof {
                    lemma_last_line_step(lsv, LineTest::NvccPlausible, n as int);
                    assert(lsv.subrange(0, n as int).last() == lsv[n - 1]);
                }
                return t;
            }
            n = n - 1;
        }
        proof {
            lemma_last_line_step(lsv, LineTest::NvccPlausible, 0);
        }
    }
    let marker: Option<&str> = if crate::text::same_text(tool_name, "python") {
        Some("Python ")
    } else if crate::text::same_text(tool_name, "git") {
        Some("git version")
    } else if crate::text::same_text(tool_name, "ffmpeg") {
        Some("ffmpeg version")
    } else {
        None
    };
    proof {
        reveal_strlit("nvcc");
        reveal_strlit("python");
        reveal_strlit("git");
        reveal_strlit("ffmpeg");
    }
    match marker {
        Some(m) => {
                        let mut i: usize = 0;
            while i < ls.len()
                invariant
                    i <= ls.len(),
                    lsv == crate::text::views(ls@),
                    forall|j: int| 0 <= j < i ==> !line_ok(LineTest::Marker(m@), #[trigger] lsv[j]),
                decreases ls.len() - i,
            {
                let line = string_of(&ls[i]);
                assert(lsv[i as int] == ls@[i as int]@);
                if crate::text::contains_str(line.as_str(), m) {
                    proof {
                        lemma_first_line_step(lsv, LineTest::Marker(m@), i as int);
                    }
                    return crate::text::trim_str(line.as_str());
                }
                i = i + 1;
            }
            proof {
                lemma_first_line_step(lsv, LineTest::Marker(m@), ls.len() as int);
            }
        },
        None => {},
    }
    let mut i: usize = 0;
    while i < ls.len()
        invariant
            i <= ls.len(),
            lsv == crate::text::views(ls@),
            forall|j: int| 0 <= j < i ==> !line_ok(LineTest::Plausible, #[trigger] lsv[j]),
        decreases ls.len() - i,
    {
        let line = string_of(&ls[i]);
        assert(lsv[i as int] == ls@[i as int]@);
        let t = crate::text::trim_str(line.as_str());
        if plausible_exec(t.as_str()) {
            proof {
                lemma_first_line_step(lsv, LineTest::Plausible, i as int);
            }
            return t;
        }
        i = i + 1;
    }
    proof {
        lemma_first_line_step(lsv, LineTest::Plausible, ls.len() as int);
    }
    "Unknown version".to_owned()
}

/// The start of the first whitespace-separated token of `l` that begins with a digit.
pub open spec fn digit_token_start(l: Seq<char>, i: int) -> bool {
    &&& 0 <= i < l.len()
    &&& '0' <= l[i] && l[i] <= '9'
    &&& (i == 0 || is_ws(l[i - 1]))
}

/// The token of `l` that starts at `i`: up to the next whitespace or the end.
pub open spec fn token_at(l: Seq<char>, i: int) -> Seq<char>
    decreases l.len() - i,
{
    if i < 0 || i >= l.len() || is_ws(l[i]) {
        seq![]
    } else {
        seq![l[i]] + token_at(l, i + 1)
    }
}

/// The runtime release a version token names.
pub open spec fn release_of_token(t: Seq<char>) -> Option<CudaVersionLinux> {
    if has_prefix(t, "12.8"@) {
        Some(CudaVersionLinux::Cuda128)
    } else if has_prefix(t, "12.6"@) {
        Some(CudaVersionLinux::Cuda126)
    } else if has_prefix(t, "12.4"@) {
        Some(CudaVersionLinux::Cuda124)
    } else if has_prefix(t, "12.1"@) {
        Some(CudaVersionLinux::Cuda121)
    } else if has_prefix(t, "11.8"@) {
        Some(CudaVersionLinux::Cuda118)
    } else {
        None
    }
}

/// The release a lower-cased line of the runtime compiler's banner names, if it is the
/// banner line.
#[verifier::opaque]
pub open spec fn release_of_line(l: Seq<char>) -> Option<CudaVersionLinux> {
    if has_infix(l, "cuda compilation tools"@) && has_infix(l, "release"@) {
        let t = if exists|i: int| digit_token_start(l, i) {
            let i = choose|i: int|
                digit_token_start(l, i) && forall|j: int| 0 <= j < i ==> !digit_token_start(l, j);
            token_at(l, i)
        } else {
            seq![]
        };
        release_of_token(t)
    } else {
        None
    }
}

/// The release named by the first banner line that names one.
pub open spec fn release_of_lines(ls: Seq<Seq<char>>) -> Option<CudaVersionLinux>
    decreases ls.len(),
{
    if ls.len() == 0 {
        None
    } else if release_of_line(ls[0]) is Some {
        release_of_line(ls[0])
    } else {
        release_of_lines(ls.drop_first())
    }
}

fn token_from(l: &Vec<char>, i: usize) -> (r: Vec<char>)
    requires
        i <= l.len(),
    ensures
        r@ == token_at(l@, i as int),
{
    let mut j = i;
    while j < l.len() && !crate::text::is_whitespace(l[j])
        invariant
            i <= j <= l.len(),
            token_at(l@, i as int) == l@.subrange(i as int, j as int) + token_at(l@, j as int),
        decreases l.len() - j,
    {
        assert(l@.subrange(i as int, j + 1) =~= l@.subrange(i as int, j as int) + seq![l@[j as int]]);
        j = j + 1;
    }
    assert(token_at(l@, j as int) =~= Seq::<char>::empty());
    assert(l@.subrange(i as int, j as int) + Seq::<char>::empty() =~= l@.subrange(i as int, j as int));
    slice_chars(l, i, j)
}

fn release_of_line_exec(line: &str) -> (r: Option<CudaVersionLinux>)
    ensures
        r == release_of_line(line@),
{
    reveal(release_of_line);
    if !(crate::text::contains_str(line, "cuda compilation tools") && crate::text::contains_str(
        line,
        "release",
    )) {
        return None;
    }
    let l = chars_of(line);
    let mut i: usize = 0;
    let mut found: Option<usize> = None;
    while i < l.len()
        invariant
            i <= l.len(),
            l@ == line@,
            found matches Some(k) ==> digit_token_start(l@, k as int) && forall|j: int|
                0 <= j < k ==> !digit_token_start(l@, j),
            found is None ==> forall|j: int| 0 <= j < i ==> !digit_token_start(l@, j),
        decreases l.len() - i,
    {
        if found.is_none() && '0' <= l[i] && l[i] <= '9' && (i == 0 || crate::text::is_whitespace(
            l[i - 1],
        )) {
            found = Some(i);
        }
        i = i + 1;
    }
    let t = match found {
        Some(k) => {
            let ghost c = choose|c: int|
                digit_token_start(l@, c) && forall|j: int| 0 <= j < c ==> !digit_token_start(l@, j);
            assert(c == k as int) by {
                if c < k {
                } else if c > k {
                }
            }
            token_from(&l, k)
        },
        None => Vec::new(),
    };
    let ts = string_of(&t);
    let v = ts.as_str();
    if crate::text::starts_with_str(v, "12.8") {
        Some(CudaVersionLinux::Cuda128)
    } else if crate::text::starts_with_str(v, "12.6") {
        Some(CudaVersionLinux::Cuda126)
    } else if crate::text::starts_with_str(v, "12.4") {
        Some(CudaVersionLinux::Cuda124)
    } else if crate::text::starts_with_str(v, "12.1") {
        Some(CudaVersionLinux::Cuda121)
    } else if crate::text::starts_with_str(v, "11.8") {
        Some(CudaVersionLinux::Cuda118)
    } else {
        None
    }
}

/// The system runtime release that the runtime compiler's `--version` output names: the
/// first version token of its first banner line that names a known release, compared in
/// lower case.
pub fn cuda_release_from_nvcc_output(output: &str) -> (r: Option<CudaVersionLinux>)
    ensures
        r == release_of_lines(crate::text::split_char(crate::text::lower_of(output@), '\n')),
{
    let low = crate::text::to_lower(output);
    let lc = chars_of(low.as_str());
    let pieces = crate::text::split_chars(&lc, '\n');
    let ghost ls = crate::text::views(pieces@);
    let mut i: usize = 0;
    assert(ls.subrange(0, ls.len() as int) =~= ls);
    while i < pieces.len()
        invariant
            i <= pieces.len(),
            ls == crate::text::views(pieces@),
            ls == crate::text::split_char(crate::text::lower_of(output@), '\n'),
            release_of_lines(ls) == release_of_lines(ls.subrange(i as int, ls.len() as int)),
        decreases pieces.len() - i,
    {
        let line = string_of(&pieces[i]);
        assert(ls[i as int] == pieces@[i as int]@);
        let ghost rest = ls.subrange(i as int, ls.len() as int);
        assert(rest.drop_first() =~= ls.subrange(i + 1, ls.len() as int));
        assert(rest[0] == ls[i as int]);
        let v = release_of_line_exec(line.as_str());
        if v.is_some() {
            assert(release_of_lines(rest) == release_of_line(rest[0]));
            return v;
        }
        assert(release_of_lines(rest) == release_of_lines(rest.drop_first()));
        i = i + 1;
    }
    assert(ls.subrange(ls.len() as int, ls.len() as int) =~= Seq::<Seq<char>>::empty());
    None
}

/// How one tool answered its version query.
#[derive(Debug, Clone)]
pub struct ToolStatus {
    pub working: bool,
    pub version: Option<String>,
    pub error: Option<String>,
    pub stderr: Option<String>,
}

/// The state of the portable environment and of each of its tools.
#[derive(Debug, Clone)]
pub struct EnvironmentStatus {
    pub environment_exists: bool,
    pub environment_setup_completed: bool,
    pub tools_status: Vec<(String, ToolStatus)>,
    pub all_tools_working: bool,
    pub overall_status: String,
}

#[derive(Debug, Clone)]
pub struct EnvironmentPaths {
    pub ps_env_path: String,
}

/// Where the environment lives and which tools are unpacked.
#[derive(Debug, Clone)]
pub struct EnvironmentInfo {
    pub base_env_exists: bool,
    pub base_env_python: Option<String>,
    pub base_env_pip: Option<String>,
    pub installed_tools: Vec<(String, bool)>,
    pub paths: EnvironmentPaths,
}

/// A tool works when its output shows a version.
pub open spec fn tool_works(tool: Seq<char>, run: Option<(String, String)>) -> bool {
    match run {
        Some((out, _)) => version_line(tool, out@) != "Unknown version"@,
        None => false,
    }
}

/// The status of one tool from its query's standard output and error, `None` when the
/// query could not be run.
pub fn tool_status(tool: &str, run: Option<(String, String)>) -> (r: ToolStatus)
    ensures
        r.working == tool_works(tool@, run),
        r.working ==> (r.version matches Some(v) && v@ == version_line(tool@, (run->0).0@)),
        r.working <==> r.version is Some,
        !r.working ==> r.version is None && r.error is Some,
{
    match run {
        Some((out, err)) => {
            let version = extract_version_from_output(tool, out.as_str());
            if !crate::text::same_text(version.as_str(), "Unknown version") {
                ToolStatus { working: true, version: Some(version), error: None, stderr: None }
            } else {
                let trimmed = crate::text::trim_str(err.as_str());
                let stderr = if trimmed.as_str().is_empty() {
                    None
                } else {
                    Some(trimmed)
                };
                ToolStatus {
                    working: false,
                    version: None,
                    error: Some("No version in the tool's output".to_owned()),
                    stderr,
                }
            }
        },
        None => ToolStatus {
            working: false,
            version: None,
            error: Some("The tool could not be run".to_owned()),
            stderr: None,
        },
    }
}

impl PortableEnvironmentManager {
    /// The detailed status: "Environment not found" without the toolchain directory, else
    /// the status of each queried tool and "Ready" when all of them work, "Issues detected"
    /// otherwise.
    pub fn get_environment_status(
        &self,
        environment_exists: bool,
        runs: Vec<(String, Option<(String, String)>)>,
    ) -> (r: EnvironmentStatus)
        ensures
            r.environment_exists == environment_exists,
            r.environment_setup_completed == self.config_manager.config.environment_setup_completed,
            !environment_exists ==> r.tools_status@.len() == 0 && r.overall_status@
                == "Environment not found"@,
            environment_exists ==> {
                &&& r.tools_status@.len() == runs@.len()
                &&& forall|i: int|
                    0 <= i < runs@.len() ==> (#[trigger] r.tools_status@[i]).0@ == runs@[i].0@
                        && r.tools_status@[i].1.working == tool_works(runs@[i].0@, runs@[i].1)
                        && (r.tools_status@[i].1.working <==> r.tools_status@[i].1.version is Some)
                &&& r.all_tools_working == forall|i: int|
                    0 <= i < runs@.len() ==> tool_works(#[trigger] runs@[i].0@, runs@[i].1)
                &&& r.overall_status@ == if r.all_tools_working {
                    "Ready"@
                } else {
                    "Issues detected"@
                }
            },
    {
        let completed = self.config_manager.config.environment_setup_completed;
        if !environment_exists {
            return EnvironmentStatus {
                environment_exists,
                environment_setup_completed: completed,
                tools_status: Vec::new(),
                all_tools_working: true,
                overall_status: "Environment not found".to_owned(),
            };
        }
        let ghost all = runs@;
        let mut statuses: Vec<(String, ToolStatus)> = Vec::new();
        let mut all_ok = true;
        let mut rest = runs;
        let ghost mut k: int = 0;
        while rest.len() > 0
            invariant
                k + rest@.len() == all.len(),
                0 <= k <= all.len(),
                rest@ == all.subrange(k, all.len() as int),
                statuses@.len() == k,
                forall|i: int|
                    0 <= i < k ==> (#[trigger] statuses@[i]).0@ == all[i].0@ && statuses@[i].1.working
                        == tool_works(all[i].0@, all[i].1) && (statuses@[i].1.working
                        <==> statuses@[i].1.version is Some),
                all_ok == forall|i: int| 0 <= i < k ==> tool_works(#[trigger] all[i].0@, all[i].1),
            decreases rest.len(),
        {
            let (tool, run) = rest.remove(0);
            proof {
                assert(all[k] == (tool, run));
            }
            let st = tool_status(tool.as_str(), run);
            all_ok = all_ok && st.working;
            statuses.push((tool, st));
            proof {
                k = k + 1;
                assert(rest@ =~= all.subrange(k, all.len() as int));
            }
        }
        EnvironmentStatus {
            environment_exists,
            environment_setup_completed: completed,
            tools_status: statuses,
            all_tools_working: all_ok,
            overall_status: if all_ok {
                "Ready".to_owned()
            } else {
                "Issues detected".to_owned()
            },
        }
    }

    /// Paths and unpacked tools: the base environment exists when the toolchain directory
    /// and its interpreter do; `tool_dirs_exist[i]` tells whether tool `i` of
    /// `build_tool_specs` is unpacked.
    pub fn get_environment_info(&self, env_dir_exists: bool, python: Option<String>, tool_dirs_exist: &Vec<bool>) -> (r:
        EnvironmentInfo)
        requires
            tool_dirs_exist@.len() == 3,
        ensures
            r.base_env_exists == (env_dir_exists && python is Some),
            r.base_env_python == python,
            r.base_env_pip is None,
            r.installed_tools@.len() == 3,
            r.installed_tools@[0].0@ == "ffmpeg"@ && r.installed_tools@[0].1 == tool_dirs_exist@[0],
            r.installed_tools@[1].0@ == "git"@ && r.installed_tools@[1].1 == tool_dirs_exist@[1],
            r.installed_tools@[2].0@ == "python"@ && r.installed_tools@[2].1 == tool_dirs_exist@[2],
            r.paths.ps_env_path@ == self.ps_env_path@,
    {
        let specs = self.build_tool_specs();
        let mut tools: Vec<(String, bool)> = Vec::new();
        tools.push((specs[0].name.clone(), tool_dirs_exist[0]));
        tools.push((specs[1].name.clone(), tool_dirs_exist[1]));
        tools.push((specs[2].name.clone(), tool_dirs_exist[2]));
        EnvironmentInfo {
            base_env_exists: env_dir_exists && python.is_some(),
            base_env_python: python,
            base_env_pip: None,
            installed_tools: tools,
            paths: EnvironmentPaths { ps_env_path: self.ps_env_path.clone() },
        }
    }
}

} // verus!
