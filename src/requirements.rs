//! Parsing of requirement lines (`name[extras]<op><version>  # comment`) and their
//! classification into installation categories.

use crate::text::{
    before_char, chars_of, lemma_before_char, has_infix, has_prefix, index_of_char, index_of_char_exec,
    lower_of, same_text, slice_chars, split_char,
    split_chars, str_views, string_of, to_lower, trim, trim_chars, views,
};
use vstd::prelude::*;

verus! {

/// The installation category of a package.
#[derive(Debug, Clone, Copy, PartialEq, Eq, Structural)]
pub enum PackageType {
    Regular,
    Torch,
    Onnxruntime,
    Insightface,
    Triton,
}

/// The category of a lower-cased package name.
pub open spec fn category_of(l: Seq<char>) -> PackageType {
    if l == "torch"@ || l == "torchvision"@ || l == "torchaudio"@ || l == "torchtext"@ || l
        == "torchdata"@ {
        PackageType::Torch
    } else if has_prefix(l, "onnxruntime"@) {
        PackageType::Onnxruntime
    } else if has_prefix(l, "insightface"@) {
        PackageType::Insightface
    } else if has_prefix(l, "triton"@) {
        PackageType::Triton
    } else {
        PackageType::Regular
    }
}

/// A character of a version comparison operator.
pub open spec fn is_op(c: char) -> bool {
    c == '=' || c == '>' || c == '<' || c == '!' || c == '~'
}

/// The position of the first operator character, or the length of `s`.
pub open spec fn op_index(s: Seq<char>) -> int
    decreases s.len(),
{
    if s.len() == 0 {
        0
    } else if is_op(s[0]) {
        0
    } else {
        1 + op_index(s.drop_first())
    }
}

pub open spec fn trim_ops_start(s: Seq<char>) -> Seq<char>
    decreases s.len(),
{
    if s.len() > 0 && is_op(s[0]) {
        trim_ops_start(s.drop_first())
    } else {
        s
    }
}

pub open spec fn trim_ops_end(s: Seq<char>) -> Seq<char>
    decreases s.len(),
{
    if s.len() > 0 && is_op(s.last()) {
        trim_ops_end(s.drop_last())
    } else {
        s
    }
}

/// `s` without operator characters at either end.
pub open spec fn trim_ops(s: Seq<char>) -> Seq<char> {
    trim_ops_end(trim_ops_start(s))
}

/// The part of a line before any comment, trimmed.
pub open spec fn requirement_body(line: Seq<char>) -> Seq<char> {
    trim(before_char(line, '#'))
}

/// A line that names no package: blank, a comment, an option or an index directive.
pub open spec fn is_skipped(body: Seq<char>) -> bool {
    body.len() == 0 || body[0] == '-' || has_infix(body, "--index-url"@) || has_infix(
        body,
        "--extra-index-url"@,
    )
}

/// The name with its extras: what precedes the first operator, trimmed.
pub open spec fn name_part_of(body: Seq<char>) -> Seq<char> {
    if op_index(body) < body.len() {
        trim(body.subrange(0, op_index(body)))
    } else {
        body
    }
}

/// The version constraint: what follows the name, without the operator characters.
pub open spec fn version_of(body: Seq<char>) -> Option<Seq<char>> {
    if op_index(body) < body.len() {
        Some(trim_ops(body.subrange(op_index(body), body.len() as int)))
    } else {
        None
    }
}

/// The package name without extras.
pub open spec fn bare_name(np: Seq<char>) -> Seq<char> {
    np.subrange(0, index_of_char(np, '['))
}

/// The comma-separated extras between `[` and `]`, if any.
pub open spec fn extras_of(np: Seq<char>) -> Option<Seq<Seq<char>>> {
    let b = index_of_char(np, '[');
    if b < np.len() {
        let rest = np.subrange(b + 1, np.len() as int);
        Some(split_char(rest.subrange(0, index_of_char(rest, ']')), ','))
    } else {
        None
    }
}

/// One parsed dependency line.
#[derive(Debug, Clone)]
pub struct PackageInfo {
    pub name: String,
    pub version: Option<String>,
    pub extras: Option<Vec<String>>,
    pub package_type: PackageType,
    pub original_line: String,
}

impl PackageInfo {
    /// The category follows from the (lower-cased) name.
    pub open spec fn wf(&self) -> bool {
        self.package_type == category_of(self.name@)
    }

    /// The requirement as it is handed to the package manager: `name==version` or `name`.
    pub open spec fn spec_requirement(&self) -> Seq<char> {
        match self.version {
            Some(v) => self.name@ + "=="@ + v@,
            None => self.name@,
        }
    }

    /// The requirement as it is handed to the package manager: `name==version` or `name`.
    pub fn requirement(&self) -> (r: String)
        ensures
            r@ == self.spec_requirement(),
    {
        match &self.version {
            Some(v) => {
                let head = crate::text::concat(self.name.as_str(), "==");
                crate::text::concat(head.as_str(), v.as_str())
            },
            None => self.name.clone(),
        }
    }
}

/// What `parse_requirement_line` makes of a line: `None` for a skipped line.
pub open spec fn parses_to(line: Seq<char>, p: PackageInfo) -> bool {
    let body = requirement_body(line);
    let np = name_part_of(body);
    &&& p.name@ == lower_of(bare_name(np))
    &&& p.package_type == category_of(p.name@)
    &&& match (p.version, version_of(body)) {
        (Some(v), Some(w)) => v@ == w,
        (None, None) => true,
        _ => false,
    }
    &&& match (p.extras, extras_of(np)) {
        (Some(e), Some(f)) => str_views(e@) == f,
        (None, None) => true,
        _ => false,
    }
    &&& p.original_line@ == line
}

proof fn lemma_op_index(s: Seq<char>, i: int)
    requires
        0 <= i <= s.len(),
        forall|j: int| 0 <= j < i ==> !is_op(s[j]),
        i == s.len() || is_op(s[i]),
    ensures
        op_index(s) == i,
    decreases i,
{
    if i > 0 {
        lemma_op_index(s.drop_first(), i - 1);
    }
}

fn is_op_char(c: char) -> (r: bool)
    ensures
        r == is_op(c),
{
    c == '=' || c == '>' || c == '<' || c == '!' || c == '~'
}

fn op_index_exec(s: &Vec<char>) -> (r: usize)
    ensures
        r == op_index(s@),
        r <= s.len(),
{
    let mut i: usize = 0;
    while i < s.len() && !is_op_char(s[i])
        invariant
            i <= s.len(),
            forall|j: int| 0 <= j < i ==> !is_op(s@[j]),
        decreases s.len() - i,
    {
        i = i + 1;
    }
    proof {
        lemma_op_index(s@, i as int);
    }
    i
}

fn trim_ops_exec(s: &Vec<char>) -> (r: Vec<char>)
    ensures
        r@ == trim_ops(s@),
{
    let n = s.len();
    let mut a: usize = 0;
    assert(s@.subrange(0, n as int) =~= s@);
    while a < n && is_op_char(s[a])
        invariant
            a <= n,
            n == s.len(),
            trim_ops_start(s@) == trim_ops_start(s@.subrange(a as int, n as int)),
        decreases n - a,
    {
        assert(s@.subrange(a as int, n as int).drop_first() =~= s@.subrange(a + 1, n as int));
        a = a + 1;
    }
    let ghost t = s@.subrange(a as int, n as int);
    let mut b: usize = n;
    assert(t.subrange(0, (b - a) as int) =~= t);
    while b > a && is_op_char(s[b - 1])
        invariant
            a <= b <= n,
            n == s.len(),
            t == s@.subrange(a as int, n as int),
            trim_ops_end(t) == trim_ops_end(t.subrange(0, (b - a) as int)),
        decreases b,
    {
        assert(t.subrange(0, (b - a) as int).drop_last() =~= t.subrange(0, (b - a - 1) as int));
        b = b - 1;
    }
    assert(t.subrange(0, (b - a) as int) =~= s@.subrange(a as int, b as int));
    slice_chars(s, a, b)
}

fn strings_of(v: &Vec<Vec<char>>) -> (r: Vec<String>)
    ensures
        str_views(r@) == views(v@),
{
    let mut r: Vec<String> = Vec::new();
    let mut i: usize = 0;
    while i < v.len()
        invariant
            i <= v.len(),
            str_views(r@) == views(v@).subrange(0, i as int),
        decreases v.len() - i,
    {
        let s = string_of(&v[i]);
        assert(s@ == views(v@)[i as int]);
        let ghost before = r@;
        r.push(s);
        assert(str_views(r@) =~= str_views(before).push(s@));
        i = i + 1;
        assert(str_views(r@) =~= views(v@).subrange(0, i as int));
    }
    assert(views(v@).subrange(0, v.len() as int) =~= views(v@));
    r
}

/// The category of a lower-cased package name.
pub fn classify(lname: &str) -> (r: PackageType)
    ensures
        r == category_of(lname@),
{
    if same_text(lname, "torch") || same_text(lname, "torchvision") || same_text(
        lname,
        "torchaudio",
    ) || same_text(lname, "torchtext") || same_text(lname, "torchdata") {
        PackageType::Torch
    } else if crate::text::starts_with_str(lname, "onnxruntime") {
        PackageType::Onnxruntime
    } else if crate::text::starts_with_str(lname, "insightface") {
        PackageType::Insightface
    } else if crate::text::starts_with_str(lname, "triton") {
        PackageType::Triton
    } else {
        PackageType::Regular
    }
}

/// Parses one requirement line: `None` for a blank line, a comment, an option line or an
/// index directive; else the lower-cased name, the version constraint, the extras, the
/// category and the line itself.
pub fn parse_requirement_line(line_in: &str) -> (r: Option<PackageInfo>)
    ensures
        is_skipped(requirement_body(line_in@)) <==> r is None,
        r matches Some(p) ==> parses_to(line_in@, p) && p.wf(),
{
    let chars = chars_of(line_in);
    let hash = index_of_char_exec(&chars, '#');
    proof {
        lemma_before_char(line_in@, '#');
    }
    let pre = slice_chars(&chars, 0, hash);
    let body = trim_chars(&pre);
    let ghost b = requirement_body(line_in@);
    assert(body@ == b);
    if body.len() == 0 || body[0] == '-' {
        return None;
    }
    let idx_url = chars_of("--index-url");
    let extra_url = chars_of("--extra-index-url");
    if crate::text::contains_chars(&body, &idx_url) || crate::text::contains_chars(
        &body,
        &extra_url,
    ) {
        return None;
    }
    let op = op_index_exec(&body);
    let (name_part, version) = if op < body.len() {
        let head = slice_chars(&body, 0, op);
        let tail = slice_chars(&body, op, body.len());
        let v = trim_ops_exec(&tail);
        (trim_chars(&head), Some(string_of(&v)))
    } else {
        (body, None)
    };
    assert(name_part@ == name_part_of(b));
    let bracket = index_of_char_exec(&name_part, '[');
    let name = slice_chars(&name_part, 0, bracket);
    let extras = if bracket < name_part.len() {
        let rest = slice_chars(&name_part, bracket + 1, name_part.len());
        let close = index_of_char_exec(&rest, ']');
        let inner = slice_chars(&rest, 0, close);
        let pieces = split_chars(&inner, ',');
        Some(strings_of(&pieces))
    } else {
        None
    };
    let name_text = string_of(&name);
    let lname = to_lower(name_text.as_str());
    let package_type = classify(lname.as_str());
    Some(
        PackageInfo {
            name: lname,
            version,
            extras,
            package_type,
            original_line: line_in.to_owned(),
        },
    )
}

/// The lines of `lines` that name a package.
pub open spec fn kept_lines(lines: Seq<Seq<char>>) -> Seq<Seq<char>>
    decreases lines.len(),
{
    if lines.len() == 0 {
        seq![]
    } else if is_skipped(requirement_body(lines.last())) {
        kept_lines(lines.drop_last())
    } else {
        kept_lines(lines.drop_last()).push(lines.last())
    }
}

/// Parses every line of a requirements manifest, keeping the ones that name a package,
/// in their order.
pub fn analyze_requirements(lines: &Vec<String>) -> (r: Vec<PackageInfo>)
    ensures
        r@.len() == kept_lines(str_views(lines@)).len(),
        forall|k: int|
            0 <= k < r@.len() ==> parses_to(kept_lines(str_views(lines@))[k], #[trigger] r@[k])
                && r@[k].wf(),
{
    let mut r: Vec<PackageInfo> = Vec::new();
    let mut i: usize = 0;
    while i < lines.len()
        invariant
            i <= lines.len(),
            r@.len() == kept_lines(str_views(lines@).subrange(0, i as int)).len(),
            forall|k: int|
                0 <= k < r@.len() ==> parses_to(
                    kept_lines(str_views(lines@).subrange(0, i as int))[k],
                    #[trigger] r@[k],
                ) && r@[k].wf(),
        decreases lines.len() - i,
    {
        let ghost prev = str_views(lines@).subrange(0, i as int);
        let ghost next = str_views(lines@).subrange(0, i + 1);
        assert(next.drop_last() =~= prev);
        assert(next.last() == lines@[i as int]@);
        match parse_requirement_line(lines[i].as_str()) {
            Some(p) => {
                r.push(p);
            },
            None => {},
        }
        i = i + 1;
    }
    assert(str_views(lines@).subrange(0, lines.len() as int) =~= str_views(lines@));
    r
}

} // verus!
