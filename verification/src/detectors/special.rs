//! Detectors for config and special files.

use vstd::prelude::*;
use crate::textscan::{chars_eq, chars_of, contains_lit, contains_seq, lines_of, prefix_lit, spec_lines};

verus! {

/// Dockerfile shape: a characteristic instruction occurs.
pub open spec fn dockerfile_like(s: Seq<char>) -> bool {
    ||| "FROM "@.is_prefix_of(s)
    ||| contains_seq(s, "\nFROM "@)
    ||| contains_seq(s, "RUN "@)
    ||| contains_seq(s, "CMD "@)
    ||| contains_seq(s, "EXPOSE "@)
    ||| contains_seq(s, "WORKDIR "@)
}

/// Whether `s` is Dockerfile-shaped.
pub fn is_dockerfile(text: &str) -> (r: bool)
    ensures
        r == dockerfile_like(text@),
{
    let cs = chars_of(text);
    prefix_lit(&cs, "FROM ") || contains_lit(&cs, "\nFROM ") || contains_lit(&cs, "RUN ")
        || contains_lit(&cs, "CMD ") || contains_lit(&cs, "EXPOSE ") || contains_lit(
        &cs,
        "WORKDIR ",
    )
}

/// A line that looks like a gitignore pattern: a `*.` glob, an absolute
/// path, or the literal `node_modules`.
pub open spec fn gitignore_line(l: Seq<char>) -> bool {
    ||| "*."@.is_prefix_of(l)
    ||| "/"@.is_prefix_of(l)
    ||| l == "node_modules"@
}

/// Gitignore shape: some line is a gitignore pattern.
pub open spec fn gitignore_like(s: Seq<char>) -> bool {
    exists|i: int| 0 <= i < spec_lines(s).len() && gitignore_line(#[trigger] spec_lines(s)[i])
}

/// Whether `s` is gitignore-shaped.
pub fn is_gitignore(text: &str) -> (r: bool)
    ensures
        r == gitignore_like(text@),
{
    let cs = chars_of(text);
    let ls = lines_of(&cs);
    let n = ls.len();
    let pat = chars_of("node_modules");
    let mut i: usize = 0;
    while i < n
        invariant
            i <= n,
            cs@ == text@,
            n == spec_lines(cs@).len(),
            ls@.len() == n,
            pat@ == "node_modules"@,
            forall|j: int| 0 <= j < n ==> #[trigger] ls@[j]@ == spec_lines(cs@)[j],
            forall|j: int| 0 <= j < i ==> !gitignore_line(#[trigger] spec_lines(cs@)[j]),
        decreases n - i,
    {
        if prefix_lit(&ls[i], "*.") || prefix_lit(&ls[i], "/") || chars_eq(&ls[i], &pat) {
            proof {
                assert(gitignore_line(spec_lines(cs@)[i as int]));
            }
            return true;
        }
        i = i + 1;
    }
    false
}

/// A line that names a make rule: it ends in a colon and is not a comment.
pub open spec fn make_rule_line(l: Seq<char>) -> bool {
    l.len() > 0 && l.last() == ':' && l[0] != '#'
}

/// A line indented by a tab.
pub open spec fn tab_line(l: Seq<char>) -> bool {
    l.len() > 0 && l[0] == '\t'
}

/// Makefile shape: a colon directly followed by a tab-indented line, a
/// `.PHONY:` marker, or a rule line together with a tab-indented line.
pub open spec fn makefile_like(s: Seq<char>) -> bool {
    ||| contains_seq(s, ":\n\t"@)
    ||| contains_seq(s, ".PHONY:"@)
    ||| ((exists|i: int|
        0 <= i < spec_lines(s).len() && make_rule_line(#[trigger] spec_lines(s)[i])) && (exists|
        i: int,
    |
        0 <= i < spec_lines(s).len() && tab_line(#[trigger] spec_lines(s)[i])))
}

/// Whether `s` is Makefile-shaped.
pub fn is_makefile(text: &str) -> (r: bool)
    ensures
        r == makefile_like(text@),
{
    let cs = chars_of(text);
    if contains_lit(&cs, ":\n\t") || contains_lit(&cs, ".PHONY:") {
        return true;
    }
    let ls = lines_of(&cs);
    let n = ls.len();
    let mut has_rule = false;
    let mut has_tab = false;
    let mut i: usize = 0;
    while i < n
        invariant
            i <= n,
            cs@ == text@,
            n == spec_lines(cs@).len(),
            ls@.len() == n,
            forall|j: int| 0 <= j < n ==> #[trigger] ls@[j]@ == spec_lines(cs@)[j],
            has_rule == exists|j: int|
                0 <= j < i && make_rule_line(#[trigger] spec_lines(cs@)[j]),
            has_tab == exists|j: int| 0 <= j < i && tab_line(#[trigger] spec_lines(cs@)[j]),
        decreases n - i,
    {
        let l = &ls[i];
        let m = l.len();
        if m > 0 && l[m - 1] == ':' && l[0] != '#' {
            proof {
                assert(make_rule_line(spec_lines(cs@)[i as int]));
            }
            has_rule = true;
        }
        if m > 0 && l[0] == '\t' {
            proof {
                assert(tab_line(spec_lines(cs@)[i as int]));
            }
            has_tab = true;
        }
        i = i + 1;
    }
    has_rule && has_tab
}

/// A non-comment line that holds an assignment.
pub open spec fn assign_line(l: Seq<char>) -> bool {
    contains_seq(l, "="@) && !(l.len() > 0 && l[0] == '#')
}

/// A line an env file accepts: empty, a comment, or an assignment.
pub open spec fn env_ok_line(l: Seq<char>) -> bool {
    l.len() == 0 || l[0] == '#' || contains_seq(l, "="@)
}

/// Env-file shape: every non-empty line is a comment or holds `=`, and at
/// least one non-comment line holds `=`.
pub open spec fn dotenv_like(s: Seq<char>) -> bool {
    &&& (exists|i: int|
        0 <= i < spec_lines(s).len() && assign_line(#[trigger] spec_lines(s)[i]))
    &&& (forall|i: int| 0 <= i < spec_lines(s).len() ==> env_ok_line(#[trigger] spec_lines(s)[i]))
}

/// Whether `s` is env-file-shaped.
pub fn is_dotenv(text: &str) -> (r: bool)
    ensures
        r == dotenv_like(text@),
{
    let cs = chars_of(text);
    let ls = lines_of(&cs);
    let n = ls.len();
    let mut has_assign = false;
    let mut i: usize = 0;
    while i < n
        invariant
            i <= n,
            cs@ == text@,
            n == spec_lines(cs@).len(),
            ls@.len() == n,
            forall|j: int| 0 <= j < n ==> #[trigger] ls@[j]@ == spec_lines(cs@)[j],
            has_assign == exists|j: int|
                0 <= j < i && assign_line(#[trigger] spec_lines(cs@)[j]),
            forall|j: int| 0 <= j < i ==> env_ok_line(#[trigger] spec_lines(cs@)[j]),
        decreases n - i,
    {
        let l = &ls[i];
        let is_comment = l.len() > 0 && {
            let c = l[0];
            c == '#'
        };
        let has_eq = contains_lit(l, "=");
        if l.len() > 0 && !is_comment && !has_eq {
            proof {
                assert(!env_ok_line(spec_lines(cs@)[i as int]));
            }
            return false;
        }
        if has_eq && !is_comment {
            proof {
                assert(assign_line(spec_lines(cs@)[i as int]));
            }
            has_assign = true;
        }
        i = i + 1;
    }
    has_assign
}

/// A line that holds a key-value assignment in the INI style.
pub open spec fn ini_kv_line(l: Seq<char>) -> bool {
    contains_seq(l, " = "@) || contains_seq(l, "="@)
}

/// INI shape: a bracketed section header and an assignment line.
pub open spec fn ini_like(s: Seq<char>) -> bool {
    &&& contains_seq(s, "["@)
    &&& contains_seq(s, "]"@)
    &&& (exists|i: int| 0 <= i < spec_lines(s).len() && ini_kv_line(#[trigger] spec_lines(s)[i]))
}

/// Whether `s` is INI-shaped.
pub fn is_ini(text: &str) -> (r: bool)
    ensures
        r == ini_like(text@),
{
    let cs = chars_of(text);
    if !contains_lit(&cs, "[") || !contains_lit(&cs, "]") {
        return false;
    }
    let ls = lines_of(&cs);
    let n = ls.len();
    let mut i: usize = 0;
    while i < n
        invariant
            i <= n,
            cs@ == text@,
            contains_seq(cs@, "["@),
            contains_seq(cs@, "]"@),
            n == spec_lines(cs@).len(),
            ls@.len() == n,
            forall|j: int| 0 <= j < n ==> #[trigger] ls@[j]@ == spec_lines(cs@)[j],
            forall|j: int| 0 <= j < i ==> !ini_kv_line(#[trigger] spec_lines(cs@)[j]),
        decreases n - i,
    {
        if contains_lit(&ls[i], " = ") || contains_lit(&ls[i], "=") {
            proof {
                assert(ini_kv_line(spec_lines(cs@)[i as int]));
            }
            return true;
        }
        i = i + 1;
    }
    false
}

} // verus!
