//! Detectors for markup and style languages.

use vstd::prelude::*;
use crate::textscan::{chars_of, contains_lit, contains_seq, lines_of, prefix_lit, spec_lines};

verus! {

/// HTML shape: a well-known HTML tag occurs (compared case-sensitively).
pub open spec fn html_like(s: Seq<char>) -> bool {
    ||| contains_seq(s, "<!DOCTYPE"@)
    ||| contains_seq(s, "<html"@)
    ||| contains_seq(s, "<body"@)
    ||| contains_seq(s, "<div"@)
    ||| contains_seq(s, "<span"@)
    ||| contains_seq(s, "<p>"@)
    ||| contains_seq(s, "<h1"@)
    ||| contains_seq(s, "<h2"@)
    ||| contains_seq(s, "<a "@)
    ||| contains_seq(s, "<img"@)
    ||| contains_seq(s, "</div>"@)
    ||| contains_seq(s, "</span>"@)
    ||| contains_seq(s, "</body>"@)
    ||| contains_seq(s, "</html>"@)
}

/// Whether `s` is HTML-shaped.
pub fn is_html(text: &str) -> (r: bool)
    ensures
        r == html_like(text@),
{
    let cs = chars_of(text);
    contains_lit(&cs, "<!DOCTYPE") || contains_lit(&cs, "<html") || contains_lit(&cs, "<body")
        || contains_lit(&cs, "<div") || contains_lit(&cs, "<span") || contains_lit(&cs, "<p>")
        || contains_lit(&cs, "<h1") || contains_lit(&cs, "<h2") || contains_lit(&cs, "<a ")
        || contains_lit(&cs, "<img") || contains_lit(&cs, "</div>") || contains_lit(
        &cs,
        "</span>",
    ) || contains_lit(&cs, "</body>") || contains_lit(&cs, "</html>")
}

/// A line that is a Markdown list item.
pub open spec fn md_list_line(l: Seq<char>) -> bool {
    "- "@.is_prefix_of(l) || "* "@.is_prefix_of(l)
}

/// Markdown shape: a heading marker at a line start, a code fence, a link,
/// or a list-item line.
pub open spec fn markdown_like(s: Seq<char>) -> bool {
    ||| "# "@.is_prefix_of(s)
    ||| "## "@.is_prefix_of(s)
    ||| contains_seq(s, "\n# "@)
    ||| contains_seq(s, "\n## "@)
    ||| contains_seq(s, "```"@)
    ||| (contains_seq(s, "["@) && contains_seq(s, "]("@))
    ||| (exists|i: int|
        0 <= i < spec_lines(s).len() && md_list_line(#[trigger] spec_lines(s)[i]))
}

/// Whether `s` is Markdown-shaped.
pub fn is_markdown(text: &str) -> (r: bool)
    ensures
        r == markdown_like(text@),
{
    let cs = chars_of(text);
    if prefix_lit(&cs, "# ") || prefix_lit(&cs, "## ") {
        return true;
    }
    if contains_lit(&cs, "\n# ") || contains_lit(&cs, "\n## ") {
        return true;
    }
    if contains_lit(&cs, "```") {
        return true;
    }
    if contains_lit(&cs, "[") && contains_lit(&cs, "](") {
        return true;
    }
    let ls = lines_of(&cs);
    let n = ls.len();
    let mut i: usize = 0;
    while i < n
        invariant
            i <= n,
            cs@ == text@,
            n == spec_lines(cs@).len(),
            ls@.len() == n,
            forall|j: int| 0 <= j < n ==> #[trigger] ls@[j]@ == spec_lines(cs@)[j],
            forall|j: int| 0 <= j < i ==> !md_list_line(#[trigger] spec_lines(cs@)[j]),
        decreases n - i,
    {
        if prefix_lit(&ls[i], "- ") || prefix_lit(&ls[i], "* ") {
            proof {
                assert(md_list_line(spec_lines(cs@)[i as int]));
            }
            return true;
        }
        i = i + 1;
    }
    false
}

/// LaTeX shape: a characteristic command occurs.
pub open spec fn latex_like(s: Seq<char>) -> bool {
    ||| contains_seq(s, "\\documentclass"@)
    ||| contains_seq(s, "\\begin{"@)
    ||| contains_seq(s, "\\section{"@)
    ||| contains_seq(s, "\\usepackage{"@)
}

/// Whether `s` is LaTeX-shaped.
pub fn is_latex(text: &str) -> (r: bool)
    ensures
        r == latex_like(text@),
{
    let cs = chars_of(text);
    contains_lit(&cs, "\\documentclass") || contains_lit(&cs, "\\begin{") || contains_lit(
        &cs,
        "\\section{",
    ) || contains_lit(&cs, "\\usepackage{")
}

/// CSS shape: braces together with a characteristic property name.
pub open spec fn css_like(s: Seq<char>) -> bool {
    &&& contains_seq(s, "{"@)
    &&& contains_seq(s, "}"@)
    &&& {
        ||| contains_seq(s, "color:"@)
        ||| contains_seq(s, "font-"@)
        ||| contains_seq(s, "margin:"@)
        ||| contains_seq(s, "padding:"@)
    }
}

/// Whether `s` is CSS-shaped.
pub fn is_css(text: &str) -> (r: bool)
    ensures
        r == css_like(text@),
{
    let cs = chars_of(text);
    contains_lit(&cs, "{") && contains_lit(&cs, "}") && (contains_lit(&cs, "color:")
        || contains_lit(&cs, "font-") || contains_lit(&cs, "margin:") || contains_lit(
        &cs,
        "padding:",
    ))
}

/// SCSS shape: a variable assignment, or a mixin directive.
pub open spec fn scss_like(s: Seq<char>) -> bool {
    ||| (contains_seq(s, "$"@) && contains_seq(s, ":"@) && contains_seq(s, ";"@))
    ||| contains_seq(s, "@mixin"@)
    ||| contains_seq(s, "@include"@)
}

/// Whether `s` is SCSS-shaped.
pub fn is_scss(text: &str) -> (r: bool)
    ensures
        r == scss_like(text@),
{
    let cs = chars_of(text);
    (contains_lit(&cs, "$") && contains_lit(&cs, ":") && contains_lit(&cs, ";")) || contains_lit(
        &cs,
        "@mixin",
    ) || contains_lit(&cs, "@include")
}

} // verus!
