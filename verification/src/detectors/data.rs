//! Detectors for structured data formats.

use vstd::prelude::*;
use crate::textscan::{
    chars_of, contains_lit, contains_seq, lines_of, lower_chars, prefix_lit, spec_lines, spec_trim,
    to_lower, trim_chars, unicode_upper, upper_of,
};

verus! {

/// JSON shape: brace- or bracket-delimited from first to last character.
/// Deliberately permissive: no deeper parse is attempted.
pub open spec fn json_like(s: Seq<char>) -> bool {
    ||| (s.len() > 0 && s.first() == '{' && s.last() == '}')
    ||| (s.len() > 0 && s.first() == '[' && s.last() == ']')
}

/// Whether `s` is JSON-shaped.
pub fn is_json(text: &str) -> (r: bool)
    ensures
        r == json_like(text@),
{
    let cs = chars_of(text);
    let n = cs.len();
    if n == 0 {
        return false;
    }
    (cs[0] == '{' && cs[n - 1] == '}') || (cs[0] == '[' && cs[n - 1] == ']')
}

/// An HTML-flavored tag occurs in `s`, compared case-insensitively: such
/// text is refused by the generic-XML detector.
pub open spec fn html_marker(s: Seq<char>) -> bool {
    let low = to_lower(s);
    ||| contains_seq(low, "<div"@)
    ||| contains_seq(low, "<span"@)
    ||| contains_seq(low, "<p>"@)
    ||| contains_seq(low, "<body"@)
    ||| contains_seq(low, "<html"@)
    ||| contains_seq(low, "<!doctype"@)
    ||| contains_seq(low, "<h1"@)
    ||| contains_seq(low, "<h2"@)
    ||| contains_seq(low, "<a "@)
    ||| contains_seq(low, "<img"@)
}

/// XML shape: an XML declaration, or a tag-delimited text that carries no
/// HTML-flavored marker.
pub open spec fn xml_like(s: Seq<char>) -> bool {
    ||| "<?xml"@.is_prefix_of(s)
    ||| (!html_marker(s) && s.len() > 0 && s.first() == '<' && contains_seq(s, "</"@))
}

/// Whether `s` is XML-shaped.  HTML-flavored tags are positively excluded,
/// so HTML is never misfiled as generic XML.
pub fn is_xml(text: &str) -> (r: bool)
    ensures
        r == xml_like(text@),
{
    let cs = chars_of(text);
    if prefix_lit(&cs, "<?xml") {
        return true;
    }
    let low = lower_chars(&cs);
    if contains_lit(&low, "<div") || contains_lit(&low, "<span") || contains_lit(&low, "<p>")
        || contains_lit(&low, "<body") || contains_lit(&low, "<html") || contains_lit(
        &low,
        "<!doctype",
    ) || contains_lit(&low, "<h1") || contains_lit(&low, "<h2") || contains_lit(&low, "<a ")
        || contains_lit(&low, "<img") {
        return false;
    }
    if cs.len() == 0 {
        return false;
    }
    if cs[0] != '<' {
        return false;
    }
    contains_lit(&cs, "</")
}

/// A line whose trimmed form is a YAML list item.
pub open spec fn yaml_list_line(l: Seq<char>) -> bool {
    ||| "- "@.is_prefix_of(spec_trim(l))
    ||| "* "@.is_prefix_of(spec_trim(l))
}

/// A line whose trimmed form holds a `": "` key-value separator and is not a
/// comment.
pub open spec fn yaml_kv_line(l: Seq<char>) -> bool {
    &&& contains_seq(spec_trim(l), ": "@)
    &&& !"//"@.is_prefix_of(spec_trim(l))
    &&& !"#"@.is_prefix_of(spec_trim(l))
}

/// YAML shape: a document marker, a key-value line, or a trailing-colon key
/// together with a list-item line.
pub open spec fn yaml_like(s: Seq<char>) -> bool {
    ||| "---"@.is_prefix_of(s)
    ||| (exists|i: int|
        0 <= i < spec_lines(s).len() && yaml_kv_line(#[trigger] spec_lines(s)[i]))
    ||| (contains_seq(s, ":\n"@) && exists|i: int|
        0 <= i < spec_lines(s).len() && yaml_list_line(#[trigger] spec_lines(s)[i]))
}

/// Whether `s` is YAML-shaped.
pub fn is_yaml(text: &str) -> (r: bool)
    ensures
        r == yaml_like(text@),
{
    let cs = chars_of(text);
    if prefix_lit(&cs, "---") {
        return true;
    }
    let colon_nl = contains_lit(&cs, ":\n");
    let ls = lines_of(&cs);
    let n = ls.len();
    let mut has_kv = false;
    let mut has_list = false;
    let mut i: usize = 0;
    while i < n
        invariant
            i <= n,
            cs@ == text@,
            n == spec_lines(cs@).len(),
            ls@.len() == n,
            forall|j: int| 0 <= j < n ==> #[trigger] ls@[j]@ == spec_lines(cs@)[j],
            has_kv == exists|j: int|
                0 <= j < i && yaml_kv_line(#[trigger] spec_lines(cs@)[j]),
            has_list == exists|j: int|
                0 <= j < i && yaml_list_line(#[trigger] spec_lines(cs@)[j]),
        decreases n - i,
    {
        let t = trim_chars(&ls[i]);
        if contains_lit(&t, ": ") && !prefix_lit(&t, "//") && !prefix_lit(&t, "#") {
            proof {
                assert(yaml_kv_line(spec_lines(cs@)[i as int]));
            }
            has_kv = true;
        }
        if prefix_lit(&t, "- ") || prefix_lit(&t, "* ") {
            proof {
                assert(yaml_list_line(spec_lines(cs@)[i as int]));
            }
            has_list = true;
        }
        i = i + 1;
    }
    has_kv || (colon_nl && has_list)
}

/// TOML shape: a bracketed section header and a spaced `=` assignment.
pub open spec fn toml_like(s: Seq<char>) -> bool {
    contains_seq(s, "["@) && contains_seq(s, "]"@) && contains_seq(s, " = "@)
}

/// Whether `s` is TOML-shaped.
pub fn is_toml(text: &str) -> (r: bool)
    ensures
        r == toml_like(text@),
{
    let cs = chars_of(text);
    contains_lit(&cs, "[") && contains_lit(&cs, "]") && contains_lit(&cs, " = ")
}

/// CSV shape: more than one line, and each of the first three lines (or all
/// of them, if fewer) holds a comma.
pub open spec fn csv_like(s: Seq<char>) -> bool {
    let ls = spec_lines(s);
    ls.len() > 1 && forall|i: int|
        0 <= i < ls.len() && i < 3 ==> contains_seq(#[trigger] ls[i], ","@)
}

/// Whether `s` is CSV-shaped.
pub fn is_csv(text: &str) -> (r: bool)
    ensures
        r == csv_like(text@),
{
    let cs = chars_of(text);
    let ls = lines_of(&cs);
    let n = ls.len();
    if n <= 1 {
        return false;
    }
    let k = if n < 3 {
        n
    } else {
        3
    };
    let mut i: usize = 0;
    while i < k
        invariant
            i <= k,
            k == if n < 3 {
                n as int
            } else {
                3
            },
            cs@ == text@,
            n == spec_lines(cs@).len(),
            ls@.len() == n,
            forall|j: int| 0 <= j < n ==> #[trigger] ls@[j]@ == spec_lines(cs@)[j],
            forall|j: int| 0 <= j < i ==> contains_seq(#[trigger] spec_lines(cs@)[j], ","@),
        decreases k - i,
    {
        if !contains_lit(&ls[i], ",") {
            return false;
        }
        i = i + 1;
    }
    true
}

/// SQL shape: a characteristic statement keyword occurs in the Unicode
/// upper-case mapping of the text.
pub open spec fn sql_like(s: Seq<char>) -> bool {
    let up = upper_of(s);
    ||| contains_seq(up, "SELECT "@)
    ||| contains_seq(up, "INSERT "@)
    ||| contains_seq(up, "UPDATE "@)
    ||| contains_seq(up, "DELETE "@)
    ||| contains_seq(up, "CREATE TABLE"@)
    ||| contains_seq(up, "ALTER TABLE"@)
}

/// Whether `s` is SQL-shaped.  The keyword search runs on the upper-cased
/// text, so matching is case-insensitive.
pub fn is_sql(text: &str) -> (r: bool)
    ensures
        r == sql_like(text@),
{
    let upper = unicode_upper(text);
    let up = chars_of(upper.as_str());
    contains_lit(&up, "SELECT ") || contains_lit(&up, "INSERT ") || contains_lit(&up, "UPDATE ")
        || contains_lit(&up, "DELETE ") || contains_lit(&up, "CREATE TABLE") || contains_lit(
        &up,
        "ALTER TABLE",
    )
}

} // verus!
