//! Verified character-level text scanning: the substring, prefix, trim,
//! line and token operations that the content detectors are specified with.
//!
//! All contracts are stated over `Seq<char>`, the view of `&str` and
//! `String`.

use vstd::prelude::*;
use vstd::string::*;

verus! {

/// The Unicode `White_Space` characters, the set `char::is_whitespace`
/// accepts.
pub open spec fn is_space_char(c: char) -> bool {
    ||| c as u32 == 0x20
    ||| (0x09 <= c as u32 && c as u32 <= 0x0d)
    ||| c as u32 == 0x85
    ||| c as u32 == 0xa0
    ||| c as u32 == 0x1680
    ||| (0x2000 <= c as u32 && c as u32 <= 0x200a)
    ||| c as u32 == 0x2028
    ||| c as u32 == 0x2029
    ||| c as u32 == 0x202f
    ||| c as u32 == 0x205f
    ||| c as u32 == 0x3000
}

/// Whether `c` is a whitespace character.
pub fn is_space(c: char) -> (r: bool)
    ensures
        r == is_space_char(c),
{
    let u = c as u32;
    u == 0x20 || (0x09 <= u && u <= 0x0d) || u == 0x85 || u == 0xa0 || u == 0x1680 || (0x2000 <= u
        && u <= 0x200a) || u == 0x2028 || u == 0x2029 || u == 0x202f || u == 0x205f || u == 0x3000
}

/// The characters of `s`, as a vector.
pub fn chars_of(s: &str) -> (v: Vec<char>)
    ensures
        v@ == s@,
{
    let n = s.unicode_len();
    let mut v: Vec<char> = Vec::new();
    let mut i: usize = 0;
    while i < n
        invariant
            i <= n,
            n == s@.len(),
            v@ == s@.subrange(0, i as int),
        decreases n - i,
    {
        let c = s.get_char(i);
        v.push(c);
        i = i + 1;
        proof {
            assert(v@ =~= s@.subrange(0, i as int));
        }
    }
    proof {
        assert(v@ =~= s@);
    }
    v
}

/// Whether the characters of `s` starting at `i` spell out `p`.
fn match_at(s: &Vec<char>, p: &Vec<char>, i: usize) -> (r: bool)
    requires
        i + p@.len() <= s@.len(),
    ensures
        r == (s@.subrange(i as int, i as int + p@.len() as int) == p@),
{
    let ghost sub = s@.subrange(i as int, i as int + p@.len() as int);
    let n = s.len();
    let mut k: usize = 0;
    while k < p.len()
        invariant
            i + p@.len() <= s@.len(),
            n == s@.len(),
            k <= p@.len(),
            sub == s@.subrange(i as int, i as int + p@.len() as int),
            forall|m: int| 0 <= m < k ==> s@[i + m] == p@[m],
        decreases p@.len() - k,
    {
        if s[i + k] != p[k] {
            proof {
                assert(sub[k as int] == s@[i + k]);
            }
            return false;
        }
        k = k + 1;
    }
    proof {
        assert(sub =~= p@);
    }
    true
}

/// Whether `p` occurs contiguously somewhere in `s`.
pub open spec fn contains_seq(s: Seq<char>, p: Seq<char>) -> bool {
    exists|i: int| 0 <= i <= s.len() - p.len() && #[trigger] s.subrange(i, i + p.len() as int) == p
}

/// Substring search: whether `p` occurs in `s`.
pub fn contains_chars(s: &Vec<char>, p: &Vec<char>) -> (r: bool)
    ensures
        r == contains_seq(s@, p@),
{
    if p.len() > s.len() {
        return false;
    }
    if p.len() == 0 {
        proof {
            assert(s@.subrange(0, 0 + p@.len() as int) =~= p@);
        }
        return true;
    }
    let bound = s.len() - p.len();
    let mut i: usize = 0;
    while i <= bound
        invariant
            0 < p@.len() <= s@.len(),
            s@.len() <= usize::MAX,
            bound == s@.len() - p@.len(),
            i <= bound + 1,
            forall|j: int| 0 <= j < i ==> #[trigger] s@.subrange(j, j + p@.len() as int) != p@,
        decreases bound + 1 - i,
    {
        if match_at(s, p, i) {
            proof {
                assert(s@.subrange(i as int, i as int + p@.len() as int) == p@);
            }
            return true;
        }
        i = i + 1;
    }
    false
}

/// Whether `p` is a prefix of `s`.
pub fn has_prefix(s: &Vec<char>, p: &Vec<char>) -> (r: bool)
    ensures
        r == p@.is_prefix_of(s@),
{
    if p.len() > s.len() {
        return false;
    }
    match_at(s, p, 0)
}

/// Whether the character sequences are equal.
pub fn chars_eq(s: &Vec<char>, p: &Vec<char>) -> (r: bool)
    ensures
        r == (s@ == p@),
{
    if p.len() != s.len() {
        return false;
    }
    let r = match_at(s, p, 0);
    proof {
        assert(s@.subrange(0, p@.len() as int) =~= s@);
    }
    r
}

/// Substring search against a literal pattern.
pub fn contains_lit(s: &Vec<char>, p: &str) -> (r: bool)
    ensures
        r == contains_seq(s@, p@),
{
    let pv = chars_of(p);
    contains_chars(s, &pv)
}

/// Prefix test against a literal pattern.
pub fn prefix_lit(s: &Vec<char>, p: &str) -> (r: bool)
    ensures
        r == p@.is_prefix_of(s@),
{
    let pv = chars_of(p);
    has_prefix(s, &pv)
}

/// Equality test against a literal pattern.
pub fn eq_lit(s: &Vec<char>, p: &str) -> (r: bool)
    ensures
        r == (s@ == p@),
{
    let pv = chars_of(p);
    chars_eq(s, &pv)
}

/// The characters of `s` from `from` (inclusive) to `to` (exclusive).
pub fn copy_range(s: &Vec<char>, from: usize, to: usize) -> (r: Vec<char>)
    requires
        from <= to <= s@.len(),
    ensures
        r@ == s@.subrange(from as int, to as int),
{
    let mut r: Vec<char> = Vec::new();
    let mut k: usize = from;
    while k < to
        invariant
            from <= k <= to <= s@.len(),
            r@ == s@.subrange(from as int, k as int),
        decreases to - k,
    {
        r.push(s[k]);
        k = k + 1;
        proof {
            assert(r@ =~= s@.subrange(from as int, k as int));
        }
    }
    r
}

// ---------------------------------------------------------------------------
// Trimming
// ---------------------------------------------------------------------------
/// `s` with its leading whitespace removed.
pub open spec fn trim_start_rec(s: Seq<char>) -> Seq<char>
    decreases s.len(),
{
    if s.len() > 0 && is_space_char(s[0]) {
        trim_start_rec(s.drop_first())
    } else {
        s
    }
}

/// `s` with its trailing whitespace removed.
pub open spec fn trim_end_rec(s: Seq<char>) -> Seq<char>
    decreases s.len(),
{
    if s.len() > 0 && is_space_char(s.last()) {
        trim_end_rec(s.drop_last())
    } else {
        s
    }
}

/// `s` with leading and trailing whitespace removed: what `str::trim`
/// returns.
pub open spec fn spec_trim(s: Seq<char>) -> Seq<char> {
    trim_end_rec(trim_start_rec(s))
}

proof fn lemma_trim_start_at(s: Seq<char>, lo: int)
    requires
        0 <= lo <= s.len(),
        forall|k: int| 0 <= k < lo ==> is_space_char(s[k]),
        lo == s.len() || !is_space_char(s[lo]),
    ensures
        trim_start_rec(s) == s.subrange(lo, s.len() as int),
    decreases lo,
{
    if lo == 0 {
        assert(s.subrange(0, s.len() as int) =~= s);
    } else {
        lemma_trim_start_at(s.drop_first(), lo - 1);
        assert(s.drop_first().subrange(lo - 1, s.drop_first().len() as int) =~= s.subrange(
            lo,
            s.len() as int,
        ));
    }
}

proof fn lemma_trim_end_at(s: Seq<char>, hi: int)
    requires
        0 <= hi <= s.len(),
        forall|k: int| hi <= k < s.len() ==> is_space_char(s[k]),
        hi == 0 || !is_space_char(s[hi - 1]),
    ensures
        trim_end_rec(s) == s.subrange(0, hi),
    decreases s.len() - hi,
{
    if hi == s.len() {
        assert(s.subrange(0, s.len() as int) =~= s);
    } else {
        lemma_trim_end_at(s.drop_last(), hi);
        assert(s.drop_last().subrange(0, hi) =~= s.subrange(0, hi));
    }
}

/// The characters of `s` with leading and trailing whitespace removed.
pub fn trim_chars(s: &Vec<char>) -> (r: Vec<char>)
    ensures
        r@ == spec_trim(s@),
{
    let n = s.len();
    let mut lo: usize = 0;
    while lo < n && is_space(s[lo])
        invariant
            lo <= n,
            n == s@.len(),
            forall|k: int| 0 <= k < lo ==> is_space_char(s@[k]),
        decreases n - lo,
    {
        lo = lo + 1;
    }
    proof {
        lemma_trim_start_at(s@, lo as int);
    }
    let ghost t = s@.subrange(lo as int, s@.len() as int);
    let mut hi: usize = n;
    while hi > lo && is_space(s[hi - 1])
        invariant
            lo <= hi <= n,
            n == s@.len(),
            t == s@.subrange(lo as int, s@.len() as int),
            forall|k: int| hi <= k < n ==> is_space_char(s@[k]),
        decreases hi,
    {
        hi = hi - 1;
    }
    proof {
        assert(forall|k: int| hi - lo <= k < t.len() ==> t[k] == s@[k + lo]);
        lemma_trim_end_at(t, hi - lo);
        assert(t.subrange(0, hi - lo) =~= s@.subrange(lo as int, hi as int));
    }
    copy_range(s, lo, hi)
}

// ---------------------------------------------------------------------------
// Lines
// ---------------------------------------------------------------------------
/// The index of the first line feed in `s`, or `s.len()` if there is none.
pub open spec fn first_nl(s: Seq<char>) -> nat
    decreases s.len(),
{
    if s.len() == 0 {
        0
    } else if s[0] == '\n' {
        0
    } else {
        1 + first_nl(s.drop_first())
    }
}

proof fn lemma_first_nl_at(s: Seq<char>, j: int)
    requires
        0 <= j <= s.len(),
        forall|k: int| 0 <= k < j ==> s[k] != '\n',
        j < s.len() ==> s[j] == '\n',
    ensures
        first_nl(s) == j,
    decreases j,
{
    if j > 0 {
        lemma_first_nl_at(s.drop_first(), j - 1);
    }
}

/// The content of the line ended by the terminator at index `i` of `s`: the
/// prefix before `i`, with a carriage return directly before the line feed
/// stripped.
pub open spec fn line_at(s: Seq<char>, i: int) -> Seq<char> {
    if i > 0 && s[i - 1] == '\r' {
        s.subrange(0, i - 1)
    } else {
        s.subrange(0, i)
    }
}

/// The lines of `s`, split as `str::lines` splits them: terminated by a line
/// feed or by a carriage return and a line feed, the final terminator
/// optional, terminators not included.
pub open spec fn spec_lines(s: Seq<char>) -> Seq<Seq<char>>
    decreases s.len(),
{
    if s.len() == 0 {
        Seq::empty()
    } else {
        let i = first_nl(s) as int;
        if i >= s.len() {
            seq![s]
        } else {
            seq![line_at(s, i)] + spec_lines(s.subrange(i + 1, s.len() as int))
        }
    }
}

/// The lines of `s`.
pub fn lines_of(s: &Vec<char>) -> (r: Vec<Vec<char>>)
    ensures
        r@.len() == spec_lines(s@).len(),
        forall|i: int| 0 <= i < r@.len() ==> #[trigger] r@[i]@ == spec_lines(s@)[i],
{
    let n = s.len();
    let mut r: Vec<Vec<char>> = Vec::new();
    let mut pos: usize = 0;
    proof {
        assert(s@.subrange(0, n as int) =~= s@);
        assert(r@.map_values(|v: Vec<char>| v@) + spec_lines(s@) =~= spec_lines(s@));
    }
    while pos < n
        invariant
            pos <= n,
            n == s@.len(),
            spec_lines(s@) == r@.map_values(|v: Vec<char>| v@) + spec_lines(
                s@.subrange(pos as int, n as int),
            ),
        decreases n - pos,
    {
        let ghost t = s@.subrange(pos as int, n as int);
        let mut j: usize = pos;
        while j < n && s[j] != '\n'
            invariant
                pos <= j <= n,
                n == s@.len(),
                forall|k: int| pos <= k < j ==> s@[k] != '\n',
            decreases n - j,
        {
            j = j + 1;
        }
        proof {
            assert(forall|k: int| 0 <= k < j - pos ==> t[k] == s@[k + pos]);
            lemma_first_nl_at(t, j - pos);
        }
        if j == n {
            let line = copy_range(s, pos, n);
            proof {
                assert(line@ =~= t);
                assert(spec_lines(t) =~= seq![t]);
                assert(r@.push(line).map_values(|v: Vec<char>| v@) =~= r@.map_values(
                    |v: Vec<char>| v@,
                ) + seq![t]);
                assert(spec_lines(s@.subrange(n as int, n as int)) =~= Seq::<Seq<char>>::empty());
            }
            r.push(line);
            pos = n;
        } else {
            let end = if j > pos && s[j - 1] == '\r' {
                j - 1
            } else {
                j
            };
            let line = copy_range(s, pos, end);
            proof {
                assert(t[j - pos] == '\n');
                if j > pos && s@[j - 1] == '\r' {
                    assert(t[(j - pos) - 1] == '\r');
                    assert(line@ =~= line_at(t, j - pos));
                } else {
                    assert(line@ =~= line_at(t, j - pos));
                }
                assert(t.subrange(j - pos + 1, t.len() as int) =~= s@.subrange(
                    j + 1,
                    n as int,
                ));
                assert(spec_lines(t) == seq![line_at(t, j - pos)] + spec_lines(
                    s@.subrange(j + 1, n as int),
                ));
                assert(r@.push(line).map_values(|v: Vec<char>| v@) =~= r@.map_values(
                    |v: Vec<char>| v@,
                ) + seq![line@]);
            }
            r.push(line);
            pos = j + 1;
        }
        proof {
            assert(spec_lines(s@) == r@.map_values(|v: Vec<char>| v@) + spec_lines(
                s@.subrange(pos as int, n as int),
            ));
        }
    }
    proof {
        assert(spec_lines(s@.subrange(n as int, n as int)) =~= Seq::<Seq<char>>::empty());
        assert(spec_lines(s@) =~= r@.map_values(|v: Vec<char>| v@));
        assert(forall|i: int|
            0 <= i < r@.len() ==> #[trigger] r@[i]@ == r@.map_values(|v: Vec<char>| v@)[i]);
    }
    r
}

// ---------------------------------------------------------------------------
// Case folding
// ---------------------------------------------------------------------------
/// `c` with an ASCII capital letter folded to its small form.
pub open spec fn lower_char(c: char) -> char {
    if 0x41 <= c as u32 && c as u32 <= 0x5a {
        (c as u32 + 0x20) as char
    } else {
        c
    }
}

/// `s` folded to ASCII lower case, character by character.
pub open spec fn to_lower(s: Seq<char>) -> Seq<char> {
    s.map_values(|c: char| lower_char(c))
}

/// Relies on std's `char::to_ascii_lowercase`: an ASCII capital letter is
/// mapped to its small form, every other character is returned unchanged.
#[verifier::external_body]
fn ascii_lower(c: char) -> (r: char)
    ensures
        r == lower_char(c),
{
    c.to_ascii_lowercase()
}

/// The characters of `s`, folded to ASCII lower case.
pub fn lower_chars(s: &Vec<char>) -> (r: Vec<char>)
    ensures
        r@ == to_lower(s@),
{
    let n = s.len();
    let mut r: Vec<char> = Vec::new();
    let mut i: usize = 0;
    while i < n
        invariant
            i <= n,
            n == s@.len(),
            r@ == to_lower(s@.subrange(0, i as int)),
        decreases n - i,
    {
        r.push(ascii_lower(s[i]));
        i = i + 1;
        proof {
            assert(r@ =~= to_lower(s@.subrange(0, i as int)));
        }
    }
    proof {
        assert(s@.subrange(0, n as int) =~= s@);
    }
    r
}

/// The Unicode upper-case mapping of a text, as `str::to_uppercase` computes
/// it: a function of the characters alone.
pub uninterp spec fn upper_of(s: Seq<char>) -> Seq<char>;

/// Relies on std's `str::to_uppercase`: the Unicode upper-case mapping of
/// the text, depending on its characters alone.
#[verifier::external_body]
pub(crate) fn unicode_upper(s: &str) -> (r: String)
    ensures
        r@ == upper_of(s@),
{
    s.to_uppercase()
}

// ---------------------------------------------------------------------------
// Whitespace splitting
// ---------------------------------------------------------------------------
/// The index of the first whitespace character of `s`, or `s.len()` if there
/// is none.
pub open spec fn first_space(s: Seq<char>) -> nat
    decreases s.len(),
{
    if s.len() == 0 {
        0
    } else if is_space_char(s[0]) {
        0
    } else {
        1 + first_space(s.drop_first())
    }
}

proof fn lemma_first_space_at(s: Seq<char>, j: int)
    requires
        0 <= j <= s.len(),
        forall|k: int| 0 <= k < j ==> !is_space_char(s[k]),
        j < s.len() ==> is_space_char(s[j]),
    ensures
        first_space(s) == j,
    decreases j,
{
    if j > 0 {
        lemma_first_space_at(s.drop_first(), j - 1);
    }
}

/// The maximal runs of non-whitespace characters of `s`, in order: what
/// `str::split_whitespace` yields.
pub open spec fn spec_split_ws(s: Seq<char>) -> Seq<Seq<char>>
    decreases s.len(),
{
    if s.len() == 0 {
        Seq::empty()
    } else if is_space_char(s[0]) {
        spec_split_ws(s.drop_first())
    } else {
        let i = first_space(s) as int;
        if i >= s.len() {
            seq![s]
        } else {
            seq![s.subrange(0, i)] + spec_split_ws(s.subrange(i, s.len() as int))
        }
    }
}

/// The whitespace-separated tokens of `s`.
pub fn split_ws(s: &Vec<char>) -> (r: Vec<Vec<char>>)
    ensures
        r@.len() == spec_split_ws(s@).len(),
        forall|i: int| 0 <= i < r@.len() ==> #[trigger] r@[i]@ == spec_split_ws(s@)[i],
{
    let n = s.len();
    let mut r: Vec<Vec<char>> = Vec::new();
    let mut pos: usize = 0;
    proof {
        assert(s@.subrange(0, n as int) =~= s@);
        assert(r@.map_values(|v: Vec<char>| v@) + spec_split_ws(s@) =~= spec_split_ws(s@));
    }
    while pos < n
        invariant
            pos <= n,
            n == s@.len(),
            spec_split_ws(s@) == r@.map_values(|v: Vec<char>| v@) + spec_split_ws(
                s@.subrange(pos as int, n as int),
            ),
        decreases n - pos,
    {
        let ghost t = s@.subrange(pos as int, n as int);
        if is_space(s[pos]) {
            proof {
                assert(t[0] == s@[pos as int]);
                assert(t.drop_first() =~= s@.subrange(pos + 1, n as int));
            }
            pos = pos + 1;
        } else {
            let mut j: usize = pos;
            while j < n && !is_space(s[j])
                invariant
                    pos <= j <= n,
                    n == s@.len(),
                    forall|k: int| pos <= k < j ==> !is_space_char(s@[k]),
                decreases n - j,
            {
                j = j + 1;
            }
            proof {
                assert(forall|k: int| 0 <= k < j - pos ==> t[k] == s@[k + pos]);
                lemma_first_space_at(t, j - pos);
            }
            let tok = copy_range(s, pos, j);
            proof {
                assert(t[0] == s@[pos as int]);
                if j == n {
                    assert(tok@ =~= t);
                    assert(spec_split_ws(t) =~= seq![t]);
                    assert(spec_split_ws(s@.subrange(n as int, n as int))
                        =~= Seq::<Seq<char>>::empty());
                } else {
                    assert(tok@ =~= t.subrange(0, j - pos));
                    assert(t.subrange(j - pos, t.len() as int) =~= s@.subrange(j as int, n as int));
                }
                assert(r@.push(tok).map_values(|v: Vec<char>| v@) =~= r@.map_values(
                    |v: Vec<char>| v@,
                ) + seq![tok@]);
            }
            r.push(tok);
            pos = j;
        }
    }
    proof {
        assert(spec_split_ws(s@.subrange(n as int, n as int)) =~= Seq::<Seq<char>>::empty());
        assert(spec_split_ws(s@) =~= r@.map_values(|v: Vec<char>| v@));
        assert(forall|i: int|
            0 <= i < r@.len() ==> #[trigger] r@[i]@ == r@.map_values(|v: Vec<char>| v@)[i]);
    }
    r
}

// ---------------------------------------------------------------------------
// Building strings
// ---------------------------------------------------------------------------
/// Relies on std's `String::push`: appends the character to the end of the
/// string.
#[verifier::external_body]
fn push_char(s: &mut String, c: char)
    ensures
        final(s)@ == old(s)@.push(c),
{
    s.push(c)
}

/// A `String` with exactly the characters of `v`.
pub fn chars_to_string(v: &Vec<char>) -> (s: String)
    ensures
        s@ == v@,
{
    let n = v.len();
    let mut s = String::new();
    let mut i: usize = 0;
    while i < n
        invariant
            i <= n,
            n == v@.len(),
            s@ == v@.subrange(0, i as int),
        decreases n - i,
    {
        push_char(&mut s, v[i]);
        i = i + 1;
        proof {
            assert(s@ =~= v@.subrange(0, i as int));
        }
    }
    proof {
        assert(v@.subrange(0, n as int) =~= v@);
    }
    s
}

} // verus!
