//! Command-line argument parsing for a clipboard-to-file tool.
//!
//! The token-level grammar is stated as a recursive specification
//! (`parse_from`), and the executable parsers are proved to return exactly
//! what it says, result and error alike.

use vstd::prelude::*;
use crate::textscan::{
    chars_of, chars_to_string, copy_range, eq_lit, prefix_lit, spec_split_ws, split_ws,
};

verus! {

/// Parsed command-line options.
pub struct Args {
    pub filename: Option<String>,
    pub append: bool,
    pub quiet: bool,
    /// `None` means: use the configuration's default.
    pub detect: Option<bool>,
    pub append_ext: bool,
}

/// The mathematical value of an `Args`: the same fields over `Seq<char>`.
pub struct ArgsView {
    pub filename: Option<Seq<char>>,
    pub append: bool,
    pub quiet: bool,
    pub detect: Option<bool>,
    pub append_ext: bool,
}

impl View for Args {
    type V = ArgsView;

    open spec fn view(&self) -> ArgsView {
        ArgsView {
            filename: match self.filename {
                Some(f) => Some(f@),
                None => None,
            },
            append: self.append,
            quiet: self.quiet,
            detect: self.detect,
            append_ext: self.append_ext,
        }
    }
}

/// A rejected command line, or a request for help or version output.
#[derive(Debug)]
pub enum ArgsError {
    Help,
    Version,
    UnknownFlag(String),
    InvalidValue(String, String),
    TooManyArgs,
}

/// The mathematical value of an `ArgsError`.
pub enum ArgsErrorView {
    Help,
    Version,
    UnknownFlag(Seq<char>),
    InvalidValue(Seq<char>, Seq<char>),
    TooManyArgs,
}

impl View for ArgsError {
    type V = ArgsErrorView;

    open spec fn view(&self) -> ArgsErrorView {
        match self {
            ArgsError::Help => ArgsErrorView::Help,
            ArgsError::Version => ArgsErrorView::Version,
            ArgsError::UnknownFlag(f) => ArgsErrorView::UnknownFlag(f@),
            ArgsError::InvalidValue(f, v) => ArgsErrorView::InvalidValue(f@, v@),
            ArgsError::TooManyArgs => ArgsErrorView::TooManyArgs,
        }
    }
}

impl ArgsError {
    /// The exit code the tool reports: zero for the help and version
    /// requests, one for every rejected command line.
    pub fn exit_code(&self) -> (r: i32)
        ensures
            r == 0 <==> (self@ is Help || self@ is Version),
            r == 0 || r == 1,
    {
        match self {
            ArgsError::Help | ArgsError::Version => 0,
            _ => 1,
        }
    }
}

impl Args {
    /// The file name to write to: the explicit one, or `clipboard`.
    pub fn filename(&self) -> (r: &str)
        ensures
            self@.filename is Some ==> r@ == self@.filename->0,
            self@.filename is None ==> r@ == "clipboard"@,
    {
        match &self.filename {
            Some(f) => f.as_str(),
            None => "clipboard",
        }
    }

    /// Whether a file name was given on the command line.
    pub fn has_explicit_filename(&self) -> (r: bool)
        ensures
            r == (self@.filename is Some),
    {
        self.filename.is_some()
    }
}

/// The options every parse starts from: everything off, no file name.
pub open spec fn args_start() -> ArgsView {
    ArgsView { filename: None, append: false, quiet: false, detect: None, append_ext: false }
}

/// A combined short-flag token (such as `-qae`), processed character by
/// character from index `j`: each letter sets its flag, `h` and `V` stop the
/// parse, anything else is an unknown flag.
pub open spec fn parse_short_flags(t: Seq<char>, j: int, acc: ArgsView) -> Result<
    ArgsView,
    ArgsErrorView,
>
    decreases t.len() - j,
{
    if j < 0 || j >= t.len() {
        Ok(acc)
    } else if t[j] == 'a' {
        parse_short_flags(t, j + 1, ArgsView { append: true, ..acc })
    } else if t[j] == 'q' {
        parse_short_flags(t, j + 1, ArgsView { quiet: true, ..acc })
    } else if t[j] == 'e' {
        parse_short_flags(t, j + 1, ArgsView { append_ext: true, ..acc })
    } else if t[j] == 'h' {
        Err(ArgsErrorView::Help)
    } else if t[j] == 'V' {
        Err(ArgsErrorView::Version)
    } else {
        Err(ArgsErrorView::UnknownFlag(seq!['-', t[j]]))
    }
}

/// The token-level grammar, from token `i` on with options `acc` so far:
/// long and short flags in any order, `--detect=` with a boolean value, at
/// most one free argument (the file name), and an error for anything else.
pub open spec fn parse_from(toks: Seq<Seq<char>>, i: int, acc: ArgsView) -> Result<
    ArgsView,
    ArgsErrorView,
>
    decreases toks.len() - i,
{
    if i < 0 || i >= toks.len() {
        Ok(acc)
    } else {
        let t = toks[i];
        if t == "-h"@ || t == "--help"@ {
            Err(ArgsErrorView::Help)
        } else if t == "-V"@ || t == "--version"@ {
            Err(ArgsErrorView::Version)
        } else if t == "-a"@ || t == "--append"@ {
            parse_from(toks, i + 1, ArgsView { append: true, ..acc })
        } else if t == "-q"@ || t == "--quiet"@ {
            parse_from(toks, i + 1, ArgsView { quiet: true, ..acc })
        } else if t == "-e"@ || t == "--append-ext"@ {
            parse_from(toks, i + 1, ArgsView { append_ext: true, ..acc })
        } else if "--detect="@.is_prefix_of(t) {
            let v = t.subrange("--detect="@.len() as int, t.len() as int);
            if v == "true"@ {
                parse_from(toks, i + 1, ArgsView { detect: Some(true), ..acc })
            } else if v == "false"@ {
                parse_from(toks, i + 1, ArgsView { detect: Some(false), ..acc })
            } else {
                Err(ArgsErrorView::InvalidValue("--detect"@, v))
            }
        } else if t.len() > 2 && t[0] == '-' && t[1] != '-' {
            match parse_short_flags(t, 1, acc) {
                Ok(acc2) => parse_from(toks, i + 1, acc2),
                Err(e) => Err(e),
            }
        } else if t.len() > 0 && t[0] == '-' {
            Err(ArgsErrorView::UnknownFlag(t))
        } else if acc.filename is None {
            parse_from(toks, i + 1, ArgsView { filename: Some(t), ..acc })
        } else {
            Err(ArgsErrorView::TooManyArgs)
        }
    }
}

/// In the grammar, a token of more than two characters that starts with a
/// single dash is handled by the short-flag rule: no literal flag matches
/// it.
proof fn lemma_combined_branch(toks: Seq<Seq<char>>, i: int, acc: ArgsView)
    requires
        0 <= i < toks.len(),
        toks[i].len() > 2,
        toks[i][0] == '-',
        toks[i][1] != '-',
    ensures
        parse_from(toks, i, acc) == (match parse_short_flags(toks[i], 1, acc) {
            Ok(acc2) => parse_from(toks, i + 1, acc2),
            Err(e) => Err(e),
        }),
{
    reveal_strlit("-h");
    reveal_strlit("--help");
    reveal_strlit("-V");
    reveal_strlit("--version");
    reveal_strlit("-a");
    reveal_strlit("--append");
    reveal_strlit("-q");
    reveal_strlit("--quiet");
    reveal_strlit("-e");
    reveal_strlit("--append-ext");
    reveal_strlit("--detect=");
    let t = toks[i];
    assert(!("--detect="@.is_prefix_of(t))) by {
        if "--detect="@.is_prefix_of(t) {
            assert(t.subrange(0, 9)[1] == t[1]);
        }
    }
}

/// What parsing a token list returns: the grammar applied from the second
/// token on (the first is the program's own name).
pub open spec fn spec_parse(toks: Seq<Seq<char>>) -> Result<ArgsView, ArgsErrorView> {
    parse_from(toks, 1, args_start())
}

/// Parse a token list, the program name first.  Returns exactly what the
/// grammar says: the parsed options, or the first error.
pub fn parse_arg_list(args: &Vec<String>) -> (r: Result<Args, ArgsError>)
    ensures
        (match r {
            Ok(a) => spec_parse(args@.map_values(|s: String| s@)) == Ok::<
                ArgsView,
                ArgsErrorView,
            >(a@),
            Err(e) => spec_parse(args@.map_values(|s: String| s@)) == Err::<
                ArgsView,
                ArgsErrorView,
            >(e@),
        }),
{
    let ghost toks = args@.map_values(|s: String| s@);
    let mut parsed = Args {
        filename: None,
        append: false,
        quiet: false,
        detect: None,
        append_ext: false,
    };
    let n = args.len();
    let mut i: usize = 1;
    while i < n
        invariant
            1 <= i,
            n == args@.len(),
            toks == args@.map_values(|s: String| s@),
            parse_from(toks, 1, args_start()) == parse_from(toks, i as int, parsed@),
        decreases n - i,
    {
        let arg = &args[i];
        let av = chars_of(arg.as_str());
        proof {
            assert(toks[i as int] == av@);
        }
        if eq_lit(&av, "-h") || eq_lit(&av, "--help") {
            return Err(ArgsError::Help);
        } else if eq_lit(&av, "-V") || eq_lit(&av, "--version") {
            return Err(ArgsError::Version);
        } else if eq_lit(&av, "-a") || eq_lit(&av, "--append") {
            parsed.append = true;
        } else if eq_lit(&av, "-q") || eq_lit(&av, "--quiet") {
            parsed.quiet = true;
        } else if eq_lit(&av, "-e") || eq_lit(&av, "--append-ext") {
            parsed.append_ext = true;
        } else if prefix_lit(&av, "--detect=") {
            proof {
                reveal_strlit("--detect=");
            }
            let val = copy_range(&av, 9, av.len());
            if eq_lit(&val, "true") {
                parsed.detect = Some(true);
            } else if eq_lit(&val, "false") {
                parsed.detect = Some(false);
            } else {
                return Err(
                    ArgsError::InvalidValue(String::from_str("--detect"), chars_to_string(&val)),
                );
            }
        } else if av.len() > 2 && av[0] == '-' && av[1] != '-' {
            let ghost entry = parsed@;
            let m = av.len();
            let mut k: usize = 1;
            while k < m
                invariant
                    1 <= k <= m,
                    m == av@.len(),
                    m > 2,
                    av@[0] == '-',
                    av@[1] != '-',
                    n == args@.len(),
                    1 <= i < n,
                    toks == args@.map_values(|s: String| s@),
                    toks[i as int] == av@,
                    parse_from(toks, 1, args_start()) == parse_from(toks, i as int, entry),
                    parse_short_flags(av@, 1, entry) == parse_short_flags(av@, k as int, parsed@),
                decreases m - k,
            {
                let c = av[k];
                if c == 'a' {
                    parsed.append = true;
                } else if c == 'q' {
                    parsed.quiet = true;
                } else if c == 'e' {
                    parsed.append_ext = true;
                } else if c == 'h' {
                    proof {
                        lemma_combined_branch(toks, i as int, entry);
                    }
                    return Err(ArgsError::Help);
                } else if c == 'V' {
                    proof {
                        lemma_combined_branch(toks, i as int, entry);
                    }
                    return Err(ArgsError::Version);
                } else {
                    let mut fv: Vec<char> = Vec::new();
                    fv.push('-');
                    fv.push(c);
                    proof {
                        assert(fv@ =~= seq!['-', av@[k as int]]);
                        lemma_combined_branch(toks, i as int, entry);
                    }
                    return Err(ArgsError::UnknownFlag(chars_to_string(&fv)));
                }
                k = k + 1;
            }
            proof {
                assert(parse_short_flags(av@, k as int, parsed@) == Ok::<
                    ArgsView,
                    ArgsErrorView,
                >(parsed@));
                lemma_combined_branch(toks, i as int, entry);
            }
        } else if av.len() > 0 && av[0] == '-' {
            return Err(ArgsError::UnknownFlag(arg.clone()));
        } else {
            if parsed.filename.is_none() {
                parsed.filename = Some(arg.clone());
            } else {
                return Err(ArgsError::TooManyArgs);
            }
        }
        i = i + 1;
    }
    Ok(parsed)
}

/// Parse a whitespace-separated command line, the program name first.
pub fn parse_args(cmd: &str) -> (r: Result<Args, ArgsError>)
    ensures
        (match r {
            Ok(a) => spec_parse(spec_split_ws(cmd@)) == Ok::<ArgsView, ArgsErrorView>(a@),
            Err(e) => spec_parse(spec_split_ws(cmd@)) == Err::<ArgsView, ArgsErrorView>(e@),
        }),
{
    let cs = chars_of(cmd);
    let tv = split_ws(&cs);
    let n = tv.len();
    let mut toks: Vec<String> = Vec::new();
    let mut i: usize = 0;
    while i < n
        invariant
            i <= n,
            cs@ == cmd@,
            n == spec_split_ws(cs@).len(),
            tv@.len() == n,
            forall|j: int| 0 <= j < n ==> #[trigger] tv@[j]@ == spec_split_ws(cs@)[j],
            toks@.len() == i,
            forall|j: int| 0 <= j < i ==> #[trigger] toks@[j]@ == spec_split_ws(cs@)[j],
        decreases n - i,
    {
        toks.push(chars_to_string(&tv[i]));
        i = i + 1;
    }
    proof {
        assert(toks@.map_values(|s: String| s@) =~= spec_split_ws(cmd@));
    }
    parse_arg_list(&toks)
}

} // verus!
