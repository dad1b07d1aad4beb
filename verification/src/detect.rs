//! Content categories, the registry mapping each category to its canonical
//! file extension and human-readable display name, and the classification
//! pipeline that tries the detectors in a fixed priority order and returns
//! the first match.

use vstd::prelude::*;
use crate::detectors::data::{
    csv_like, html_marker, is_csv, is_json, is_sql, is_toml, is_xml, is_yaml, json_like, sql_like,
    toml_like, xml_like, yaml_like,
};
use crate::detectors::lang::{
    c_like, cpp_like, csharp_like, go_like, is_c, is_cpp, is_csharp, is_go, is_java,
    is_javascript, is_kotlin, is_php, is_powershell, is_python, is_ruby, is_rust, is_shell,
    is_swift, is_typescript, java_like, javascript_like, kotlin_like, php_like, powershell_like,
    python_like, ruby_like, rust_like, shell_like, swift_like, typescript_like,
};
use crate::detectors::markup::{
    css_like, html_like, is_css, is_html, is_latex, is_markdown, is_scss, latex_like,
    markdown_like, scss_like,
};
use crate::detectors::special::{
    dockerfile_like, dotenv_like, gitignore_like, ini_like, is_dockerfile, is_dotenv,
    is_gitignore, is_ini, is_makefile, makefile_like,
};
use crate::textscan::{chars_of, chars_to_string, spec_trim, trim_chars};

verus! {

/// One content-type classification outcome.  The variant set is closed:
/// every variant has exactly one canonical extension and one display name,
/// and `PlainText` is the universal fallback of the classifier.
#[derive(Debug, Clone, Copy, PartialEq, Eq, Structural)]
pub enum ContentType {
    Image,
    // data formats
    Json,
    Xml,
    Yaml,
    Toml,
    Csv,
    Sql,
    // programming languages
    Rust,
    Python,
    JavaScript,
    TypeScript,
    Go,
    Java,
    CSharp,
    Cpp,
    C,
    Shell,
    PowerShell,
    Ruby,
    Php,
    Swift,
    Kotlin,
    // markup and styles
    Html,
    Markdown,
    Latex,
    Css,
    Scss,
    // config and special files
    Dockerfile,
    GitIgnore,
    Makefile,
    DotEnv,
    Ini,
    // fallback
    PlainText,
}

/// The canonical extension of each category, as a sequence of characters.
pub open spec fn spec_extension(t: ContentType) -> Seq<char> {
    match t {
        ContentType::Image => "png"@,
        ContentType::Json => "json"@,
        ContentType::Xml => "xml"@,
        ContentType::Yaml => "yaml"@,
        ContentType::Toml => "toml"@,
        ContentType::Csv => "csv"@,
        ContentType::Sql => "sql"@,
        ContentType::Rust => "rs"@,
        ContentType::Python => "py"@,
        ContentType::JavaScript => "js"@,
        ContentType::TypeScript => "ts"@,
        ContentType::Go => "go"@,
        ContentType::Java => "java"@,
        ContentType::CSharp => "cs"@,
        ContentType::Cpp => "cpp"@,
        ContentType::C => "c"@,
        ContentType::Shell => "sh"@,
        ContentType::PowerShell => "ps1"@,
        ContentType::Ruby => "rb"@,
        ContentType::Php => "php"@,
        ContentType::Swift => "swift"@,
        ContentType::Kotlin => "kt"@,
        ContentType::Html => "html"@,
        ContentType::Markdown => "md"@,
        ContentType::Latex => "tex"@,
        ContentType::Css => "css"@,
        ContentType::Scss => "scss"@,
        ContentType::Dockerfile => "dockerfile"@,
        ContentType::GitIgnore => "gitignore"@,
        ContentType::Makefile => "makefile"@,
        ContentType::DotEnv => "env"@,
        ContentType::Ini => "ini"@,
        ContentType::PlainText => "txt"@,
    }
}

/// The human-readable name of each category, as a sequence of characters.
pub open spec fn spec_display_name(t: ContentType) -> Seq<char> {
    match t {
        ContentType::Image => "Image (PNG)"@,
        ContentType::Json => "JSON"@,
        ContentType::Xml => "XML"@,
        ContentType::Yaml => "YAML"@,
        ContentType::Toml => "TOML"@,
        ContentType::Csv => "CSV"@,
        ContentType::Sql => "SQL"@,
        ContentType::Rust => "Rust"@,
        ContentType::Python => "Python"@,
        ContentType::JavaScript => "JavaScript"@,
        ContentType::TypeScript => "TypeScript"@,
        ContentType::Go => "Go"@,
        ContentType::Java => "Java"@,
        ContentType::CSharp => "C#"@,
        ContentType::Cpp => "C++"@,
        ContentType::C => "C"@,
        ContentType::Shell => "Shell script"@,
        ContentType::PowerShell => "PowerShell"@,
        ContentType::Ruby => "Ruby"@,
        ContentType::Php => "PHP"@,
        ContentType::Swift => "Swift"@,
        ContentType::Kotlin => "Kotlin"@,
        ContentType::Html => "HTML"@,
        ContentType::Markdown => "Markdown"@,
        ContentType::Latex => "LaTeX"@,
        ContentType::Css => "CSS"@,
        ContentType::Scss => "SCSS"@,
        ContentType::Dockerfile => "Dockerfile"@,
        ContentType::GitIgnore => "Git ignore"@,
        ContentType::Makefile => "Makefile"@,
        ContentType::DotEnv => "Environment file"@,
        ContentType::Ini => "INI config"@,
        ContentType::PlainText => "Plain text"@,
    }
}

impl ContentType {
    /// The canonical file extension used when persisting content of this
    /// category.  Total: defined for every variant.
    pub fn extension(&self) -> (r: &'static str)
        ensures
            r@ == spec_extension(*self),
    {
        match self {
            ContentType::Image => "png",
            ContentType::Json => "json",
            ContentType::Xml => "xml",
            ContentType::Yaml => "yaml",
            ContentType::Toml => "toml",
            ContentType::Csv => "csv",
            ContentType::Sql => "sql",
            ContentType::Rust => "rs",
            ContentType::Python => "py",
            ContentType::JavaScript => "js",
            ContentType::TypeScript => "ts",
            ContentType::Go => "go",
            ContentType::Java => "java",
            ContentType::CSharp => "cs",
            ContentType::Cpp => "cpp",
            ContentType::C => "c",
            ContentType::Shell => "sh",
            ContentType::PowerShell => "ps1",
            ContentType::Ruby => "rb",
            ContentType::Php => "php",
            ContentType::Swift => "swift",
            ContentType::Kotlin => "kt",
            ContentType::Html => "html",
            ContentType::Markdown => "md",
            ContentType::Latex => "tex",
            ContentType::Css => "css",
            ContentType::Scss => "scss",
            ContentType::Dockerfile => "dockerfile",
            ContentType::GitIgnore => "gitignore",
            ContentType::Makefile => "makefile",
            ContentType::DotEnv => "env",
            ContentType::Ini => "ini",
            ContentType::PlainText => "txt",
        }
    }

    /// The human-readable name of this category.  Total: defined for every
    /// variant.
    pub fn display_name(&self) -> (r: &'static str)
        ensures
            r@ == spec_display_name(*self),
    {
        match self {
            ContentType::Image => "Image (PNG)",
            ContentType::Json => "JSON",
            ContentType::Xml => "XML",
            ContentType::Yaml => "YAML",
            ContentType::Toml => "TOML",
            ContentType::Csv => "CSV",
            ContentType::Sql => "SQL",
            ContentType::Rust => "Rust",
            ContentType::Python => "Python",
            ContentType::JavaScript => "JavaScript",
            ContentType::TypeScript => "TypeScript",
            ContentType::Go => "Go",
            ContentType::Java => "Java",
            ContentType::CSharp => "C#",
            ContentType::Cpp => "C++",
            ContentType::C => "C",
            ContentType::Shell => "Shell script",
            ContentType::PowerShell => "PowerShell",
            ContentType::Ruby => "Ruby",
            ContentType::Php => "PHP",
            ContentType::Swift => "Swift",
            ContentType::Kotlin => "Kotlin",
            ContentType::Html => "HTML",
            ContentType::Markdown => "Markdown",
            ContentType::Latex => "LaTeX",
            ContentType::Css => "CSS",
            ContentType::Scss => "SCSS",
            ContentType::Dockerfile => "Dockerfile",
            ContentType::GitIgnore => "Git ignore",
            ContentType::Makefile => "Makefile",
            ContentType::DotEnv => "Environment file",
            ContentType::Ini => "INI config",
            ContentType::PlainText => "Plain text",
        }
    }
}

/// Totality of the registry: every category resolves to a non-empty
/// extension and a non-empty display name.
pub proof fn lemma_registry_total(t: ContentType)
    ensures
        spec_extension(t).len() > 0,
        spec_display_name(t).len() > 0,
{
    reveal_strlit("png");
    reveal_strlit("json");
    reveal_strlit("xml");
    reveal_strlit("yaml");
    reveal_strlit("toml");
    reveal_strlit("csv");
    reveal_strlit("sql");
    reveal_strlit("rs");
    reveal_strlit("py");
    reveal_strlit("js");
    reveal_strlit("ts");
    reveal_strlit("go");
    reveal_strlit("java");
    reveal_strlit("cs");
    reveal_strlit("cpp");
    reveal_strlit("c");
    reveal_strlit("sh");
    reveal_strlit("ps1");
    reveal_strlit("rb");
    reveal_strlit("php");
    reveal_strlit("swift");
    reveal_strlit("kt");
    reveal_strlit("html");
    reveal_strlit("md");
    reveal_strlit("tex");
    reveal_strlit("css");
    reveal_strlit("scss");
    reveal_strlit("dockerfile");
    reveal_strlit("gitignore");
    reveal_strlit("makefile");
    reveal_strlit("env");
    reveal_strlit("ini");
    reveal_strlit("txt");
    reveal_strlit("Image (PNG)");
    reveal_strlit("JSON");
    reveal_strlit("XML");
    reveal_strlit("YAML");
    reveal_strlit("TOML");
    reveal_strlit("CSV");
    reveal_strlit("SQL");
    reveal_strlit("Rust");
    reveal_strlit("Python");
    reveal_strlit("JavaScript");
    reveal_strlit("TypeScript");
    reveal_strlit("Go");
    reveal_strlit("Java");
    reveal_strlit("C#");
    reveal_strlit("C++");
    reveal_strlit("C");
    reveal_strlit("Shell script");
    reveal_strlit("PowerShell");
    reveal_strlit("Ruby");
    reveal_strlit("PHP");
    reveal_strlit("Swift");
    reveal_strlit("Kotlin");
    reveal_strlit("HTML");
    reveal_strlit("Markdown");
    reveal_strlit("LaTeX");
    reveal_strlit("CSS");
    reveal_strlit("SCSS");
    reveal_strlit("Dockerfile");
    reveal_strlit("Git ignore");
    reveal_strlit("Makefile");
    reveal_strlit("Environment file");
    reveal_strlit("INI config");
    reveal_strlit("Plain text");
}

/// The classification pipeline on already-trimmed text: the detectors are
/// tried in a fixed total order and the first match decides.  The order is a
/// deliberate priority policy — strict structural formats first, config
/// files before the looser YAML heuristic, markup before programming
/// languages, styles last — and changing it would change the outcome for
/// ambiguous inputs.
pub open spec fn classify_trimmed(s: Seq<char>) -> ContentType {
    if json_like(s) {
        ContentType::Json
    } else if xml_like(s) {
        ContentType::Xml
    } else if dockerfile_like(s) {
        ContentType::Dockerfile
    } else if gitignore_like(s) {
        ContentType::GitIgnore
    } else if makefile_like(s) {
        ContentType::Makefile
    } else if yaml_like(s) {
        ContentType::Yaml
    } else if toml_like(s) {
        ContentType::Toml
    } else if csv_like(s) {
        ContentType::Csv
    } else if sql_like(s) {
        ContentType::Sql
    } else if dotenv_like(s) {
        ContentType::DotEnv
    } else if ini_like(s) {
        ContentType::Ini
    } else if html_like(s) {
        ContentType::Html
    } else if markdown_like(s) {
        ContentType::Markdown
    } else if latex_like(s) {
        ContentType::Latex
    } else if rust_like(s) {
        ContentType::Rust
    } else if python_like(s) {
        ContentType::Python
    } else if typescript_like(s) {
        ContentType::TypeScript
    } else if javascript_like(s) {
        ContentType::JavaScript
    } else if go_like(s) {
        ContentType::Go
    } else if java_like(s) {
        ContentType::Java
    } else if csharp_like(s) {
        ContentType::CSharp
    } else if cpp_like(s) {
        ContentType::Cpp
    } else if c_like(s) {
        ContentType::C
    } else if shell_like(s) {
        ContentType::Shell
    } else if powershell_like(s) {
        ContentType::PowerShell
    } else if ruby_like(s) {
        ContentType::Ruby
    } else if php_like(s) {
        ContentType::Php
    } else if swift_like(s) {
        ContentType::Swift
    } else if kotlin_like(s) {
        ContentType::Kotlin
    } else if scss_like(s) {
        ContentType::Scss
    } else if css_like(s) {
        ContentType::Css
    } else {
        ContentType::PlainText
    }
}

/// The category of a text: the pipeline's verdict on its trimmed form.
pub open spec fn spec_classify(s: Seq<char>) -> ContentType {
    classify_trimmed(spec_trim(s))
}

/// Classify a text.  Total: every input — the empty string included —
/// resolves to exactly one category, with `PlainText` as the unconditional
/// fallback; the function itself never fails.
pub fn detect_text_type(text: &str) -> (r: ContentType)
    ensures
        r == spec_classify(text@),
{
    let cs = chars_of(text);
    let tv = trim_chars(&cs);
    let t = chars_to_string(&tv);
    let ts = t.as_str();
    if is_json(ts) {
        return ContentType::Json;
    }
    if is_xml(ts) {
        return ContentType::Xml;
    }
    if is_dockerfile(ts) {
        return ContentType::Dockerfile;
    }
    if is_gitignore(ts) {
        return ContentType::GitIgnore;
    }
    if is_makefile(ts) {
        return ContentType::Makefile;
    }
    if is_yaml(ts) {
        return ContentType::Yaml;
    }
    if is_toml(ts) {
        return ContentType::Toml;
    }
    if is_csv(ts) {
        return ContentType::Csv;
    }
    if is_sql(ts) {
        return ContentType::Sql;
    }
    if is_dotenv(ts) {
        return ContentType::DotEnv;
    }
    if is_ini(ts) {
        return ContentType::Ini;
    }
    if is_html(ts) {
        return ContentType::Html;
    }
    if is_markdown(ts) {
        return ContentType::Markdown;
    }
    if is_latex(ts) {
        return ContentType::Latex;
    }
    if is_rust(ts) {
        return ContentType::Rust;
    }
    if is_python(ts) {
        return ContentType::Python;
    }
    if is_typescript(ts) {
        return ContentType::TypeScript;
    }
    if is_javascript(ts) {
        return ContentType::JavaScript;
    }
    if is_go(ts) {
        return ContentType::Go;
    }
    if is_java(ts) {
        return ContentType::Java;
    }
    if is_csharp(ts) {
        return ContentType::CSharp;
    }
    if is_cpp(ts) {
        return ContentType::Cpp;
    }
    if is_c(ts) {
        return ContentType::C;
    }
    if is_shell(ts) {
        return ContentType::Shell;
    }
    if is_powershell(ts) {
        return ContentType::PowerShell;
    }
    if is_ruby(ts) {
        return ContentType::Ruby;
    }
    if is_php(ts) {
        return ContentType::Php;
    }
    if is_swift(ts) {
        return ContentType::Swift;
    }
    if is_kotlin(ts) {
        return ContentType::Kotlin;
    }
    if is_scss(ts) {
        return ContentType::Scss;
    }
    if is_css(ts) {
        return ContentType::Css;
    }
    ContentType::PlainText
}

/// `PlainText` is the one fallback: the pipeline lands on it exactly when
/// no detector matches the trimmed text, and no other sentinel exists.
pub proof fn lemma_plaintext_fallback(s: Seq<char>)
    ensures
        (classify_trimmed(s) == ContentType::PlainText) <==> {
            &&& !json_like(s)
            &&& !xml_like(s)
            &&& !dockerfile_like(s)
            &&& !gitignore_like(s)
            &&& !makefile_like(s)
            &&& !yaml_like(s)
            &&& !toml_like(s)
            &&& !csv_like(s)
            &&& !sql_like(s)
            &&& !dotenv_like(s)
            &&& !ini_like(s)
            &&& !html_like(s)
            &&& !markdown_like(s)
            &&& !latex_like(s)
            &&& !rust_like(s)
            &&& !python_like(s)
            &&& !typescript_like(s)
            &&& !javascript_like(s)
            &&& !go_like(s)
            &&& !java_like(s)
            &&& !csharp_like(s)
            &&& !cpp_like(s)
            &&& !c_like(s)
            &&& !shell_like(s)
            &&& !powershell_like(s)
            &&& !ruby_like(s)
            &&& !php_like(s)
            &&& !swift_like(s)
            &&& !kotlin_like(s)
            &&& !scss_like(s)
            &&& !css_like(s)
        },
{
}

/// Classification has no hidden state: it is a pure function of the text,
/// so classifying equal texts — the same text twice included — yields the
/// same category.
pub proof fn lemma_classify_deterministic(s1: Seq<char>, s2: Seq<char>)
    requires
        s1 == s2,
    ensures
        spec_classify(s1) == spec_classify(s2),
{
}

/// HTML wins over generic XML: a text that carries an HTML-flavored marker
/// and is not an XML declaration is refused by the XML detector, so the
/// pipeline never classifies it as XML.
pub proof fn lemma_html_excludes_xml(s: Seq<char>)
    requires
        html_marker(s),
        !("<?xml"@.is_prefix_of(s)),
    ensures
        !xml_like(s),
        classify_trimmed(s) != ContentType::Xml,
{
}

/// Dockerfile wins over the later detectors: trimmed text that opens with a
/// `FROM ` instruction classifies as Dockerfile, even where it would also
/// satisfy a detector tried later in the pipeline (the shell heuristic, for
/// one).
pub proof fn lemma_dockerfile_priority(s: Seq<char>)
    requires
        "FROM "@.is_prefix_of(s),
    ensures
        dockerfile_like(s),
        classify_trimmed(s) == ContentType::Dockerfile,
{
    reveal_strlit("FROM ");
    reveal_strlit("<?xml");
    assert(s[0] == 'F') by {
        assert(s.subrange(0, 5)[0] == s[0]);
    }
    assert(!json_like(s));
    assert(!("<?xml"@.is_prefix_of(s))) by {
        if "<?xml"@.is_prefix_of(s) {
            assert(s.subrange(0, 5)[0] == s[0]);
        }
    }
    assert(!xml_like(s));
}

} // verus!
