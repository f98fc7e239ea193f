//! The registry: one row per supported language, holding the key by which the
//! language is asked for, the name under which it is listed, the extension
//! of its source files and its template.

use crate::templates::{
    c_boilerplate, cpp_boilerplate, cs_boilerplate, go_boilerplate, haskell_boilerplate,
    html_boilerplate, java_boilerplate, javascript_boilerplate, kotlin_boilerplate,
    lemma_templates_not_empty, lua_boilerplate, python_boilerplate, ruby_boilerplate,
    rust_boilerplate, zig_boilerplate, CPP_TEMPLATE, CS_TEMPLATE, C_TEMPLATE, GO_TEMPLATE,
    HASKELL_TEMPLATE, HTML_TEMPLATE, JAVASCRIPT_TEMPLATE, JAVA_TEMPLATE, KOTLIN_TEMPLATE,
    LUA_TEMPLATE, PYTHON_TEMPLATE, RUBY_TEMPLATE, RUST_TEMPLATE, ZIG_TEMPLATE,
};
use crate::text::{ascii_lowercase, is_trimmed, lemma_trimmed_fixed, normalized, same_text};
use vstd::prelude::*;
use vstd::string::*;
use vstd::utf8::is_ascii_chars;

verus! {

/// A supported language. The variants stand in the order in which the
/// languages are listed to the user.
#[derive(Clone, Copy, PartialEq, Eq, Debug, Structural)]
pub enum Language {
    Rust,
    C,
    Cpp,
    Python,
    Lua,
    Javascript,
    Html,
    Java,
    Kotlin,
    Csharp,
    Go,
    Ruby,
    Haskell,
    Zig,
}

/// What the registry holds for one language.
pub struct Row {
    /// The normalized text by which the language is asked for.
    pub key: Seq<char>,
    /// The name under which the language is listed.
    pub name: Seq<char>,
    /// The suffix of the file name, without a dot.
    pub extension: Seq<char>,
    /// The template.
    pub body: Seq<char>,
}

/// The key asked for names no language of the registry.
#[derive(Clone, Copy, PartialEq, Eq, Debug, Structural)]
pub struct UnsupportedLanguage;

/// A template and the extension of the file it is saved to.
#[derive(Clone, PartialEq, Eq, Debug)]
pub struct TemplateEntry {
    pub body: String,
    pub extension: String,
}

/// The two texts of a `TemplateEntry`.
pub struct TemplateText {
    pub body: Seq<char>,
    pub extension: Seq<char>,
}

impl View for TemplateEntry {
    type V = TemplateText;

    open spec fn view(&self) -> TemplateText {
        TemplateText { body: self.body@, extension: self.extension@ }
    }
}

/// The extension given to a key that names no language.
pub open spec fn fallback_extension() -> Seq<char> {
    "txt"@
}

impl Language {
    /// The registry itself: the row of each language.
    pub open spec fn row(self) -> Row {
        match self {
            Language::Rust => Row {
                key: "rust"@,
                name: "Rust"@,
                extension: "rs"@,
                body: RUST_TEMPLATE@,
            },
            Language::C => Row { key: "c"@, name: "C"@, extension: "c"@, body: C_TEMPLATE@ },
            Language::Cpp => Row {
                key: "c++"@,
                name: "C++"@,
                extension: "cpp"@,
                body: CPP_TEMPLATE@,
            },
            Language::Python => Row {
                key: "python"@,
                name: "Python"@,
                extension: "py"@,
                body: PYTHON_TEMPLATE@,
            },
            Language::Lua => Row {
                key: "lua"@,
                name: "Lua"@,
                extension: "lua"@,
                body: LUA_TEMPLATE@,
            },
            Language::Javascript => Row {
                key: "javascript"@,
                name: "Javascript"@,
                extension: "js"@,
                body: JAVASCRIPT_TEMPLATE@,
            },
            Language::Html => Row {
                key: "html"@,
                name: "HTML"@,
                extension: "html"@,
                body: HTML_TEMPLATE@,
            },
            Language::Java => Row {
                key: "java"@,
                name: "Java"@,
                extension: "java"@,
                body: JAVA_TEMPLATE@,
            },
            Language::Kotlin => Row {
                key: "kotlin"@,
                name: "Kotlin"@,
                extension: "kt"@,
                body: KOTLIN_TEMPLATE@,
            },
            Language::Csharp => Row {
                key: "c#"@,
                name: "C#"@,
                extension: "cs"@,
                body: CS_TEMPLATE@,
            },
            Language::Go => Row { key: "go"@, name: "Go"@, extension: "go"@, body: GO_TEMPLATE@ },
            Language::Ruby => Row {
                key: "ruby"@,
                name: "Ruby"@,
                extension: "rb"@,
                body: RUBY_TEMPLATE@,
            },
            Language::Haskell => Row {
                key: "haskell"@,
                name: "Haskell"@,
                extension: "hs"@,
                body: HASKELL_TEMPLATE@,
            },
            Language::Zig => Row {
                key: "zig"@,
                name: "Zig"@,
                extension: "zig"@,
                body: ZIG_TEMPLATE@,
            },
        }
    }

    /// The template and the extension of this language.
    pub open spec fn template_text(self) -> TemplateText {
        TemplateText { body: self.row().body, extension: self.row().extension }
    }

    /// Every language, in the order of the listing.
    pub fn all() -> (r: Vec<Language>)
        ensures
            r@ == all_languages(),
    {
        let r = vec![
            Language::Rust,
            Language::C,
            Language::Cpp,
            Language::Python,
            Language::Lua,
            Language::Javascript,
            Language::Html,
            Language::Java,
            Language::Kotlin,
            Language::Csharp,
            Language::Go,
            Language::Ruby,
            Language::Haskell,
            Language::Zig,
        ];
        assert(r@ =~= all_languages());
        r
    }

    /// The key of this language.
    pub fn key(self) -> (r: &'static str)
        ensures
            r@ == self.row().key,
    {
        match self {
            Language::Rust => "rust",
            Language::C => "c",
            Language::Cpp => "c++",
            Language::Python => "python",
            Language::Lua => "lua",
            Language::Javascript => "javascript",
            Language::Html => "html",
            Language::Java => "java",
            Language::Kotlin => "kotlin",
            Language::Csharp => "c#",
            Language::Go => "go",
            Language::Ruby => "ruby",
            Language::Haskell => "haskell",
            Language::Zig => "zig",
        }
    }

    /// The name under which this language is listed.
    pub fn name(self) -> (r: &'static str)
        ensures
            r@ == self.row().name,
    {
        match self {
            Language::Rust => "Rust",
            Language::C => "C",
            Language::Cpp => "C++",
            Language::Python => "Python",
            Language::Lua => "Lua",
            Language::Javascript => "Javascript",
            Language::Html => "HTML",
            Language::Java => "Java",
            Language::Kotlin => "Kotlin",
            Language::Csharp => "C#",
            Language::Go => "Go",
            Language::Ruby => "Ruby",
            Language::Haskell => "Haskell",
            Language::Zig => "Zig",
        }
    }

    /// The extension of this language's source files, without a dot.
    pub fn extension(self) -> (r: &'static str)
        ensures
            r@ == self.row().extension,
    {
        match self {
            Language::Rust => "rs",
            Language::C => "c",
            Language::Cpp => "cpp",
            Language::Python => "py",
            Language::Lua => "lua",
            Language::Javascript => "js",
            Language::Html => "html",
            Language::Java => "java",
            Language::Kotlin => "kt",
            Language::Csharp => "cs",
            Language::Go => "go",
            Language::Ruby => "rb",
            Language::Haskell => "hs",
            Language::Zig => "zig",
        }
    }

    /// The template of this language.
    pub fn body(self) -> (r: String)
        ensures
            r@ == self.row().body,
    {
        match self {
            Language::Rust => rust_boilerplate(),
            Language::C => c_boilerplate(),
            Language::Cpp => cpp_boilerplate(),
            Language::Python => python_boilerplate(),
            Language::Lua => lua_boilerplate(),
            Language::Javascript => javascript_boilerplate(),
            Language::Html => html_boilerplate(),
            Language::Java => java_boilerplate(),
            Language::Kotlin => kotlin_boilerplate(),
            Language::Csharp => cs_boilerplate(),
            Language::Go => go_boilerplate(),
            Language::Ruby => ruby_boilerplate(),
            Language::Haskell => haskell_boilerplate(),
            Language::Zig => zig_boilerplate(),
        }
    }

    /// The template of this language together with its extension.
    pub fn template(self) -> (r: TemplateEntry)
        ensures
            r@ == self.template_text(),
    {
        TemplateEntry { body: self.body(), extension: String::from_str(self.extension()) }
    }

    /// The language that `key` names, if it names one. The key is compared
    /// as it stands: it is the caller who normalizes.
    pub fn from_key(key: &str) -> (r: Option<Language>)
        ensures
            r == language_of(key@),
    {
        let all = Language::all();
        let mut i: usize = 0;
        while i < all.len()
            invariant
                i <= all.len(),
                all@ == all_languages(),
                forall|j: int| 0 <= j < i ==> all_languages()[j].row().key != key@,
            decreases all.len() - i,
        {
            let language = all[i];
            if same_text(key, language.key()) {
                proof {
                    lemma_language_of_key(language);
                }
                return Some(language);
            }
            i += 1;
        }
        proof {
            assert forall|l: Language| #[trigger] l.row().key != key@ by {
                lemma_all_languages_complete(l);
                let j = choose|j: int| 0 <= j < all_languages().len() && all_languages()[j] == l;
                assert(all_languages()[j].row().key != key@);
            }
        }
        None
    }
}

/// Every language, in the order of the listing.
pub open spec fn all_languages() -> Seq<Language> {
    seq![
        Language::Rust,
        Language::C,
        Language::Cpp,
        Language::Python,
        Language::Lua,
        Language::Javascript,
        Language::Html,
        Language::Java,
        Language::Kotlin,
        Language::Csharp,
        Language::Go,
        Language::Ruby,
        Language::Haskell,
        Language::Zig,
    ]
}

/// Whether `key` is the key of a language.
pub open spec fn supported(key: Seq<char>) -> bool {
    exists|l: Language| #[trigger] l.row().key == key
}

/// The language whose key is `key`, if there is one.
pub open spec fn language_of(key: Seq<char>) -> Option<Language> {
    if supported(key) {
        Some(choose|l: Language| #[trigger] l.row().key == key)
    } else {
        None
    }
}

/// What the registry holds under `key`.
pub open spec fn entry_of(key: Seq<char>) -> Option<TemplateText> {
    match language_of(key) {
        Some(l) => Some(l.template_text()),
        None => None,
    }
}

/// The extension of the file that a template asked for under `key` is saved
/// to.
pub open spec fn extension_of(key: Seq<char>) -> Seq<char> {
    match language_of(key) {
        Some(l) => l.row().extension,
        None => fallback_extension(),
    }
}

/// The template and extension registered under `key`; `None` exactly if the
/// key names no language.
pub fn lookup(key: &str) -> (r: Option<TemplateEntry>)
    ensures
        r is Some <==> supported(key@),
        r matches Some(e) ==> entry_of(key@) == Some(e@) && e.body@.len() > 0
            && e.extension@.len() > 0,
{
    match Language::from_key(key) {
        Some(language) => {
            proof {
                lemma_row_is_sound(language);
            }
            Some(language.template())
        },
        None => None,
    }
}

/// The template and extension registered under `key`, or the error that says
/// that the key names no language. Nothing is tried a second time: an
/// unsupported key ends the run.
pub fn resolve(key: &str) -> (r: Result<TemplateEntry, UnsupportedLanguage>)
    ensures
        r is Ok <==> supported(key@),
        r matches Ok(e) ==> entry_of(key@) == Some(e@) && e.body@.len() > 0
            && e.extension@.len() > 0,
{
    match lookup(key) {
        Some(entry) => Ok(entry),
        None => Err(UnsupportedLanguage),
    }
}

/// The extension for `key`: that of the language it names, and `txt` where it
/// names none.
pub fn extension_for(key: &str) -> (r: &'static str)
    ensures
        r@ == extension_of(key@),
{
    match Language::from_key(key) {
        Some(language) => language.extension(),
        None => "txt",
    }
}

/// The listing holds every language, and none twice.
pub proof fn lemma_all_languages_complete(l: Language)
    ensures
        exists|j: int| 0 <= j < all_languages().len() && all_languages()[j] == l,
        all_languages().no_duplicates(),
        all_languages().len() == 14,
{
    let all = all_languages();
    assert(all[0] == Language::Rust && all[1] == Language::C && all[2] == Language::Cpp && all[3]
        == Language::Python && all[4] == Language::Lua && all[5] == Language::Javascript && all[6]
        == Language::Html);
    assert(all[7] == Language::Java && all[8] == Language::Kotlin && all[9] == Language::Csharp
        && all[10] == Language::Go && all[11] == Language::Ruby && all[12] == Language::Haskell
        && all[13] == Language::Zig);
}

/// No two languages share a key.
pub proof fn lemma_keys_distinct(a: Language, b: Language)
    ensures
        a.row().key == b.row().key ==> a == b,
{
    reveal_strlit("rust");
    reveal_strlit("c");
    reveal_strlit("c++");
    reveal_strlit("python");
    reveal_strlit("lua");
    reveal_strlit("javascript");
    reveal_strlit("html");
    reveal_strlit("java");
    reveal_strlit("kotlin");
    reveal_strlit("c#");
    reveal_strlit("go");
    reveal_strlit("ruby");
    reveal_strlit("haskell");
    reveal_strlit("zig");
    let x = a.row().key;
    let y = b.row().key;
    if x == y {
        assert(x.len() == y.len() && x[0] == y[0] && x[2] == y[2]);
    }
}

/// A key names the language in whose row it stands, and no other.
pub proof fn lemma_language_of_key(l: Language)
    ensures
        supported(l.row().key),
        language_of(l.row().key) == Some(l),
{
    let found = choose|other: Language| #[trigger] other.row().key == l.row().key;
    lemma_keys_distinct(found, l);
}

/// Each row is sound: its key is in normal form, so that normalizing finds
/// it; the name under which the language is listed normalizes to the key, so
/// that a user who types the name as listed is understood; name, extension
/// and template are not empty; and the extension does not begin with a dot.
pub proof fn lemma_row_is_sound(l: Language)
    ensures
        l.row().key.len() > 0,
        normalized(l.row().key) == l.row().key,
        normalized(l.row().name) == l.row().key,
        l.row().name.len() > 0,
        l.row().extension.len() > 0,
        l.row().extension[0] != '.',
        l.row().body.len() > 0,
{
    reveal_strlit("rust");
    reveal_strlit("c");
    reveal_strlit("c++");
    reveal_strlit("python");
    reveal_strlit("lua");
    reveal_strlit("javascript");
    reveal_strlit("html");
    reveal_strlit("java");
    reveal_strlit("kotlin");
    reveal_strlit("c#");
    reveal_strlit("go");
    reveal_strlit("ruby");
    reveal_strlit("haskell");
    reveal_strlit("zig");
    reveal_strlit("Rust");
    reveal_strlit("C");
    reveal_strlit("C++");
    reveal_strlit("Python");
    reveal_strlit("Lua");
    reveal_strlit("Javascript");
    reveal_strlit("HTML");
    reveal_strlit("Java");
    reveal_strlit("Kotlin");
    reveal_strlit("C#");
    reveal_strlit("Go");
    reveal_strlit("Ruby");
    reveal_strlit("Haskell");
    reveal_strlit("Zig");
    reveal_strlit("rs");
    reveal_strlit("cpp");
    reveal_strlit("py");
    reveal_strlit("js");
    reveal_strlit("kt");
    reveal_strlit("cs");
    reveal_strlit("rb");
    reveal_strlit("hs");
    lemma_templates_not_empty();
    let key = l.row().key;
    assert(is_ascii_chars(key));
    assert(is_trimmed(key));
    lemma_trimmed_fixed(key);
    assert(ascii_lowercase(key) =~= key);
    let name = l.row().name;
    assert(is_ascii_chars(name));
    assert(is_trimmed(name));
    lemma_trimmed_fixed(name);
    assert(ascii_lowercase(name) =~= key);
}

} // verus!
