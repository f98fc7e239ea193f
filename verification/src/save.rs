//! The decisions around saving a template: whether the user agreed to it,
//! which directory it goes to, and the name of the file.

use crate::text::{ascii_lowercase, normalize, normalized, same_text, trim_str, trimmed};
use vstd::prelude::*;
use vstd::string::*;
use vstd::utf8::is_ascii_chars;

verus! {

/// The directory asked for is missing, or is no directory.
#[derive(Clone, Copy, PartialEq, Eq, Debug, Structural)]
pub struct InvalidDirectory;

/// Whether a line answers the offer to save with yes: its normal form is
/// `yes` or `y`.
pub open spec fn accepts_save(raw: Seq<char>) -> bool {
    normalized(raw) == "yes"@ || normalized(raw) == "y"@
}

/// The path that stands for the current directory.
pub open spec fn current_directory() -> Seq<char> {
    "."@
}

/// The directory to save to, given the trimmed line `candidate` that the user
/// typed and, for a line that is not empty, whether it is the path of an
/// existing directory. An empty line means the current directory, whatever
/// `is_directory` says.
pub open spec fn resolved_directory(candidate: Seq<char>, is_directory: bool) -> Option<
    Seq<char>,
> {
    if candidate.len() == 0 {
        Some(current_directory())
    } else if is_directory {
        Some(candidate)
    } else {
        None
    }
}

/// The name of the file that a template with this extension is saved to.
pub open spec fn file_name_of(extension: Seq<char>) -> Seq<char> {
    "boilerplate."@ + extension
}

/// Whether the line `raw` agrees to saving. Case and surrounding white space
/// do not matter; anything but `yes` and `y`, the empty line included,
/// declines.
pub fn confirms_save(raw: &str) -> (r: bool)
    ensures
        r == accepts_save(raw@),
{
    let answer = normalize(raw);
    same_text(answer.as_str(), "yes") || same_text(answer.as_str(), "y")
}

/// The directory that the line `raw` asks for: the line without the white
/// space around it. The empty text asks for the current directory.
pub fn candidate_directory(raw: &str) -> (r: String)
    ensures
        r@ == trimmed(raw@),
{
    String::from_str(trim_str(raw))
}

/// The directory to save to. `candidate` is what `candidate_directory`
/// returned; `is_directory` says whether that path is an existing directory,
/// and is not looked at where `candidate` is empty. Nothing is created:
/// a path that is no directory is an error.
pub fn resolve_directory(candidate: &str, is_directory: bool) -> (r: Result<
    String,
    InvalidDirectory,
>)
    ensures
        match r {
            Ok(directory) => resolved_directory(candidate@, is_directory) == Some(directory@),
            Err(_) => resolved_directory(candidate@, is_directory) is None,
        },
{
    if candidate.is_empty() {
        Ok(String::from_str("."))
    } else if is_directory {
        Ok(String::from_str(candidate))
    } else {
        Err(InvalidDirectory)
    }
}

/// The name of the file for a template with this extension:
/// `boilerplate.` and the extension.
pub fn file_name(extension: &str) -> (r: String)
    ensures
        r@ == file_name_of(extension@),
{
    let mut name = String::from_str("boilerplate.");
    name.append(extension);
    name
}

/// On a line that is ASCII once trimmed, agreement is spelled `y` or `yes`
/// in any mix of cases, and nothing else agrees.
pub proof fn lemma_accepts_save_ascii(raw: Seq<char>)
    requires
        is_ascii_chars(trimmed(raw)),
    ensures
        accepts_save(raw) <==> {
            let t = trimmed(raw);
            ||| t.len() == 1 && (t[0] == 'y' || t[0] == 'Y')
            ||| t.len() == 3 && (t[0] == 'y' || t[0] == 'Y') && (t[1] == 'e' || t[1] == 'E') && (
            t[2] == 's' || t[2] == 'S')
        },
{
    reveal_strlit("yes");
    reveal_strlit("y");
    let t = trimmed(raw);
    let low = ascii_lowercase(t);
    if t.len() == 1 {
        assert(low[0] == 'y' <==> (t[0] == 'y' || t[0] == 'Y'));
        if t[0] == 'y' || t[0] == 'Y' {
            assert(low =~= "y"@);
        }
    }
    if t.len() == 3 {
        assert(low[0] == 'y' <==> (t[0] == 'y' || t[0] == 'Y'));
        assert(low[1] == 'e' <==> (t[1] == 'e' || t[1] == 'E'));
        assert(low[2] == 's' <==> (t[2] == 's' || t[2] == 'S'));
        if (t[0] == 'y' || t[0] == 'Y') && (t[1] == 'e' || t[1] == 'E') && (t[2] == 's' || t[2]
            == 'S') {
            assert(low =~= "yes"@);
        }
    }
    if accepts_save(raw) {
        assert(low.len() == 1 || low.len() == 3);
    }
}

/// A line of nothing but white space, the empty line included, declines.
pub proof fn lemma_blank_line_declines(raw: Seq<char>)
    requires
        trimmed(raw).len() == 0,
    ensures
        !accepts_save(raw),
{
    reveal_strlit("yes");
    reveal_strlit("y");
    assert(ascii_lowercase(trimmed(raw)).len() == 0);
}

} // verus!
