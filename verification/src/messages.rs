//! The texts shown to the user before a run ends. Each is handed out without
//! its final line terminator.

use crate::registry::{all_languages, Language};
use vstd::prelude::*;
use vstd::string::*;

verus! {

/// The texts of `parts` in a row, with `separator` between each two.
pub open spec fn joined(parts: Seq<Seq<char>>, separator: Seq<char>) -> Seq<char>
    decreases parts.len(),
{
    if parts.len() == 0 {
        Seq::empty()
    } else if parts.len() == 1 {
        parts[0]
    } else {
        joined(parts.drop_last(), separator) + separator + parts.last()
    }
}

/// The names of the languages, in the order of the listing.
pub open spec fn language_names() -> Seq<Seq<char>> {
    all_languages().map_values(|l: Language| l.row().name)
}

/// The line that lists the supported languages.
pub open spec fn listing_text() -> Seq<char> {
    "Supported languages: "@ + joined(language_names(), ", "@)
}

/// The three lines that open a run: the title, the listing and the request
/// for a language.
pub open spec fn banner_text() -> Seq<char> {
    "Boilrs --- A boilerplate generator written in Rust\n"@ + listing_text()
        + "\nEnter the language you would want to generate boilerplate code for:"@
}

/// The template `body` between two blank lines, under its heading, and the
/// offer to save it.
pub open spec fn offer_text(body: Seq<char>) -> Seq<char> {
    "\nGenerated boilerplate:\n\n"@ + body
        + "\n\nWould you like to save it as a file? (yes/y) / no"@
}

/// The request for a directory.
pub open spec fn directory_prompt_text() -> Seq<char> {
    "Enter the directory where you want to save the file (press Enter for current directory):"@
}

/// The line that lists the supported languages, built from the registry.
pub fn listing() -> (r: String)
    ensures
        r@ == listing_text(),
{
    let all = Language::all();
    let mut names = String::new();
    let mut i: usize = 0;
    while i < all.len()
        invariant
            i <= all.len(),
            all@ == all_languages(),
            names@ == joined(language_names().take(i as int), ", "@),
        decreases all.len() - i,
    {
        if i > 0 {
            names.append(", ");
        }
        names.append(all[i].name());
        proof {
            let before = language_names().take(i as int);
            let now = language_names().take(i + 1);
            assert(now.drop_last() =~= before);
            assert(now.last() == all_languages()[i as int].row().name);
        }
        i += 1;
    }
    proof {
        assert(language_names().take(all.len() as int) =~= language_names());
    }
    let mut line = String::from_str("Supported languages: ");
    line.append(names.as_str());
    line
}

/// The three lines that open a run.
pub fn banner() -> (r: String)
    ensures
        r@ == banner_text(),
{
    let mut text = String::from_str("Boilrs --- A boilerplate generator written in Rust\n");
    text.append(listing().as_str());
    text.append("\nEnter the language you would want to generate boilerplate code for:");
    text
}

/// The template `body` under its heading, and the offer to save it.
pub fn offer(body: &str) -> (r: String)
    ensures
        r@ == offer_text(body@),
{
    let mut text = String::from_str("\nGenerated boilerplate:\n\n");
    text.append(body);
    text.append("\n\nWould you like to save it as a file? (yes/y) / no");
    text
}

/// The request for a directory.
pub fn directory_prompt() -> (r: String)
    ensures
        r@ == directory_prompt_text(),
{
    String::from_str(
        "Enter the directory where you want to save the file (press Enter for current directory):",
    )
}

} // verus!
