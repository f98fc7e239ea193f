//! How a run ends, and the line that reports it.

use vstd::prelude::*;
use vstd::string::*;

verus! {

/// How a run ends. `S` is the type of the texts held: `String` in running
/// code, `Seq<char>` in contracts.
#[derive(PartialEq, Eq, Debug)]
pub enum Outcome<S> {
    /// The template was written to the file at `path`.
    Saved { path: S },
    /// The user did not ask for the template to be saved.
    NotSaved,
    /// The line typed names no language of the registry.
    UnsupportedLanguage,
    /// The directory typed is missing, or is no directory.
    InvalidDirectory,
    /// The file could not be written; `reason` is what the platform said.
    IoFailure { reason: S },
}

impl View for Outcome<String> {
    type V = Outcome<Seq<char>>;

    open spec fn view(&self) -> Outcome<Seq<char>> {
        match self {
            Outcome::Saved { path } => Outcome::Saved { path: path@ },
            Outcome::NotSaved => Outcome::NotSaved,
            Outcome::UnsupportedLanguage => Outcome::UnsupportedLanguage,
            Outcome::InvalidDirectory => Outcome::InvalidDirectory,
            Outcome::IoFailure { reason } => Outcome::IoFailure { reason: reason@ },
        }
    }
}

/// The line that reports `outcome`, without a line terminator.
pub open spec fn status_text(outcome: Outcome<Seq<char>>) -> Seq<char> {
    match outcome {
        Outcome::Saved { path } => "Boilerplate was saved to "@ + path,
        Outcome::NotSaved => "Boilerplate was not saved."@,
        Outcome::UnsupportedLanguage => "Unsupported language"@,
        Outcome::InvalidDirectory => "Invalid directory. Please make sure the path exists."@,
        Outcome::IoFailure { reason } => "Failed to save file: "@ + reason,
    }
}

impl Outcome<String> {
    /// The line that reports this outcome, without a line terminator.
    pub fn status_line(&self) -> (r: String)
        ensures
            r@ == status_text(self@),
    {
        match self {
            Outcome::Saved { path } => {
                let mut line = String::from_str("Boilerplate was saved to ");
                line.append(path.as_str());
                line
            },
            Outcome::NotSaved => String::from_str("Boilerplate was not saved."),
            Outcome::UnsupportedLanguage => String::from_str("Unsupported language"),
            Outcome::InvalidDirectory => String::from_str(
                "Invalid directory. Please make sure the path exists.",
            ),
            Outcome::IoFailure { reason } => {
                let mut line = String::from_str("Failed to save file: ");
                line.append(reason.as_str());
                line
            },
        }
    }
}

} // verus!
