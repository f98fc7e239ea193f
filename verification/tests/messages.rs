use boilrs::messages::{banner, directory_prompt, listing, offer};
use boilrs::outcome::Outcome;
use boilrs::registry::Language;

#[test]
fn listing_names_every_language() {
    assert_eq!(
        listing(),
        "Supported languages: Rust, C, C++, Python, Lua, Javascript, HTML, Java, Kotlin, C#, Go, Ruby, Haskell, Zig"
    );
    for language in Language::all() {
        assert!(listing().contains(language.name()));
    }
}

#[test]
fn banner_is_three_lines() {
    assert_eq!(
        banner(),
        "Boilrs --- A boilerplate generator written in Rust\nSupported languages: Rust, C, C++, Python, Lua, Javascript, HTML, Java, Kotlin, C#, Go, Ruby, Haskell, Zig\nEnter the language you would want to generate boilerplate code for:"
    );
}

#[test]
fn offer_shows_the_body_between_blank_lines() {
    assert_eq!(
        offer("print(1)"),
        "\nGenerated boilerplate:\n\nprint(1)\n\nWould you like to save it as a file? (yes/y) / no"
    );
    assert_eq!(
        offer(""),
        "\nGenerated boilerplate:\n\n\n\nWould you like to save it as a file? (yes/y) / no"
    );
}

#[test]
fn directory_prompt_text() {
    assert_eq!(
        directory_prompt(),
        "Enter the directory where you want to save the file (press Enter for current directory):"
    );
}

#[test]
fn status_lines() {
    let saved: Outcome<String> = Outcome::Saved { path: String::from("./boilerplate.py") };
    assert_eq!(saved.status_line(), "Boilerplate was saved to ./boilerplate.py");
    let not_saved: Outcome<String> = Outcome::NotSaved;
    assert_eq!(not_saved.status_line(), "Boilerplate was not saved.");
    let unsupported: Outcome<String> = Outcome::UnsupportedLanguage;
    assert_eq!(unsupported.status_line(), "Unsupported language");
    let invalid: Outcome<String> = Outcome::InvalidDirectory;
    assert_eq!(invalid.status_line(), "Invalid directory. Please make sure the path exists.");
    let failed: Outcome<String> = Outcome::IoFailure { reason: String::from("Permission denied (os error 13)") };
    assert_eq!(failed.status_line(), "Failed to save file: Permission denied (os error 13)");
}
