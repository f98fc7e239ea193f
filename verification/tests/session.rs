use boilrs::messages::{banner, directory_prompt, offer};
use boilrs::outcome::Outcome;
use boilrs::registry::Language;
use boilrs::session::{start, step, Action, Event, Stage};
use boilrs::templates::{go_boilerplate, python_boilerplate, rust_boilerplate};

fn line(text: &str) -> Event<String> {
    Event::Line(String::from(text))
}

fn finish(outcome: Outcome<String>) -> Option<(Stage<String>, Action<String>)> {
    Some((Stage::Finished, Action::Finish { outcome }))
}

#[test]
fn run_starts_with_the_banner() {
    let (stage, action) = start();
    assert_eq!(stage, Stage::AwaitingLanguage);
    assert_eq!(action, Action::Ask { text: banner() });
}

#[test]
fn scenario_python_saved_to_current_directory() {
    let (stage, _) = start();
    let (stage, action) = step(stage, line("python\n")).unwrap();
    assert_eq!(stage, Stage::AwaitingConfirmation { language: Language::Python });
    assert_eq!(action, Action::Ask { text: offer(&python_boilerplate()) });
    let (stage, action) = step(stage, line("y\n")).unwrap();
    assert_eq!(stage, Stage::AwaitingDirectory { language: Language::Python });
    assert_eq!(action, Action::Ask { text: directory_prompt() });
    let (stage, action) = step(stage, line("\n")).unwrap();
    assert_eq!(stage, Stage::AwaitingWrite);
    assert_eq!(
        action,
        Action::Write {
            directory: String::from("."),
            file_name: String::from("boilerplate.py"),
            body: python_boilerplate(),
        }
    );
    let written = Event::Written(Ok(String::from("./boilerplate.py")));
    let (stage, action) = step(stage, written).unwrap();
    assert_eq!(stage, Stage::Finished);
    let outcome = Outcome::Saved { path: String::from("./boilerplate.py") };
    assert_eq!(outcome.status_line(), "Boilerplate was saved to ./boilerplate.py");
    assert_eq!(action, Action::Finish { outcome });
}

#[test]
fn scenario_cobol_is_unsupported() {
    let (stage, _) = start();
    let (stage, action) = step(stage, line("COBOL\n")).unwrap();
    assert_eq!(stage, Stage::Finished);
    assert_eq!(action, Action::Finish { outcome: Outcome::UnsupportedLanguage });
    assert_eq!(step(stage, line("y\n")), None);
}

#[test]
fn scenario_go_not_saved() {
    let (stage, _) = start();
    let (stage, action) = step(stage, line("go\n")).unwrap();
    assert_eq!(action, Action::Ask { text: offer(&go_boilerplate()) });
    let (stage, action) = step(stage, line("no\n")).unwrap();
    assert_eq!(stage, Stage::Finished);
    let outcome: Outcome<String> = Outcome::NotSaved;
    assert_eq!(outcome.status_line(), "Boilerplate was not saved.");
    assert_eq!(action, Action::Finish { outcome });
    assert_eq!(step(stage, line("\n")), None);
}

#[test]
fn scenario_rust_invalid_directory() {
    let (stage, _) = start();
    let (stage, _) = step(stage, line("rust\n")).unwrap();
    let (stage, _) = step(stage, line("yes\n")).unwrap();
    let (stage, action) = step(stage, line("/path/does/not/exist\n")).unwrap();
    assert_eq!(
        stage,
        Stage::AwaitingProbe {
            language: Language::Rust,
            directory: String::from("/path/does/not/exist"),
        }
    );
    assert_eq!(action, Action::Probe { path: String::from("/path/does/not/exist") });
    let (stage, action) = step(stage, Event::Probed(false)).unwrap();
    assert_eq!(stage, Stage::Finished);
    assert_eq!(action, Action::Finish { outcome: Outcome::InvalidDirectory });
    assert_eq!(step(stage, Event::Written(Ok(String::from("x")))), None);
}

#[test]
fn custom_directory_that_exists_is_written_to() {
    let (stage, _) = start();
    let (stage, _) = step(stage, line(" RUST \r\n")).unwrap();
    let (stage, _) = step(stage, line(" YES \r\n")).unwrap();
    let (stage, action) = step(stage, line("  /tmp/Out  \r\n")).unwrap();
    assert_eq!(action, Action::Probe { path: String::from("/tmp/Out") });
    let (stage, action) = step(stage, Event::Probed(true)).unwrap();
    assert_eq!(stage, Stage::AwaitingWrite);
    assert_eq!(
        action,
        Action::Write {
            directory: String::from("/tmp/Out"),
            file_name: String::from("boilerplate.rs"),
            body: rust_boilerplate(),
        }
    );
}

#[test]
fn failed_write_is_reported() {
    let reason = String::from("Permission denied (os error 13)");
    let result = step(Stage::AwaitingWrite, Event::Written(Err(reason.clone())));
    let outcome = Outcome::IoFailure { reason };
    assert_eq!(outcome.status_line(), "Failed to save file: Permission denied (os error 13)");
    assert_eq!(result, finish(outcome));
}

#[test]
fn empty_language_line_is_unsupported() {
    assert_eq!(step(Stage::AwaitingLanguage, line("")), finish(Outcome::UnsupportedLanguage));
    assert_eq!(step(Stage::AwaitingLanguage, line("\n")), finish(Outcome::UnsupportedLanguage));
}

#[test]
fn empty_confirmation_declines() {
    let stage = Stage::AwaitingConfirmation { language: Language::Zig };
    assert_eq!(step(stage, line("\n")), finish(Outcome::NotSaved));
}

#[test]
fn every_language_is_offered_and_written_with_its_extension() {
    for language in Language::all() {
        let (stage, action) = step(Stage::AwaitingLanguage, line(language.name())).unwrap();
        assert_eq!(stage, Stage::AwaitingConfirmation { language });
        assert_eq!(action, Action::Ask { text: offer(&language.body()) });
        let (_, action) = step(Stage::AwaitingDirectory { language }, line("")).unwrap();
        assert_eq!(
            action,
            Action::Write {
                directory: String::from("."),
                file_name: format!("boilerplate.{}", language.extension()),
                body: language.body(),
            }
        );
    }
}

#[test]
fn events_that_do_not_answer_are_refused() {
    assert_eq!(step(Stage::AwaitingLanguage, Event::Probed(true)), None);
    assert_eq!(step(Stage::AwaitingLanguage, Event::Written(Ok(String::new()))), None);
    let confirmation = Stage::AwaitingConfirmation { language: Language::C };
    assert_eq!(step(confirmation, Event::Probed(true)), None);
    let directory = Stage::AwaitingDirectory { language: Language::C };
    assert_eq!(step(directory, Event::Written(Err(String::new()))), None);
    let probe = Stage::AwaitingProbe { language: Language::C, directory: String::from("d") };
    assert_eq!(step(probe, line("d")), None);
    assert_eq!(step(Stage::AwaitingWrite, Event::Probed(true)), None);
    assert_eq!(step(Stage::AwaitingWrite, line("")), None);
    assert_eq!(step(Stage::Finished, line("rust")), None);
    assert_eq!(step(Stage::Finished, Event::Probed(true)), None);
    assert_eq!(step(Stage::Finished, Event::Written(Ok(String::new()))), None);
}

#[test]
fn unsupported_lines_never_lead_to_a_write() {
    for raw in ["COBOL", "", " ", "rustc", "c+", "py", "Rust!", "\u{441}"] {
        let (stage, action) = step(Stage::AwaitingLanguage, line(raw)).unwrap();
        assert_eq!(action, Action::Finish { outcome: Outcome::UnsupportedLanguage });
        assert_eq!(stage, Stage::Finished);
    }
}
