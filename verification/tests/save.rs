use boilrs::save::{
    candidate_directory, confirms_save, file_name, resolve_directory, InvalidDirectory,
};

#[test]
fn confirms_save_takes_yes_and_y_in_any_case() {
    for answer in ["yes", "y", "YES", "Y", "Yes", "yEs", "yeS", " y \n", "\tYES\r\n"] {
        assert!(confirms_save(answer), "{:?}", answer);
    }
}

#[test]
fn confirms_save_declines_everything_else() {
    for answer in [
        "", "\n", "   ", "no", "n", "N", "NO", "yess", "ye", "yes please", "y e s", "yy", "ok",
        "true", "1", "\u{212a}",
    ] {
        assert!(!confirms_save(answer), "{:?}", answer);
    }
}

#[test]
fn candidate_directory_is_the_trimmed_line() {
    assert_eq!(candidate_directory("\n"), "");
    assert_eq!(candidate_directory(""), "");
    assert_eq!(candidate_directory("  \t\r\n"), "");
    assert_eq!(candidate_directory(" /tmp/Out Put \n"), "/tmp/Out Put");
    assert_eq!(candidate_directory("./Src\r\n"), "./Src");
}

#[test]
fn resolve_directory_of_empty_line_is_current_directory() {
    assert_eq!(resolve_directory("", false), Ok(String::from(".")));
    assert_eq!(resolve_directory("", true), Ok(String::from(".")));
}

#[test]
fn resolve_directory_keeps_an_existing_directory() {
    assert_eq!(resolve_directory("/tmp", true), Ok(String::from("/tmp")));
    assert_eq!(resolve_directory("out dir", true), Ok(String::from("out dir")));
}

#[test]
fn resolve_directory_rejects_what_is_no_directory() {
    assert_eq!(resolve_directory("/path/does/not/exist", false), Err(InvalidDirectory));
    assert_eq!(resolve_directory("Cargo.toml", false), Err(InvalidDirectory));
    assert_eq!(resolve_directory(".", false), Err(InvalidDirectory));
}

#[test]
fn file_name_is_boilerplate_dot_extension() {
    assert_eq!(file_name("py"), "boilerplate.py");
    assert_eq!(file_name("cpp"), "boilerplate.cpp");
    assert_eq!(file_name("txt"), "boilerplate.txt");
    assert_eq!(file_name(""), "boilerplate.");
}
