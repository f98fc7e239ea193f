use boilrs::save::candidate_directory;
use boilrs::text::{normalize, same_text, to_lowercase};

#[test]
fn normalize_trims_and_lowercases() {
    assert_eq!(normalize(" Rust \n"), "rust");
    assert_eq!(normalize(" Rust \n"), normalize("rust"));
}

#[test]
fn normalize_strips_either_line_terminator() {
    assert_eq!(normalize("python\n"), "python");
    assert_eq!(normalize("python\r\n"), "python");
    assert_eq!(normalize("python"), "python");
}

#[test]
fn normalize_of_blank_line_is_empty() {
    assert_eq!(normalize(""), "");
    assert_eq!(normalize("\n"), "");
    assert_eq!(normalize(" \t \r\n"), "");
}

#[test]
fn normalize_keeps_inner_white_space() {
    assert_eq!(normalize("  Objective  C \n"), "objective  c");
}

#[test]
fn normalize_keeps_signs() {
    assert_eq!(normalize("C++\n"), "c++");
    assert_eq!(normalize(" C# "), "c#");
}

#[test]
fn normalize_is_idempotent_on_samples() {
    let samples = vec![
        "",
        " Rust \n",
        "C++",
        "\tJavaScript\r\n",
        "YES",
        "  a b  ",
        "\u{c9}COLE",
        "\u{212a}otlin",
        "\u{3a3}\u{391}\u{3a3} ",
        "\u{130}stanbul",
        "\u{3000}Go\u{a0}",
    ];
    for s in samples {
        let once = normalize(s);
        let twice = normalize(&once);
        assert_eq!(twice, once);
    }
}

#[test]
fn normalize_trims_unicode_white_space() {
    assert_eq!(normalize("\u{3000}go\u{a0}"), "go");
    assert_eq!(normalize("\u{2003}zig\u{85}"), "zig");
    assert_eq!(normalize("\u{200b}zig"), "\u{200b}zig");
}

#[test]
fn normalize_folds_text_beyond_ascii() {
    assert_eq!(normalize("\u{c9}COLE\n"), "\u{e9}cole");
    assert_eq!(normalize("\u{212a}OTLIN"), "kotlin");
}

#[test]
fn normalize_agrees_with_trim_and_lowercase_of_std() {
    let mut samples: Vec<String> = Vec::new();
    for code in 0u8..128 {
        let c = code as char;
        samples.push(format!("x{}x", c));
        samples.push(format!("{}x{}", c, c));
        samples.push(format!("{}", c));
    }
    samples.push(String::from("  MiXeD Case\t\n"));
    samples.push(String::from("\u{3a3}\u{399}\u{3a3}\u{3a5}\u{3a6}\u{39f}\u{3a3} "));
    samples.push(String::from(" \u{130}\u{49}\u{131} "));
    for s in samples {
        assert_eq!(normalize(&s), s.trim().to_lowercase());
    }
}

#[test]
fn to_lowercase_leaves_the_ends_alone() {
    assert_eq!(to_lowercase(" Rust \n"), " rust \n");
    assert_eq!(to_lowercase("ABC xyz 123 []^_`{}"), "abc xyz 123 []^_`{}");
    assert_eq!(to_lowercase("@AZ[`az{"), "@az[`az{");
}

#[test]
fn same_text_compares_characters() {
    assert!(same_text("", ""));
    assert!(same_text("rust", "rust"));
    assert!(!same_text("rust", "ruby"));
    assert!(!same_text("rust", "rus"));
    assert!(!same_text("rus", "rust"));
    assert!(!same_text("c", "C"));
    assert!(same_text("\u{e9}cole", "\u{e9}cole"));
    assert!(!same_text("\u{e9}", "e\u{301}"));
}

fn is_white_space(c: char) -> bool {
    matches!(
        c as u32,
        0x09..=0x0d
            | 0x20
            | 0x85
            | 0xa0
            | 0x1680
            | 0x2000..=0x200a
            | 0x2028
            | 0x2029
            | 0x202f
            | 0x205f
            | 0x3000
    )
}

#[test]
fn trimming_takes_exactly_the_white_space_characters() {
    for code in 0u32..=0x10ffff {
        if let Some(c) = char::from_u32(code) {
            let line = format!("{}x{}", c, c);
            let trimmed = candidate_directory(&line);
            assert_eq!(trimmed == "x", is_white_space(c), "U+{:04X}", code);
            assert_eq!(trimmed == line, !is_white_space(c), "U+{:04X}", code);
        }
    }
}

#[test]
fn lowercase_of_one_character_is_stable() {
    for code in 0u32..=0x10ffff {
        if let Some(c) = char::from_u32(code) {
            let once = normalize(&format!("{}", c));
            assert_eq!(normalize(&once), once, "U+{:04X}", code);
        }
    }
}
