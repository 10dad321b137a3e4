use ctf_chal_creator::config::{
    assemble, is_same_word, is_valid_directory, is_valid_label, parse_chal_type, ChalConfig,
    ChalType, ValidationError,
};

#[test]
fn assemble_keeps_every_value() {
    let got = assemble("chal1", "canopus", "Web", Some("/tmp"), true, false);
    let want = ChalConfig {
        name: "chal1".to_string(),
        author: "canopus".to_string(),
        directory: "/tmp".to_string(),
        chal_type: ChalType::Web,
        docker: true,
        verbose: false,
    };
    assert_eq!(got, Ok(want));
}

#[test]
fn assemble_defaults_to_the_current_directory() {
    let got = assemble("chal1", "canopus", "pwn", None, false, true).unwrap();
    assert_eq!(got.directory, ".");
    assert_eq!(got.chal_type, ChalType::Pwn);
    assert!(!got.docker);
    assert!(got.verbose);
}

#[test]
fn assemble_rejects_an_empty_name() {
    assert_eq!(assemble("", "canopus", "web", Some("/tmp"), false, false), Err(ValidationError::Name));
}

#[test]
fn assemble_rejects_a_name_with_a_separator() {
    assert_eq!(
        assemble("a/b", "canopus", "web", Some("/tmp"), false, false),
        Err(ValidationError::Name)
    );
    assert_eq!(
        assemble("a\\b", "canopus", "web", Some("/tmp"), false, false),
        Err(ValidationError::Name)
    );
}

#[test]
fn assemble_rejects_a_bad_author() {
    assert_eq!(assemble("chal1", "", "web", Some("/tmp"), false, false), Err(ValidationError::Author));
    assert_eq!(
        assemble("chal1", "can/opus", "web", Some("/tmp"), false, false),
        Err(ValidationError::Author)
    );
}

#[test]
fn assemble_rejects_an_unknown_category() {
    assert_eq!(
        assemble("chal1", "canopus", "kernel", Some("/tmp"), true, true),
        Err(ValidationError::Category)
    );
    assert_eq!(
        assemble("chal1", "canopus", "", Some("/tmp"), true, true),
        Err(ValidationError::Category)
    );
}

#[test]
fn assemble_rejects_a_bad_directory() {
    assert_eq!(
        assemble("chal1", "canopus", "web", Some(""), false, false),
        Err(ValidationError::Directory)
    );
    assert_eq!(
        assemble("chal1", "canopus", "web", Some("/tmp/\0x"), false, false),
        Err(ValidationError::Directory)
    );
}

#[test]
fn assemble_reports_the_first_offending_field() {
    assert_eq!(assemble("", "", "nope", Some(""), false, false), Err(ValidationError::Name));
    assert_eq!(assemble("ok", "", "nope", Some(""), false, false), Err(ValidationError::Author));
    assert_eq!(assemble("ok", "ok", "nope", Some(""), false, false), Err(ValidationError::Category));
}

#[test]
fn every_category_is_read_in_any_case() {
    assert_eq!(parse_chal_type("pwn"), Some(ChalType::Pwn));
    assert_eq!(parse_chal_type("PWN"), Some(ChalType::Pwn));
    assert_eq!(parse_chal_type("Reversing"), Some(ChalType::Reversing));
    assert_eq!(parse_chal_type("cRyPtO"), Some(ChalType::Crypto));
    assert_eq!(parse_chal_type("Web"), Some(ChalType::Web));
    assert_eq!(parse_chal_type("MISC"), Some(ChalType::Misc));
    assert_eq!(parse_chal_type("forensics"), Some(ChalType::Forensics));
    assert_eq!(parse_chal_type("Stego"), Some(ChalType::Stego));
}

#[test]
fn near_misses_are_no_category() {
    assert_eq!(parse_chal_type("reverse"), None);
    assert_eq!(parse_chal_type("pwn "), None);
    assert_eq!(parse_chal_type("pw"), None);
    assert_eq!(parse_chal_type("w\u{0435}b"), None);
}

#[test]
fn words_compare_without_ascii_case() {
    assert!(is_same_word("Stego", "sTEGO"));
    assert!(is_same_word("", ""));
    assert!(!is_same_word("web", "wed"));
    assert!(!is_same_word("web", "webs"));
    assert!(!is_same_word("[", "{"));
    assert!(!is_same_word("@", "`"));
    assert!(!is_same_word("\u{c9}", "\u{e9}"));
}

#[test]
fn labels_and_directories() {
    assert!(is_valid_label("chal1"));
    assert!(is_valid_label("with space"));
    assert!(!is_valid_label(""));
    assert!(!is_valid_label("/"));
    assert!(!is_valid_label("tail/"));
    assert!(is_valid_directory("/tmp"));
    assert!(is_valid_directory("."));
    assert!(is_valid_directory("a/b\\c"));
    assert!(!is_valid_directory(""));
    assert!(!is_valid_directory("\0"));
}

#[test]
fn every_canonical_name_reads_back() {
    let all = [
        ChalType::Pwn,
        ChalType::Reversing,
        ChalType::Crypto,
        ChalType::Web,
        ChalType::Misc,
        ChalType::Forensics,
        ChalType::Stego,
    ];
    for t in all {
        assert_eq!(parse_chal_type(t.name()), Some(t));
        assert_eq!(parse_chal_type(&t.name().to_uppercase()), Some(t));
    }
    assert_eq!(ChalType::Reversing.name(), "Reversing");
}
