use codeattrib::{annotate, is_selected, select, select_file, Language, Skip, SourceInfo};

fn sample() -> SourceInfo {
    SourceInfo {
        project_name: "Test Project".to_string(),
        project_url: "https://testproject.com".to_string(),
        authors: vec!["Test Author".to_string()],
        license: "Apache-2.0".to_string(),
    }
}

#[test]
fn annotated_python_file_holds_header_then_content() {
    let language = detect("a.py");
    assert_eq!(language, Language::Python);
    assert_eq!(
        annotate(&language, &sample(), "print(1)"),
        "# Copied from Test Project (https://testproject.com)\n# Original authors: Test Author\n# License: Apache-2.0\n\nprint(1)"
    );
}

fn detect(path: &str) -> Language {
    match select_file(path, &[Language::All]) {
        Ok(language) => language,
        Err(skip) => panic!("{:?} was skipped: {:?}", path, skip),
    }
}

#[test]
fn annotation_keeps_the_content_as_it_was() {
    let content = "\n\n  fn main() {}\r\n\t// end\n";
    let annotated = annotate(&Language::Rust, &sample(), content);
    assert_eq!(
        annotated,
        "// Copied from Test Project (https://testproject.com)\n// Original authors: Test Author\n// License: Apache-2.0\n\n\n\n  fn main() {}\r\n\t// end\n"
    );
    assert!(annotated.ends_with(content));
}

#[test]
fn annotation_of_an_empty_file_is_the_header() {
    assert_eq!(
        annotate(&Language::Java, &sample(), ""),
        "/* Copied from Test Project (https://testproject.com)\n * Original authors: Test Author\n * License: Apache-2.0 */\n\n"
    );
}

#[test]
fn annotation_with_the_wildcard_changes_nothing() {
    assert_eq!(annotate(&Language::All, &sample(), "print(1)"), "print(1)");
}

#[test]
fn annotating_twice_stacks_two_headers() {
    let once = annotate(&Language::Python, &sample(), "print(1)");
    let twice = annotate(&Language::Python, &sample(), &once);
    assert_eq!(
        twice,
        "# Copied from Test Project (https://testproject.com)\n# Original authors: Test Author\n# License: Apache-2.0\n\n# Copied from Test Project (https://testproject.com)\n# Original authors: Test Author\n# License: Apache-2.0\n\nprint(1)"
    );
}

#[test]
fn text_file_is_skipped_as_undetected() {
    assert_eq!(
        select_file("notes.txt", &[Language::All]),
        Err(Skip::UndetectedLanguage)
    );
    assert_eq!(
        select_file("notes.txt", &[Language::Python, Language::Rust, Language::Java]),
        Err(Skip::UndetectedLanguage)
    );
    assert_eq!(select_file("notes.txt", &[]), Err(Skip::UndetectedLanguage));
}

#[test]
fn rust_filter_selects_only_the_rust_file() {
    let filters = [Language::Rust];
    assert_eq!(select_file("dir/a.py", &filters), Err(Skip::FilteredOut));
    assert_eq!(select_file("dir/b.rs", &filters), Ok(Language::Rust));
}

#[test]
fn wildcard_selects_every_detected_language() {
    let filters = [Language::All];
    assert_eq!(select_file("a.py", &filters), Ok(Language::Python));
    assert_eq!(select_file("a.rs", &filters), Ok(Language::Rust));
    assert_eq!(select_file("a.java", &filters), Ok(Language::Java));
    let mixed = [Language::Java, Language::All];
    assert_eq!(select_file("a.py", &mixed), Ok(Language::Python));
}

#[test]
fn empty_filter_selects_nothing() {
    assert_eq!(select_file("a.py", &[]), Err(Skip::FilteredOut));
    assert_eq!(select(Some(Language::Java), &[]), Err(Skip::FilteredOut));
    assert!(!is_selected(&[], Language::Rust));
}

#[test]
fn select_follows_detection_and_filter() {
    let filters = [Language::Python, Language::Java];
    assert_eq!(select(None, &filters), Err(Skip::UndetectedLanguage));
    assert_eq!(select(Some(Language::Python), &filters), Ok(Language::Python));
    assert_eq!(select(Some(Language::Java), &filters), Ok(Language::Java));
    assert_eq!(select(Some(Language::Rust), &filters), Err(Skip::FilteredOut));
    assert_eq!(select(None, &[Language::All]), Err(Skip::UndetectedLanguage));
}

#[test]
fn is_selected_by_name_or_by_wildcard() {
    assert!(is_selected(&[Language::Rust], Language::Rust));
    assert!(!is_selected(&[Language::Rust], Language::Python));
    assert!(is_selected(&[Language::Python, Language::Rust], Language::Rust));
    assert!(is_selected(&[Language::All], Language::Java));
    assert!(is_selected(&[Language::Python, Language::All], Language::Java));
    assert!(is_selected(&[Language::All], Language::All));
    assert!(!is_selected(&[Language::Python], Language::All));
}
