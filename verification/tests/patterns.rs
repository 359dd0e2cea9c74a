use ffind::error::PatternError;
use ffind::filter::{passes_name, passes_path};
use ffind::glob::build_glob_set;
use ffind::regex::build_regex_set;

fn texts(patterns: &[&str]) -> Vec<String> {
    patterns.iter().map(|p| p.to_string()).collect()
}

#[test]
fn glob_set_matches_any_of_its_patterns() {
    let patterns = texts(&["*.txt", "*.log"]);
    let set = Some(build_glob_set(Some(&patterns), false).unwrap());
    assert!(passes_name(b"x.txt", &set));
    assert!(passes_name(b"y.log", &set));
    assert!(!passes_name(b"z.rs", &set));
    assert!(!passes_name(b"txt", &set));
}

#[test]
fn glob_set_is_case_sensitive_by_default() {
    let patterns = texts(&["*.TXT"]);
    let set = Some(build_glob_set(Some(&patterns), false).unwrap());
    assert!(passes_name(b"a.TXT", &set));
    assert!(!passes_name(b"a.txt", &set));
}

#[test]
fn case_insensitive_glob_matches_lower_case_name() {
    let patterns = texts(&["*.TXT"]);
    let set = Some(build_glob_set(Some(&patterns), true).unwrap());
    assert!(passes_name(b"a.txt", &set));
    assert!(passes_name(b"a.TxT", &set));
    assert!(!passes_name(b"a.tx", &set));
}

#[test]
fn absent_name_matcher_passes_everything() {
    assert!(passes_name(b"anything", &None));
    assert!(passes_name(b"", &None));
}

#[test]
fn empty_glob_set_matches_nothing() {
    let none = Some(build_glob_set(None, false).unwrap());
    assert!(!passes_name(b"x.txt", &none));
    let empty: Vec<String> = Vec::new();
    let set = Some(build_glob_set(Some(&empty), false).unwrap());
    assert!(!passes_name(b"x.txt", &set));
}

#[test]
fn glob_takes_names_that_are_no_text() {
    let patterns = texts(&["*.bin"]);
    let set = Some(build_glob_set(Some(&patterns), false).unwrap());
    assert!(passes_name(&[0xff, 0xfe, b'.', b'b', b'i', b'n'], &set));
    assert!(!passes_name(&[0xff, 0xfe, b'.', b'b', b'i'], &set));
}

#[test]
fn malformed_glob_fails_with_its_index() {
    let patterns = texts(&["*.txt", "[a", "{b"]);
    match build_glob_set(Some(&patterns), false) {
        Err(PatternError::Glob { index, detail }) => {
            assert_eq!(index, 1);
            assert!(!detail.is_empty());
        }
        other => panic!("unexpected result: {:?}", other.map(|_| ())),
    }
    let patterns = texts(&["{b"]);
    match build_glob_set(Some(&patterns), true) {
        Err(PatternError::Glob { index, .. }) => assert_eq!(index, 0),
        other => panic!("unexpected result: {:?}", other.map(|_| ())),
    }
}

#[test]
fn pattern_error_names_what_was_being_done() {
    let patterns = texts(&["[a"]);
    let error = build_glob_set(Some(&patterns), false).unwrap_err();
    assert_eq!(error.context(), "Unable to parse and build glob pattern");
    assert!(error.detail().contains("[a"));
    let patterns = texts(&["("]);
    let error = build_regex_set(Some(&patterns), false).unwrap_err();
    assert_eq!(error.context(), "Unable to build regular expression set");
    assert!(!error.detail().is_empty());
    let error = PatternError::GlobSet { detail: "too big".to_string() };
    assert_eq!(error.context(), "Unable to build globbing set");
    assert_eq!(error.detail(), "too big");
}

#[test]
fn regex_set_matches_any_of_its_patterns() {
    let patterns = texts(&[r"\.txt$", r"^/var/"]);
    let set = Some(build_regex_set(Some(&patterns), false).unwrap());
    assert!(passes_path(b"/root/x.txt", &set));
    assert!(passes_path(b"/var/log/y", &set));
    assert!(!passes_path(b"/root/y.log", &set));
}

#[test]
fn regex_set_sees_the_full_path() {
    let patterns = texts(&["^/root/sub/"]);
    let set = Some(build_regex_set(Some(&patterns), false).unwrap());
    assert!(passes_path(b"/root/sub/x", &set));
    assert!(!passes_path(b"/other/root/sub/x", &set));
}

#[test]
fn regex_set_follows_the_case_setting() {
    let patterns = texts(&[r"\.TXT$"]);
    let exact = Some(build_regex_set(Some(&patterns), false).unwrap());
    assert!(!passes_path(b"/root/a.txt", &exact));
    assert!(passes_path(b"/root/a.TXT", &exact));
    let loose = Some(build_regex_set(Some(&patterns), true).unwrap());
    assert!(passes_path(b"/root/a.txt", &loose));
}

#[test]
fn regex_takes_paths_that_are_no_text() {
    let patterns = texts(&[r"^/data/", r"\.bin$"]);
    let set = Some(build_regex_set(Some(&patterns), false).unwrap());
    assert!(passes_path(&[b'/', b'd', b'a', b't', b'a', b'/', 0xff, b'.', b'b', b'i', b'n'], &set));
    assert!(passes_path(&[b'/', 0xff, b'.', b'b', b'i', b'n'], &set));
    assert!(!passes_path(&[b'/', 0xff, b'.', b'b', b'i'], &set));
}

#[test]
fn absent_path_matcher_passes_everything() {
    assert!(passes_path(b"/anything", &None));
}

#[test]
fn empty_regex_set_matches_nothing() {
    let set = Some(build_regex_set(None, false).unwrap());
    assert!(!passes_path(b"/root/x.txt", &set));
}

#[test]
fn malformed_regex_fails() {
    let patterns = texts(&["ok", "(unclosed"]);
    match build_regex_set(Some(&patterns), false) {
        Err(PatternError::RegexSet { detail }) => assert!(!detail.is_empty()),
        other => panic!("unexpected result: {:?}", other.map(|_| ())),
    }
}

#[test]
fn oversized_glob_set_fails_after_every_glob_parsed() {
    let patterns: Vec<String> =
        (0..64).map(|n| format!("a{}[b-y]{}z", n, "?[!c]".repeat(2000))).collect();
    match build_glob_set(Some(&patterns), false) {
        Err(PatternError::GlobSet { detail }) => assert!(!detail.is_empty()),
        other => panic!("unexpected result: {:?}", other.map(|_| ())),
    }
}
