use check_rungrep::matcher::{Matcher, MatcherError};

fn literal(s: &str) -> Matcher {
    match Matcher::literal(s.as_bytes().to_vec()) {
        Ok(m) => m,
        Err(_) => panic!("literal refused"),
    }
}

fn regex(s: &str) -> Matcher {
    match Matcher::regex(s) {
        Ok(m) => m,
        Err(_) => panic!("regex refused"),
    }
}

#[test]
fn literal_counts_non_overlapping_occurrences() {
    assert_eq!(literal("foo").count_matches(b"foo bar foo baz foo"), 3);
    assert_eq!(literal("aa").count_matches(b"aaaa"), 2);
    assert_eq!(literal("aa").count_matches(b"aaa"), 1);
    assert_eq!(literal("hello").count_matches(b"hello\n"), 1);
}

#[test]
fn absent_or_longer_literal_counts_zero() {
    assert_eq!(literal("hello").count_matches(b"hell"), 0);
    assert_eq!(literal("hello").count_matches(b""), 0);
    assert_eq!(literal("xyz").count_matches(b"goodbye world"), 0);
}

#[test]
fn regex_counts_matches() {
    assert_eq!(regex("hel+o").count_matches(b"hello\n"), 1);
    assert_eq!(regex("[0-9]+").count_matches(b"a1 b22 c333"), 3);
    assert_eq!(regex("hel+o").count_matches(b"goodbye"), 0);
}

#[test]
fn empty_literal_is_refused() {
    assert!(matches!(
        Matcher::literal(Vec::new()),
        Err(MatcherError::EmptyPattern)
    ));
}

#[test]
fn invalid_regex_is_refused() {
    assert!(matches!(
        Matcher::regex("(unclosed"),
        Err(MatcherError::InvalidPattern(_))
    ));
}

#[test]
fn regex_keeps_its_source() {
    match regex("hel+o") {
        Matcher::RegExp(p) => assert_eq!(p.source(), "hel+o"),
        Matcher::Literal(_) => panic!("expected a regular expression"),
    }
}
