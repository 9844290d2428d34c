use matchable::{CompiledRegex, Matchable, RegexOnly};

use std::collections::hash_map::DefaultHasher;
use std::hash::{Hash, Hasher};

fn hash_of(m: &Matchable) -> u64 {
    let mut state = DefaultHasher::new();
    m.as_str().hash(&mut state);
    state.finish()
}

#[test]
fn test_matchable_is_match() {
    let matchable = Matchable::Str(String::from("abc"));
    assert!(matchable.is_match("abc"));
    assert!(!matchable.is_match("abd"));

    let matchable = Matchable::Regex(CompiledRegex::compile("\\d+", false, false, false).unwrap());
    assert!(matchable.is_match("123"));
    assert!(!matchable.is_match("abc"));
}

#[test]
fn test_str() {
    let matchable = Matchable::parse("abc").unwrap();
    assert!(matches!(matchable, Matchable::Str(s) if s == "abc"));
}

#[test]
fn test_regex() {
    let matchable = Matchable::parse("/\\d+/").unwrap();
    assert!(matches!(&matchable, Matchable::Regex(regex) if regex.is_match("123")));

    let matchable = Matchable::parse("/[ab]/i").unwrap();
    assert!(matches!(&matchable, Matchable::Regex(regex) if regex.is_match("a")));
    assert!(matches!(&matchable, Matchable::Regex(regex) if regex.is_match("B")));

    let matchable = Matchable::parse("/./s").unwrap();
    assert!(matches!(&matchable, Matchable::Regex(regex) if regex.is_match("a")));
    assert!(matches!(&matchable, Matchable::Regex(regex) if regex.is_match("\n")));

    let error = Matchable::parse("/(/").unwrap_err();
    assert!(error.message().contains("expected a valid regex"));
}

#[test]
fn test_regex_only() {
    let regex = RegexOnly::parse("\\d+").unwrap();
    assert!(regex.is_match("123"));
    assert!(!regex.is_match("abc"));

    let regex = RegexOnly::parse("/[ab]/i").unwrap();
    assert!(regex.is_match("/a/i"));
    assert!(regex.is_match("/b/i"));
    assert!(!regex.is_match("A"));
    assert!(!regex.is_match("B"));

    let error = RegexOnly::parse("(").unwrap_err();
    assert!(error.message().contains("expected a valid regex"));
}

#[test]
fn literal_without_leading_slash_matches_itself_only() {
    let m = Matchable::parse("hello").unwrap();
    assert!(matches!(&m, Matchable::Str(s) if s == "hello"));
    assert!(m.is_match("hello"));
    assert!(!m.is_match("hellox"));
}

#[test]
fn empty_string_is_empty_literal() {
    let m = Matchable::parse("").unwrap();
    assert!(matches!(&m, Matchable::Str(s) if s.is_empty()));
    assert!(m.is_match(""));
    assert!(!m.is_match("x"));
}

#[test]
fn flags_toggle_matching_behavior() {
    let insensitive = Matchable::parse("/ab/i").unwrap();
    assert!(insensitive.is_match("AB"));

    let sensitive = Matchable::parse("/ab/").unwrap();
    assert!(sensitive.is_match("ab"));
    assert!(!sensitive.is_match("AB"));

    let multi = Matchable::parse("/^b$/m").unwrap();
    assert!(multi.is_match("a\nb"));
    let single = Matchable::parse("/^b$/").unwrap();
    assert!(!single.is_match("a\nb"));
}

#[test]
fn unrecognized_flag_characters_are_ignored() {
    let m = Matchable::parse("/ab/xyz").unwrap();
    assert!(matches!(&m, Matchable::Regex(_)));
    assert!(m.is_match("ab"));
    assert!(!m.is_match("AB"));
}

#[test]
fn as_str_returns_original_text() {
    let literal = Matchable::parse("abc").unwrap();
    assert_eq!(literal.as_str(), "abc");

    let pattern = Matchable::parse("/a+/i").unwrap();
    assert_eq!(pattern.as_str(), "a+");
}

#[test]
fn leading_slash_without_closing_slash_is_literal() {
    let m = Matchable::parse("/ab").unwrap();
    assert!(matches!(&m, Matchable::Str(s) if s == "/ab"));
    assert!(m.is_match("/ab"));
    assert!(!m.is_match("ab"));
}

#[test]
fn trailing_flag_suffix_without_leading_slash_is_literal() {
    let m = Matchable::parse("ab/i").unwrap();
    assert!(matches!(&m, Matchable::Str(s) if s == "ab/i"));
    assert!(m.is_match("ab/i"));
    assert!(!m.is_match("AB"));
}

#[test]
fn digits_pattern_matches_digits_only() {
    let m = Matchable::parse("/\\d+/").unwrap();
    assert!(matches!(&m, Matchable::Regex(_)));
    assert!(m.is_match("123"));
    assert!(!m.is_match("abc"));
}

#[test]
fn case_insensitive_class_matches_either_case() {
    let m = Matchable::parse("/[ab]/i").unwrap();
    assert!(matches!(&m, Matchable::Regex(_)));
    assert!(m.is_match("a"));
    assert!(m.is_match("B"));
}

#[test]
fn dot_matches_newline_under_s_flag() {
    let m = Matchable::parse("/./s").unwrap();
    assert!(matches!(&m, Matchable::Regex(_)));
    assert!(m.is_match("\n"));
}

#[test]
fn invalid_pattern_reports_offending_text() {
    let error = Matchable::parse("/(/").unwrap_err();
    assert_eq!(error.pattern(), "(");
    assert!(error.message().contains("valid regex"));

    let error = RegexOnly::parse("[").unwrap_err();
    assert_eq!(error.pattern(), "[");
}

#[test]
fn equality_is_variant_aware() {
    assert_eq!(Matchable::Str("x".to_string()), Matchable::Str("x".to_string()));
    assert_ne!(Matchable::Str("x".to_string()), Matchable::Str("y".to_string()));

    let a = Matchable::parse("/a/").unwrap();
    let b = Matchable::parse("/a/").unwrap();
    assert_eq!(a, b);

    let literal = Matchable::Str("a".to_string());
    assert_ne!(literal, a);
    assert_ne!(a, literal);
}

#[test]
fn pattern_equality_ignores_compiled_object_identity() {
    let a = Matchable::Regex(CompiledRegex::compile("a", false, false, false).unwrap());
    let b = Matchable::Regex(CompiledRegex::compile("a", false, false, false).unwrap());
    assert_eq!(a, b);
}

#[test]
fn equal_values_hash_identically() {
    let a = Matchable::Str("x".to_string());
    let b = Matchable::Str("x".to_string());
    assert_eq!(a, b);
    assert_eq!(hash_of(&a), hash_of(&b));

    let p = Matchable::parse("/a/").unwrap();
    let q = Matchable::parse("/a/").unwrap();
    assert_eq!(p, q);
    assert_eq!(hash_of(&p), hash_of(&q));
}

#[test]
fn default_is_empty_literal() {
    let d = Matchable::default();
    assert!(matches!(&d, Matchable::Str(s) if s.is_empty()));
    assert_eq!(d, Matchable::Str(String::new()));
}

#[test]
fn extract_regex_splits_at_last_slash() {
    assert_eq!(matchable::extract_regex("/a/i"), Some(("a", "i")));
    assert_eq!(matchable::extract_regex("/a/b/c/i"), Some(("a/b/c", "i")));
    assert_eq!(matchable::extract_regex("//"), Some(("", "")));
    assert_eq!(matchable::extract_regex("ab"), None);
    assert_eq!(matchable::extract_regex("/ab"), None);
    assert_eq!(matchable::extract_regex(""), None);
}

#[test]
fn regex_only_compiles_whole_input_verbatim() {
    let r = RegexOnly::parse("a+").unwrap();
    assert_eq!(r.as_str(), "a+");
    assert!(r.is_match("baac"));
    assert!(!r.is_match("bc"));
}

#[test]
fn build_regex_reads_flags_from_suffix() {
    let re = matchable::build_regex("ab", "i").unwrap();
    assert!(re.is_match("AB"));

    let re = matchable::build_regex("ab", "zz").unwrap();
    assert!(!re.is_match("AB"));
    assert!(re.is_match("ab"));

    assert!(matchable::build_regex("(", "").is_none());
}
