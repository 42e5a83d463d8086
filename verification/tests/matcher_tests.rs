use line_matcher::ExtendedRegexMatcher;
use line_matcher::FixedStringsMatcher;
use line_matcher::Matcher;
use line_matcher::MatcherError;
use line_matcher::MatcherTrait;

#[test]
fn test_extended_regex_matcher() {
    let matcher = Matcher::new("Z".to_string(), false).unwrap();
    assert_eq!(false, matcher.execute("abcdefg"));
    let matcher = Matcher::new("a+.b+".to_string(), false).unwrap();
    assert_eq!(true, matcher.execute("aaa bbb"));
}

#[test]
fn test_match_fix_string() {
    let matcher = Matcher::new("fg".to_string(), true).unwrap();
    assert_eq!(true, matcher.execute("abcdefg"));
    let matcher = Matcher::new("Z".to_string(), true).unwrap();
    assert_eq!(false, matcher.execute("abcdefg"));
    let matcher = Matcher::new("a+.b+".to_string(), true).unwrap();
    assert_eq!(false, matcher.execute("aaa bbb"));
}

#[test]
fn fixed_strings_agrees_with_native_containment() {
    let cases = [
        ("bc", "abcd", true),
        ("abcd", "abcd", true),
        ("abcde", "abcd", false),
        ("ca", "abcd", false),
        ("d", "abcd", true),
        ("a", "", false),
        ("aba", "ababa", true),
    ];
    for (pattern, line, expected) in cases {
        let matcher = FixedStringsMatcher::new(pattern.to_string());
        assert_eq!(expected, matcher.execute(line));
        assert_eq!(line.contains(pattern), matcher.execute(line));
    }
}

#[test]
fn fixed_strings_handles_multibyte_characters() {
    let matcher = FixedStringsMatcher::new("é".to_string());
    assert_eq!(true, matcher.execute("café"));
    assert_eq!(false, matcher.execute("cafe"));
}

#[test]
fn empty_pattern_matches_every_line() {
    let matcher = Matcher::new("".to_string(), true).unwrap();
    assert_eq!(true, matcher.execute(""));
    assert_eq!(true, matcher.execute("abcdefg"));
}

#[test]
fn extended_regex_searches_unanchored() {
    let matcher = ExtendedRegexMatcher::new("b+".to_string()).unwrap();
    assert_eq!(true, matcher.execute("aaabbbccc"));
    let matcher = ExtendedRegexMatcher::new("^a+$".to_string()).unwrap();
    assert_eq!(true, matcher.execute("aaa"));
    assert_eq!(false, matcher.execute("aab"));
    let matcher = ExtendedRegexMatcher::new("[0-9]{3}".to_string()).unwrap();
    assert_eq!(true, matcher.execute("id 123 ok"));
    assert_eq!(false, matcher.execute("id 12 ok"));
}

#[test]
fn invalid_pattern_is_rejected_at_construction() {
    match ExtendedRegexMatcher::new("foo(bar".to_string()) {
        Ok(_) => panic!("an unclosed group must not compile"),
        Err(err) => assert!(matches!(err, MatcherError::InvalidPattern)),
    }
    match Matcher::new("[a-".to_string(), false) {
        Ok(_) => panic!("an unclosed class must not compile"),
        Err(err) => assert!(matches!(err, MatcherError::InvalidPattern)),
    }
}

#[test]
fn invalid_regex_text_is_a_valid_fixed_string() {
    let matcher = Matcher::new("foo(bar".to_string(), true).unwrap();
    assert_eq!(true, matcher.execute("a foo(bar b"));
    assert_eq!(false, matcher.execute("foobar"));
}

#[test]
fn repeated_evaluation_is_idempotent() {
    let regex_matcher = Matcher::new("a+.b+".to_string(), false).unwrap();
    let fixed_matcher = Matcher::new("fg".to_string(), true).unwrap();
    for _ in 0..3 {
        assert_eq!(true, regex_matcher.execute("aaa bbb"));
        assert_eq!(false, regex_matcher.execute("abcdefg"));
        assert_eq!(true, fixed_matcher.execute("abcdefg"));
    }
}

#[test]
fn trait_execute_agrees_with_enum_execute() {
    let fixed = FixedStringsMatcher::new("de".to_string());
    assert_eq!(true, MatcherTrait::execute(&fixed, "abcdefg"));
    let regex_matcher = ExtendedRegexMatcher::new("d.f".to_string()).unwrap();
    assert_eq!(true, MatcherTrait::execute(&regex_matcher, "abcdefg"));
    assert_eq!(false, MatcherTrait::execute(&regex_matcher, "abc"));
}
