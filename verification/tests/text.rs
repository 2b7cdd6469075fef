use api_server::config::access_token;
use api_server::error::ApiError;
use api_server::text::{chars_of, contains, equal, trim};

#[test]
fn chars_are_the_characters_in_order() {
    assert_eq!(chars_of(""), Vec::<char>::new());
    assert_eq!(chars_of("aé本"), vec!['a', 'é', '本']);
}

#[test]
fn contains_finds_substrings() {
    assert!(contains("abc", ""));
    assert!(contains("", ""));
    assert!(!contains("", "a"));
    assert!(contains("abc", "a"));
    assert!(contains("abc", "bc"));
    assert!(contains("abc", "abc"));
    assert!(!contains("abc", "abcd"));
    assert!(!contains("abc", "ac"));
    assert!(!contains("abc", "B"));
    assert!(contains("aab", "ab"));
    assert!(contains("日本語のブックマーク", "ブックマーク"));
    assert!(!contains("日本語", "本日"));
}

#[test]
fn equal_compares_character_for_character() {
    assert!(equal("", ""));
    assert!(equal("yes", "yes"));
    assert!(!equal("yes", "Yes"));
    assert!(!equal("yes", "yes "));
    assert!(!equal("yes", "ye"));
    assert!(equal("本", "本"));
}

#[test]
fn trim_cuts_white_space_at_both_ends_only() {
    assert_eq!(trim(""), "");
    assert_eq!(trim("   "), "");
    assert_eq!(trim("a"), "a");
    assert_eq!(trim("  a b  "), "a b");
    assert_eq!(trim("\t\n http://x/y \r\n"), "http://x/y");
    assert_eq!(trim("\u{3000}本 日\u{a0}"), "本 日");
    assert_eq!(trim("x  "), "x");
    assert_eq!(trim("  x"), "x");
}

#[test]
fn trim_agrees_with_the_standard_library() {
    for text in ["", " ", "a", " a", "a ", " a b ", "\u{2003}é\u{2028}", "\u{200b}x\u{200b}"] {
        assert_eq!(trim(text), text.trim());
    }
}

#[test]
fn access_token_must_hold_more_than_white_space() {
    assert_eq!(access_token(None), Err(ApiError::MissingToken));
    assert_eq!(access_token(Some(String::new())), Err(ApiError::MissingToken));
    assert_eq!(access_token(Some(" \t\n".to_string())), Err(ApiError::MissingToken));
    assert_eq!(access_token(Some("tok".to_string())), Ok("tok".to_string()));
    assert_eq!(access_token(Some(" tok ".to_string())), Ok(" tok ".to_string()));
}
