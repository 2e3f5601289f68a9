use rsvp_reader::words::{has_content, parse_words};

#[test]
fn tokenizing_splits_on_runs_of_whitespace_in_order() {
    let toks = parse_words("hello   world\nfoo");
    assert_eq!(toks, vec!["hello".to_string(), "world".to_string(), "foo".to_string()]);
}

#[test]
fn tokenizing_whitespace_and_punctuation_only_yields_nothing() {
    assert!(parse_words("  \t\n  ").is_empty());
    assert!(parse_words("--- ... !!! ,,,").is_empty());
    assert!(parse_words("").is_empty());
}

#[test]
fn tokens_without_an_alphanumeric_character_are_dropped() {
    let toks = parse_words("x --- y");
    assert_eq!(toks, vec!["x".to_string(), "y".to_string()]);
}

#[test]
fn punctuation_attached_to_a_word_is_kept_with_it() {
    let toks = parse_words("Wait... really?!");
    assert_eq!(toks, vec!["Wait...".to_string(), "really?!".to_string()]);
}

#[test]
fn tokenizing_handles_tabs_carriage_returns_and_unicode_words() {
    let toks = parse_words("\tun\r\ndeux\u{a0}trois");
    // no-break space is Unicode whitespace, so it separates words too
    assert_eq!(toks, vec!["un".to_string(), "deux".to_string(), "trois".to_string()]);
}

#[test]
fn digits_count_as_word_characters() {
    let toks = parse_words("42 +- 7a");
    assert_eq!(toks, vec!["42".to_string(), "7a".to_string()]);
}

#[test]
fn content_check_sees_through_whitespace() {
    assert!(!has_content(""));
    assert!(!has_content("  \t\n\r  "));
    assert!(has_content("  x  "));
    assert!(has_content("..."));
}
