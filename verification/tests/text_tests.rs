use simple_chess::text::{contains_str, split_lines, split_words, starts_with, string_of};

#[test]
fn words_split_on_any_white_space() {
    assert_eq!(split_words("  1. e4\te5\n2.\u{3000}Nf3 "), vec!["1.", "e4", "e5", "2.", "Nf3"]);
    assert!(split_words("").is_empty());
    assert!(split_words(" \t ").is_empty());
}

#[test]
fn lines_follow_str_lines() {
    let cs: Vec<char> = "a\r\nb\n\nc\r".chars().collect();
    let ls: Vec<String> = split_lines(&cs).iter().map(|l| string_of(l)).collect();
    assert_eq!(ls, vec!["a", "b", "", "c\r"]);
    let cs: Vec<char> = "x\n".chars().collect();
    assert_eq!(split_lines(&cs).len(), 1);
}

#[test]
fn prefixes_and_substrings() {
    assert!(starts_with("Queen's Gambit Declined", "Queen's Gambit"));
    assert!(!starts_with("Zukertort Opening: Queen's Gambit Invitation", "Queen's Gambit"));
    assert!(starts_with("abc", ""));
    assert!(!starts_with("ab", "abc"));
    assert!(contains_str("sicilian defense", "ian d"));
    assert!(contains_str("abc", ""));
    assert!(!contains_str("abc", "abcd"));
    assert!(!contains_str("abc", "ac"));
}
