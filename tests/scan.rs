use hypr_settings::scan::{contains_text, remove_all, split_lines, split_on, split_words, starts_with, trim};

#[test]
fn lines_match_std() {
    for s in ["", "a", "a\n", "a\nb", "a\r\nb\r\n", "\n", "\n\n", "a\r", "x\r\ry\n"] {
        let expected: Vec<String> = s.lines().map(|l| l.to_string()).collect();
        assert_eq!(split_lines(s), expected, "{:?}", s);
    }
}

#[test]
fn split_matches_std() {
    for s in ["", ":", "a:b", "a::b:", "wlan0:wifi"] {
        let expected: Vec<String> = s.split(':').map(|l| l.to_string()).collect();
        assert_eq!(split_on(s, ':'), expected, "{:?}", s);
    }
}

#[test]
fn trim_and_words_match_std() {
    for s in ["", "  ", " a b  ", "\u{3000}x\u{a0}", "a\tb\nc", "\u{2003}y "] {
        assert_eq!(trim(s), s.trim(), "{:?}", s);
        let expected: Vec<String> = s.split_whitespace().map(|l| l.to_string()).collect();
        assert_eq!(split_words(s), expected, "{:?}", s);
    }
}

#[test]
fn prefixes_and_substrings() {
    assert!(starts_with("Name : x", "Name"));
    assert!(!starts_with("Na", "Name"));
    assert!(starts_with("abc", ""));
    assert!(contains_text("x [installed]", "[installed]"));
    assert!(!contains_text("x [install", "[installed]"));
    assert!(contains_text("", ""));
}

#[test]
fn remove_all_matches_std_replace() {
    for (s, t) in [("aXbXc", "X"), ("abab", "ab"), ("aaa", "aa"), ("", "x"), ("Name: a Name:", "Name:")] {
        assert_eq!(remove_all(s, t), s.replace(t, ""), "{:?} {:?}", s, t);
    }
}
