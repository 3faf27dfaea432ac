use hypr_settings::font::{parse_font_string, parse_i32};

#[test]
fn font_name_and_size() {
    assert_eq!(parse_font_string("Cantarell 11"), ("Cantarell".to_string(), 11));
    assert_eq!(parse_font_string("Noto Sans Bold 14"), ("Noto Sans Bold".to_string(), 14));
}

#[test]
fn font_without_space_keeps_default_size() {
    assert_eq!(parse_font_string("Monospace"), ("Monospace".to_string(), 11));
    assert_eq!(parse_font_string(""), ("".to_string(), 11));
}

#[test]
fn font_with_unreadable_size_keeps_default_size() {
    assert_eq!(parse_font_string("Noto Sans"), ("Noto".to_string(), 11));
    assert_eq!(parse_font_string("Font "), ("Font".to_string(), 11));
    assert_eq!(parse_font_string("Font 99999999999"), ("Font".to_string(), 11));
}

#[test]
fn integers_read_like_std() {
    for s in ["0", "+5", "-5", "2147483647", "-2147483648", "007", "", "-", "+", "12a", "2147483648", "-2147483649", " 1", "99999999999999999999"] {
        assert_eq!(parse_i32(s), s.parse::<i32>().ok(), "{}", s);
    }
}
