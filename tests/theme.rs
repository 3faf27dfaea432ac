use hypr_settings::fonts::{available_fonts, fallback_fonts, keep_family, prioritize_families};
use hypr_settings::ordering::{dedup_text_list, sort_texts};
use hypr_settings::theme::{
    font_setting, gtk_theme_list, icon_theme_list, scheme_preference, setting_value, system_theme,
    theme_change, theme_name, ThemeChange,
};

#[test]
fn setting_values_lose_their_quotes() {
    assert_eq!(setting_value("'Adwaita-dark'\n"), "Adwaita-dark");
    assert_eq!(setting_value("  uint32 5 "), "uint32 5");
    assert_eq!(setting_value("''"), "");
    assert_eq!(setting_value("'"), "'");
}

#[test]
fn theme_names_lose_all_edge_quotes() {
    assert_eq!(theme_name("''Breeze'\n"), "Breeze");
    assert_eq!(theme_name("'''"), "");
}

#[test]
fn scheme_preferences() {
    assert_eq!(scheme_preference("prefer-dark").as_deref(), Some("prefer-dark"));
    assert_eq!(scheme_preference("something-dark").as_deref(), Some("prefer-dark"));
    assert_eq!(scheme_preference("prefer-light").as_deref(), Some("prefer-light"));
    assert_eq!(scheme_preference("default"), None);
}

#[test]
fn system_theme_falls_back() {
    assert_eq!(system_theme(Some("prefer-dark"), Some("'Adwaita'")), "prefer-dark");
    assert_eq!(system_theme(Some("default"), Some("'Adwaita'\n")), "Adwaita");
    assert_eq!(system_theme(None, Some("'Breeze'")), "Breeze");
    assert_eq!(system_theme(Some("default"), None), "dark");
}

#[test]
fn monitor_lines_classified() {
    assert_eq!(theme_change("color-scheme: 'prefer-dark'"), Some(ThemeChange::ColorScheme));
    assert_eq!(theme_change("gtk-theme: 'Adwaita'"), Some(ThemeChange::GtkTheme));
    assert_eq!(theme_change("font-name: 'Cantarell 11'"), None);
}

#[test]
fn font_setting_joins_name_and_size() {
    assert_eq!(font_setting("Cantarell", 11), "Cantarell 11");
    assert_eq!(font_setting("Noto Sans", -3), "Noto Sans -3");
}

#[test]
fn text_sort_and_dedup() {
    let v: Vec<String> = ["b", "a", "B", "a", "ab"].iter().map(|s| s.to_string()).collect();
    let sorted = sort_texts(v.clone());
    let mut expected = v.clone();
    expected.sort();
    assert_eq!(sorted, expected);
    let mut unique = expected.clone();
    unique.dedup();
    assert_eq!(dedup_text_list(sorted), unique);
}

#[test]
fn gtk_themes_include_builtins_once() {
    let found = vec!["Nordic".to_string(), "Adwaita".to_string(), "Arc".to_string()];
    assert_eq!(
        gtk_theme_list(found),
        vec!["Adwaita", "Adwaita-dark", "Arc", "Default", "HighContrast", "HighContrastInverse", "Nordic"]
    );
}

#[test]
fn icon_themes_sorted_unique() {
    let found = vec!["Papirus".to_string(), "Adwaita".to_string(), "Papirus".to_string()];
    assert_eq!(icon_theme_list(found), vec!["Adwaita", "Papirus"]);
}

#[test]
fn font_families_filtered_sorted_prioritized() {
    let text = "DejaVu Sans,DejaVu Sans Condensed\nNoto Color Emoji\nCantarell\n\nSymbola\nDejaVu Sans\n Ubuntu Mono , Ubuntu Mono Bold\nFeather Icons\nEMOJI One\n";
    assert_eq!(available_fonts(text), vec!["Cantarell", "Ubuntu Mono", "DejaVu Sans"]);
}

#[test]
fn family_filter_uses_lowercase_form() {
    assert!(keep_family("Inter", "inter"));
    assert!(!keep_family("Inter", "inter emoji"));
    assert!(!keep_family("", ""));
    assert!(!keep_family("Noto Color Emoji", "x"));
}

#[test]
fn at_most_fifty_fonts() {
    let v: Vec<String> = (0..60).map(|i| format!("Font {:02}", i)).collect();
    let r = prioritize_families(v);
    assert_eq!(r.len(), 50);
    assert_eq!(r[0], "Font 00");
    assert_eq!(r[49], "Font 49");
}

#[test]
fn fallback_font_list() {
    let f = fallback_fonts();
    assert_eq!(f.len(), 11);
    assert_eq!(f[0], "Ubuntu");
    assert_eq!(f[10], "sans-serif");
}
