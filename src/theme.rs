//! Desktop theme settings: values as printed, the system theme, and the
//! theme lists offered.
use vstd::prelude::*;
use crate::scan::{contains_text, has_text, trim, trimmed};
use crate::ordering::{dedup_text_list, dedup_texts, sort_texts, sorted_texts};
use crate::text::{lines_view, push_signed, signed_decimal, str_eq};

verus! {

/// A setting's value as printed: trimmed, and without the single quotes
/// around a string value.
pub open spec fn spec_setting_value(out: Seq<char>) -> Seq<char> {
    let v = trimmed(out);
    if v.len() >= 2 && v[0] == '\'' && v.last() == '\'' {
        v.subrange(1, v.len() - 1)
    } else {
        v
    }
}

pub fn setting_value(out: &str) -> (r: String)
    ensures
        r@ == spec_setting_value(out@),
{
    let v = trim(out);
    let n = v.unicode_len();
    if n >= 2 && v.as_str().get_char(0) == '\'' && v.as_str().get_char(n - 1) == '\'' {
        String::from_str(v.as_str().substring_char(1, n - 1))
    } else {
        v
    }
}

pub open spec fn trim_quotes_start(s: Seq<char>) -> Seq<char>
    decreases s.len(),
{
    if s.len() > 0 && s[0] == '\'' {
        trim_quotes_start(s.skip(1))
    } else {
        s
    }
}

pub open spec fn trim_quotes_end(s: Seq<char>) -> Seq<char>
    decreases s.len(),
{
    if s.len() > 0 && s.last() == '\'' {
        trim_quotes_end(s.drop_last())
    } else {
        s
    }
}

/// A theme name as printed: trimmed, then every single quote at either end
/// dropped.
pub open spec fn spec_theme_name(out: Seq<char>) -> Seq<char> {
    trim_quotes_end(trim_quotes_start(trimmed(out)))
}

pub fn theme_name(out: &str) -> (r: String)
    ensures
        r@ == spec_theme_name(out@),
{
    let t = trim(out);
    let s = t.as_str();
    let n = s.unicode_len();
    let mut a: usize = 0;
    assert(s@.subrange(0, n as int) =~= s@);
    while a < n && s.get_char(a) == '\''
        invariant
            n == s@.len(),
            a <= n,
            trim_quotes_start(s@) == trim_quotes_start(s@.subrange(a as int, n as int)),
        decreases n - a,
    {
        assert(s@.subrange(a as int, n as int).skip(1) =~= s@.subrange(a + 1, n as int));
        a = a + 1;
    }
    let ghost front = s@.subrange(a as int, n as int);
    assert(trim_quotes_start(s@) == front);
    let mut b: usize = n;
    while b > a && s.get_char(b - 1) == '\''
        invariant
            n == s@.len(),
            a <= b <= n,
            front == s@.subrange(a as int, n as int),
            trim_quotes_end(front) == trim_quotes_end(s@.subrange(a as int, b as int)),
        decreases b,
    {
        assert(s@.subrange(a as int, b as int).drop_last() =~= s@.subrange(a as int, b - 1));
        b = b - 1;
    }
    String::from_str(s.substring_char(a, b))
}

/// The preference a color scheme states: dark or light, or none for the
/// default scheme.
pub open spec fn spec_scheme_preference(scheme: Seq<char>) -> Option<Seq<char>> {
    if scheme == "prefer-dark"@ || has_text(scheme, "dark"@) {
        Some("prefer-dark"@)
    } else if scheme == "prefer-light"@ || has_text(scheme, "light"@) {
        Some("prefer-light"@)
    } else {
        None
    }
}

pub fn scheme_preference(scheme: &str) -> (r: Option<String>)
    ensures
        match r {
            Some(s) => spec_scheme_preference(scheme@) == Some(s@),
            None => spec_scheme_preference(scheme@) is None,
        },
{
    if str_eq(scheme, "prefer-dark") || contains_text(scheme, "dark") {
        Some(String::from_str("prefer-dark"))
    } else if str_eq(scheme, "prefer-light") || contains_text(scheme, "light") {
        Some(String::from_str("prefer-light"))
    } else {
        None
    }
}

/// The system theme: the color scheme's preference where it states one, else
/// the GTK theme's name where it could be read, else "dark".
pub open spec fn spec_system_theme(scheme: Option<Seq<char>>, gtk_output: Option<Seq<char>>) -> Seq<
    char,
> {
    let preferred = match scheme {
        Some(s) => spec_scheme_preference(s),
        None => None,
    };
    match preferred {
        Some(p) => p,
        None => match gtk_output {
            Some(o) => spec_theme_name(o),
            None => "dark"@,
        },
    }
}

/// Decides the system theme from the color scheme setting (none where it
/// could not be read) and the GTK theme query's output (none where it failed).
pub fn system_theme(scheme: Option<&str>, gtk_output: Option<&str>) -> (r: String)
    ensures
        r@ == spec_system_theme(
            match scheme {
                Some(s) => Some(s@),
                None => None,
            },
            match gtk_output {
                Some(o) => Some(o@),
                None => None,
            },
        ),
{
    let preferred = match scheme {
        Some(s) => scheme_preference(s),
        None => None,
    };
    match preferred {
        Some(p) => p,
        None => match gtk_output {
            Some(o) => theme_name(o),
            None => String::from_str("dark"),
        },
    }
}

/// What a change reported by the settings monitor is about.
#[derive(Clone, Copy, Debug, PartialEq, Eq, Structural)]
pub enum ThemeChange {
    ColorScheme,
    GtkTheme,
}

/// The theme change that a monitor line reports, if any: a line naming the
/// color scheme is about it, else one naming the GTK theme is about that.
pub open spec fn spec_theme_change(line: Seq<char>) -> Option<ThemeChange> {
    if has_text(line, "color-scheme"@) {
        Some(ThemeChange::ColorScheme)
    } else if has_text(line, "gtk-theme"@) {
        Some(ThemeChange::GtkTheme)
    } else {
        None
    }
}

pub fn theme_change(line: &str) -> (r: Option<ThemeChange>)
    ensures
        r == spec_theme_change(line@),
{
    if contains_text(line, "color-scheme") {
        Some(ThemeChange::ColorScheme)
    } else if contains_text(line, "gtk-theme") {
        Some(ThemeChange::GtkTheme)
    } else {
        None
    }
}

/// The font setting for a family and a size: "Cantarell 11".
pub fn font_setting(name: &str, size: i32) -> (r: String)
    ensures
        r@ == name@ + " "@ + signed_decimal(size as int),
{
    let mut s = String::from_str(name);
    s.append(" ");
    push_signed(&mut s, size);
    s
}

/// The GTK themes that ship with GTK itself.
pub open spec fn builtin_gtk_themes() -> Seq<Seq<char>> {
    seq!["Adwaita"@, "Adwaita-dark"@, "Default"@, "HighContrast"@, "HighContrastInverse"@]
}

/// The GTK themes offered: the built-in ones and those found installed,
/// sorted and without repeats.
pub fn gtk_theme_list(found: Vec<String>) -> (r: Vec<String>)
    ensures
        lines_view(r@) == dedup_texts(sorted_texts(builtin_gtk_themes() + lines_view(found@))),
{
    let mut all: Vec<String> = Vec::new();
    all.push(String::from_str("Adwaita"));
    all.push(String::from_str("Adwaita-dark"));
    all.push(String::from_str("Default"));
    all.push(String::from_str("HighContrast"));
    all.push(String::from_str("HighContrastInverse"));
    let ghost b = lines_view(all@);
    assert(b =~= builtin_gtk_themes());
    let ghost f = lines_view(found@);
    let mut found = found;
    all.append(&mut found);
    assert(lines_view(all@) =~= b + f);
    dedup_text_list(sort_texts(all))
}

/// The icon themes offered: those found installed, sorted and without
/// repeats.
pub fn icon_theme_list(found: Vec<String>) -> (r: Vec<String>)
    ensures
        lines_view(r@) == dedup_texts(sorted_texts(lines_view(found@))),
{
    dedup_text_list(sort_texts(found))
}

} // verus!
