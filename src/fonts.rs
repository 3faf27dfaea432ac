//! The font families offered for choice, from the font list.
use vstd::prelude::*;
use crate::ordering::{dedup_text_list, dedup_texts, sort_texts, sorted_texts};
use crate::scan::{contains_text, has_text, lines_of, split_char, split_lines, split_on, trim, trimmed};
use crate::text::lines_view;

verus! {

/// The lowercase form of a text, as `str::to_lowercase` gives it.
pub uninterp spec fn lower_of(s: Seq<char>) -> Seq<char>;

/// Relies on `str::to_lowercase`, whose result depends on the characters
/// alone.
#[verifier::external_body]
fn lowercase(s: &str) -> (r: String)
    ensures
        r@ == lower_of(s@),
{
    s.to_lowercase()
}

/// The family a font list line names: the first of its comma-separated
/// names, trimmed.
pub open spec fn line_family(line: Seq<char>) -> Seq<char> {
    trimmed(split_char(trimmed(line), ',')[0])
}

/// Whether a family is offered, given its lowercase form: not empty, and no
/// emoji, symbol or icon font.
pub open spec fn family_kept(family: Seq<char>, lowered: Seq<char>) -> bool {
    family.len() > 0 && !has_text(lowered, "emoji"@) && !has_text(lowered, "symbol"@) && !has_text(
        family,
        "Noto Color Emoji"@,
    ) && !has_text(lowered, "standard symbols"@) && !has_text(lowered, "feather"@)
}

pub fn keep_family(family: &str, lowered: &str) -> (r: bool)
    ensures
        r == family_kept(family@, lowered@),
{
    family.unicode_len() > 0 && !contains_text(lowered, "emoji") && !contains_text(lowered, "symbol")
        && !contains_text(family, "Noto Color Emoji") && !contains_text(lowered, "standard symbols")
        && !contains_text(lowered, "feather")
}

/// The families named by the lines of a font list, in order; blank lines and
/// families not offered are skipped.
pub open spec fn families_in(lines: Seq<Seq<char>>) -> Seq<Seq<char>>
    decreases lines.len(),
{
    if lines.len() == 0 {
        Seq::empty()
    } else {
        let prev = families_in(lines.drop_last());
        let f = line_family(lines.last());
        if trimmed(lines.last()).len() > 0 && family_kept(f, lower_of(f)) {
            prev.push(f)
        } else {
            prev
        }
    }
}

/// Whether a family is one of the common system families shown first.
pub open spec fn is_priority_family(f: Seq<char>) -> bool {
    has_text(f, "Ubuntu"@) || has_text(f, "Cantarell"@) || has_text(f, "Source Sans Pro"@)
        || has_text(f, "Roboto"@) || has_text(f, "Open Sans"@) || has_text(f, "Noto Sans"@)
        || has_text(f, "Liberation"@) || has_text(f, "Adwaita"@) || has_text(f, "JetBrains Mono"@)
}

fn priority_family(f: &str) -> (r: bool)
    ensures
        r == is_priority_family(f@),
{
    contains_text(f, "Ubuntu") || contains_text(f, "Cantarell") || contains_text(f, "Source Sans Pro")
        || contains_text(f, "Roboto") || contains_text(f, "Open Sans") || contains_text(
        f,
        "Noto Sans",
    ) || contains_text(f, "Liberation") || contains_text(f, "Adwaita") || contains_text(
        f,
        "JetBrains Mono",
    )
}

/// The families of `s` that `priority` selects, in order.
pub open spec fn select_families(s: Seq<Seq<char>>, priority: bool) -> Seq<Seq<char>>
    decreases s.len(),
{
    if s.len() == 0 {
        s
    } else {
        let prev = select_families(s.drop_last(), priority);
        if is_priority_family(s.last()) == priority {
            prev.push(s.last())
        } else {
            prev
        }
    }
}

/// How many families the list offers at most.
pub const MAX_FONTS: usize = 50;

/// The families offered: sorted, without repeats, the common ones first, and
/// at most fifty.
pub open spec fn offered_families(families: Seq<Seq<char>>) -> Seq<Seq<char>> {
    let s = dedup_texts(sorted_texts(families));
    let p = select_families(s, true) + select_families(s, false);
    if p.len() > MAX_FONTS {
        p.subrange(0, MAX_FONTS as int)
    } else {
        p
    }
}

fn font_families(text: &str) -> (r: Vec<String>)
    ensures
        lines_view(r@) == families_in(lines_of(text@)),
{
    let lines = split_lines(text);
    let ghost ls = lines_view(lines@);
    let mut out: Vec<String> = Vec::new();
    let mut i: usize = 0;
    while i < lines.len()
        invariant
            i <= lines@.len(),
            ls == lines_view(lines@),
            lines_view(out@) == families_in(ls.subrange(0, i as int)),
        decreases lines.len() - i,
    {
        let ghost prefix = ls.subrange(0, i as int);
        let ghost next = ls.subrange(0, i + 1);
        assert(next.drop_last() =~= prefix);
        assert(next.last() == lines@[i as int]@);
        let l = trim(lines[i].as_str());
        if l.unicode_len() > 0 {
            let pieces = split_on(l.as_str(), ',');
            proof {
                crate::scan::lemma_split_char_len(l@, ',');
            }
            let f = trim(pieces[0].as_str());
            let lowered = lowercase(f.as_str());
            if keep_family(f.as_str(), lowered.as_str()) {
                let ghost before = lines_view(out@);
                out.push(f);
                assert(lines_view(out@) =~= before.push(line_family(next.last())));
            }
        }
        i = i + 1;
    }
    assert(ls.subrange(0, lines@.len() as int) =~= ls);
    out
}

/// Orders families for offering: the common ones first, each group keeping
/// its order, and at most fifty.
pub fn prioritize_families(v: Vec<String>) -> (r: Vec<String>)
    ensures
        lines_view(r@) == ({
            let s = lines_view(v@);
            let p = select_families(s, true) + select_families(s, false);
            if p.len() > MAX_FONTS {
                p.subrange(0, MAX_FONTS as int)
            } else {
                p
            }
        }),
{
    let ghost all = lines_view(v@);
    assert(all.skip(0) =~= all);
    let mut rest = v;
    let total = rest.len();
    let mut first: Vec<String> = Vec::new();
    let mut others: Vec<String> = Vec::new();
    let mut i: usize = 0;
    while rest.len() > 0
        invariant
            i <= all.len(),
            all.len() == total,
            i + rest@.len() == all.len(),
            lines_view(rest@) == all.skip(i as int),
            lines_view(first@) == select_families(all.subrange(0, i as int), true),
            lines_view(others@) == select_families(all.subrange(0, i as int), false),
        decreases rest.len(),
    {
        let ghost before = rest@;
        let x = rest.remove(0);
        assert(lines_view(before)[0] == x@);
        assert(all.skip(i as int)[0] == all[i as int]);
        assert(lines_view(rest@) =~= lines_view(before).skip(1));
        assert(all.skip(i as int).skip(1) =~= all.skip(i + 1));
        assert(all.subrange(0, i + 1).drop_last() =~= all.subrange(0, i as int));
        if priority_family(x.as_str()) {
            let ghost prev = lines_view(first@);
            first.push(x);
            assert(lines_view(first@) =~= prev.push(x@));
        } else {
            let ghost prev = lines_view(others@);
            others.push(x);
            assert(lines_view(others@) =~= prev.push(x@));
        }
        i = i + 1;
    }
    assert(all.subrange(0, i as int) =~= all);
    let ghost a = lines_view(first@);
    let ghost b = lines_view(others@);
    first.append(&mut others);
    assert(lines_view(first@) =~= a + b);
    if first.len() > MAX_FONTS {
        first.truncate(MAX_FONTS);
        assert(lines_view(first@) =~= (a + b).subrange(0, MAX_FONTS as int));
    }
    first
}

/// The families to offer from a font list (one family list per line).
pub fn available_fonts(text: &str) -> (r: Vec<String>)
    ensures
        lines_view(r@) == offered_families(families_in(lines_of(text@))),
{
    let families = font_families(text);
    let sorted = sort_texts(families);
    let unique = dedup_text_list(sorted);
    prioritize_families(unique)
}

/// The families offered when no font list can be had.
pub fn fallback_fonts() -> (r: Vec<String>)
    ensures
        lines_view(r@) == seq![
            "Ubuntu"@,
            "DejaVu Sans"@,
            "Liberation Sans"@,
            "Cantarell"@,
            "Noto Sans"@,
            "Source Sans Pro"@,
            "Roboto"@,
            "Open Sans"@,
            "Arial"@,
            "Helvetica"@,
            "sans-serif"@,
        ],
{
    let mut v: Vec<String> = Vec::new();
    v.push(String::from_str("Ubuntu"));
    v.push(String::from_str("DejaVu Sans"));
    v.push(String::from_str("Liberation Sans"));
    v.push(String::from_str("Cantarell"));
    v.push(String::from_str("Noto Sans"));
    v.push(String::from_str("Source Sans Pro"));
    v.push(String::from_str("Roboto"));
    v.push(String::from_str("Open Sans"));
    v.push(String::from_str("Arial"));
    v.push(String::from_str("Helvetica"));
    v.push(String::from_str("sans-serif"));
    assert(lines_view(v@) =~= seq![
        "Ubuntu"@,
        "DejaVu Sans"@,
        "Liberation Sans"@,
        "Cantarell"@,
        "Noto Sans"@,
        "Source Sans Pro"@,
        "Roboto"@,
        "Open Sans"@,
        "Arial"@,
        "Helvetica"@,
        "sans-serif"@,
    ]);
    v
}

} // verus!
