//! Text scanning: lines, separators, white space, prefixes and substrings,
//! each stated as a function on character sequences.
use vstd::prelude::*;
use crate::text::{lines_view, str_eq};

verus! {

/// The pieces of `s` between occurrences of `sep`: one more than there are
/// separators, empty pieces included.
pub open spec fn split_char(s: Seq<char>, sep: char) -> Seq<Seq<char>>
    decreases s.len(),
{
    if s.len() == 0 {
        seq![Seq::empty()]
    } else {
        let p = split_char(s.drop_last(), sep);
        if s.last() == sep {
            p.push(Seq::empty())
        } else {
            p.update(p.len() - 1, p.last().push(s.last()))
        }
    }
}

pub proof fn lemma_split_char_len(s: Seq<char>, sep: char)
    ensures
        split_char(s, sep).len() >= 1,
    decreases s.len(),
{
    if s.len() > 0 {
        lemma_split_char_len(s.drop_last(), sep);
    }
}

/// A line without the carriage return that ended it.
pub open spec fn strip_cr(l: Seq<char>) -> Seq<char> {
    if l.len() > 0 && l.last() == '\r' {
        l.drop_last()
    } else {
        l
    }
}

/// The lines of a text: split at '\n', a '\r' before the '\n' dropped, and no
/// empty line after a final '\n'.
pub open spec fn lines_of(s: Seq<char>) -> Seq<Seq<char>> {
    let p = split_char(s, '\n');
    let body = p.drop_last().map_values(|l: Seq<char>| strip_cr(l));
    if p.last().len() == 0 {
        body
    } else {
        body.push(p.last())
    }
}

/// Unicode's white space.
pub open spec fn is_space(c: char) -> bool {
    ('\u{9}' <= c && c <= '\u{d}') || c == ' ' || c == '\u{85}' || c == '\u{a0}' || c
        == '\u{1680}' || ('\u{2000}' <= c && c <= '\u{200a}') || c == '\u{2028}' || c
        == '\u{2029}' || c == '\u{202f}' || c == '\u{205f}' || c == '\u{3000}'
}

pub fn char_is_space(c: char) -> (r: bool)
    ensures
        r == is_space(c),
{
    ('\u{9}' <= c && c <= '\u{d}') || c == ' ' || c == '\u{85}' || c == '\u{a0}' || c
        == '\u{1680}' || ('\u{2000}' <= c && c <= '\u{200a}') || c == '\u{2028}' || c
        == '\u{2029}' || c == '\u{202f}' || c == '\u{205f}' || c == '\u{3000}'
}

/// `s` without white space at its start.
pub open spec fn trim_start(s: Seq<char>) -> Seq<char>
    decreases s.len(),
{
    if s.len() > 0 && is_space(s[0]) {
        trim_start(s.skip(1))
    } else {
        s
    }
}

/// `s` without white space at its end.
pub open spec fn trim_end(s: Seq<char>) -> Seq<char>
    decreases s.len(),
{
    if s.len() > 0 && is_space(s.last()) {
        trim_end(s.drop_last())
    } else {
        s
    }
}

/// `s` without white space at either end.
pub open spec fn trimmed(s: Seq<char>) -> Seq<char> {
    trim_end(trim_start(s))
}

/// The runs of non-space characters of `s`, in order.
pub open spec fn words(s: Seq<char>) -> Seq<Seq<char>>
    decreases s.len(),
{
    if s.len() == 0 {
        Seq::empty()
    } else {
        let w = words(s.drop_last());
        if is_space(s.last()) {
            w
        } else if s.len() >= 2 && !is_space(s[s.len() - 2]) {
            w.update(w.len() - 1, w.last().push(s.last()))
        } else {
            w.push(seq![s.last()])
        }
    }
}

/// Whether `s` begins with `p`.
pub open spec fn has_prefix(s: Seq<char>, p: Seq<char>) -> bool {
    p.len() <= s.len() && s.subrange(0, p.len() as int) == p
}

/// Whether `c` occurs in `s`.
pub open spec fn has_char(s: Seq<char>, c: char) -> bool {
    exists|i: int| 0 <= i < s.len() && s[i] == c
}

/// Splits `s` at each `sep`, like `str::split` with a character.
pub fn split_on(s: &str, sep: char) -> (r: Vec<String>)
    ensures
        lines_view(r@) == split_char(s@, sep),
{
    let n = s.unicode_len();
    let mut out: Vec<String> = Vec::new();
    let mut start: usize = 0;
    let mut i: usize = 0;
    assert(s@.subrange(0, 0) =~= Seq::<char>::empty());
    assert(lines_view(out@).push(Seq::<char>::empty()) =~= seq![Seq::<char>::empty()]);
    while i < n
        invariant
            n == s@.len(),
            start <= i <= n,
            lines_view(out@).push(s@.subrange(start as int, i as int)) == split_char(
                s@.subrange(0, i as int),
                sep,
            ),
        decreases n - i,
    {
        let ghost prefix = s@.subrange(0, i as int);
        let ghost next = s@.subrange(0, i + 1);
        assert(next.drop_last() =~= prefix);
        assert(next.last() == s@[i as int]);
        proof {
            lemma_split_char_len(prefix, sep);
        }
        let c = s.get_char(i);
        if c == sep {
            let ghost before = lines_view(out@);
            out.push(String::from_str(s.substring_char(start, i)));
            assert(lines_view(out@) =~= before.push(s@.subrange(start as int, i as int)));
            assert(s@.subrange(i + 1, i + 1) =~= Seq::<char>::empty());
            start = i + 1;
        } else {
            assert(s@.subrange(start as int, i + 1) =~= s@.subrange(start as int, i as int).push(
                c,
            ));
            assert(lines_view(out@).push(s@.subrange(start as int, i + 1)) =~= split_char(
                prefix,
                sep,
            ).update(
                split_char(prefix, sep).len() - 1,
                split_char(prefix, sep).last().push(c),
            ));
        }
        i = i + 1;
    }
    let ghost before = lines_view(out@);
    out.push(String::from_str(s.substring_char(start, n)));
    assert(lines_view(out@) =~= before.push(s@.subrange(start as int, n as int)));
    assert(s@.subrange(0, n as int) =~= s@);
    out
}

fn strip_carriage_return(l: &str) -> (r: String)
    ensures
        r@ == strip_cr(l@),
{
    let n = l.unicode_len();
    if n > 0 && l.get_char(n - 1) == '\r' {
        String::from_str(l.substring_char(0, n - 1))
    } else {
        String::from_str(l)
    }
}

/// The lines of a text, like `str::lines`.
pub fn split_lines(text: &str) -> (r: Vec<String>)
    ensures
        lines_view(r@) == lines_of(text@),
{
    let pieces = split_on(text, '\n');
    let ghost p = split_char(text@, '\n');
    proof {
        lemma_split_char_len(text@, '\n');
    }
    let last = pieces.len() - 1;
    let mut out: Vec<String> = Vec::new();
    let mut i: usize = 0;
    while i < last
        invariant
            last + 1 == pieces@.len(),
            lines_view(pieces@) == p,
            i <= last,
            lines_view(out@) =~= p.subrange(0, i as int).map_values(|l: Seq<char>| strip_cr(l)),
        decreases last - i,
    {
        let ghost before = lines_view(out@);
        assert(pieces@[i as int]@ == p[i as int]);
        out.push(strip_carriage_return(pieces[i].as_str()));
        assert(lines_view(out@) =~= before.push(strip_cr(p[i as int])));
        assert(p.subrange(0, i + 1).map_values(|l: Seq<char>| strip_cr(l)) =~= p.subrange(
            0,
            i as int,
        ).map_values(|l: Seq<char>| strip_cr(l)).push(strip_cr(p[i as int])));
        i = i + 1;
    }
    assert(p.subrange(0, last as int) =~= p.drop_last());
    assert(pieces@[last as int]@ == p.last());
    if pieces[last].unicode_len() > 0 {
        let ghost before = lines_view(out@);
        out.push(String::from_str(pieces[last].as_str()));
        assert(lines_view(out@) =~= before.push(p.last()));
    }
    out
}

/// `s` without white space at either end, like `str::trim`.
pub fn trim(s: &str) -> (r: String)
    ensures
        r@ == trimmed(s@),
{
    let n = s.unicode_len();
    let mut a: usize = 0;
    assert(s@.subrange(0, n as int) =~= s@);
    while a < n && char_is_space(s.get_char(a))
        invariant
            n == s@.len(),
            a <= n,
            trim_start(s@) == trim_start(s@.subrange(a as int, n as int)),
        decreases n - a,
    {
        assert(s@.subrange(a as int, n as int).skip(1) =~= s@.subrange(a + 1, n as int));
        a = a + 1;
    }
    assert(s@.subrange(0, n as int) =~= s@);
    proof {
        if a == n {
            assert(s@.subrange(a as int, n as int).len() == 0);
        }
    }
    let ghost front = s@.subrange(a as int, n as int);
    assert(trim_start(s@) == front);
    let mut b: usize = n;
    while b > a && char_is_space(s.get_char(b - 1))
        invariant
            n == s@.len(),
            a <= b <= n,
            front == s@.subrange(a as int, n as int),
            trim_end(front) == trim_end(s@.subrange(a as int, b as int)),
        decreases b,
    {
        assert(s@.subrange(a as int, b as int).drop_last() =~= s@.subrange(a as int, b - 1));
        b = b - 1;
    }
    String::from_str(s.substring_char(a, b))
}

/// The runs of non-space characters of `s`, like `str::split_whitespace`.
pub fn split_words(s: &str) -> (r: Vec<String>)
    ensures
        lines_view(r@) == words(s@),
{
    let n = s.unicode_len();
    let mut out: Vec<String> = Vec::new();
    let mut start: usize = 0;
    let mut i: usize = 0;
    while i < n
        invariant
            n == s@.len(),
            start <= i <= n,
            start == i || (start < i && !is_space(s@[i - 1])),
            start < i ==> forall|j: int| start <= j < i ==> !is_space(#[trigger] s@[j]),
            start == 0 || is_space(s@[start - 1]),
            words(s@.subrange(0, i as int)) == if start < i {
                lines_view(out@).push(s@.subrange(start as int, i as int))
            } else {
                lines_view(out@)
            },
        decreases n - i,
    {
        let ghost prefix = s@.subrange(0, i as int);
        let ghost next = s@.subrange(0, i + 1);
        assert(next.drop_last() =~= prefix);
        let c = s.get_char(i);
        if char_is_space(c) {
            if start < i {
                let ghost before = lines_view(out@);
                out.push(String::from_str(s.substring_char(start, i)));
                assert(lines_view(out@) =~= before.push(s@.subrange(start as int, i as int)));
            }
            start = i + 1;
        } else {
            if start < i {
                assert(!is_space(next[next.len() - 2]));
                assert(s@.subrange(start as int, i + 1) =~= s@.subrange(start as int, i as int).push(
                    c,
                ));
                assert(words(next) =~= lines_view(out@).push(s@.subrange(start as int, i + 1)));
            } else {
                assert(i >= 1 ==> next[next.len() - 2] == s@[i - 1]);
                assert(s@.subrange(start as int, i + 1) =~= seq![c]);
                assert(words(next) =~= lines_view(out@).push(seq![c]));
            }
        }
        i = i + 1;
    }
    if start < n {
        let ghost before = lines_view(out@);
        out.push(String::from_str(s.substring_char(start, n)));
        assert(lines_view(out@) =~= before.push(s@.subrange(start as int, n as int)));
    }
    assert(s@.subrange(0, n as int) =~= s@);
    out
}

/// Whether `s` begins with `p`, like `str::starts_with`.
pub fn starts_with(s: &str, p: &str) -> (r: bool)
    ensures
        r == has_prefix(s@, p@),
{
    let n = s.unicode_len();
    let m = p.unicode_len();
    if m > n {
        return false;
    }
    let mut i: usize = 0;
    while i < m
        invariant
            n == s@.len(),
            m == p@.len(),
            m <= n,
            i <= m,
            s@.subrange(0, i as int) =~= p@.subrange(0, i as int),
        decreases m - i,
    {
        if s.get_char(i) != p.get_char(i) {
            assert(s@.subrange(0, m as int)[i as int] != p@[i as int]);
            return false;
        }
        assert(s@.subrange(0, i + 1) =~= s@.subrange(0, i as int).push(s@[i as int]));
        assert(p@.subrange(0, i + 1) =~= p@.subrange(0, i as int).push(p@[i as int]));
        i = i + 1;
    }
    assert(p@.subrange(0, m as int) =~= p@);
    true
}

/// Whether `c` occurs in `s`, like `str::contains` with a character.
pub fn contains_char(s: &str, c: char) -> (r: bool)
    ensures
        r == has_char(s@, c),
{
    let n = s.unicode_len();
    let mut i: usize = 0;
    while i < n
        invariant
            n == s@.len(),
            i <= n,
            forall|j: int| 0 <= j < i ==> s@[j] != c,
        decreases n - i,
    {
        if s.get_char(i) == c {
            return true;
        }
        i = i + 1;
    }
    false
}

/// Whether `t` occurs in `s` as a run of characters.
pub open spec fn has_text(s: Seq<char>, t: Seq<char>) -> bool {
    exists|i: int| 0 <= i && i + t.len() <= s.len() && #[trigger] s.subrange(i, i + t.len()) == t
}

/// Whether `t` occurs in `s`, like `str::contains` with a string.
pub fn contains_text(s: &str, t: &str) -> (r: bool)
    ensures
        r == has_text(s@, t@),
{
    let n = s.unicode_len();
    let m = t.unicode_len();
    if m > n {
        return false;
    }
    if m == 0 {
        assert(s@.subrange(0, 0 + t@.len() as int) =~= t@);
        return true;
    }
    let mut i: usize = 0;
    while i <= n - m
        invariant
            n == s@.len(),
            m == t@.len(),
            1 <= m <= n,
            i <= n - m + 1,
            forall|j: int| 0 <= j < i ==> #[trigger] s@.subrange(j, j + m) != t@,
        decreases n - i,
    {
        if str_eq(s.substring_char(i, i + m), t) {
            return true;
        }
        i = i + 1;
    }
    false
}

/// `s` with every occurrence of `t` taken out, leftmost first, as
/// `str::replace(t, "")` does.
pub open spec fn without_all(s: Seq<char>, t: Seq<char>) -> Seq<char>
    decreases s.len(),
{
    if s.len() == 0 || t.len() == 0 {
        s
    } else if t.len() <= s.len() && s.subrange(0, t.len() as int) == t {
        without_all(s.skip(t.len() as int), t)
    } else {
        seq![s[0]] + without_all(s.skip(1), t)
    }
}

/// Takes every occurrence of `t` out of `s`, like `str::replace(t, "")`.
pub fn remove_all(s: &str, t: &str) -> (r: String)
    requires
        t@.len() > 0,
    ensures
        r@ == without_all(s@, t@),
{
    let n = s.unicode_len();
    let m = t.unicode_len();
    let mut out = String::new();
    let mut i: usize = 0;
    assert(s@.skip(0) =~= s@);
    while i < n
        invariant
            n == s@.len(),
            m == t@.len(),
            m > 0,
            i <= n,
            out@ + without_all(s@.skip(i as int), t@) == without_all(s@, t@),
        decreases n - i,
    {
        let ghost rest = s@.skip(i as int);
        if m <= n - i && str_eq(s.substring_char(i, i + m), t) {
            assert(rest.subrange(0, m as int) =~= s@.subrange(i as int, i + m));
            assert(rest.skip(m as int) =~= s@.skip(i + m));
            i = i + m;
        } else {
            proof {
                if m <= rest.len() {
                    assert(rest.subrange(0, m as int) =~= s@.subrange(i as int, i + m));
                }
            }
            let ghost before = out@;
            out.append(s.substring_char(i, i + 1));
            assert(s@.subrange(i as int, i + 1) =~= seq![rest[0]]);
            assert(rest.skip(1) =~= s@.skip(i + 1));
            assert(out@ + without_all(s@.skip(i + 1), t@) =~= before + without_all(rest, t@));
            i = i + 1;
        }
    }
    assert(s@.skip(n as int) =~= Seq::<char>::empty());
    assert(out@ + Seq::<char>::empty() =~= out@);
    out
}

} // verus!
