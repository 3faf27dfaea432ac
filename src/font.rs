//! Font descriptions such as "Cantarell 11", and integers read as
//! `str::parse::<i32>` reads them.
use vstd::prelude::*;

verus! {

/// The size a font description gets when it names none that can be read.
pub const DEFAULT_FONT_SIZE: i32 = 11;

/// The position of the last occurrence of `c` in `s`.
pub open spec fn last_index_of(s: Seq<char>, c: char) -> Option<int>
    decreases s.len(),
{
    if s.len() == 0 {
        None
    } else if s.last() == c {
        Some(s.len() - 1)
    } else {
        last_index_of(s.drop_last(), c)
    }
}

pub open spec fn is_digit(c: char) -> bool {
    '0' <= c && c <= '9'
}

pub open spec fn digit_value(c: char) -> int {
    c as int - '0' as int
}

/// The number that a string of decimal digits writes.
pub open spec fn digits_value(s: Seq<char>) -> int
    decreases s.len(),
{
    if s.len() == 0 {
        0
    } else {
        digits_value(s.drop_last()) * 10 + digit_value(s.last())
    }
}

/// `s` without a leading sign.
pub open spec fn unsigned_part(s: Seq<char>) -> Seq<char> {
    if s.len() > 0 && (s[0] == '-' || s[0] == '+') {
        s.skip(1)
    } else {
        s
    }
}

pub open spec fn all_digits(s: Seq<char>) -> bool {
    forall|i: int| 0 <= i < s.len() ==> is_digit(#[trigger] s[i])
}

/// What `s` reads as a 32-bit integer: an optional sign, then one or more
/// decimal digits, whose value fits; none otherwise.
pub open spec fn spec_parse_i32(s: Seq<char>) -> Option<i32> {
    let body = unsigned_part(s);
    let value = if s.len() > 0 && s[0] == '-' {
        -digits_value(body)
    } else {
        digits_value(body)
    };
    if body.len() > 0 && all_digits(body) && i32::MIN <= value <= i32::MAX {
        Some(value as i32)
    } else {
        None
    }
}

/// A font description split into its name and its size: the size is what
/// follows the last space; the whole description is the name where there is
/// no space; the size is 11 where none can be read.
pub open spec fn spec_parse_font(s: Seq<char>) -> (Seq<char>, i32) {
    match last_index_of(s, ' ') {
        Some(k) => (
            s.subrange(0, k),
            match spec_parse_i32(s.subrange(k + 1, s.len() as int)) {
                Some(v) => v,
                None => DEFAULT_FONT_SIZE,
            },
        ),
        None => (s, DEFAULT_FONT_SIZE),
    }
}

proof fn lemma_last_index_of(s: Seq<char>, c: char)
    ensures
        match last_index_of(s, c) {
            Some(k) => 0 <= k < s.len() && s[k] == c && forall|j: int| k < j < s.len() ==> s[j] != c,
            None => forall|j: int| 0 <= j < s.len() ==> s[j] != c,
        },
    decreases s.len(),
{
    if s.len() > 0 && s.last() != c {
        lemma_last_index_of(s.drop_last(), c);
        assert(forall|j: int| 0 <= j < s.len() - 1 ==> s.drop_last()[j] == s[j]);
    }
}

fn find_last_space(s: &str) -> (r: Option<usize>)
    ensures
        match r {
            Some(k) => last_index_of(s@, ' ') == Some(k as int),
            None => last_index_of(s@, ' ') is None,
        },
{
    let n = s.unicode_len();
    let mut i: usize = n;
    proof {
        lemma_last_index_of(s@, ' ');
    }
    while i > 0
        invariant
            i <= n,
            n == s@.len(),
            forall|j: int| i <= j < n ==> s@[j] != ' ',
            match last_index_of(s@, ' ') {
                Some(k) => 0 <= k < s@.len() && s@[k] == ' ' && forall|j: int|
                    k < j < s@.len() ==> s@[j] != ' ',
                None => forall|j: int| 0 <= j < s@.len() ==> s@[j] != ' ',
            },
        decreases i,
    {
        if s.get_char(i - 1) == ' ' {
            return Some(i - 1);
        }
        i = i - 1;
    }
    None
}

/// The largest magnitude followed exactly while reading digits; beyond it
/// only "too large" matters.
const MAGNITUDE_CAP: u64 = 2147483649;

/// Reads a 32-bit integer the way Rust's `str::parse::<i32>` does.
pub fn parse_i32(s: &str) -> (r: Option<i32>)
    ensures
        r == spec_parse_i32(s@),
{
    let n = s.unicode_len();
    let mut start: usize = 0;
    let mut negative = false;
    if n > 0 {
        let c = s.get_char(0);
        if c == '-' {
            negative = true;
            start = 1;
        } else if c == '+' {
            start = 1;
        }
    }
    let ghost body = unsigned_part(s@);
    assert(body =~= s@.subrange(start as int, n as int));
    if start >= n {
        return None;
    }
    let mut acc: u64 = 0;
    let mut i: usize = start;
    while i < n
        invariant
            start <= i <= n,
            n == s@.len(),
            body == unsigned_part(s@),
            body =~= s@.subrange(start as int, n as int),
            negative == (s@.len() > 0 && s@[0] == '-'),
            forall|j: int| start <= j < i ==> is_digit(#[trigger] s@[j]),
            acc as int == if digits_value(s@.subrange(start as int, i as int))
                < MAGNITUDE_CAP as int {
                digits_value(s@.subrange(start as int, i as int))
            } else {
                MAGNITUDE_CAP as int
            },
            digits_value(s@.subrange(start as int, i as int)) >= 0,
        decreases n - i,
    {
        let c = s.get_char(i);
        if !(c >= '0' && c <= '9') {
            assert(body[i - start] == s@[i as int]);
            assert(!is_digit(body[i - start]));
            assert(!all_digits(body));
            return None;
        }
        let d = (c as u32 - '0' as u32) as u64;
        let ghost prev = s@.subrange(start as int, i as int);
        let ghost next = s@.subrange(start as int, i + 1);
        assert(next.drop_last() =~= prev);
        assert(digits_value(next) == digits_value(prev) * 10 + d);
        proof {
            let v = digits_value(prev);
            let cap = MAGNITUDE_CAP as int;
            if v >= cap {
                assert(v * 10 + d >= cap) by (nonlinear_arith)
                    requires
                        v >= cap,
                        d >= 0,
                        cap > 0,
                ;
            }
            assert(v * 10 + d >= 0) by (nonlinear_arith)
                requires
                    v >= 0,
                    d >= 0,
            ;
        }
        let grown = acc * 10 + d;
        acc = if grown < MAGNITUDE_CAP {
            grown
        } else {
            MAGNITUDE_CAP
        };
        i = i + 1;
    }
    assert(s@.subrange(start as int, n as int) =~= body);
    assert forall|j: int| 0 <= j < body.len() implies is_digit(#[trigger] body[j]) by {
        assert(body[j] == s@[j + start]);
    }
    assert(all_digits(body));
    if negative {
        if acc <= 2147483648 {
            Some((0i64 - acc as i64) as i32)
        } else {
            None
        }
    } else {
        if acc <= 2147483647 {
            Some(acc as i32)
        } else {
            None
        }
    }
}

/// Splits a font description such as "Cantarell 11" into its name and size.
pub fn parse_font_string(font_string: &str) -> (r: (String, i32))
    ensures
        (r.0@, r.1) == spec_parse_font(font_string@),
{
    match find_last_space(font_string) {
        Some(k) => {
            proof {
                lemma_last_index_of(font_string@, ' ');
            }
            let n = font_string.unicode_len();
            let name = font_string.substring_char(0, k);
            let size = font_string.substring_char(k + 1, n);
            let value = match parse_i32(size) {
                Some(v) => v,
                None => DEFAULT_FONT_SIZE,
            };
            (String::from_str(name), value)
        },
        None => (String::from_str(font_string), DEFAULT_FONT_SIZE),
    }
}

} // verus!
