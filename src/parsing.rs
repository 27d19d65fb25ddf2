//! std's splitting and number parsing, as the collectors' parsers use them.

use vstd::prelude::*;

verus! {

/// The lines of `s`, as `str::lines` splits them.
pub uninterp spec fn lines_of(s: Seq<char>) -> Seq<Seq<char>>;

/// The white-space separated words of `s`, as `str::split_whitespace` gives them.
pub uninterp spec fn words_of(s: Seq<char>) -> Seq<Seq<char>>;

/// The pieces of `s` between `|` separators, as `str::split('|')` gives them.
pub uninterp spec fn bar_fields_of(s: Seq<char>) -> Seq<Seq<char>>;

/// The pieces of `s` between `:` separators, as `str::split(':')` gives them.
pub uninterp spec fn colon_fields_of(s: Seq<char>) -> Seq<Seq<char>>;

/// The texts of a list of strings.
pub open spec fn texts(v: Seq<String>) -> Seq<Seq<char>> {
    v.map_values(|x: String| x@)
}

/// Relies on `str::lines`: the result depends on `s` alone.
#[verifier::external_body]
pub(crate) fn split_lines(s: &str) -> (r: Vec<String>)
    ensures
        texts(r@) == lines_of(s@),
{
    s.lines().map(String::from).collect()
}

/// Relies on `str::split_whitespace`: the result depends on `s` alone.
#[verifier::external_body]
pub(crate) fn split_words(s: &str) -> (r: Vec<String>)
    ensures
        texts(r@) == words_of(s@),
{
    s.split_whitespace().map(String::from).collect()
}

/// Relies on `str::split` with the pattern `'|'`: the result depends on `s` alone.
#[verifier::external_body]
pub(crate) fn split_bars(s: &str) -> (r: Vec<String>)
    ensures
        texts(r@) == bar_fields_of(s@),
{
    s.split('|').map(String::from).collect()
}

/// Relies on `str::split` with the pattern `':'`: the result depends on `s` alone.
#[verifier::external_body]
pub(crate) fn split_colons(s: &str) -> (r: Vec<String>)
    ensures
        texts(r@) == colon_fields_of(s@),
{
    s.split(':').map(String::from).collect()
}

/// `c` is an ASCII decimal digit.
pub open spec fn is_digit(c: char) -> bool {
    '0' <= c && c <= '9'
}

/// The value of a run of decimal digits.
pub open spec fn digits_value(s: Seq<char>) -> nat
    decreases s.len(),
{
    if s.len() == 0 {
        0
    } else {
        digits_value(s.drop_last()) * 10 + ((s.last() as u32) - ('0' as u32)) as nat
    }
}

/// The digits of an unsigned number's text: an optional `+` sign is dropped.
pub open spec fn unsigned_digits(s: Seq<char>) -> Seq<char> {
    if s.len() > 0 && s[0] == '+' {
        s.drop_first()
    } else {
        s
    }
}

/// The number an unsigned integer's text denotes, if it is one: at least
/// one decimal digit after an optional `+`, and nothing else.
pub open spec fn unsigned_value(s: Seq<char>) -> Option<nat> {
    let d = unsigned_digits(s);
    if d.len() > 0 && forall|i: int| 0 <= i < d.len() ==> is_digit(#[trigger] d[i]) {
        Some(digits_value(d))
    } else {
        None
    }
}

/// Relies on `str::parse::<u64>`: the text of a number that fits, and
/// nothing else, gives that number.
#[verifier::external_body]
pub(crate) fn parse_u64(s: &str) -> (r: Option<u64>)
    ensures
        r == match unsigned_value(s@) {
            Some(v) => if v <= u64::MAX {
                Some(v as u64)
            } else {
                None
            },
            None => None,
        },
{
    s.parse::<u64>().ok()
}

/// Relies on `str::parse::<u8>`: the text of a number that fits, and
/// nothing else, gives that number.
#[verifier::external_body]
pub(crate) fn parse_u8(s: &str) -> (r: Option<u8>)
    ensures
        r == match unsigned_value(s@) {
            Some(v) => if v <= u8::MAX {
                Some(v as u8)
            } else {
                None
            },
            None => None,
        },
{
    s.parse::<u8>().ok()
}

} // verus!
