//! Between strings and vectors of characters.
use crate::text::matching::{has_prefix, is_literal, starts_with};
use vstd::prelude::*;

verus! {

/// Trusted, not proved: `String::push` of the standard library appends the
/// character to the end of the string and leaves what stood there as it
/// was. This is what its documentation says.
pub assume_specification[ String::push ](s: &mut String, c: char)
    ensures
        final(s)@ == old(s)@.push(c),
;

/// The characters of a string slice, in order.
pub fn chars_of(s: &str) -> (out: Vec<char>)
    ensures
        out@ == s@,
{
    let mut out: Vec<char> = Vec::new();
    for c in it: s.chars()
        invariant
            out@ == it.seq().take(it.index() as int),
    {
        out.push(c);
    }
    out
}

/// A string made of the given characters, in order.
pub fn string_of(chars: &Vec<char>) -> (out: String)
    ensures
        out@ == chars@,
{
    let mut out = String::new();
    let mut i: usize = 0;
    while i < chars.len()
        invariant
            i <= chars.len(),
            out@ == chars@.take(i as int),
        decreases chars.len() - i,
    {
        out.push(chars[i]);
        i += 1;
    }
    out
}

/// The views of a vector of character vectors.
pub open spec fn views(rows: Seq<Vec<char>>) -> Seq<Seq<char>> {
    rows.map_values(|row: Vec<char>| row@)
}

/// The texts of a sequence of strings.
pub open spec fn texts(items: Seq<String>) -> Seq<Seq<char>> {
    items.map_values(|s: String| s@)
}

/// Whether the two strings hold the same text.
pub fn str_equals(a: &str, b: &str) -> (eq: bool)
    ensures
        eq == (a@ == b@),
{
    let chars = chars_of(a);
    is_literal(&chars, b)
}

/// Whether `a` begins with `p`.
pub fn str_has_prefix(a: &str, p: &str) -> (b: bool)
    ensures
        b == starts_with(a@, p@),
{
    let chars = chars_of(a);
    has_prefix(&chars, p)
}

} // verus!
