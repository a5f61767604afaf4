//! Character-level access to strings, and the Unicode case mappings of std.
use vstd::prelude::*;

verus! {

/// What `char::is_uppercase` returns on a character.
pub uninterp spec fn char_is_uppercase(c: char) -> bool;

/// The first character that `char::to_lowercase` yields.
pub uninterp spec fn char_lowercase_first(c: char) -> char;

/// The first character that `char::to_uppercase` yields.
pub uninterp spec fn char_uppercase_first(c: char) -> char;

/// Relies on `str::chars` collected into a `Vec`: the characters in order.
#[verifier::external_body]
pub(crate) fn chars_of(s: &str) -> (r: Vec<char>)
    ensures
        r@ == s@,
{
    s.chars().collect()
}

/// Relies on collecting a `char` iterator into a `String`: the same characters in order.
#[verifier::external_body]
pub(crate) fn string_of(v: &Vec<char>) -> (r: String)
    ensures
        r@ == v@,
{
    v.iter().collect()
}

/// Relies on `char::is_uppercase`.
#[verifier::external_body]
pub(crate) fn is_uppercase_char(c: char) -> (r: bool)
    ensures
        r == char_is_uppercase(c),
{
    c.is_uppercase()
}

/// Relies on `char::to_lowercase`, which always yields at least one character;
/// the first of them is returned.
#[verifier::external_body]
pub(crate) fn lowercase_first(c: char) -> (r: char)
    ensures
        r == char_lowercase_first(c),
{
    c.to_lowercase().next().unwrap()
}

/// Relies on `char::to_uppercase`, which always yields at least one character;
/// the first of them is returned.
#[verifier::external_body]
pub(crate) fn uppercase_first(c: char) -> (r: char)
    ensures
        r == char_uppercase_first(c),
{
    c.to_uppercase().next().unwrap()
}

} // verus!
