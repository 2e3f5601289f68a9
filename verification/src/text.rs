//! Trusted bridge to std's text operations.
//!
//! The library classifies characters and folds case exactly as std does, so
//! those std functions are called here behind small wrappers. The Unicode
//! tables behind them would take pages to state, so their results are given
//! names (`is_unicode_white`, `is_unicode_alnum`, `lower_of`); each wrapper
//! also states the ASCII fragment that std's documentation spells out, which
//! is all the rest of the library ever reasons about directly.

use vstd::prelude::*;

verus! {

/// Whether `c` has the Unicode `White_Space` property, as
/// `char::is_whitespace` decides it.
pub uninterp spec fn is_unicode_white(c: char) -> bool;

/// Whether `c` is Unicode-alphanumeric, as `char::is_alphanumeric` decides
/// it.
pub uninterp spec fn is_unicode_alnum(c: char) -> bool;

/// The Unicode-lowercased form of `s`, as `str::to_lowercase` computes it.
pub uninterp spec fn lower_of(s: Seq<char>) -> Seq<char>;

/// Relies on `char::is_whitespace`: true exactly for characters with the
/// Unicode `White_Space` property, whose ASCII members are horizontal tab,
/// line feed, vertical tab, form feed, carriage return and space.
#[verifier::external_body]
pub fn char_is_whitespace(c: char) -> (r: bool)
    ensures
        r == is_unicode_white(c),
        (c as u32) < 128 ==> (r <==> (c == ' ' || c == '\t' || c == '\n' || c == '\r' || c
            == '\u{b}' || c == '\u{c}')),
{
    c.is_whitespace()
}

/// Relies on `char::is_alphanumeric`: true exactly for characters that are
/// Unicode-alphabetic or numeric; the ASCII members are the digits and the
/// letters of both cases.
#[verifier::external_body]
pub fn char_is_alphanumeric(c: char) -> (r: bool)
    ensures
        r == is_unicode_alnum(c),
        (c as u32) < 128 ==> (r <==> (('0' as u32) <= (c as u32) <= ('9' as u32) || ('a' as u32)
            <= (c as u32) <= ('z' as u32) || ('A' as u32) <= (c as u32) <= ('Z' as u32))),
{
    c.is_alphanumeric()
}

/// Relies on `str::to_lowercase`: the result is the Unicode lowercase mapping
/// of the input and depends on its characters alone.
#[verifier::external_body]
pub fn lowercase(s: &str) -> (r: String)
    ensures
        r@ == lower_of(s@),
{
    s.to_lowercase()
}

/// Relies on `String::push`: appends the given character to the end of the
/// string.
pub assume_specification[ String::push ](s: &mut String, c: char)
    ensures
        final(s)@ == old(s)@.push(c),
;

/// Relies on `String::pop`: removes the last character of the string and
/// returns it, or returns `None` when the string is empty.
pub assume_specification[ String::pop ](s: &mut String) -> (r: Option<char>)
    ensures
        old(s)@.len() == 0 ==> final(s)@ == old(s)@ && r is None,
        old(s)@.len() > 0 ==> final(s)@ == old(s)@.drop_last() && r == Some(old(s)@.last()),
;

} // verus!
