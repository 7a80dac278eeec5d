//! Upper and lower case, as the Unicode tables of the standard library map
//! them.

use vstd::prelude::*;

verus! {

/// What `str::to_uppercase` returns for a text.
pub uninterp spec fn uppercase(s: Seq<char>) -> Seq<char>;

/// What `str::to_lowercase` returns for a text.
pub uninterp spec fn lowercase(s: Seq<char>) -> Seq<char>;

/// A text of ASCII characters only.
pub open spec fn is_ascii(s: Seq<char>) -> bool {
    forall|i: int| 0 <= i < s.len() ==> (#[trigger] s[i]) <= '\u{7F}'
}

/// The upper-case form of an ASCII character: a small letter becomes its
/// capital, every other character stays.
pub open spec fn ascii_upper(c: char) -> char {
    if 'a' <= c <= 'z' {
        ((c as u32) - 32) as char
    } else {
        c
    }
}

/// The lower-case form of an ASCII character: a capital becomes its small
/// letter, every other character stays.
pub open spec fn ascii_lower(c: char) -> char {
    if 'A' <= c <= 'Z' {
        ((c as u32) + 32) as char
    } else {
        c
    }
}

/// An ASCII text with every small letter made a capital.
pub open spec fn ascii_uppercase(s: Seq<char>) -> Seq<char> {
    Seq::new(s.len(), |i: int| ascii_upper(s[i]))
}

/// An ASCII text with every capital made a small letter.
pub open spec fn ascii_lowercase(s: Seq<char>) -> Seq<char> {
    Seq::new(s.len(), |i: int| ascii_lower(s[i]))
}

/// The upper-case form of a text: spelled out for an ASCII text, and for any
/// other what the standard library makes of it.
pub open spec fn upper(s: Seq<char>) -> Seq<char> {
    if is_ascii(s) {
        ascii_uppercase(s)
    } else {
        uppercase(s)
    }
}

/// The lower-case form of a text: spelled out for an ASCII text, and for any
/// other what the standard library makes of it.
pub open spec fn lower(s: Seq<char>) -> Seq<char> {
    if is_ascii(s) {
        ascii_lowercase(s)
    } else {
        lowercase(s)
    }
}

/// `str::to_uppercase`: the text with each character replaced by its upper
/// case equivalent. In an ASCII text that is each of `a` to `z` replaced by
/// its capital and nothing else changed; for other texts the result is
/// named, not spelled out.
#[verifier::external_body]
fn to_uppercase(s: &str) -> (r: String)
    ensures
        r@ == uppercase(s@),
        is_ascii(s@) ==> r@ == ascii_uppercase(s@),
{
    s.to_uppercase()
}

/// `str::to_lowercase`: the text with each character replaced by its lower
/// case equivalent. In an ASCII text that is each of `A` to `Z` replaced by
/// its small letter and nothing else changed; for other texts the result is
/// named, not spelled out.
#[verifier::external_body]
fn to_lowercase(s: &str) -> (r: String)
    ensures
        r@ == lowercase(s@),
        is_ascii(s@) ==> r@ == ascii_lowercase(s@),
{
    s.to_lowercase()
}

/// `s` in upper case.
pub fn upper_text(s: &str) -> (r: String)
    ensures
        r@ == upper(s@),
{
    to_uppercase(s)
}

/// `s` in lower case.
pub fn lower_text(s: &str) -> (r: String)
    ensures
        r@ == lower(s@),
{
    to_lowercase(s)
}

} // verus!
