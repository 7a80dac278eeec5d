//! The regular expressions of the engine, matched by the `regex` crate.

use regex::Regex;
use vstd::prelude::*;

verus! {

/// What `Regex::captures` finds of `pattern` in `line`: the texts of the
/// groups number `first` and `second` of the leftmost match, the empty text
/// for a group that took no part in it, or nothing where the pattern does
/// not compile or matches nowhere.
pub uninterp spec fn captured_groups(
    pattern: Seq<char>,
    line: Seq<char>,
    first: int,
    second: int,
) -> Option<(Seq<char>, Seq<char>)>;

/// Whether `Regex::new` accepts the pattern.
pub uninterp spec fn pattern_compiles(pattern: Seq<char>) -> bool;

/// What `Regex::replace_all` makes of `text` for a pattern that compiles.
pub uninterp spec fn pattern_replaced(
    pattern: Seq<char>,
    text: Seq<char>,
    replacement: Seq<char>,
) -> Seq<char>;

/// Compiles `pattern` with `Regex::new`, matches it against `line` with
/// `Regex::captures` and reads two groups of the match with `Captures::get`,
/// taking the empty text for a group that took no part. The result is
/// named, not spelled out.
#[verifier::external_body]
pub(crate) fn capture_groups(pattern: &str, line: &str, first: usize, second: usize) -> (r: Option<
    (String, String),
>)
    ensures
        match captured_groups(pattern@, line@, first as int, second as int) {
            Some(p) => r matches Some(q) && q.0@ == p.0 && q.1@ == p.1,
            None => r is None,
        },
{
    let re = Regex::new(pattern).ok()?;
    let caps = re.captures(line)?;
    let a = caps.get(first).map_or("", |m| m.as_str());
    let b = caps.get(second).map_or("", |m| m.as_str());
    Some((a.to_string(), b.to_string()))
}

/// Compiles `pattern` with `Regex::new` and replaces every match in `text`
/// with `Regex::replace_all`, which expands `$` references in `replacement`.
/// `None` exactly where the pattern does not compile.
#[verifier::external_body]
pub(crate) fn replace_pattern(pattern: &str, text: &str, replacement: &str) -> (r: Option<String>)
    ensures
        pattern_compiles(pattern@) ==> r is Some && r->0@ == pattern_replaced(
            pattern@,
            text@,
            replacement@,
        ),
        !pattern_compiles(pattern@) ==> r is None,
{
    match Regex::new(pattern) {
        Ok(re) => Some(re.replace_all(text, replacement).into_owned()),
        Err(_) => None,
    }
}

} // verus!
