//! Reading single strings out of JSON texts, parsed by `serde_json`.

use serde_json::Value;
use vstd::prelude::*;

verus! {

/// The string that a JSON text holds at `[list_key][index][outer_key][inner_key]`,
/// if the text parses and holds a string there.
pub uninterp spec fn nested_string(
    text: Seq<char>,
    list_key: Seq<char>,
    index: int,
    outer_key: Seq<char>,
    inner_key: Seq<char>,
) -> Option<Seq<char>>;

/// The string that a JSON text holds under a key of its top-level object,
/// if the text parses and holds a string there.
pub uninterp spec fn string_field(text: Seq<char>, key: Seq<char>) -> Option<Seq<char>>;

/// Parses `text` with `serde_json::from_str` and reads the string at
/// `[list_key][index][outer_key][inner_key]`, by `Value`'s indexing, which
/// gives null where a step of the path is missing. The result is named, not
/// spelled out.
#[verifier::external_body]
pub(crate) fn read_nested_string(
    text: &str,
    list_key: &str,
    index: usize,
    outer_key: &str,
    inner_key: &str,
) -> (r: Option<String>)
    ensures
        match nested_string(text@, list_key@, index as int, outer_key@, inner_key@) {
            Some(c) => r is Some && r->0@ == c,
            None => r is None,
        },
{
    let val: Value = serde_json::from_str(text).ok()?;
    Some(val[list_key][index][outer_key][inner_key].as_str()?.to_string())
}

/// Parses `text` with `serde_json::from_str` and reads the string under
/// `key`. The result is named, not spelled out.
#[verifier::external_body]
pub(crate) fn read_string_field(text: &str, key: &str) -> (r: Option<String>)
    ensures
        match string_field(text@, key@) {
            Some(c) => r is Some && r->0@ == c,
            None => r is None,
        },
{
    let val: Value = serde_json::from_str(text).ok()?;
    Some(val[key].as_str()?.to_string())
}

} // verus!
