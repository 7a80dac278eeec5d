//! The diff engine, second half: the two-level locator that finds a search
//! text in the document, and the application of a patch at that place.

use crate::bytes::{byte_len, lemma_byte_len_prefix, prefix_byte_len, str_byte_len};
use crate::diff::{MatchResult, PatchError, PendingPatch, EXACT_CONFIDENCE, NORMALIZED_CONFIDENCE};
use crate::lines::{lemma_line_spans, line_spans, line_spans_chars, lines, span_within, split_lines};
use crate::text::{
    chars_eq, chars_to_string, find, find_chars, push_chars, str_to_chars, subvec, trim, trim_chars,
};
use vstd::prelude::*;

verus! {

// ---------------------------------------------------------------------------
// What a match is
// ---------------------------------------------------------------------------

/// The first place at which `search` stands in `doc`, character by character.
pub open spec fn exact_span(doc: Seq<char>, search: Seq<char>) -> Option<(int, int)> {
    match find(doc, search) {
        Some(i) => Some((i, i + search.len())),
        None => None,
    }
}

/// The lines of `search` equal the lines of `doc` from line `i` on, once
/// each line is trimmed.
pub open spec fn window_matches(doc: Seq<char>, search: Seq<char>, i: int) -> bool {
    &&& 0 <= i
    &&& i + lines(search).len() <= lines(doc).len()
    &&& forall|j: int|
        0 <= j < lines(search).len() ==> trim(#[trigger] lines(doc)[i + j]) == trim(
            lines(search)[j],
        )
}

/// The first line of `doc`, at or after line `i`, from which the lines of
/// `search` match.
pub open spec fn first_window_from(doc: Seq<char>, search: Seq<char>, i: int) -> Option<int>
    decreases lines(doc).len() + 1 - i,
{
    if i < 0 || i + lines(search).len() > lines(doc).len() {
        None
    } else if window_matches(doc, search, i) {
        Some(i)
    } else {
        first_window_from(doc, search, i + 1)
    }
}

/// The first run of lines of `doc` that equals `search` line by line after
/// trimming: from the start of its first line to the end of its last one. A
/// search text without lines matches nowhere.
pub open spec fn normalized_span(doc: Seq<char>, search: Seq<char>) -> Option<(int, int)> {
    if lines(search).len() == 0 {
        None
    } else {
        match first_window_from(doc, search, 0) {
            Some(i) => Some(
                (line_spans(doc)[i].0, line_spans(doc)[i + lines(search).len() - 1].1),
            ),
            None => None,
        }
    }
}

/// Where a patch with this search text applies: at the exact match, or else
/// at the normalised one.
pub open spec fn locate(doc: Seq<char>, search: Seq<char>) -> Option<(int, int)> {
    match exact_span(doc, search) {
        Some(sp) => Some(sp),
        None => normalized_span(doc, search),
    }
}

/// `doc` with the characters from `sp.0` up to `sp.1` replaced by `replace`.
pub open spec fn splice(doc: Seq<char>, sp: (int, int), replace: Seq<char>) -> Seq<char> {
    doc.take(sp.0) + replace + doc.skip(sp.1)
}

/// The document after the patch, or `None` where its search text is found
/// neither exactly nor line by line.
pub open spec fn patched(doc: Seq<char>, search: Seq<char>, replace: Seq<char>) -> Option<
    Seq<char>,
> {
    match locate(doc, search) {
        Some(sp) => Some(splice(doc, sp, replace)),
        None => None,
    }
}

/// The match that stands for the character span `sp` of `doc`.
pub open spec fn match_of(doc: Seq<char>, sp: (int, int), confidence: u8) -> MatchResult {
    MatchResult {
        start_index: byte_len(doc.take(sp.0)) as usize,
        end_index: byte_len(doc.take(sp.1)) as usize,
        confidence_percent: confidence,
    }
}

/// A window that matches is first found by `first_window_from`, and where
/// none is found none matches.
pub proof fn lemma_first_window_from(doc: Seq<char>, search: Seq<char>, from: int)
    requires
        0 <= from,
    ensures
        match first_window_from(doc, search, from) {
            Some(i) => from <= i && window_matches(doc, search, i) && forall|j: int|
                from <= j < i ==> !window_matches(doc, search, j),
            None => forall|j: int| from <= j ==> !window_matches(doc, search, j),
        },
    decreases lines(doc).len() + 1 - from,
{
    if from + lines(search).len() > lines(doc).len() {
    } else if window_matches(doc, search, from) {
    } else {
        lemma_first_window_from(doc, search, from + 1);
    }
}

/// Every span that `locate` gives lies inside the document.
pub proof fn lemma_locate_bounds(doc: Seq<char>, search: Seq<char>)
    ensures
        match locate(doc, search) {
            Some(sp) => 0 <= sp.0 <= sp.1 <= doc.len(),
            None => true,
        },
        match exact_span(doc, search) {
            Some(sp) => 0 <= sp.0 <= sp.1 <= doc.len() && doc.subrange(sp.0, sp.1) == search,
            None => true,
        },
        match normalized_span(doc, search) {
            Some(sp) => 0 <= sp.0 <= sp.1 <= doc.len(),
            None => true,
        },
{
    crate::text::lemma_find_from(doc, search, 0);
    lemma_line_spans(doc);
    lemma_first_window_from(doc, search, 0);
    if lines(search).len() > 0 {
        match first_window_from(doc, search, 0) {
            Some(i) => {
                let a = line_spans(doc)[i];
                let b = line_spans(doc)[i + lines(search).len() - 1];
                assert(span_within(doc, 0, a));
                assert(span_within(doc, 0, b));
            },
            None => {},
        }
    }
}

// ---------------------------------------------------------------------------
// Finding it
// ---------------------------------------------------------------------------

fn locate_exact_chars(doc: &Vec<char>, search: &Vec<char>) -> (r: Option<(usize, usize)>)
    ensures
        match exact_span(doc@, search@) {
            Some(sp) => r == Some((sp.0 as usize, sp.1 as usize)) && 0 <= sp.0 <= sp.1
                <= doc.len(),
            None => r is None,
        },
{
    match find_chars(doc, search) {
        Some(i) => Some((i, i + search.len())),
        None => None,
    }
}

/// Whether the trimmed line `doc[a..b]` equals the trimmed text `pattern`.
fn line_matches(doc: &Vec<char>, a: usize, b: usize, pattern: &Vec<char>) -> (r: bool)
    requires
        a <= b <= doc.len(),
    ensures
        r == (trim(doc@.subrange(a as int, b as int)) == pattern@),
{
    let line = subvec(doc, a, b);
    let t = trim_chars(&line);
    chars_eq(&t, pattern)
}

fn locate_normalized_chars(doc: &Vec<char>, search: &Vec<char>) -> (r: Option<(usize, usize)>)
    ensures
        match normalized_span(doc@, search@) {
            Some(sp) => r == Some((sp.0 as usize, sp.1 as usize)) && 0 <= sp.0 <= sp.1
                <= doc.len(),
            None => r is None,
        },
{
    let spans = line_spans_chars(doc);
    let search_lines = split_lines(search);
    let n = search_lines.len();
    if n == 0 {
        return None;
    }
    let mut patterns: Vec<Vec<char>> = Vec::new();
    let mut j: usize = 0;
    while j < n
        invariant
            j <= n,
            n == search_lines.len(),
            search_lines@.len() == lines(search@).len(),
            forall|k: int|
                0 <= k < search_lines@.len() ==> (#[trigger] search_lines@[k])@ == lines(
                    search@,
                )[k],
            patterns@.len() == j,
            forall|k: int| 0 <= k < j ==> (#[trigger] patterns@[k])@ == trim(lines(search@)[k]),
        decreases n - j,
    {
        let t = trim_chars(&search_lines[j]);
        patterns.push(t);
        j += 1;
    }
    proof {
        lemma_line_spans(doc@);
        lemma_locate_bounds(doc@, search@);
    }
    if spans.len() < n {
        return None;
    }
    let last: usize = spans.len() - n;
    let mut i: usize = 0;
    while i <= last
        invariant
            i <= last + 1,
            n > 0,
            last == spans.len() - n,
            n == lines(search@).len(),
            spans@.len() == line_spans(doc@).len(),
            lines(doc@).len() == line_spans(doc@).len(),
            forall|k: int|
                0 <= k < spans@.len() ==> (#[trigger] spans@[k]).0 == line_spans(doc@)[k].0
                    && spans@[k].1 == line_spans(doc@)[k].1,
            forall|k: int| 0 <= k < spans@.len() ==> (#[trigger] spans@[k]).0 <= spans@[k].1 <= doc.len(),
            patterns@.len() == n,
            forall|k: int| 0 <= k < n ==> (#[trigger] patterns@[k])@ == trim(lines(search@)[k]),
            first_window_from(doc@, search@, 0) == first_window_from(doc@, search@, i as int),
            match normalized_span(doc@, search@) {
                Some(sp) => 0 <= sp.0 <= sp.1 <= doc.len(),
                None => true,
            },
        decreases last + 1 - i,
    {
        let mut all = true;
        let mut k: usize = 0;
        while k < n && all
            invariant
                k <= n,
                i + n <= spans.len(),
                n == lines(search@).len(),
                spans@.len() == line_spans(doc@).len(),
                lines(doc@).len() == line_spans(doc@).len(),
                forall|m: int|
                    0 <= m < spans@.len() ==> (#[trigger] spans@[m]).0 == line_spans(doc@)[m].0
                        && spans@[m].1 == line_spans(doc@)[m].1,
                forall|m: int|
                    0 <= m < spans@.len() ==> (#[trigger] spans@[m]).0 <= spans@[m].1 <= doc.len(),
                patterns@.len() == n,
                forall|m: int|
                    0 <= m < n ==> (#[trigger] patterns@[m])@ == trim(lines(search@)[m]),
                all ==> forall|m: int|
                    0 <= m < k ==> trim(#[trigger] lines(doc@)[i + m]) == trim(
                        lines(search@)[m],
                    ),
                !all ==> !window_matches(doc@, search@, i as int),
            decreases n - k,
        {
            let (a, b) = spans[i + k];
            if !line_matches(doc, a, b, &patterns[k]) {
                proof {
                    assert(lines(doc@)[i + k] == doc@.subrange(a as int, b as int));
                }
                all = false;
                k = n;
            } else {
                proof {
                    assert(lines(doc@)[i + k] == doc@.subrange(a as int, b as int));
                }
                k += 1;
            }
        }
        if all {
            assert(window_matches(doc@, search@, i as int));
            let start = spans[i].0;
            let end = spans[i + n - 1].1;
            return Some((start, end));
        }
        if i == last {
            assert(first_window_from(doc@, search@, i + 1) is None);
            return None;
        }
        i += 1;
    }
    None
}

/// The byte offsets of the character span `sp` of `doc`.
fn span_to_match(doc: &Vec<char>, sp: (usize, usize), confidence: u8) -> (m: MatchResult)
    requires
        sp.0 <= sp.1 <= doc.len(),
        byte_len(doc@) <= usize::MAX,
    ensures
        m == match_of(doc@, (sp.0 as int, sp.1 as int), confidence),
        m.start_index <= m.end_index <= byte_len(doc@),
        m.end_index - m.start_index == byte_len(doc@.subrange(sp.0 as int, sp.1 as int)),
{
    proof {
        lemma_byte_len_prefix(doc@, sp.0 as int, sp.1 as int);
    }
    MatchResult {
        start_index: prefix_byte_len(doc, sp.0),
        end_index: prefix_byte_len(doc, sp.1),
        confidence_percent: confidence,
    }
}

/// The two-level locator of search texts.
pub struct FuzzyMatcher;

impl FuzzyMatcher {
    /// The first place at which `search_text` stands in `doc` as it is.
    pub fn locate_exact(doc: &str, search_text: &str) -> (r: Option<MatchResult>)
        ensures
            match exact_span(doc@, search_text@) {
                Some(sp) => r == Some(match_of(doc@, sp, EXACT_CONFIDENCE)),
                None => r is None,
            },
            r matches Some(m) ==> m.start_index <= m.end_index <= byte_len(doc@)
                && m.end_index - m.start_index == byte_len(search_text@),
    {
        // The text takes no more bytes than a `usize` holds, and so no offset does.
        let doc_bytes = str_byte_len(doc);
        let d = str_to_chars(doc);
        let s = str_to_chars(search_text);
        proof {
            lemma_locate_bounds(doc@, search_text@);
        }
        match locate_exact_chars(&d, &s) {
            Some(sp) => Some(span_to_match(&d, sp, EXACT_CONFIDENCE)),
            None => None,
        }
    }

    /// The first run of lines of `doc` that equals `search_text` line by
    /// line, leading and trailing white space of each line aside.
    pub fn locate_normalized(doc: &str, search_text: &str) -> (r: Option<MatchResult>)
        ensures
            match normalized_span(doc@, search_text@) {
                Some(sp) => r == Some(match_of(doc@, sp, NORMALIZED_CONFIDENCE)),
                None => r is None,
            },
            r matches Some(m) ==> m.start_index <= m.end_index <= byte_len(doc@),
    {
        // The text takes no more bytes than a `usize` holds, and so no offset does.
        let doc_bytes = str_byte_len(doc);
        let d = str_to_chars(doc);
        let s = str_to_chars(search_text);
        match locate_normalized_chars(&d, &s) {
            Some(sp) => Some(span_to_match(&d, sp, NORMALIZED_CONFIDENCE)),
            None => None,
        }
    }
}

// ---------------------------------------------------------------------------
// Applying a patch
// ---------------------------------------------------------------------------

/// `doc` after a patch with this search and replace text, or `None` where
/// the search text is not found.
pub fn apply_patch_chars(doc: &Vec<char>, search: &Vec<char>, replace: &Vec<char>) -> (r: Option<
    Vec<char>,
>)
    ensures
        match patched(doc@, search@, replace@) {
            Some(s) => r is Some && r->0@ == s,
            None => r is None,
        },
{
    let span = match locate_exact_chars(doc, search) {
        Some(sp) => Some(sp),
        None => locate_normalized_chars(doc, search),
    };
    match span {
        Some((a, b)) => {
            let mut out = subvec(doc, 0, a);
            push_chars(&mut out, replace);
            let tail = subvec(doc, b, doc.len());
            push_chars(&mut out, &tail);
            Some(out)
        },
        None => None,
    }
}

/// Applies `patch` to `doc`: the first exact occurrence of its search text,
/// or else the first run of lines that equals it after trimming, is replaced.
/// Where neither is found the patch is refused and `doc` stays as it was.
pub fn apply_patch(doc: &str, patch: PendingPatch) -> (r: Result<String, PatchError>)
    ensures
        match patched(doc@, patch.search_block@, patch.replace_block@) {
            Some(s) => r is Ok && r->Ok_0@ == s,
            None => r == Err::<String, PatchError>(PatchError::NotFound),
        },
{
    let d = str_to_chars(doc);
    let s = str_to_chars(patch.search_block.as_str());
    let p = str_to_chars(patch.replace_block.as_str());
    match apply_patch_chars(&d, &s, &p) {
        Some(out) => Ok(chars_to_string(&out)),
        None => Err(PatchError::NotFound),
    }
}

} // verus!
