//! The diff engine, first half: search/replace blocks and the line machine
//! that reads them out of a model's answer.

use crate::lines::{lines, split_inclusive, split_inclusive_chars, split_lines};
use crate::rewrite::{replace_all, replace_chars};
use crate::text::{
    chars_to_string, contains, contains_chars, push_chars, str_to_chars, trim, trim_chars,
    trim_newlines, trim_newlines_chars, trim_start, trim_start_chars,
};
use vstd::prelude::*;

verus! {

/// One search/replace block that the parser has completed.
#[derive(Debug, Clone, PartialEq)]
pub struct PendingPatch {
    pub search_block: String,
    pub replace_block: String,
}

impl View for PendingPatch {
    type V = (Seq<char>, Seq<char>);

    open spec fn view(&self) -> (Seq<char>, Seq<char>) {
        (self.search_block@, self.replace_block@)
    }
}

/// Where a search text was found in a document, as byte offsets into the
/// document's UTF-8 text, and how sure the match is, in percent.
#[derive(Debug, Clone, Copy, PartialEq, Eq, Structural)]
pub struct MatchResult {
    pub start_index: usize,
    pub end_index: usize,
    pub confidence_percent: u8,
}

pub const EXACT_CONFIDENCE: u8 = 100;

pub const NORMALIZED_CONFIDENCE: u8 = 90;

#[derive(Debug)]
pub enum PatchError {
    NotFound,
    ApplyFailed(String),
}

impl PatchError {
    /// The text shown for this error.
    pub open spec fn message_spec(self) -> Seq<char> {
        match self {
            PatchError::NotFound => "Search block not found in document"@,
            PatchError::ApplyFailed(msg) => "Failed to apply patch: "@ + msg@,
        }
    }

    /// The text shown for this error.
    pub fn message(&self) -> (r: String)
        ensures
            r@ == self.message_spec(),
    {
        match self {
            PatchError::NotFound => "Search block not found in document".to_string(),
            PatchError::ApplyFailed(msg) => {
                let mut out = "Failed to apply patch: ".to_string();
                out.append(msg.as_str());
                out
            },
        }
    }
}

// ---------------------------------------------------------------------------
// Marker lines
// ---------------------------------------------------------------------------

/// How many times `c` stands at the start of `s` without a break.
pub open spec fn leading_run(s: Seq<char>, c: char) -> nat
    decreases s.len(),
{
    if s.len() > 0 && s[0] == c {
        1 + leading_run(s.drop_first(), c)
    } else {
        0
    }
}

pub open spec fn all_chars(s: Seq<char>, c: char) -> bool {
    forall|i: int| 0 <= i < s.len() ==> #[trigger] s[i] == c
}

/// A line of three or more `=` and nothing else but white space around them.
pub open spec fn separator_line(s: Seq<char>) -> bool {
    trim(s).len() >= 3 && all_chars(trim(s), '=')
}

/// A line that, after leading white space, begins with three or more `<` and
/// holds the word `SEARCH`.
pub open spec fn search_marker_line(s: Seq<char>) -> bool {
    contains(trim_start(s), "SEARCH"@) && leading_run(trim_start(s), '<') >= 3
}

/// A line that, after leading white space, begins with three or more `>` and
/// holds the word `REPLACE`.
pub open spec fn replace_marker_line(s: Seq<char>) -> bool {
    contains(trim_start(s), "REPLACE"@) && leading_run(trim_start(s), '>') >= 3
}

pub proof fn lemma_leading_run_three(s: Seq<char>, c: char)
    ensures
        leading_run(s, c) >= 3 <==> (s.len() >= 3 && s[0] == c && s[1] == c && s[2] == c),
{
    reveal_with_fuel(leading_run, 4);
    if s.len() > 0 {
        let t = s.drop_first();
        if t.len() > 0 {
            assert(t[0] == s[1]);
            let u = t.drop_first();
            if u.len() > 0 {
                assert(u[0] == s[2]);
            }
        }
    }
}

fn starts_with_run_of_three(v: &Vec<char>, c: char) -> (b: bool)
    ensures
        b == (leading_run(v@, c) >= 3),
{
    proof {
        lemma_leading_run_three(v@, c);
    }
    v.len() >= 3 && v[0] == c && v[1] == c && v[2] == c
}

fn separator_chars(v: &Vec<char>) -> (b: bool)
    ensures
        b == separator_line(v@),
{
    let t = trim_chars(v);
    if t.len() < 3 {
        return false;
    }
    let mut i: usize = 0;
    while i < t.len()
        invariant
            i <= t.len(),
            t.len() >= 3,
            t@ == trim(v@),
            forall|j: int| 0 <= j < i ==> #[trigger] t@[j] == '=',
        decreases t.len() - i,
    {
        if t[i] != '=' {
            assert(t@[i as int] != '=');
            return false;
        }
        i += 1;
    }
    true
}

fn search_marker_chars(v: &Vec<char>) -> (b: bool)
    ensures
        b == search_marker_line(v@),
{
    let t = trim_start_chars(v);
    let word = str_to_chars("SEARCH");
    contains_chars(&t, &word) && starts_with_run_of_three(&t, '<')
}

fn replace_marker_chars(v: &Vec<char>) -> (b: bool)
    ensures
        b == replace_marker_line(v@),
{
    let t = trim_start_chars(v);
    let word = str_to_chars("REPLACE");
    contains_chars(&t, &word) && starts_with_run_of_three(&t, '>')
}

/// Whether `s` is the line between the search part and the replace part.
pub fn is_separator_line(s: &str) -> (b: bool)
    ensures
        b == separator_line(s@),
{
    let v = str_to_chars(s);
    separator_chars(&v)
}

/// Whether `s` opens a block.
pub fn is_search_marker_line(s: &str) -> (b: bool)
    ensures
        b == search_marker_line(s@),
{
    let v = str_to_chars(s);
    search_marker_chars(&v)
}

/// Whether `s` closes a block.
pub fn is_replace_marker_line(s: &str) -> (b: bool)
    ensures
        b == replace_marker_line(s@),
{
    let v = str_to_chars(s);
    replace_marker_chars(&v)
}

// ---------------------------------------------------------------------------
// The parser
// ---------------------------------------------------------------------------

#[derive(Debug, Clone, Copy, PartialEq, Eq, Structural)]
pub enum ParserState {
    Idle,
    InSearch,
    InReplace,
}

/// What the parser has read so far.
pub struct ParserModel {
    pub state: ParserState,
    pub search: Seq<char>,
    pub replace: Seq<char>,
}

/// The line machine that reads search/replace blocks, one line at a time.
pub struct DiffParser {
    state: ParserState,
    current_search: Vec<char>,
    current_replace: Vec<char>,
}

impl View for DiffParser {
    type V = ParserModel;

    closed spec fn view(&self) -> ParserModel {
        ParserModel {
            state: self.state,
            search: self.current_search@,
            replace: self.current_replace@,
        }
    }
}

/// A parser that has read nothing.
pub open spec fn initial_parser() -> ParserModel {
    ParserModel { state: ParserState::Idle, search: Seq::empty(), replace: Seq::empty() }
}

/// `line`, ended by a newline if it has none.
pub open spec fn with_newline(line: Seq<char>) -> Seq<char> {
    if line.len() > 0 && line.last() == '\n' {
        line
    } else {
        line.push('\n')
    }
}

/// One step of the line machine: the parser after `line`, and the block that
/// the line completed, if it completed one. A block is handed out without the
/// newlines at the end of its two texts; other white space stays.
pub open spec fn parser_step(m: ParserModel, line: Seq<char>) -> (
    ParserModel,
    Option<(Seq<char>, Seq<char>)>,
) {
    match m.state {
        ParserState::Idle => if search_marker_line(trim(line)) {
            (
                ParserModel {
                    state: ParserState::InSearch,
                    search: Seq::empty(),
                    replace: Seq::empty(),
                },
                None,
            )
        } else {
            (m, None)
        },
        ParserState::InSearch => if separator_line(trim(line)) {
            (ParserModel { state: ParserState::InReplace, ..m }, None)
        } else {
            (ParserModel { search: m.search + with_newline(line), ..m }, None)
        },
        ParserState::InReplace => if replace_marker_line(trim(line)) {
            (
                ParserModel { state: ParserState::Idle, ..m },
                Some((trim_newlines(m.search), trim_newlines(m.replace))),
            )
        } else {
            (ParserModel { replace: m.replace + with_newline(line), ..m }, None)
        },
    }
}

/// A line that reads as one of the three markers, in the canonical form or
/// in a tolerated one.
pub open spec fn marker_line(line: Seq<char>) -> bool {
    search_marker_line(line) || replace_marker_line(line) || separator_line(line)
}

/// A replace text that holds a marker of the block syntax: one of the three
/// canonical markers anywhere, or a line that reads as a marker.
pub open spec fn has_marker(replace: Seq<char>) -> bool {
    ||| contains(replace, "<<<<<<< SEARCH"@)
    ||| contains(replace, ">>>>>>> REPLACE"@)
    ||| contains(replace, "======="@)
    ||| exists|k: int| 0 <= k < lines(replace).len() && marker_line(#[trigger] lines(replace)[k])
}

/// The blocks that the parser in state `m` completes on `lines`, without
/// those whose replace text holds a marker.
pub open spec fn parse_lines(m: ParserModel, lines: Seq<Seq<char>>) -> Seq<(Seq<char>, Seq<char>)>
    decreases lines.len(),
{
    if lines.len() == 0 {
        seq![]
    } else {
        let (next, done) = parser_step(m, lines[0]);
        let rest = parse_lines(next, lines.drop_first());
        match done {
            Some(p) => if has_marker(p.1) {
                rest
            } else {
                seq![p] + rest
            },
            None => rest,
        }
    }
}

/// `s` with `"\r\n"` and then every remaining `'\r'` turned into `'\n'`.
pub open spec fn normalize_newlines(s: Seq<char>) -> Seq<char> {
    replace_all(replace_all(s, "\r\n"@, "\n"@), "\r"@, "\n"@)
}

/// Every complete block of `text`, in order, without those whose replace
/// text holds a marker. A block left open at the end is dropped.
pub open spec fn parse_all_spec(text: Seq<char>) -> Seq<(Seq<char>, Seq<char>)> {
    parse_lines(initial_parser(), split_inclusive(normalize_newlines(text)))
}

/// No block that the parser hands out holds a marker in its replace text.
pub proof fn lemma_parse_lines_marker_free(m: ParserModel, lines: Seq<Seq<char>>)
    ensures
        forall|k: int|
            0 <= k < parse_lines(m, lines).len() ==> !has_marker(
                (#[trigger] parse_lines(m, lines)[k]).1,
            ),
    decreases lines.len(),
{
    if lines.len() > 0 {
        let (next, done) = parser_step(m, lines[0]);
        let rest = parse_lines(next, lines.drop_first());
        lemma_parse_lines_marker_free(next, lines.drop_first());
        let r = parse_lines(m, lines);
        assert forall|k: int| 0 <= k < r.len() implies !has_marker((#[trigger] r[k]).1) by {
            if r.len() == rest.len() {
                assert(r == rest);
            } else {
                if k > 0 {
                    assert(r[k] == rest[k - 1]);
                }
            }
        }
    }
}

fn has_marker_chars(v: &Vec<char>) -> (b: bool)
    ensures
        b == has_marker(v@),
{
    let a = str_to_chars("<<<<<<< SEARCH");
    let b = str_to_chars(">>>>>>> REPLACE");
    let c = str_to_chars("=======");
    if contains_chars(v, &a) || contains_chars(v, &b) || contains_chars(v, &c) {
        return true;
    }
    let body = split_lines(v);
    let mut k: usize = 0;
    while k < body.len()
        invariant
            k <= body.len(),
            body@.len() == lines(v@).len(),
            forall|j: int| 0 <= j < body@.len() ==> (#[trigger] body@[j])@ == lines(v@)[j],
            forall|j: int| 0 <= j < k ==> !marker_line(#[trigger] lines(v@)[j]),
        decreases body.len() - k,
    {
        let line = &body[k];
        if search_marker_chars(line) || replace_marker_chars(line) || separator_chars(line) {
            assert(marker_line(lines(v@)[k as int]));
            return true;
        }
        k += 1;
    }
    false
}

impl DiffParser {
    pub fn new() -> (p: Self)
        ensures
            p@ == initial_parser(),
    {
        DiffParser {
            state: ParserState::Idle,
            current_search: Vec::new(),
            current_replace: Vec::new(),
        }
    }

    fn process_chars(&mut self, line: &Vec<char>) -> (r: Option<PendingPatch>)
        ensures
            final(self)@ == parser_step(old(self)@, line@).0,
            match parser_step(old(self)@, line@).1 {
                Some(p) => r is Some && r->0@ == p,
                None => r is None,
            },
    {
        let trimmed = trim_chars(line);
        match self.state {
            ParserState::Idle => {
                if search_marker_chars(&trimmed) {
                    self.state = ParserState::InSearch;
                    self.current_search = Vec::new();
                    self.current_replace = Vec::new();
                }
                None
            },
            ParserState::InSearch => {
                if separator_chars(&trimmed) {
                    self.state = ParserState::InReplace;
                } else {
                    push_chars(&mut self.current_search, line);
                    if !(line.len() > 0 && line[line.len() - 1] == '\n') {
                        self.current_search.push('\n');
                    }
                    assert(self.current_search@ == old(self).current_search@ + with_newline(
                        line@,
                    ));
                }
                None
            },
            ParserState::InReplace => {
                if replace_marker_chars(&trimmed) {
                    self.state = ParserState::Idle;
                    let s = trim_newlines_chars(&self.current_search);
                    let r = trim_newlines_chars(&self.current_replace);
                    Some(
                        PendingPatch {
                            search_block: chars_to_string(&s),
                            replace_block: chars_to_string(&r),
                        },
                    )
                } else {
                    push_chars(&mut self.current_replace, line);
                    if !(line.len() > 0 && line[line.len() - 1] == '\n') {
                        self.current_replace.push('\n');
                    }
                    assert(self.current_replace@ == old(self).current_replace@ + with_newline(
                        line@,
                    ));
                    None
                }
            },
        }
    }

    /// Feeds one line to the parser. Returns the block that the line
    /// completed, if it completed one.
    pub fn process_line(&mut self, line: &str) -> (r: Option<PendingPatch>)
        ensures
            final(self)@ == parser_step(old(self)@, line@).0,
            match parser_step(old(self)@, line@).1 {
                Some(p) => r is Some && r->0@ == p,
                None => r is None,
            },
    {
        let v = str_to_chars(line);
        self.process_chars(&v)
    }

    /// Every complete block of `text`, in order. A block whose replace text
    /// holds a marker, canonical or tolerated, is left out; a block left open
    /// at the end is dropped.
    pub fn parse_all(text: &str) -> (r: Vec<PendingPatch>)
        ensures
            r@.len() == parse_all_spec(text@).len(),
            forall|k: int| 0 <= k < r@.len() ==> (#[trigger] r@[k])@ == parse_all_spec(text@)[k],
            forall|k: int| 0 <= k < r@.len() ==> !has_marker((#[trigger] r@[k]).replace_block@),
    {
        let tv = str_to_chars(text);
        let crlf = str_to_chars("\r\n");
        let cr = str_to_chars("\r");
        let lf = str_to_chars("\n");
        let step1 = replace_chars(&tv, &crlf, &lf);
        let normal = replace_chars(&step1, &cr, &lf);
        let pieces = split_inclusive_chars(&normal);
        let ghost all = split_inclusive(normal@);
        let mut parser = DiffParser::new();
        let mut patches: Vec<PendingPatch> = Vec::new();
        let ghost mut done: Seq<(Seq<char>, Seq<char>)> = Seq::empty();
        let mut k: usize = 0;
        assert(all.skip(0) == all);
        while k < pieces.len()
            invariant
                k <= pieces.len(),
                pieces@.len() == all.len(),
                forall|j: int| 0 <= j < pieces@.len() ==> (#[trigger] pieces@[j])@ == all[j],
                patches@.len() == done.len(),
                forall|j: int| 0 <= j < patches@.len() ==> (#[trigger] patches@[j])@ == done[j],
                parse_all_spec(text@) == done + parse_lines(parser@, all.skip(k as int)),
                all == split_inclusive(normalize_newlines(text@)),
            decreases pieces.len() - k,
        {
            let ghost rest = all.skip(k as int);
            let ghost before = parser@;
            proof {
                assert(rest[0] == all[k as int]);
                assert(rest.drop_first() == all.skip(k + 1));
            }
            match parser.process_chars(&pieces[k]) {
                Some(p) => {
                    let rv = str_to_chars(p.replace_block.as_str());
                    if !has_marker_chars(&rv) {
                        proof {
                            let tail = parse_lines(parser@, all.skip(k + 1));
                            assert(done + (seq![p@] + tail) == done.push(p@) + tail);
                            done = done.push(p@);
                        }
                        patches.push(p);
                    }
                },
                None => {},
            }
            k += 1;
        }
        proof {
            assert(all.skip(pieces.len() as int).len() == 0);
            assert(done + Seq::<(Seq<char>, Seq<char>)>::empty() == done);
            lemma_parse_lines_marker_free(initial_parser(), all);
        }
        patches
    }
}

} // verus!
