//! The parser reads back what a well-formed block says: the proof that a
//! block written in the canonical way parses to its own search and replace
//! text, newlines at their end aside.

use crate::diff::{
    all_chars, has_marker, initial_parser, leading_run, lemma_leading_run_three, marker_line,
    normalize_newlines, parse_all_spec, parse_lines, parser_step, replace_marker_line,
    search_marker_line, separator_line, with_newline, ParserModel, ParserState,
};
use crate::document::apply_patches;
use crate::lines::{
    lemma_lines_are_scanned, lemma_lines_first, lemma_lines_single, lines, lines_scan,
    split_inclusive, split_inclusive_scan,
};
use crate::rewrite::lemma_replace_absent;
use crate::text::{
    is_white_space, lemma_leading_white, lemma_leading_white_props, lemma_trailing_white,
    lemma_trailing_run_len, lemma_trailing_white_props, lemma_trim_idempotent, lemma_trim_len,
    occurs_at, trailing_run, trim, trim_end, trim_newlines, trim_start,
};
use vstd::prelude::*;

verus! {

/// A text that holds neither a newline nor a carriage return.
pub open spec fn is_one_line(l: Seq<char>) -> bool {
    forall|i: int| 0 <= i < l.len() ==> #[trigger] l[i] != '\n' && l[i] != '\r'
}

pub open spec fn no_cr(s: Seq<char>) -> bool {
    forall|i: int| 0 <= i < s.len() ==> #[trigger] s[i] != '\r'
}

/// The lines, each ended by a newline, one after the other.
pub open spec fn body(ls: Seq<Seq<char>>) -> Seq<char>
    decreases ls.len(),
{
    if ls.len() == 0 {
        Seq::empty()
    } else {
        ls[0].push('\n') + body(ls.drop_first())
    }
}

/// The lines, each ended by a newline.
pub open spec fn terminated(ls: Seq<Seq<char>>) -> Seq<Seq<char>> {
    Seq::new(ls.len(), |i: int| ls[i].push('\n'))
}

pub open spec fn open_line() -> Seq<char> {
    "<<<<<<< SEARCH"@.push('\n')
}

pub open spec fn middle_line() -> Seq<char> {
    "======="@.push('\n')
}

pub open spec fn close_line() -> Seq<char> {
    ">>>>>>> REPLACE"@.push('\n')
}

/// The closing marker as the last line of a block: with its newline, or
/// without one where the answer ends there.
pub open spec fn last_line(ended: bool) -> Seq<char> {
    if ended {
        close_line()
    } else {
        ">>>>>>> REPLACE"@
    }
}

/// A block in the canonical form: the opening marker, the lines to search
/// for, the separator, the lines to put in their place, the closing marker,
/// each on a line of its own. The last line ends with a newline or not.
pub open spec fn canonical_block(
    search: Seq<Seq<char>>,
    replace: Seq<Seq<char>>,
    ended: bool,
) -> Seq<char> {
    open_line() + body(search) + middle_line() + body(replace) + last_line(ended)
}

/// A newline at the end of a line is trimmed away with the rest.
pub proof fn lemma_trim_push_newline(l: Seq<char>)
    ensures
        trim(l.push('\n')) == trim(l),
{
    let p = l.push('\n');
    lemma_leading_white_props(l);
    let a = leading_white_of(l);
    assert(is_white_space('\n'));
    if a == l.len() {
        assert forall|j: int| 0 <= j < p.len() implies is_white_space(#[trigger] p[j]) by {
            if j < l.len() {
                assert(p[j] == l[j]);
            }
        }
        lemma_leading_white(p, p.len() as int);
        assert(trim_start(p) =~= Seq::<char>::empty());
        assert(trim_start(l) =~= Seq::<char>::empty());
    } else {
        assert forall|j: int| 0 <= j < a implies is_white_space(#[trigger] p[j]) by {
            assert(p[j] == l[j]);
        }
        assert(p[a] == l[a]);
        lemma_leading_white(p, a);
        let tl = trim_start(l);
        let tp = trim_start(p);
        assert(tp =~= tl.push('\n'));
        lemma_trailing_white_props(tl);
        let k = crate::text::trailing_white(tl) as int;
        assert(tl.len() > 0);
        assert(tl[0] == l[a]);
        assert(k < tl.len()) by {
            if k == tl.len() {
                assert(is_white_space(tl[0]));
            }
        }
        assert forall|j: int| tp.len() - (k + 1) <= j < tp.len() implies is_white_space(
            #[trigger] tp[j],
        ) by {
            if j < tl.len() {
                assert(tp[j] == tl[j]);
            }
        }
        assert(tp[tp.len() - (k + 1) - 1] == tl[tl.len() - k - 1]);
        lemma_trailing_white(tp, k + 1);
        assert(trim_end(tp) =~= trim_end(tl));
    }
}

pub open spec fn leading_white_of(l: Seq<char>) -> int {
    crate::text::leading_white(l) as int
}

/// A text that neither begins nor ends with white space is its own trim.
pub proof fn lemma_trim_fixed(s: Seq<char>)
    requires
        s.len() > 0,
        !is_white_space(s[0]),
        !is_white_space(s.last()),
    ensures
        trim(s) == s,
        trim_start(s) == s,
{
    lemma_leading_white(s, 0);
    lemma_trailing_white(s, 0);
    assert(trim_start(s) =~= s);
    assert(trim_end(s) =~= s);
}

/// The three marker lines of the canonical form are read as markers.
pub proof fn lemma_canonical_markers()
    ensures
        search_marker_line(trim(open_line())),
        separator_line(trim(middle_line())),
        replace_marker_line(trim(close_line())),
        no_cr(open_line()),
        no_cr(middle_line()),
        no_cr(close_line()),
        is_one_line("<<<<<<< SEARCH"@),
        is_one_line("======="@),
        is_one_line(">>>>>>> REPLACE"@),
{
    reveal_strlit("<<<<<<< SEARCH");
    reveal_strlit("=======");
    reveal_strlit(">>>>>>> REPLACE");
    reveal_strlit("SEARCH");
    reveal_strlit("REPLACE");
    let a = "<<<<<<< SEARCH"@;
    let m = "======="@;
    let c = ">>>>>>> REPLACE"@;
    lemma_trim_push_newline(a);
    lemma_trim_push_newline(m);
    lemma_trim_push_newline(c);
    lemma_trim_fixed(a);
    lemma_trim_fixed(m);
    lemma_trim_fixed(c);
    lemma_leading_run_three(a, '<');
    lemma_leading_run_three(c, '>');
    assert(a.subrange(8, 14) =~= "SEARCH"@);
    assert(occurs_at(a, "SEARCH"@, 8));
    assert(c.subrange(8, 15) =~= "REPLACE"@);
    assert(occurs_at(c, "REPLACE"@, 8));
    assert(all_chars(m, '='));
}

/// The pieces of `b` are the pieces of `a + b` that come after `a`.
pub proof fn lemma_split_shift(a: Seq<char>, b: Seq<char>, start: int, i: int)
    requires
        0 <= start <= i <= b.len(),
    ensures
        split_inclusive_scan(a + b, a.len() + start, a.len() + i) == split_inclusive_scan(
            b,
            start,
            i,
        ),
    decreases b.len() - i,
{
    let s = a + b;
    if i >= b.len() {
        if start < b.len() {
            assert(s.subrange(a.len() + start, s.len() as int) =~= b.subrange(
                start,
                b.len() as int,
            ));
        }
    } else {
        assert(s[a.len() + i] == b[i]);
        if b[i] == '\n' {
            assert(s.subrange(a.len() + start, a.len() + i + 1) =~= b.subrange(start, i + 1));
            lemma_split_shift(a, b, i + 1, i + 1);
        } else {
            lemma_split_shift(a, b, start, i + 1);
        }
    }
}

/// A first line that ends with the only newline it holds is the first
/// piece, and what follows is cut on its own.
pub proof fn lemma_split_first_line(l: Seq<char>, rest: Seq<char>)
    requires
        forall|i: int| 0 <= i < l.len() ==> l[i] != '\n',
    ensures
        split_inclusive(l.push('\n') + rest) == seq![l.push('\n')] + split_inclusive(rest),
{
    let a = l.push('\n');
    let s = a + rest;
    lemma_scan_to_newline(s, l.len() as int, 0);
    assert(s[l.len() as int] == '\n');
    assert(s.subrange(0, l.len() as int + 1) =~= a);
    lemma_split_shift(a, rest, 0, 0);
}

/// A text without a newline is one piece.
pub proof fn lemma_split_single(l: Seq<char>, i: int)
    requires
        l.len() > 0,
        0 <= i <= l.len(),
        forall|j: int| 0 <= j < l.len() ==> l[j] != '\n',
    ensures
        split_inclusive_scan(l, 0, i) == seq![l],
    decreases l.len() - i,
{
    if i >= l.len() {
        assert(l.subrange(0, l.len() as int) =~= l);
    } else {
        lemma_split_single(l, i + 1);
    }
}

proof fn lemma_scan_to_newline(s: Seq<char>, n: int, i: int)
    requires
        0 <= i <= n < s.len(),
        forall|j: int| 0 <= j < n ==> s[j] != '\n',
    ensures
        split_inclusive_scan(s, 0, i) == split_inclusive_scan(s, 0, n),
    decreases n - i,
{
    if i < n {
        lemma_scan_to_newline(s, n, i + 1);
    }
}

/// The pieces of a body are its lines, each with its newline.
pub proof fn lemma_split_body(ls: Seq<Seq<char>>, rest: Seq<char>)
    requires
        forall|k: int| 0 <= k < ls.len() ==> is_one_line(#[trigger] ls[k]),
    ensures
        split_inclusive(body(ls) + rest) == terminated(ls) + split_inclusive(rest),
    decreases ls.len(),
{
    if ls.len() == 0 {
        assert(body(ls) + rest =~= rest);
        assert(terminated(ls) + split_inclusive(rest) =~= split_inclusive(rest));
    } else {
        let t = ls.drop_first();
        assert forall|k: int| 0 <= k < t.len() implies is_one_line(#[trigger] t[k]) by {
            assert(t[k] == ls[k + 1]);
        }
        lemma_split_body(t, rest);
        assert(is_one_line(ls[0]));
        lemma_split_first_line(ls[0], body(t) + rest);
        assert(body(ls) + rest =~= ls[0].push('\n') + (body(t) + rest));
        assert(seq![ls[0].push('\n')] + (terminated(t) + split_inclusive(rest)) =~= terminated(ls)
            + split_inclusive(rest));
    }
}

pub proof fn lemma_body_no_cr(ls: Seq<Seq<char>>)
    requires
        forall|k: int| 0 <= k < ls.len() ==> is_one_line(#[trigger] ls[k]),
    ensures
        no_cr(body(ls)),
    decreases ls.len(),
{
    if ls.len() > 0 {
        let t = ls.drop_first();
        assert forall|k: int| 0 <= k < t.len() implies is_one_line(#[trigger] t[k]) by {
            assert(t[k] == ls[k + 1]);
        }
        lemma_body_no_cr(t);
        assert(is_one_line(ls[0]));
        let b = body(ls);
        let head = ls[0].push('\n');
        assert forall|i: int| 0 <= i < b.len() implies #[trigger] b[i] != '\r' by {
            if i < head.len() {
                assert(b[i] == head[i]);
                if i < ls[0].len() {
                    assert(head[i] == ls[0][i]);
                }
            } else {
                assert(b[i] == body(t)[i - head.len()]);
            }
        }
    }
}

/// A text without a carriage return has its newlines in the normal form
/// already.
pub proof fn lemma_normal_without_cr(s: Seq<char>)
    requires
        no_cr(s),
    ensures
        normalize_newlines(s) == s,
{
    reveal_strlit("\r\n");
    reveal_strlit("\r");
    assert forall|i: int| !occurs_at(s, "\r\n"@, i) by {
        if occurs_at(s, "\r\n"@, i) {
            assert(s.subrange(i, i + 2)[0] == s[i]);
        }
    }
    assert forall|i: int| !occurs_at(s, "\r"@, i) by {
        if occurs_at(s, "\r"@, i) {
            assert(s.subrange(i, i + 1)[0] == s[i]);
        }
    }
    lemma_replace_absent(s, "\r\n"@, "\n"@);
    lemma_replace_absent(s, "\r"@, "\n"@);
}

/// While the parser reads the search part, every line that is no separator
/// is added to it.
pub proof fn lemma_search_phase(m: ParserModel, ls: Seq<Seq<char>>, rest: Seq<Seq<char>>)
    requires
        m.state == ParserState::InSearch,
        forall|k: int| 0 <= k < ls.len() ==> !separator_line(#[trigger] ls[k]),
    ensures
        parse_lines(m, terminated(ls) + rest) == parse_lines(
            ParserModel { search: m.search + body(ls), ..m },
            rest,
        ),
    decreases ls.len(),
{
    if ls.len() == 0 {
        assert(terminated(ls) + rest =~= rest);
        assert(m.search + body(ls) =~= m.search);
    } else {
        let lines = terminated(ls) + rest;
        let t = ls.drop_first();
        let line = ls[0].push('\n');
        assert(lines[0] == line);
        assert(lines.drop_first() =~= terminated(t) + rest);
        assert(!separator_line(ls[0]));
        lemma_trim_push_newline(ls[0]);
        lemma_trim_idempotent(ls[0]);
        assert(!separator_line(trim(line)));
        assert(with_newline(line) == line);
        let next = ParserModel { search: m.search + line, ..m };
        assert(parser_step(m, line) == (next, None::<(Seq<char>, Seq<char>)>));
        assert forall|k: int| 0 <= k < t.len() implies !separator_line(#[trigger] t[k]) by {
            assert(t[k] == ls[k + 1]);
        }
        lemma_search_phase(next, t, rest);
        assert(m.search + line + body(t) =~= m.search + body(ls));
    }
}

/// While the parser reads the replace part, every line that is no closing
/// marker is added to it.
pub proof fn lemma_replace_phase(m: ParserModel, ls: Seq<Seq<char>>, rest: Seq<Seq<char>>)
    requires
        m.state == ParserState::InReplace,
        forall|k: int| 0 <= k < ls.len() ==> !replace_marker_line(trim(#[trigger] ls[k])),
    ensures
        parse_lines(m, terminated(ls) + rest) == parse_lines(
            ParserModel { replace: m.replace + body(ls), ..m },
            rest,
        ),
    decreases ls.len(),
{
    if ls.len() == 0 {
        assert(terminated(ls) + rest =~= rest);
        assert(m.replace + body(ls) =~= m.replace);
    } else {
        let lines = terminated(ls) + rest;
        let t = ls.drop_first();
        let line = ls[0].push('\n');
        assert(lines[0] == line);
        assert(lines.drop_first() =~= terminated(t) + rest);
        assert(!replace_marker_line(trim(ls[0])));
        lemma_trim_push_newline(ls[0]);
        assert(with_newline(line) == line);
        let next = ParserModel { replace: m.replace + line, ..m };
        assert(parser_step(m, line) == (next, None::<(Seq<char>, Seq<char>)>));
        assert forall|k: int| 0 <= k < t.len() implies !replace_marker_line(
            trim(#[trigger] t[k]),
        ) by {
            assert(t[k] == ls[k + 1]);
        }
        lemma_replace_phase(next, t, rest);
        assert(m.replace + line + body(t) =~= m.replace + body(ls));
    }
}

/// What the parser makes of a block in the canonical form: the one patch it
/// states, newlines at the end of its two texts aside, or nothing where
/// the replace text holds a marker.
pub proof fn lemma_canonical_block(
    search: Seq<Seq<char>>,
    replace: Seq<Seq<char>>,
    ended: bool,
)
    requires
        forall|k: int| 0 <= k < search.len() ==> is_one_line(#[trigger] search[k]),
        forall|k: int| 0 <= k < replace.len() ==> is_one_line(#[trigger] replace[k]),
        forall|k: int| 0 <= k < search.len() ==> !separator_line(#[trigger] search[k]),
        forall|k: int| 0 <= k < replace.len() ==> !replace_marker_line(trim(#[trigger] replace[k])),
    ensures
        parse_all_spec(canonical_block(search, replace, ended)) == if has_marker(
            trim_newlines(body(replace)),
        ) {
            Seq::<(Seq<char>, Seq<char>)>::empty()
        } else {
            seq![(trim_newlines(body(search)), trim_newlines(body(replace)))]
        },
{
    lemma_canonical_markers();
    lemma_body_no_cr(search);
    lemma_body_no_cr(replace);
    let block = canonical_block(search, replace, ended);
    let closing = last_line(ended);
    lemma_trim_push_newline(">>>>>>> REPLACE"@);
    assert(replace_marker_line(trim(closing)));
    assert(no_cr(closing));
    // The block holds no carriage return, so its newlines stay as they are.
    assert(no_cr(block)) by {
        let a = open_line();
        let b = body(search);
        let c = middle_line();
        let d = body(replace);
        let e = closing;
        assert forall|i: int| 0 <= i < block.len() implies #[trigger] block[i] != '\r' by {
            if i < a.len() {
                assert(block[i] == a[i]);
            } else if i < a.len() + b.len() {
                assert(block[i] == b[i - a.len()]);
            } else if i < a.len() + b.len() + c.len() {
                assert(block[i] == c[i - a.len() - b.len()]);
            } else if i < a.len() + b.len() + c.len() + d.len() {
                assert(block[i] == d[i - a.len() - b.len() - c.len()]);
            } else {
                assert(block[i] == e[i - a.len() - b.len() - c.len() - d.len()]);
            }
        }
    }
    lemma_normal_without_cr(block);
    // Its pieces are its lines.
    let tail3: Seq<char> = Seq::empty();
    let tail2 = closing + tail3;
    let tail1 = body(replace) + tail2;
    let tail0 = middle_line() + tail1;
    let whole = body(search) + tail0;
    assert(block =~= open_line() + whole);
    assert(tail2 =~= closing);
    assert(split_inclusive(tail3) =~= Seq::<Seq<char>>::empty());
    if ended {
        lemma_split_first_line(">>>>>>> REPLACE"@, tail3);
    } else {
        reveal_strlit(">>>>>>> REPLACE");
        lemma_split_single(closing, 0);
    }
    lemma_split_body(replace, tail2);
    lemma_split_first_line("======="@, tail1);
    lemma_split_body(search, tail0);
    lemma_split_first_line("<<<<<<< SEARCH"@, whole);
    let end_lines = seq![closing];
    let replace_lines = terminated(replace) + end_lines;
    let middle_lines = seq![middle_line()] + replace_lines;
    let search_lines = terminated(search) + middle_lines;
    let all = seq![open_line()] + search_lines;
    assert(split_inclusive(tail2) =~= end_lines);
    assert(split_inclusive(block) == all);
    // The parser walks through them.
    let m0 = initial_parser();
    let m1 = ParserModel {
        state: ParserState::InSearch,
        search: Seq::empty(),
        replace: Seq::empty(),
    };
    assert(all[0] == open_line());
    assert(all.drop_first() =~= search_lines);
    assert(parser_step(m0, open_line()) == (m1, None::<(Seq<char>, Seq<char>)>));
    assert(parse_lines(m0, all) == parse_lines(m1, search_lines));
    lemma_search_phase(m1, search, middle_lines);
    let m2 = ParserModel { search: m1.search + body(search), ..m1 };
    assert(m2.search =~= body(search));
    let m3 = ParserModel { state: ParserState::InReplace, ..m2 };
    assert(middle_lines[0] == middle_line());
    assert(middle_lines.drop_first() =~= replace_lines);
    assert(parser_step(m2, middle_line()) == (m3, None::<(Seq<char>, Seq<char>)>));
    assert(parse_lines(m2, middle_lines) == parse_lines(m3, replace_lines));
    lemma_replace_phase(m3, replace, end_lines);
    let m4 = ParserModel { replace: m3.replace + body(replace), ..m3 };
    assert(m4.replace =~= body(replace));
    let m5 = ParserModel { state: ParserState::Idle, ..m4 };
    let patch = (trim_newlines(m4.search), trim_newlines(m4.replace));
    assert(end_lines[0] == closing);
    assert(end_lines.drop_first() =~= Seq::<Seq<char>>::empty());
    assert(parser_step(m4, closing) == (m5, Some(patch)));
    assert(parse_lines(m5, end_lines.drop_first()) =~= Seq::<(Seq<char>, Seq<char>)>::empty());
    if has_marker(patch.1) {
        assert(parse_lines(m4, end_lines) =~= Seq::<(Seq<char>, Seq<char>)>::empty());
    } else {
        assert(parse_lines(m4, end_lines) =~= seq![patch]);
    }
}

/// The parser round trip: a block in the canonical form parses back to the
/// one patch it states, the search lines and the replace lines as they were
/// written, newlines at their end aside. Indentation and white space at
/// the end of a line are kept.
///
/// The lines must be single lines; no search line may look like the
/// separator and no replace line like the closing marker, or the block
/// would end early; and the replace text must hold no marker, canonical or
/// tolerated, or the patch is refused.
pub proof fn law_parser_round_trip(
    search: Seq<Seq<char>>,
    replace: Seq<Seq<char>>,
    ended: bool,
)
    requires
        forall|k: int| 0 <= k < search.len() ==> is_one_line(#[trigger] search[k]),
        forall|k: int| 0 <= k < replace.len() ==> is_one_line(#[trigger] replace[k]),
        forall|k: int| 0 <= k < search.len() ==> !separator_line(#[trigger] search[k]),
        forall|k: int| 0 <= k < replace.len() ==> !replace_marker_line(trim(#[trigger] replace[k])),
        !has_marker(trim_newlines(body(replace))),
    ensures
        parse_all_spec(canonical_block(search, replace, ended)) == seq![
            (trim_newlines(body(search)), trim_newlines(body(replace))),
        ],
{
    lemma_canonical_block(search, replace, ended);
}

/// A block in the canonical form whose replace text holds a marker,
/// canonical or tolerated, is dropped by the parser: nothing of it reaches
/// a document, whatever the document holds.
pub proof fn law_marker_block_is_dropped(
    search: Seq<Seq<char>>,
    replace: Seq<Seq<char>>,
    ended: bool,
    doc: Seq<char>,
)
    requires
        forall|k: int| 0 <= k < search.len() ==> is_one_line(#[trigger] search[k]),
        forall|k: int| 0 <= k < replace.len() ==> is_one_line(#[trigger] replace[k]),
        forall|k: int| 0 <= k < search.len() ==> !separator_line(#[trigger] search[k]),
        forall|k: int| 0 <= k < replace.len() ==> !replace_marker_line(trim(#[trigger] replace[k])),
        has_marker(trim_newlines(body(replace))),
    ensures
        parse_all_spec(canonical_block(search, replace, ended)).len() == 0,
        apply_patches(doc, parse_all_spec(canonical_block(search, replace, ended))) == (doc, 0nat),
{
    lemma_canonical_block(search, replace, ended);
}

/// A body with one more line is the body with that line, ended by a
/// newline, after it.
pub proof fn lemma_body_push(ls: Seq<Seq<char>>, l: Seq<char>)
    ensures
        body(ls.push(l)) == body(ls) + l.push('\n'),
    decreases ls.len(),
{
    let all = ls.push(l);
    if ls.len() == 0 {
        assert(all.drop_first() =~= Seq::<Seq<char>>::empty());
        assert(body(all.drop_first()) =~= Seq::<char>::empty());
        assert(body(all) =~= l.push('\n'));
        assert(body(ls) + l.push('\n') =~= l.push('\n'));
    } else {
        assert(all[0] == ls[0]);
        assert(all.drop_first() =~= ls.drop_first().push(l));
        lemma_body_push(ls.drop_first(), l);
        assert(body(all) =~= body(ls) + l.push('\n'));
    }
}

/// The lines of a body are the lines it was made of.
pub proof fn lemma_body_lines(ls: Seq<Seq<char>>, rest: Seq<char>)
    requires
        forall|k: int| 0 <= k < ls.len() ==> is_one_line(#[trigger] ls[k]),
    ensures
        lines_scan(body(ls) + rest, 0, 0) == ls + lines_scan(rest, 0, 0),
    decreases ls.len(),
{
    if ls.len() == 0 {
        assert(body(ls) + rest =~= rest);
        assert(ls + lines_scan(rest, 0, 0) =~= lines_scan(rest, 0, 0));
    } else {
        let t = ls.drop_first();
        assert forall|k: int| 0 <= k < t.len() implies is_one_line(#[trigger] t[k]) by {
            assert(t[k] == ls[k + 1]);
        }
        lemma_body_lines(t, rest);
        assert(is_one_line(ls[0]));
        lemma_lines_first(ls[0], body(t) + rest);
        assert(body(ls) + rest =~= ls[0].push('\n') + (body(t) + rest));
        assert(seq![ls[0]] + (t + lines_scan(rest, 0, 0)) =~= ls + lines_scan(rest, 0, 0));
    }
}

/// The index of the last line that is not empty, or -1 where every line is.
pub open spec fn last_text_line(ls: Seq<Seq<char>>) -> int
    decreases ls.len(),
{
    if ls.len() == 0 {
        -1
    } else if ls.last().len() > 0 {
        ls.len() - 1
    } else {
        last_text_line(ls.drop_last())
    }
}

pub proof fn lemma_last_text_line(ls: Seq<Seq<char>>)
    ensures
        -1 <= last_text_line(ls) < ls.len(),
        last_text_line(ls) >= 0 ==> ls[last_text_line(ls)].len() > 0,
        forall|k: int| last_text_line(ls) < k < ls.len() ==> (#[trigger] ls[k]).len() == 0,
    decreases ls.len(),
{
    if ls.len() > 0 && ls.last().len() == 0 {
        let dl = ls.drop_last();
        lemma_last_text_line(dl);
        assert forall|k: int| last_text_line(ls) < k < ls.len() implies (#[trigger] ls[k]).len()
            == 0 by {
            if k < dl.len() {
                assert(dl[k] == ls[k]);
            }
        }
        if last_text_line(ls) >= 0 {
            assert(dl[last_text_line(ls)] == ls[last_text_line(ls)]);
        }
    }
}

/// A body without the newlines at its end is the body up to its last line
/// that is not empty, and that line without a newline after it.
pub proof fn lemma_trimmed_body(ls: Seq<Seq<char>>)
    requires
        forall|k: int| 0 <= k < ls.len() ==> is_one_line(#[trigger] ls[k]),
        last_text_line(ls) >= 0,
    ensures
        trim_newlines(body(ls)) == body(ls.take(last_text_line(ls))) + ls[last_text_line(ls)],
    decreases ls.len(),
{
    let j = last_text_line(ls);
    let dl = ls.drop_last();
    let l = ls.last();
    assert(ls =~= dl.push(l));
    lemma_body_push(dl, l);
    let b = body(ls);
    assert(b == body(dl) + l.push('\n'));
    assert(b.last() == '\n');
    assert(b.drop_last() =~= body(dl) + l);
    if l.len() > 0 {
        assert(is_one_line(l));
        assert((body(dl) + l).last() == l.last());
        assert(trailing_run(b.drop_last(), '\n') == 0);
        assert(trailing_run(b, '\n') == 1);
        assert(dl =~= ls.take(j));
        assert(trim_newlines(b) =~= body(dl) + l);
    } else {
        assert(body(dl) + l =~= body(dl));
        assert(trailing_run(b, '\n') == 1 + trailing_run(body(dl), '\n'));
        lemma_trailing_run_len(body(dl), '\n');
        assert forall|k: int| 0 <= k < dl.len() implies is_one_line(#[trigger] dl[k]) by {
            assert(dl[k] == ls[k]);
        }
        lemma_last_text_line(dl);
        lemma_trimmed_body(dl);
        assert(trim_newlines(b) =~= trim_newlines(body(dl)));
        assert(dl.take(j) =~= ls.take(j));
        assert(dl[j] == ls[j]);
    }
}

/// A line that reads as a marker is not empty.
pub proof fn lemma_marker_line_not_empty(l: Seq<char>)
    requires
        marker_line(l),
    ensures
        l.len() > 0,
{
    lemma_trim_len(l);
    if l.len() == 0 {
        assert(leading_run(trim_start(l), '<') == 0);
        assert(leading_run(trim_start(l), '>') == 0);
    }
}

/// A block in the canonical form is dropped as soon as one line of its
/// replace text reads as a marker, in the canonical form or in a tolerated
/// one: nothing of it reaches a document.
pub proof fn law_marker_line_is_rejected(
    search: Seq<Seq<char>>,
    replace: Seq<Seq<char>>,
    ended: bool,
    k: int,
    doc: Seq<char>,
)
    requires
        forall|k: int| 0 <= k < search.len() ==> is_one_line(#[trigger] search[k]),
        forall|k: int| 0 <= k < replace.len() ==> is_one_line(#[trigger] replace[k]),
        forall|k: int| 0 <= k < search.len() ==> !separator_line(#[trigger] search[k]),
        forall|k: int| 0 <= k < replace.len() ==> !replace_marker_line(trim(#[trigger] replace[k])),
        0 <= k < replace.len(),
        marker_line(replace[k]),
    ensures
        parse_all_spec(canonical_block(search, replace, ended)).len() == 0,
        apply_patches(doc, parse_all_spec(canonical_block(search, replace, ended))) == (doc, 0nat),
{
    lemma_marker_line_not_empty(replace[k]);
    lemma_last_text_line(replace);
    let j = last_text_line(replace);
    assert(k <= j);
    lemma_trimmed_body(replace);
    let t = trim_newlines(body(replace));
    let head = replace.take(j);
    assert forall|i: int| 0 <= i < head.len() implies is_one_line(#[trigger] head[i]) by {
        assert(head[i] == replace[i]);
    }
    assert(is_one_line(replace[j]));
    lemma_lines_are_scanned(t);
    lemma_body_lines(head, replace[j]);
    lemma_lines_single(replace[j], 0);
    assert(lines(t) =~= head.push(replace[j]));
    assert(lines(t)[k] == replace[k]);
    law_marker_block_is_dropped(search, replace, ended, doc);
}

} // verus!
