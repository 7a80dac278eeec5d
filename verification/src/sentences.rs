//! What the splitter of long speech keeps: where a long fragment holds a
//! sentence end, every cut stands right after one, so that no word is
//! broken, and nothing but white space is lost.

use crate::speech::{
    cut_after, has_sentence_end, is_sentence_end, piece, split_long_speech_spec, split_scan,
    MAX_SPEECH_CHARS,
};
use crate::text::{
    is_blank, is_white_space, joined, leading_white, lemma_joined_add, lemma_joined_single,
    lemma_leading_white_props, lemma_trailing_white_props, lemma_trim_empty_iff_blank,
    lemma_trim_idempotent, lemma_trim_len, trailing_white, trim, trim_end, trim_start,
};
use vstd::prelude::*;

verus! {

// ---------------------------------------------------------------------------
// Where the pieces stand
// ---------------------------------------------------------------------------

/// The span `(from, to)` as a list: empty where `t[from..to]` is blank.
pub open spec fn piece_span(t: Seq<char>, from: int, to: int) -> Seq<(int, int)> {
    if trim(t.subrange(from, to)).len() > 0 {
        seq![(from, to)]
    } else {
        seq![]
    }
}

/// Where the pieces of `split_scan` stand in `t`: the span of each piece
/// that is handed out, in the same order.
pub open spec fn span_scan(t: Seq<char>, from: int, i: int, by_length: bool) -> Seq<(int, int)>
    decreases t.len() - i,
{
    if i >= t.len() {
        piece_span(t, from, t.len() as int)
    } else if cut_after(t, from, i, by_length) {
        piece_span(t, from, i + 1) + span_scan(t, i + 1, i + 1, by_length)
    } else {
        span_scan(t, from, i + 1, by_length)
    }
}

/// Where the turn texts of a fragment that is cut at its sentence ends
/// stand in the trimmed fragment.
pub open spec fn sentence_spans(s: Seq<char>) -> Seq<(int, int)> {
    span_scan(trim(s), 0, 0, false)
}

/// `t[a..b]` is one sentence of `t`: it begins at the start of `t` or right
/// after a sentence end, it ends at the end of `t` or with a sentence end,
/// and it holds no sentence end before its last character.
pub open spec fn one_sentence(t: Seq<char>, a: int, b: int) -> bool {
    &&& 0 <= a < b <= t.len()
    &&& (a == 0 || is_sentence_end(t[a - 1]))
    &&& (b == t.len() || is_sentence_end(t[b - 1]))
    &&& forall|j: int| a <= j < b - 1 ==> !is_sentence_end(#[trigger] t[j])
}

/// `p` is the sentence of `t` that stands at `span`, trimmed, and it is not
/// empty.
pub open spec fn is_piece_of(t: Seq<char>, span: (int, int), p: Seq<char>) -> bool {
    &&& one_sentence(t, span.0, span.1)
    &&& p == trim(t.subrange(span.0, span.1))
    &&& p.len() > 0
    &&& !is_white_space(p[0])
    &&& !is_white_space(p.last())
}

/// The piece `p` at `span` was cut right after a sentence end: it ends with
/// that character, unless the character is a newline, which the trimming
/// took away.
pub open spec fn ends_its_sentence(t: Seq<char>, span: (int, int), p: Seq<char>) -> bool {
    &&& 0 < span.1 <= t.len()
    &&& is_sentence_end(t[span.1 - 1])
    &&& (t[span.1 - 1] == '\n' || (p.len() > 0 && p.last() == t[span.1 - 1]))
}

/// The spans and the pieces go together: there is one span for each piece,
/// the piece is the trimmed text of its span, and the spans follow one
/// another without overlap.
pub proof fn lemma_spans_of_pieces(t: Seq<char>, from: int, i: int, by_length: bool)
    requires
        0 <= from <= i <= t.len(),
    ensures
        span_scan(t, from, i, by_length).len() == split_scan(t, from, i, by_length).len(),
        forall|k: int|
            0 <= k < span_scan(t, from, i, by_length).len() ==> {
                let sp = #[trigger] span_scan(t, from, i, by_length)[k];
                &&& from <= sp.0 < sp.1 <= t.len()
                &&& split_scan(t, from, i, by_length)[k] == trim(t.subrange(sp.0, sp.1))
                &&& split_scan(t, from, i, by_length)[k].len() > 0
            },
        forall|k: int|
            0 <= k < span_scan(t, from, i, by_length).len() - 1 ==> (#[trigger] span_scan(
                t,
                from,
                i,
                by_length,
            )[k]).1 <= span_scan(t, from, i, by_length)[k + 1].0,
    decreases t.len() - i,
{
    let sps = span_scan(t, from, i, by_length);
    let ps = split_scan(t, from, i, by_length);
    if i >= t.len() {
        lemma_trim_len(t.subrange(from, t.len() as int));
        if sps.len() > 0 {
            assert(sps[0] == (from, t.len() as int));
            assert(ps[0] == trim(t.subrange(from, t.len() as int)));
        }
    } else if cut_after(t, from, i, by_length) {
        lemma_spans_of_pieces(t, i + 1, i + 1, by_length);
        lemma_trim_len(t.subrange(from, i + 1));
        let head_s = piece_span(t, from, i + 1);
        let rest_s = span_scan(t, i + 1, i + 1, by_length);
        let head_p = piece(t, from, i + 1);
        let rest_p = split_scan(t, i + 1, i + 1, by_length);
        assert(sps == head_s + rest_s);
        assert(ps == head_p + rest_p);
        assert(head_s.len() == head_p.len());
        assert forall|k: int| 0 <= k < sps.len() implies {
            let sp = #[trigger] sps[k];
            &&& from <= sp.0 < sp.1 <= t.len()
            &&& ps[k] == trim(t.subrange(sp.0, sp.1))
            &&& ps[k].len() > 0
        } by {
            if k < head_s.len() {
                assert(sps[k] == head_s[k]);
                assert(ps[k] == head_p[k]);
                assert(head_s[0] == (from, i + 1));
                assert(head_p[0] == trim(t.subrange(from, i + 1)));
            } else {
                assert(sps[k] == rest_s[k - head_s.len()]);
                assert(ps[k] == rest_p[k - head_s.len()]);
            }
        }
        assert forall|k: int| 0 <= k < sps.len() - 1 implies (#[trigger] sps[k]).1 <= sps[k + 1].0 by {
            if k < head_s.len() {
                assert(sps[k] == head_s[k]);
                assert(head_s[0] == (from, i + 1));
                assert(sps[k + 1] == rest_s[k + 1 - head_s.len()]);
            } else {
                assert(sps[k] == rest_s[k - head_s.len()]);
                assert(sps[k + 1] == rest_s[k + 1 - head_s.len()]);
            }
        }
    } else {
        lemma_spans_of_pieces(t, from, i + 1, by_length);
        assert(sps == span_scan(t, from, i + 1, by_length));
        assert(ps == split_scan(t, from, i + 1, by_length));
    }
}

/// Where the scan cuts at sentence ends only, every span is one sentence.
pub proof fn lemma_spans_are_sentences(t: Seq<char>, from: int, i: int)
    requires
        0 <= from <= i <= t.len(),
        from == 0 || is_sentence_end(t[from - 1]),
        forall|j: int| from <= j < i ==> !is_sentence_end(#[trigger] t[j]),
    ensures
        forall|k: int|
            0 <= k < span_scan(t, from, i, false).len() ==> one_sentence(
                t,
                (#[trigger] span_scan(t, from, i, false)[k]).0,
                span_scan(t, from, i, false)[k].1,
            ),
    decreases t.len() - i,
{
    let sps = span_scan(t, from, i, false);
    if i >= t.len() {
        lemma_trim_len(t.subrange(from, t.len() as int));
        if sps.len() > 0 {
            assert(sps[0] == (from, t.len() as int));
            assert(one_sentence(t, from, t.len() as int));
        }
    } else if cut_after(t, from, i, false) {
        lemma_spans_are_sentences(t, i + 1, i + 1);
        lemma_trim_len(t.subrange(from, i + 1));
        let head_s = piece_span(t, from, i + 1);
        let rest_s = span_scan(t, i + 1, i + 1, false);
        assert(sps == head_s + rest_s);
        assert forall|k: int| 0 <= k < sps.len() implies one_sentence(
            t,
            (#[trigger] sps[k]).0,
            sps[k].1,
        ) by {
            if k < head_s.len() {
                assert(sps[k] == head_s[k]);
                assert(head_s[0] == (from, i + 1));
                assert(one_sentence(t, from, i + 1));
            } else {
                assert(sps[k] == rest_s[k - head_s.len()]);
            }
        }
    } else {
        lemma_spans_are_sentences(t, from, i + 1);
        assert(sps == span_scan(t, from, i + 1, false));
    }
}

/// A text that does not end with white space keeps its last character when
/// it is trimmed.
pub proof fn lemma_trim_keeps_last(x: Seq<char>)
    requires
        x.len() > 0,
        !is_white_space(x.last()),
    ensures
        trim(x).len() > 0,
        trim(x).last() == x.last(),
{
    lemma_leading_white_props(x);
    let lw = leading_white(x) as int;
    if lw == x.len() {
        assert(is_white_space(x[x.len() - 1]));
    }
    let y = trim_start(x);
    assert(y.len() > 0);
    assert(y.last() == x.last());
    assert(trailing_white(y) == 0);
    assert(trim_end(y) =~= y);
}

// ---------------------------------------------------------------------------
// What the pieces hold
// ---------------------------------------------------------------------------

/// `s` without its white space.
pub open spec fn without_white(s: Seq<char>) -> Seq<char>
    decreases s.len(),
{
    if s.len() == 0 {
        Seq::empty()
    } else if is_white_space(s[0]) {
        without_white(s.drop_first())
    } else {
        seq![s[0]] + without_white(s.drop_first())
    }
}

pub proof fn lemma_without_white_add(a: Seq<char>, b: Seq<char>)
    ensures
        without_white(a + b) == without_white(a) + without_white(b),
    decreases a.len(),
{
    if a.len() == 0 {
        assert(a + b =~= b);
        assert(without_white(a) + without_white(b) =~= without_white(b));
    } else {
        let s = a + b;
        assert(s[0] == a[0]);
        assert(s.drop_first() =~= a.drop_first() + b);
        lemma_without_white_add(a.drop_first(), b);
        assert(without_white(s) =~= without_white(a) + without_white(b));
    }
}

pub proof fn lemma_without_white_blank(a: Seq<char>)
    requires
        is_blank(a),
    ensures
        without_white(a).len() == 0,
    decreases a.len(),
{
    if a.len() > 0 {
        assert(is_white_space(a[0]));
        let t = a.drop_first();
        assert forall|i: int| 0 <= i < t.len() implies is_white_space(#[trigger] t[i]) by {
            assert(t[i] == a[i + 1]);
        }
        lemma_without_white_blank(t);
    }
}

/// Trimming takes away white space only.
pub proof fn lemma_without_white_trim(x: Seq<char>)
    ensures
        without_white(trim(x)) == without_white(x),
{
    lemma_leading_white_props(x);
    let lw = leading_white(x) as int;
    let y = trim_start(x);
    let lead = x.take(lw);
    assert(x =~= lead + y);
    assert(is_blank(lead)) by {
        assert forall|i: int| 0 <= i < lead.len() implies is_white_space(#[trigger] lead[i]) by {
            assert(lead[i] == x[i]);
        }
    }
    lemma_without_white_blank(lead);
    lemma_without_white_add(lead, y);
    assert(without_white(x) =~= without_white(y));
    lemma_trailing_white_props(y);
    let tw = trailing_white(y) as int;
    let z = trim_end(y);
    let trail = y.skip(y.len() - tw);
    assert(y =~= z + trail);
    assert(is_blank(trail)) by {
        assert forall|i: int| 0 <= i < trail.len() implies is_white_space(#[trigger] trail[i]) by {
            assert(trail[i] == y[y.len() - tw + i]);
        }
    }
    lemma_without_white_blank(trail);
    lemma_without_white_add(z, trail);
    assert(without_white(y) =~= without_white(z));
}

/// A piece holds what its span holds, white space aside.
pub proof fn lemma_piece_keeps_text(t: Seq<char>, from: int, to: int)
    requires
        0 <= from <= to <= t.len(),
    ensures
        without_white(joined(piece(t, from, to))) == without_white(t.subrange(from, to)),
{
    let sub = t.subrange(from, to);
    let p = piece(t, from, to);
    lemma_without_white_trim(sub);
    if trim(sub).len() > 0 {
        lemma_joined_single(trim(sub));
    } else {
        lemma_trim_empty_iff_blank(sub);
        lemma_without_white_blank(sub);
        assert(without_white(joined(p)) =~= without_white(sub));
    }
}

/// The pieces of a scan hold what the text holds from `from` on, white
/// space aside, in the same order.
pub proof fn lemma_scan_keeps_text(t: Seq<char>, from: int, i: int, by_length: bool)
    requires
        0 <= from <= i <= t.len(),
    ensures
        without_white(joined(split_scan(t, from, i, by_length))) == without_white(
            t.subrange(from, t.len() as int),
        ),
    decreases t.len() - i,
{
    if i >= t.len() {
        lemma_piece_keeps_text(t, from, t.len() as int);
    } else if cut_after(t, from, i, by_length) {
        let head = piece(t, from, i + 1);
        let rest = split_scan(t, i + 1, i + 1, by_length);
        lemma_piece_keeps_text(t, from, i + 1);
        lemma_scan_keeps_text(t, i + 1, i + 1, by_length);
        lemma_joined_add(head, rest);
        lemma_without_white_add(joined(head), joined(rest));
        lemma_without_white_add(t.subrange(from, i + 1), t.subrange(i + 1, t.len() as int));
        assert(t.subrange(from, t.len() as int) =~= t.subrange(from, i + 1) + t.subrange(
            i + 1,
            t.len() as int,
        ));
    } else {
        lemma_scan_keeps_text(t, from, i + 1, by_length);
    }
}

// ---------------------------------------------------------------------------
// How many pieces there are
// ---------------------------------------------------------------------------

/// A piece that holds a character that is no white space is handed out.
proof fn lemma_piece_with_text(t: Seq<char>, from: int, to: int, k: int)
    requires
        0 <= from <= k < to <= t.len(),
        !is_white_space(t[k]),
    ensures
        piece(t, from, to).len() == 1,
{
    let sub = t.subrange(from, to);
    assert(sub[k - from] == t[k]);
    lemma_trim_empty_iff_blank(sub);
}

/// Where the text does not end with white space, what is left of it from
/// `from` on gives at least one piece.
proof fn lemma_rest_gives_a_piece(t: Seq<char>, from: int, i: int, by_length: bool)
    requires
        0 <= from <= i <= t.len(),
        from < t.len(),
        !is_white_space(t.last()),
    ensures
        split_scan(t, from, i, by_length).len() >= 1,
    decreases t.len() - i,
{
    if i >= t.len() {
        lemma_piece_with_text(t, from, t.len() as int, t.len() - 1);
    } else if cut_after(t, from, i, by_length) {
        if i + 1 < t.len() {
            lemma_rest_gives_a_piece(t, i + 1, i + 1, by_length);
        } else {
            lemma_piece_with_text(t, from, i + 1, t.len() - 1);
        }
    } else {
        lemma_rest_gives_a_piece(t, from, i + 1, by_length);
    }
}

/// Where a sentence end stands at `p`, before the last character, the scan
/// from the start of the text cuts at or before it, and both sides of the
/// cut give a piece.
proof fn lemma_scan_cuts(t: Seq<char>, i: int, p: int, by_length: bool)
    requires
        0 <= i <= p < t.len() - 1,
        is_sentence_end(t[p]),
        !is_white_space(t[0]),
        !is_white_space(t.last()),
    ensures
        split_scan(t, 0, i, by_length).len() >= 2,
    decreases p - i,
{
    if cut_after(t, 0, i, by_length) {
        lemma_piece_with_text(t, 0, i + 1, 0);
        lemma_rest_gives_a_piece(t, i + 1, i + 1, by_length);
    } else {
        lemma_scan_cuts(t, i + 1, p, by_length);
    }
}

// ---------------------------------------------------------------------------
// The laws
// ---------------------------------------------------------------------------

/// A text is cut at the nearest sentence end: where the text from `from` on
/// holds a sentence end at `p` and none before it, the first piece ends
/// right after `p`. Where the scan cuts by length too, `p` must come before
/// that length is reached.
pub proof fn law_cut_at_sentence_end(t: Seq<char>, from: int, i: int, p: int, by_length: bool)
    requires
        0 <= from <= i <= p < t.len(),
        by_length ==> p + 1 - from < MAX_SPEECH_CHARS,
        is_sentence_end(t[p]),
        forall|j: int| i <= j < p ==> !is_sentence_end(t[j]),
    ensures
        split_scan(t, from, i, by_length) == piece(t, from, p + 1) + split_scan(
            t,
            p + 1,
            p + 1,
            by_length,
        ),
    decreases p - i,
{
    if i < p {
        law_cut_at_sentence_end(t, from, i + 1, p, by_length);
    }
}

/// Whatever the splitter hands out holds what the fragment holds, white
/// space aside, in the same order: nothing is lost and nothing is added.
pub proof fn law_split_keeps_the_text(s: Seq<char>)
    ensures
        without_white(joined(split_long_speech_spec(s))) == without_white(s),
{
    let t = trim(s);
    let r = split_long_speech_spec(s);
    lemma_without_white_trim(s);
    if t.len() == 0 {
    } else if t.len() < MAX_SPEECH_CHARS {
        lemma_joined_single(t);
    } else {
        lemma_scan_keeps_text(t, 0, 0, !has_sentence_end(t));
        assert(t.subrange(0, t.len() as int) =~= t);
    }
}

/// A fragment of 500 characters or more, white space around it aside, that
/// holds a sentence end is cut at its sentence ends and nowhere else.
///
/// Each turn text is one sentence of the fragment, trimmed: it begins at
/// the start of the fragment or right after a sentence end, holds no
/// sentence end before its last character, and is not empty. Every turn
/// text but the last ends with its sentence end, unless that is a newline,
/// which is trimmed away. So no cut falls inside a word. The turn texts
/// come in the order of the fragment, and together they hold what the
/// fragment holds, white space aside.
pub proof fn law_cut_only_at_sentence_ends(s: Seq<char>)
    requires
        trim(s).len() >= MAX_SPEECH_CHARS,
        has_sentence_end(trim(s)),
    ensures
        sentence_spans(s).len() == split_long_speech_spec(s).len(),
        forall|k: int|
            0 <= k < split_long_speech_spec(s).len() ==> is_piece_of(
                trim(s),
                sentence_spans(s)[k],
                #[trigger] split_long_speech_spec(s)[k],
            ),
        forall|k: int|
            0 <= k < split_long_speech_spec(s).len() - 1 ==> ends_its_sentence(
                trim(s),
                sentence_spans(s)[k],
                #[trigger] split_long_speech_spec(s)[k],
            ),
        forall|k: int|
            0 <= k < sentence_spans(s).len() - 1 ==> (#[trigger] sentence_spans(s)[k]).1
                <= sentence_spans(s)[k + 1].0,
        without_white(joined(split_long_speech_spec(s))) == without_white(s),
{
    let t = trim(s);
    let r = split_long_speech_spec(s);
    let sps = sentence_spans(s);
    assert(r == split_scan(t, 0, 0, false));
    lemma_spans_of_pieces(t, 0, 0, false);
    lemma_spans_are_sentences(t, 0, 0);
    law_split_keeps_the_text(s);
    assert forall|k: int| 0 <= k < r.len() implies is_piece_of(t, sps[k], #[trigger] r[k]) by {
        let sp = sps[k];
        assert(one_sentence(t, sp.0, sp.1));
        lemma_trim_idempotent(t.subrange(sp.0, sp.1));
    }
    assert forall|k: int| 0 <= k < r.len() - 1 implies ends_its_sentence(
        t,
        sps[k],
        #[trigger] r[k],
    ) by {
        let sp = sps[k];
        let next = sps[k + 1];
        assert(sp.1 <= next.0);
        assert(one_sentence(t, sp.0, sp.1));
        let c = t[sp.1 - 1];
        if c != '\n' {
            let sub = t.subrange(sp.0, sp.1);
            assert(sub.last() == c);
            assert(!is_white_space(c));
            lemma_trim_keeps_last(sub);
        }
    }
}

/// A fragment of 500 characters or more, white space around it aside, that
/// holds a sentence end before its last character gives at least two turn
/// texts, cut as `law_cut_only_at_sentence_ends` says.
pub proof fn law_long_fragment_is_split(s: Seq<char>, p: int)
    requires
        trim(s).len() >= MAX_SPEECH_CHARS,
        0 <= p < trim(s).len() - 1,
        is_sentence_end(trim(s)[p]),
    ensures
        has_sentence_end(trim(s)),
        split_long_speech_spec(s).len() >= 2,
        forall|k: int|
            0 <= k < split_long_speech_spec(s).len() ==> is_piece_of(
                trim(s),
                sentence_spans(s)[k],
                #[trigger] split_long_speech_spec(s)[k],
            ),
        forall|k: int|
            0 <= k < split_long_speech_spec(s).len() - 1 ==> ends_its_sentence(
                trim(s),
                sentence_spans(s)[k],
                #[trigger] split_long_speech_spec(s)[k],
            ),
        without_white(joined(split_long_speech_spec(s))) == without_white(s),
{
    let t = trim(s);
    assert(has_sentence_end(t)) by {
        assert(is_sentence_end(t[p]));
    }
    lemma_trim_idempotent(s);
    lemma_scan_cuts(t, 0, p, false);
    law_cut_only_at_sentence_ends(s);
}

} // verus!
