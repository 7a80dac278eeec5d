//! Splitting a text into lines.

use crate::text::subvec;
use vstd::prelude::*;

verus! {

/// The end of a line whose newline stands at `nl` and which begins at
/// `start`: a carriage return just before the newline belongs to the line
/// ending.
pub open spec fn line_end(s: Seq<char>, start: int, nl: int) -> int {
    if nl > start && s[nl - 1] == '\r' {
        nl - 1
    } else {
        nl
    }
}

/// The lines of `s` from `start` on, as index pairs, where `i` is how far the
/// scan for the next newline has come.
pub open spec fn line_spans_scan(s: Seq<char>, start: int, i: int) -> Seq<(int, int)>
    decreases s.len() - i,
{
    if i >= s.len() {
        if start < s.len() {
            seq![(start, s.len() as int)]
        } else {
            seq![]
        }
    } else if s[i] == '\n' {
        seq![(start, line_end(s, start, i))] + line_spans_scan(s, i + 1, i + 1)
    } else {
        line_spans_scan(s, start, i + 1)
    }
}

/// Where the lines of `s` begin and end. A line ends before `"\n"` or
/// `"\r\n"`; a last line without a newline counts, an empty rest does not.
pub open spec fn line_spans(s: Seq<char>) -> Seq<(int, int)> {
    line_spans_scan(s, 0, 0)
}

/// The lines of `s`, without their line endings.
pub open spec fn lines(s: Seq<char>) -> Seq<Seq<char>> {
    Seq::new(line_spans(s).len(), |k: int| s.subrange(line_spans(s)[k].0, line_spans(s)[k].1))
}

/// The lines of `s` from `start` on, as texts, where `i` is how far the scan
/// for the next newline has come.
pub open spec fn lines_scan(s: Seq<char>, start: int, i: int) -> Seq<Seq<char>>
    decreases s.len() - i,
{
    if i >= s.len() {
        if start < s.len() {
            seq![s.subrange(start, s.len() as int)]
        } else {
            seq![]
        }
    } else if s[i] == '\n' {
        seq![s.subrange(start, line_end(s, start, i))] + lines_scan(s, i + 1, i + 1)
    } else {
        lines_scan(s, start, i + 1)
    }
}

/// The pieces of `s` from `start` on, each ending with its newline.
pub open spec fn split_inclusive_scan(s: Seq<char>, start: int, i: int) -> Seq<Seq<char>>
    decreases s.len() - i,
{
    if i >= s.len() {
        if start < s.len() {
            seq![s.subrange(start, s.len() as int)]
        } else {
            seq![]
        }
    } else if s[i] == '\n' {
        seq![s.subrange(start, i + 1)] + split_inclusive_scan(s, i + 1, i + 1)
    } else {
        split_inclusive_scan(s, start, i + 1)
    }
}

/// `s` cut after each newline; every piece but perhaps the last ends with one.
pub open spec fn split_inclusive(s: Seq<char>) -> Seq<Seq<char>> {
    split_inclusive_scan(s, 0, 0)
}

/// The span `p` lies inside `s`, not before `lo`, and holds no newline.
pub open spec fn span_within(s: Seq<char>, lo: int, p: (int, int)) -> bool {
    &&& lo <= p.0 <= p.1 <= s.len()
    &&& forall|j: int| p.0 <= j < p.1 ==> s[j] != '\n'
}

/// Every span lies inside the text and holds no newline, and each begins
/// after the one before it has ended.
pub proof fn lemma_line_spans_scan(s: Seq<char>, start: int, i: int)
    requires
        0 <= start <= i <= s.len(),
        forall|j: int| start <= j < i ==> s[j] != '\n',
    ensures
        forall|k: int|
            0 <= k < line_spans_scan(s, start, i).len() ==> span_within(
                s,
                start,
                #[trigger] line_spans_scan(s, start, i)[k],
            ),
        forall|k: int, l: int|
            0 <= k < l < line_spans_scan(s, start, i).len() ==> (
            #[trigger] line_spans_scan(s, start, i)[k]).1 < (#[trigger] line_spans_scan(
                s,
                start,
                i,
            )[l]).0,
    decreases s.len() - i,
{
    let r = line_spans_scan(s, start, i);
    if i >= s.len() {
        if start < s.len() {
            assert(r[0] == (start, s.len() as int));
        }
    } else if s[i] == '\n' {
        let rest = line_spans_scan(s, i + 1, i + 1);
        lemma_line_spans_scan(s, i + 1, i + 1);
        let first = (start, line_end(s, start, i));
        assert(r == seq![first] + rest);
        assert(span_within(s, start, first));
        assert forall|k: int| 0 <= k < r.len() implies span_within(s, start, #[trigger] r[k]) by {
            if k > 0 {
                assert(r[k] == rest[k - 1]);
                assert(span_within(s, i + 1, rest[k - 1]));
            } else {
                assert(r[0] == first);
            }
        }
        assert forall|k: int, l: int| 0 <= k < l < r.len() implies (#[trigger] r[k]).1 < (
        #[trigger] r[l]).0 by {
            assert(r[l] == rest[l - 1]);
            assert(span_within(s, i + 1, rest[l - 1]));
            if k > 0 {
                assert(r[k] == rest[k - 1]);
            } else {
                assert(r[0] == first);
            }
        }
    } else {
        lemma_line_spans_scan(s, start, i + 1);
        assert(r == line_spans_scan(s, start, i + 1));
    }
}

pub proof fn lemma_line_spans(s: Seq<char>)
    ensures
        lines(s).len() == line_spans(s).len(),
        forall|k: int|
            0 <= k < line_spans(s).len() ==> span_within(s, 0, #[trigger] line_spans(s)[k]),
        forall|k: int, l: int|
            0 <= k < l < line_spans(s).len() ==> (#[trigger] line_spans(s)[k]).1 < (
            #[trigger] line_spans(s)[l]).0,
{
    lemma_line_spans_scan(s, 0, 0);
}

/// Where the lines of `v` begin and end.
pub fn line_spans_chars(v: &Vec<char>) -> (r: Vec<(usize, usize)>)
    ensures
        r@.len() == line_spans(v@).len(),
        forall|k: int|
            0 <= k < r@.len() ==> (#[trigger] r@[k]).0 == line_spans(v@)[k].0 && r@[k].1
                == line_spans(v@)[k].1,
        forall|k: int| 0 <= k < r@.len() ==> (#[trigger] r@[k]).0 <= r@[k].1 <= v.len(),
{
    let mut out: Vec<(usize, usize)> = Vec::new();
    let ghost mut done: Seq<(int, int)> = Seq::empty();
    let mut start: usize = 0;
    let mut i: usize = 0;
    while i < v.len()
        invariant
            start <= i <= v.len(),
            out@.len() == done.len(),
            forall|k: int|
                0 <= k < out@.len() ==> (#[trigger] out@[k]).0 == done[k].0 && out@[k].1
                    == done[k].1,
            line_spans(v@) == done + line_spans_scan(v@, start as int, i as int),
        decreases v.len() - i,
    {
        if v[i] == '\n' {
            let end: usize = if i > start && v[i - 1] == '\r' {
                i - 1
            } else {
                i
            };
            out.push((start, end));
            proof {
                let item = (start as int, end as int);
                assert(line_spans_scan(v@, start as int, i as int) == seq![item]
                    + line_spans_scan(v@, i + 1, i + 1));
                assert(done + (seq![item] + line_spans_scan(v@, i + 1, i + 1)) == done.push(item)
                    + line_spans_scan(v@, i + 1, i + 1));
                done = done.push(item);
            }
            start = i + 1;
        }
        i += 1;
    }
    if start < v.len() {
        out.push((start, v.len()));
        proof {
            let item = (start as int, v.len() as int);
            assert(done + seq![item] == done.push(item));
            done = done.push(item);
        }
    } else {
        assert(done + Seq::<(int, int)>::empty() == done);
    }
    proof {
        assert(done == line_spans(v@));
        lemma_line_spans(v@);
        assert forall|k: int| 0 <= k < out@.len() implies (#[trigger] out@[k]).0 <= out@[k].1
            <= v.len() by {
            assert(span_within(v@, 0, line_spans(v@)[k]));
        }
    }
    out
}

/// The lines of `v`, without their line endings.
pub fn split_lines(v: &Vec<char>) -> (r: Vec<Vec<char>>)
    ensures
        r@.len() == lines(v@).len(),
        forall|k: int| 0 <= k < r@.len() ==> (#[trigger] r@[k])@ == lines(v@)[k],
{
    let spans = line_spans_chars(v);
    let mut out: Vec<Vec<char>> = Vec::new();
    let mut k: usize = 0;
    while k < spans.len()
        invariant
            k <= spans.len(),
            spans@.len() == line_spans(v@).len(),
            forall|j: int|
                0 <= j < spans@.len() ==> (#[trigger] spans@[j]).0 == line_spans(v@)[j].0
                    && spans@[j].1 == line_spans(v@)[j].1,
            forall|j: int| 0 <= j < spans@.len() ==> (#[trigger] spans@[j]).0 <= spans@[j].1 <= v.len(),
            out@.len() == k,
            forall|j: int| 0 <= j < k ==> (#[trigger] out@[j])@ == lines(v@)[j],
        decreases spans.len() - k,
    {
        let (a, b) = spans[k];
        let line = subvec(v, a, b);
        out.push(line);
        k += 1;
    }
    out
}

/// `v` cut after each newline.
pub fn split_inclusive_chars(v: &Vec<char>) -> (r: Vec<Vec<char>>)
    ensures
        r@.len() == split_inclusive(v@).len(),
        forall|k: int| 0 <= k < r@.len() ==> (#[trigger] r@[k])@ == split_inclusive(v@)[k],
{
    let mut out: Vec<Vec<char>> = Vec::new();
    let ghost mut done: Seq<Seq<char>> = Seq::empty();
    let mut start: usize = 0;
    let mut i: usize = 0;
    while i < v.len()
        invariant
            start <= i <= v.len(),
            out@.len() == done.len(),
            forall|k: int| 0 <= k < out@.len() ==> (#[trigger] out@[k])@ == done[k],
            split_inclusive(v@) == done + split_inclusive_scan(v@, start as int, i as int),
        decreases v.len() - i,
    {
        if v[i] == '\n' {
            let piece = subvec(v, start, i + 1);
            proof {
                let item = piece@;
                assert(done + (seq![item] + split_inclusive_scan(v@, i + 1, i + 1)) == done.push(
                    item,
                ) + split_inclusive_scan(v@, i + 1, i + 1));
                done = done.push(item);
            }
            out.push(piece);
            start = i + 1;
        }
        i += 1;
    }
    if start < v.len() {
        let piece = subvec(v, start, v.len());
        proof {
            assert(done + seq![piece@] == done.push(piece@));
            done = done.push(piece@);
        }
        out.push(piece);
    } else {
        assert(done + Seq::<Seq<char>>::empty() == done);
    }
    out
}

/// The texts of the scan are the texts of its spans.
pub proof fn lemma_lines_scan(s: Seq<char>, start: int, i: int)
    requires
        0 <= start <= i <= s.len(),
    ensures
        lines_scan(s, start, i).len() == line_spans_scan(s, start, i).len(),
        forall|k: int|
            0 <= k < lines_scan(s, start, i).len() ==> #[trigger] lines_scan(s, start, i)[k]
                == s.subrange(
                line_spans_scan(s, start, i)[k].0,
                line_spans_scan(s, start, i)[k].1,
            ),
    decreases s.len() - i,
{
    if i >= s.len() {
    } else if s[i] == '\n' {
        lemma_lines_scan(s, i + 1, i + 1);
        let head_l = seq![s.subrange(start, line_end(s, start, i))];
        let rest_l = lines_scan(s, i + 1, i + 1);
        let head_s = seq![(start, line_end(s, start, i))];
        let rest_s = line_spans_scan(s, i + 1, i + 1);
        let all_l = lines_scan(s, start, i);
        let all_s = line_spans_scan(s, start, i);
        assert(all_l == head_l + rest_l);
        assert(all_s == head_s + rest_s);
        assert forall|k: int| 0 <= k < all_l.len() implies #[trigger] all_l[k] == s.subrange(
            all_s[k].0,
            all_s[k].1,
        ) by {
            if k > 0 {
                assert(all_l[k] == rest_l[k - 1]);
                assert(all_s[k] == rest_s[k - 1]);
            }
        }
    } else {
        lemma_lines_scan(s, start, i + 1);
    }
}

/// The lines of a text are what the scan from its start gives.
pub proof fn lemma_lines_are_scanned(s: Seq<char>)
    ensures
        lines(s) == lines_scan(s, 0, 0),
{
    lemma_lines_scan(s, 0, 0);
    assert(lines(s) =~= lines_scan(s, 0, 0));
}

/// The lines of `b` are the lines of `a + b` that come after `a`.
pub proof fn lemma_lines_shift(a: Seq<char>, b: Seq<char>, start: int, i: int)
    requires
        0 <= start <= i <= b.len(),
    ensures
        lines_scan(a + b, a.len() + start, a.len() + i) == lines_scan(b, start, i),
    decreases b.len() - i,
{
    let s = a + b;
    if i >= b.len() {
        if start < b.len() {
            assert(s.subrange(a.len() + start, s.len() as int) =~= b.subrange(
                start,
                b.len() as int,
            ));
        }
    } else {
        assert(s[a.len() + i] == b[i]);
        if b[i] == '\n' {
            if i > start {
                assert(s[a.len() + i - 1] == b[i - 1]);
            }
            let e = line_end(b, start, i);
            assert(line_end(s, a.len() + start, a.len() + i) == a.len() + e);
            assert(s.subrange(a.len() + start, a.len() + e) =~= b.subrange(start, e));
            lemma_lines_shift(a, b, i + 1, i + 1);
        } else {
            lemma_lines_shift(a, b, start, i + 1);
        }
    }
}

proof fn lemma_lines_to_newline(s: Seq<char>, n: int, i: int)
    requires
        0 <= i <= n < s.len(),
        forall|j: int| 0 <= j < n ==> s[j] != '\n',
    ensures
        lines_scan(s, 0, i) == lines_scan(s, 0, n),
    decreases n - i,
{
    if i < n {
        lemma_lines_to_newline(s, n, i + 1);
    }
}

/// A first line that holds neither a newline nor a carriage return and is
/// ended by a newline is the first line of the text, and what follows is
/// cut on its own.
pub proof fn lemma_lines_first(l: Seq<char>, rest: Seq<char>)
    requires
        forall|j: int| 0 <= j < l.len() ==> l[j] != '\n' && l[j] != '\r',
    ensures
        lines_scan(l.push('\n') + rest, 0, 0) == seq![l] + lines_scan(rest, 0, 0),
{
    let a = l.push('\n');
    let s = a + rest;
    let n = l.len() as int;
    lemma_lines_to_newline(s, n, 0);
    assert(s[n] == '\n');
    if n > 0 {
        assert(s[n - 1] == l[n - 1]);
    }
    assert(line_end(s, 0, n) == n);
    assert(s.subrange(0, n) =~= l);
    lemma_lines_shift(a, rest, 0, 0);
}

/// A text that is not empty and holds no newline is one line.
pub proof fn lemma_lines_single(l: Seq<char>, i: int)
    requires
        l.len() > 0,
        0 <= i <= l.len(),
        forall|j: int| 0 <= j < l.len() ==> l[j] != '\n',
    ensures
        lines_scan(l, 0, i) == seq![l],
    decreases l.len() - i,
{
    if i >= l.len() {
        assert(l.subrange(0, l.len() as int) =~= l);
    } else {
        lemma_lines_single(l, i + 1);
    }
}

} // verus!
