//! Replacing every occurrence of a pattern, and the tab rule of the document:
//! four spaces, never a tab.

use crate::text::{chars_to_string, contains, matches_at, occurs_at, push_chars, str_to_chars, subvec};
use vstd::prelude::*;

verus! {

/// `h` with every occurrence of `pat` replaced by `to`, scanning from the
/// left and never overlapping. An empty pattern replaces nothing.
pub open spec fn replace_all(h: Seq<char>, pat: Seq<char>, to: Seq<char>) -> Seq<char>
    decreases h.len(),
{
    if pat.len() == 0 || h.len() < pat.len() {
        h
    } else if occurs_at(h, pat, 0) {
        to + replace_all(h.skip(pat.len() as int), pat, to)
    } else {
        seq![h[0]] + replace_all(h.drop_first(), pat, to)
    }
}

/// Where the pattern does not occur, nothing is replaced.
pub proof fn lemma_replace_absent(h: Seq<char>, pat: Seq<char>, to: Seq<char>)
    requires
        !contains(h, pat),
    ensures
        replace_all(h, pat, to) == h,
    decreases h.len(),
{
    if pat.len() == 0 || h.len() < pat.len() {
    } else {
        assert(!occurs_at(h, pat, 0));
        let t = h.drop_first();
        assert forall|i: int| !occurs_at(t, pat, i) by {
            if occurs_at(t, pat, i) {
                assert(t.subrange(i, i + pat.len()) == h.subrange(i + 1, i + 1 + pat.len()));
                assert(occurs_at(h, pat, i + 1));
            }
        }
        lemma_replace_absent(t, pat, to);
        assert(seq![h[0]] + t == h);
    }
}

/// `h` with every occurrence of `pat` replaced by `to`.
pub fn replace_chars(h: &Vec<char>, pat: &Vec<char>, to: &Vec<char>) -> (r: Vec<char>)
    ensures
        r@ == replace_all(h@, pat@, to@),
{
    let mut out: Vec<char> = Vec::new();
    if pat.len() == 0 || h.len() < pat.len() {
        push_chars(&mut out, h);
        return out;
    }
    let last: usize = h.len() - pat.len();
    let mut i: usize = 0;
    proof {
        assert(h@.skip(0) == h@);
        assert(out@ + replace_all(h@, pat@, to@) == replace_all(h@, pat@, to@));
    }
    while i <= last
        invariant
            pat.len() > 0,
            last == h.len() - pat.len(),
            i <= h.len(),
            replace_all(h@, pat@, to@) == out@ + replace_all(h@.skip(i as int), pat@, to@),
        decreases h.len() - i,
    {
        let ghost rest = h@.skip(i as int);
        let ghost before = out@;
        if matches_at(h, pat, i) {
            proof {
                assert(rest.subrange(0, pat.len() as int) == h@.subrange(
                    i as int,
                    i + pat.len(),
                ));
                assert(occurs_at(rest, pat@, 0));
                assert(rest.skip(pat.len() as int) == h@.skip(i + pat.len()));
            }
            push_chars(&mut out, to);
            i += pat.len();
            proof {
                assert(out@ + replace_all(h@.skip(i as int), pat@, to@) == before + (to@
                    + replace_all(h@.skip(i as int), pat@, to@)));
            }
        } else {
            proof {
                assert(rest.subrange(0, pat.len() as int) == h@.subrange(
                    i as int,
                    i + pat.len(),
                ));
                assert(!occurs_at(rest, pat@, 0));
                assert(rest.drop_first() == h@.skip(i + 1));
                assert(rest[0] == h@[i as int]);
            }
            out.push(h[i]);
            i += 1;
            proof {
                assert(out@ + replace_all(h@.skip(i as int), pat@, to@) == before + (seq![
                    h@[i - 1],
                ] + replace_all(h@.skip(i as int), pat@, to@)));
            }
        }
    }
    let tail = subvec(h, i, h.len());
    push_chars(&mut out, &tail);
    out
}

/// `h` with every occurrence of `pat` replaced by `to`, as a string.
pub fn replace_str(h: &str, pat: &str, to: &str) -> (r: String)
    ensures
        r@ == replace_all(h@, pat@, to@),
{
    let hv = str_to_chars(h);
    let pv = str_to_chars(pat);
    let tv = str_to_chars(to);
    let r = replace_chars(&hv, &pv, &tv);
    chars_to_string(&r)
}

// ---------------------------------------------------------------------------
// Tabs
// ---------------------------------------------------------------------------

pub open spec fn tab() -> Seq<char> {
    seq!['\t']
}

pub open spec fn four_spaces() -> Seq<char> {
    seq![' ', ' ', ' ', ' ']
}

/// `s` with each tab replaced by four spaces.
pub open spec fn normalize_tabs(s: Seq<char>) -> Seq<char> {
    replace_all(s, tab(), four_spaces())
}

pub open spec fn has_tab(s: Seq<char>) -> bool {
    exists|i: int| 0 <= i < s.len() && #[trigger] s[i] == '\t'
}

pub proof fn lemma_has_tab_contains(s: Seq<char>)
    ensures
        has_tab(s) <==> contains(s, tab()),
{
    if has_tab(s) {
        let i = choose|i: int| 0 <= i < s.len() && #[trigger] s[i] == '\t';
        assert(s.subrange(i, i + 1) == tab());
        assert(occurs_at(s, tab(), i));
    }
    if contains(s, tab()) {
        let i = choose|i: int| occurs_at(s, tab(), i);
        assert(s.subrange(i, i + 1)[0] == s[i]);
        assert(s[i] == '\t');
    }
}

/// After normalisation no tab is left.
pub proof fn lemma_normalize_tabs_no_tab(s: Seq<char>)
    ensures
        !has_tab(normalize_tabs(s)),
    decreases s.len(),
{
    let r = normalize_tabs(s);
    if s.len() < 1 {
    } else if occurs_at(s, tab(), 0) {
        let t = s.skip(1);
        lemma_normalize_tabs_no_tab(t);
        let rt = normalize_tabs(t);
        assert(r == four_spaces() + rt);
        assert forall|i: int| 0 <= i < r.len() implies #[trigger] r[i] != '\t' by {
            if i >= 4 {
                assert(r[i] == rt[i - 4]);
            }
        }
    } else {
        let t = s.drop_first();
        lemma_normalize_tabs_no_tab(t);
        let rt = normalize_tabs(t);
        assert(r == seq![s[0]] + rt);
        assert(s.subrange(0, 1) == seq![s[0]]);
        assert(s[0] != '\t') by {
            if s[0] == '\t' {
                assert(s.subrange(0, 1) == tab());
            }
        }
        assert forall|i: int| 0 <= i < r.len() implies #[trigger] r[i] != '\t' by {
            if i >= 1 {
                assert(r[i] == rt[i - 1]);
            }
        }
    }
}

/// Normalising twice is normalising once.
pub proof fn lemma_normalize_tabs_idempotent(s: Seq<char>)
    ensures
        normalize_tabs(normalize_tabs(s)) == normalize_tabs(s),
{
    lemma_normalize_tabs_no_tab(s);
    lemma_has_tab_contains(normalize_tabs(s));
    lemma_replace_absent(normalize_tabs(s), tab(), four_spaces());
}

/// Every space of `q` is followed, inside `q`, by a character that is no
/// space.
pub open spec fn spaces_stand_alone(q: Seq<char>) -> bool {
    forall|i: int| 0 <= i < q.len() && #[trigger] q[i] == ' ' ==> i + 1 < q.len() && q[i + 1] != ' '
}

/// A beginning of the normalised text whose spaces stand alone is a
/// beginning of the text itself: none of its spaces came from a tab.
pub proof fn lemma_normalized_prefix(t: Seq<char>, q: Seq<char>)
    requires
        spaces_stand_alone(q),
        occurs_at(normalize_tabs(t), q, 0),
    ensures
        occurs_at(t, q, 0),
    decreases t.len(),
{
    let r = normalize_tabs(t);
    if q.len() == 0 {
        assert(t.subrange(0, 0) == q);
    } else if t.len() < 1 {
    } else {
        assert(q[0] == r.subrange(0, q.len() as int)[0]);
        if occurs_at(t, tab(), 0) {
            let rest = normalize_tabs(t.skip(1));
            assert(r == four_spaces() + rest);
            assert(r[0] == ' ');
            assert(q[0] == ' ');
            assert(q[1] == r.subrange(0, q.len() as int)[1]);
            assert(r[1] == ' ');
        } else {
            let u = t.drop_first();
            let rest = normalize_tabs(u);
            assert(r == seq![t[0]] + rest);
            let qq = q.drop_first();
            assert(spaces_stand_alone(qq)) by {
                assert forall|i: int| 0 <= i < qq.len() && #[trigger] qq[i] == ' ' implies i + 1
                    < qq.len() && qq[i + 1] != ' ' by {
                    assert(q[i + 1] == ' ');
                }
            }
            assert(rest.subrange(0, qq.len() as int) =~= r.subrange(0, q.len() as int).drop_first());
            lemma_normalized_prefix(u, qq);
            assert(t.subrange(0, q.len() as int) =~= seq![t[0]] + u.subrange(0, qq.len() as int));
            assert(q =~= seq![q[0]] + qq);
        }
    }
}

/// Normalisation makes no new occurrence of a pattern that does not begin
/// with a space and whose spaces stand alone: where the normalised text
/// holds it, the text held it before.
pub proof fn lemma_normalize_tabs_adds_no_match(s: Seq<char>, pat: Seq<char>)
    requires
        pat.len() > 0,
        pat[0] != ' ',
        spaces_stand_alone(pat),
        contains(normalize_tabs(s), pat),
    ensures
        contains(s, pat),
    decreases s.len(),
{
    let r = normalize_tabs(s);
    let n = pat.len() as int;
    let j = choose|j: int| occurs_at(r, pat, j);
    assert(occurs_at(r, pat, j));
    assert(pat[0] == r.subrange(j, j + n)[0]);
    if s.len() < 1 {
        assert(occurs_at(s, pat, j));
    } else if occurs_at(s, tab(), 0) {
        let t = s.skip(1);
        let rest = normalize_tabs(t);
        assert(r == four_spaces() + rest);
        if j < 4 {
            assert(r[j] == ' ');
        } else {
            assert(rest.subrange(j - 4, j - 4 + n) =~= r.subrange(j, j + n));
            assert(occurs_at(rest, pat, j - 4));
            lemma_normalize_tabs_adds_no_match(t, pat);
            let i = choose|i: int| occurs_at(t, pat, i);
            assert(s.subrange(i + 1, i + 1 + n) =~= t.subrange(i, i + n));
            assert(occurs_at(s, pat, i + 1));
        }
    } else {
        let t = s.drop_first();
        let rest = normalize_tabs(t);
        assert(r == seq![s[0]] + rest);
        if j == 0 {
            lemma_normalized_prefix(s, pat);
        } else {
            assert(rest.subrange(j - 1, j - 1 + n) =~= r.subrange(j, j + n));
            assert(occurs_at(rest, pat, j - 1));
            lemma_normalize_tabs_adds_no_match(t, pat);
            let i = choose|i: int| occurs_at(t, pat, i);
            assert(s.subrange(i + 1, i + 1 + n) =~= t.subrange(i, i + n));
            assert(occurs_at(s, pat, i + 1));
        }
    }
}

/// Normalising two texts one after the other is normalising them as one:
/// a tab is one character, so no match lies across the seam.
pub proof fn lemma_normalize_tabs_add(a: Seq<char>, b: Seq<char>)
    ensures
        normalize_tabs(a + b) == normalize_tabs(a) + normalize_tabs(b),
    decreases a.len(),
{
    let s = a + b;
    if a.len() == 0 {
        assert(s =~= b);
        assert(normalize_tabs(a) + normalize_tabs(b) =~= normalize_tabs(b));
    } else {
        assert(s[0] == a[0]);
        assert(s.subrange(0, 1) =~= a.subrange(0, 1));
        assert(occurs_at(s, tab(), 0) == occurs_at(a, tab(), 0));
        assert(s.skip(1) =~= a.skip(1) + b);
        assert(s.drop_first() =~= a.drop_first() + b);
        if occurs_at(a, tab(), 0) {
            lemma_normalize_tabs_add(a.skip(1), b);
            assert(normalize_tabs(s) =~= normalize_tabs(a) + normalize_tabs(b));
        } else {
            lemma_normalize_tabs_add(a.drop_first(), b);
            assert(normalize_tabs(s) =~= normalize_tabs(a) + normalize_tabs(b));
        }
    }
}

/// A text without tabs is left as it is.
pub proof fn lemma_normalize_tabs_fixed(s: Seq<char>)
    requires
        !has_tab(s),
    ensures
        normalize_tabs(s) == s,
{
    lemma_has_tab_contains(s);
    lemma_replace_absent(s, tab(), four_spaces());
}

/// Whether `v` holds a tab.
pub fn chars_have_tab(v: &Vec<char>) -> (b: bool)
    ensures
        b == has_tab(v@),
{
    let mut i: usize = 0;
    while i < v.len()
        invariant
            i <= v.len(),
            forall|j: int| 0 <= j < i ==> #[trigger] v@[j] != '\t',
        decreases v.len() - i,
    {
        if v[i] == '\t' {
            return true;
        }
        i += 1;
    }
    false
}

/// `v` with each tab replaced by four spaces.
pub fn normalize_tabs_chars(v: &Vec<char>) -> (r: Vec<char>)
    ensures
        r@ == normalize_tabs(v@),
        !has_tab(r@),
{
    let mut pat: Vec<char> = Vec::new();
    pat.push('\t');
    let mut to: Vec<char> = Vec::new();
    to.push(' ');
    to.push(' ');
    to.push(' ');
    to.push(' ');
    assert(pat@ == tab());
    assert(to@ == four_spaces());
    proof {
        lemma_normalize_tabs_no_tab(v@);
    }
    replace_chars(v, &pat, &to)
}

/// `s` with each tab replaced by four spaces.
pub fn normalize_tabs_str(s: &str) -> (r: String)
    ensures
        r@ == normalize_tabs(s@),
        !has_tab(r@),
{
    let v = str_to_chars(s);
    let r = normalize_tabs_chars(&v);
    chars_to_string(&r)
}

// ---------------------------------------------------------------------------
// Indentation
// ---------------------------------------------------------------------------

/// `i` is where a line of `s` begins.
pub open spec fn at_line_start(s: Seq<char>, i: int) -> bool {
    i == 0 || s[i - 1] == '\n'
}

/// `s` from `i` on, with two spaces added to each line that begins with two.
pub open spec fn widen_scan(s: Seq<char>, i: int) -> Seq<char>
    decreases s.len() - i,
{
    if i >= s.len() {
        seq![]
    } else if at_line_start(s, i) && i + 1 < s.len() && s[i] == ' ' && s[i + 1] == ' ' {
        four_spaces() + widen_scan(s, i + 2)
    } else {
        seq![s[i]] + widen_scan(s, i + 1)
    }
}

/// `s` with the first two spaces of each line that begins with two spaces
/// made four.
pub open spec fn widen_indent(s: Seq<char>) -> Seq<char> {
    widen_scan(s, 0)
}

/// Makes the first two spaces of each line that begins with two spaces
/// four.
pub fn widen_line_indent(text: &str) -> (r: String)
    ensures
        r@ == widen_indent(text@),
{
    let v = str_to_chars(text);
    let mut out: Vec<char> = Vec::new();
    let mut i: usize = 0;
    assert(out@ + widen_scan(v@, 0) == widen_scan(v@, 0));
    while i < v.len()
        invariant
            i <= v.len(),
            widen_indent(v@) == out@ + widen_scan(v@, i as int),
        decreases v.len() - i,
    {
        let ghost before = out@;
        let line_start = i == 0 || v[i - 1] == '\n';
        if line_start && i + 1 < v.len() && v[i] == ' ' && v[i + 1] == ' ' {
            out.push(' ');
            out.push(' ');
            out.push(' ');
            out.push(' ');
            assert(out@ == before + four_spaces());
            assert(before + (four_spaces() + widen_scan(v@, i + 2)) == (before + four_spaces())
                + widen_scan(v@, i + 2));
            i += 2;
        } else {
            out.push(v[i]);
            assert(before + (seq![v@[i as int]] + widen_scan(v@, i + 1)) == before.push(
                v@[i as int],
            ) + widen_scan(v@, i + 1));
            i += 1;
        }
    }
    assert(out@ + widen_scan(v@, v.len() as int) == out@);
    chars_to_string(&out)
}

} // verus!
