//! The turn aggregator: gathers recognised speech fragments into turn texts.

use crate::text::{
    chars_to_string, lemma_trim_len, lemma_views_push, str_to_chars, subvec, trim, trim_chars,
    views,
};
use vstd::prelude::*;

verus! {

/// How long the slow aggregator buffer may wait before it is flushed.
pub const FLUSH_TIMEOUT_MS: u64 = 2000;

/// How many messages the chat history keeps.
pub const MAX_HISTORY: usize = 6;

/// How many times an edit is asked for again after its answer was refused.
pub const MAX_EDIT_RETRIES: usize = 3;

/// A buffer shorter than this is flushed only by the timers.
pub const MIN_SPEECH_CHARS: usize = 40;

/// A fragment or a buffer of this many characters or more is cut into
/// several turn texts.
pub const MAX_SPEECH_CHARS: usize = 500;

/// One piece of a model's streamed answer, as the front end is told of it.
#[derive(Debug, Clone)]
pub struct LlmStreamEvent {
    pub phase: String,
    pub content: String,
    pub action_type: String,
}

/// How many characters `s` holds.
pub fn char_len(s: &str) -> (n: usize)
    ensures
        n == s@.len(),
{
    crate::text::char_count(s)
}

/// A character after which a long text may be cut.
pub open spec fn is_sentence_end(c: char) -> bool {
    c == '\u{3002}' || c == '\u{FF01}' || c == '\u{FF1F}' || c == '.' || c == '!' || c == '?'
        || c == ';' || c == '\u{FF1B}' || c == '\n'
}

/// A character that ends a sentence, so that a buffer ending with it may be
/// flushed.
pub open spec fn is_flush_punctuation(c: char) -> bool {
    c == '\u{3002}' || c == '\u{FF01}' || c == '\u{FF1F}' || c == '.' || c == '!' || c == '?'
}

fn char_is_sentence_end(c: char) -> (b: bool)
    ensures
        b == is_sentence_end(c),
{
    c == '\u{3002}' || c == '\u{FF01}' || c == '\u{FF1F}' || c == '.' || c == '!' || c == '?'
        || c == ';' || c == '\u{FF1B}' || c == '\n'
}

fn char_is_flush_punctuation(c: char) -> (b: bool)
    ensures
        b == is_flush_punctuation(c),
{
    c == '\u{3002}' || c == '\u{FF01}' || c == '\u{FF1F}' || c == '.' || c == '!' || c == '?'
}

/// The trimmed piece `t[from..to]` as a list: empty where the piece is blank.
pub open spec fn piece(t: Seq<char>, from: int, to: int) -> Seq<Seq<char>> {
    if trim(t.subrange(from, to)).len() > 0 {
        seq![trim(t.subrange(from, to))]
    } else {
        seq![]
    }
}

/// Whether `t` holds a sentence end.
pub open spec fn has_sentence_end(t: Seq<char>) -> bool {
    exists|i: int| 0 <= i < t.len() && is_sentence_end(#[trigger] t[i])
}

/// Whether a piece that began at `from` ends right after index `i`: after a
/// sentence end always, and by its length only where `by_length` says so.
pub open spec fn cut_after(t: Seq<char>, from: int, i: int, by_length: bool) -> bool {
    is_sentence_end(t[i]) || (by_length && i + 1 - from >= MAX_SPEECH_CHARS)
}

/// The pieces of `t` from `from` on, where `i` is how far the scan has come:
/// a piece ends after a sentence end, and, where `by_length` holds, also
/// when it has reached the longest length that a cut by length leaves.
pub open spec fn split_scan(t: Seq<char>, from: int, i: int, by_length: bool) -> Seq<Seq<char>>
    decreases t.len() - i,
{
    if i >= t.len() {
        piece(t, from, t.len() as int)
    } else if cut_after(t, from, i, by_length) {
        piece(t, from, i + 1) + split_scan(t, i + 1, i + 1, by_length)
    } else {
        split_scan(t, from, i + 1, by_length)
    }
}

/// The turn texts that a fragment is cut into: none for a blank fragment,
/// and the trimmed fragment itself where it is shorter than 500 characters.
/// A longer one is cut after each of its sentence ends and nowhere else, so
/// that no word is broken; only a fragment without any sentence end is cut
/// by length, every 500 characters. The pieces are trimmed, and blank ones
/// are left out.
pub open spec fn split_long_speech_spec(s: Seq<char>) -> Seq<Seq<char>> {
    if trim(s).len() == 0 {
        seq![]
    } else if trim(s).len() < MAX_SPEECH_CHARS {
        seq![trim(s)]
    } else {
        split_scan(trim(s), 0, 0, !has_sentence_end(trim(s)))
    }
}

/// A text that is not empty and not longer than 500 characters.
pub open spec fn turn_sized(p: Seq<char>) -> bool {
    0 < p.len() <= MAX_SPEECH_CHARS
}

/// No piece is empty.
pub proof fn lemma_split_scan_not_empty(t: Seq<char>, from: int, i: int, by_length: bool)
    requires
        0 <= from <= i <= t.len(),
    ensures
        forall|k: int|
            0 <= k < split_scan(t, from, i, by_length).len() ==> (#[trigger] split_scan(
                t,
                from,
                i,
                by_length,
            )[k]).len() > 0,
    decreases t.len() - i,
{
    let r = split_scan(t, from, i, by_length);
    if i >= t.len() {
        if r.len() > 0 {
            assert(r[0] == trim(t.subrange(from, t.len() as int)));
        }
    } else if cut_after(t, from, i, by_length) {
        lemma_split_scan_not_empty(t, i + 1, i + 1, by_length);
        let head = piece(t, from, i + 1);
        let rest = split_scan(t, i + 1, i + 1, by_length);
        assert(r == head + rest);
        assert forall|k: int| 0 <= k < r.len() implies (#[trigger] r[k]).len() > 0 by {
            if k < head.len() {
                assert(r[k] == head[k]);
                assert(head[0] == trim(t.subrange(from, i + 1)));
            } else {
                assert(r[k] == rest[k - head.len()]);
            }
        }
    } else {
        lemma_split_scan_not_empty(t, from, i + 1, by_length);
        assert(r == split_scan(t, from, i + 1, by_length));
    }
}

/// Where the scan cuts by length too, no piece is longer than 500
/// characters.
pub proof fn lemma_split_scan_bounds(t: Seq<char>, from: int, i: int)
    requires
        0 <= from <= i <= t.len(),
        i - from < MAX_SPEECH_CHARS,
    ensures
        forall|k: int|
            0 <= k < split_scan(t, from, i, true).len() ==> turn_sized(
                #[trigger] split_scan(t, from, i, true)[k],
            ),
    decreases t.len() - i,
{
    let r = split_scan(t, from, i, true);
    if i >= t.len() {
        lemma_trim_len(t.subrange(from, t.len() as int));
        if r.len() > 0 {
            assert(r[0] == trim(t.subrange(from, t.len() as int)));
        }
    } else if cut_after(t, from, i, true) {
        lemma_trim_len(t.subrange(from, i + 1));
        lemma_split_scan_bounds(t, i + 1, i + 1);
        let head = piece(t, from, i + 1);
        let rest = split_scan(t, i + 1, i + 1, true);
        assert(r == head + rest);
        assert forall|k: int| 0 <= k < r.len() implies turn_sized(#[trigger] r[k]) by {
            if k < head.len() {
                assert(r[k] == head[k]);
                assert(head[0] == trim(t.subrange(from, i + 1)));
            } else {
                assert(r[k] == rest[k - head.len()]);
            }
        }
    } else {
        lemma_split_scan_bounds(t, from, i + 1);
        assert(r == split_scan(t, from, i + 1, true));
    }
}

/// No turn text that comes out of the splitter is empty, and where the
/// fragment is short or holds no sentence end, none is longer than 500
/// characters.
pub proof fn lemma_split_long_speech_bounds(s: Seq<char>)
    ensures
        forall|k: int|
            0 <= k < split_long_speech_spec(s).len() ==> (#[trigger] split_long_speech_spec(
                s,
            )[k]).len() > 0,
        trim(s).len() < MAX_SPEECH_CHARS || !has_sentence_end(trim(s)) ==> forall|k: int|
            0 <= k < split_long_speech_spec(s).len() ==> turn_sized(
                #[trigger] split_long_speech_spec(s)[k],
            ),
{
    if trim(s).len() >= MAX_SPEECH_CHARS {
        lemma_split_scan_not_empty(trim(s), 0, 0, !has_sentence_end(trim(s)));
        if !has_sentence_end(trim(s)) {
            lemma_split_scan_bounds(trim(s), 0, 0);
        }
    } else if trim(s).len() > 0 {
        assert(split_long_speech_spec(s)[0] == trim(s));
    }
}

fn push_piece(out: &mut Vec<String>, t: &Vec<char>, from: usize, to: usize)
    requires
        from <= to <= t.len(),
    ensures
        views(final(out)@) == views(old(out)@) + piece(t@, from as int, to as int),
{
    let raw = subvec(t, from, to);
    let chunk = trim_chars(&raw);
    if chunk.len() > 0 {
        let s = chars_to_string(&chunk);
        proof {
            lemma_views_push(out@, s);
        }
        out.push(s);
    } else {
        assert(views(out@) + Seq::<Seq<char>>::empty() == views(out@));
    }
}

fn chars_have_sentence_end(t: &Vec<char>) -> (b: bool)
    ensures
        b == has_sentence_end(t@),
{
    let mut i: usize = 0;
    while i < t.len()
        invariant
            i <= t.len(),
            forall|j: int| 0 <= j < i ==> !is_sentence_end(#[trigger] t@[j]),
        decreases t.len() - i,
    {
        if char_is_sentence_end(t[i]) {
            assert(is_sentence_end(t@[i as int]));
            return true;
        }
        i += 1;
    }
    false
}

fn split_chars(t: &Vec<char>, by_length: bool) -> (r: Vec<String>)
    ensures
        views(r@) == split_scan(t@, 0, 0, by_length),
{
    let mut out: Vec<String> = Vec::new();
    let mut from: usize = 0;
    let mut i: usize = 0;
    assert(views(out@) == Seq::<Seq<char>>::empty());
    assert(Seq::<Seq<char>>::empty() + split_scan(t@, 0, 0, by_length) == split_scan(
        t@,
        0,
        0,
        by_length,
    ));
    while i < t.len()
        invariant
            from <= i <= t.len(),
            split_scan(t@, 0, 0, by_length) == views(out@) + split_scan(
                t@,
                from as int,
                i as int,
                by_length,
            ),
        decreases t.len() - i,
    {
        let ghost before = views(out@);
        if char_is_sentence_end(t[i]) || (by_length && i + 1 - from >= MAX_SPEECH_CHARS) {
            push_piece(&mut out, t, from, i + 1);
            proof {
                let p = piece(t@, from as int, i + 1);
                let tail = split_scan(t@, i + 1, i + 1, by_length);
                assert(before + (p + tail) == (before + p) + tail);
            }
            from = i + 1;
        }
        i += 1;
    }
    push_piece(&mut out, t, from, t.len());
    out
}

/// Cuts a long fragment into turn texts at its sentence ends.
pub fn split_long_speech(s: &str) -> (r: Vec<String>)
    ensures
        views(r@) == split_long_speech_spec(s@),
        forall|k: int| 0 <= k < r@.len() ==> (#[trigger] r@[k])@.len() > 0,
        trim(s@).len() < MAX_SPEECH_CHARS || !has_sentence_end(trim(s@)) ==> forall|k: int|
            0 <= k < r@.len() ==> turn_sized((#[trigger] r@[k])@),
{
    let v = str_to_chars(s);
    let t = trim_chars(&v);
    proof {
        lemma_split_long_speech_bounds(s@);
    }
    let mut out: Vec<String> = Vec::new();
    if t.len() == 0 {
        assert(views(out@) =~= Seq::<Seq<char>>::empty());
    } else if t.len() < MAX_SPEECH_CHARS {
        let only = chars_to_string(&t);
        out.push(only);
        assert(views(out@) =~= seq![trim(s@)]);
    } else {
        let by_length = !chars_have_sentence_end(&t);
        out = split_chars(&t, by_length);
    }
    proof {
        assert forall|k: int| 0 <= k < out@.len() implies (#[trigger] out@[k])@.len() > 0 by {
            assert(views(out@)[k] == out@[k]@);
            assert(split_long_speech_spec(s@)[k].len() > 0);
        }
        if trim(s@).len() < MAX_SPEECH_CHARS || !has_sentence_end(trim(s@)) {
            assert forall|k: int| 0 <= k < out@.len() implies turn_sized((#[trigger] out@[k])@) by {
                assert(views(out@)[k] == out@[k]@);
                assert(turn_sized(split_long_speech_spec(s@)[k]));
            }
        }
    }
    out
}

// ---------------------------------------------------------------------------
// The aggregator
// ---------------------------------------------------------------------------

/// Gathers short fragments until they make a turn text.
pub struct SpeechAggregator {
    pub buf: String,
}

/// `buf` with `chunk` added, a space between them where `buf` is not empty.
pub open spec fn merged(buf: Seq<char>, chunk: Seq<char>) -> Seq<char> {
    if buf.len() > 0 {
        buf.push(' ') + chunk
    } else {
        chunk
    }
}

/// A buffer that is flushed at once: long enough and ending a sentence, or
/// as long as a turn text may be.
pub open spec fn should_flush(buf: Seq<char>) -> bool {
    (buf.len() >= MIN_SPEECH_CHARS && buf.len() > 0 && is_flush_punctuation(buf.last()))
        || buf.len() >= MAX_SPEECH_CHARS
}

/// The buffer after a fragment was pushed, and the turn texts that the push
/// hands out.
pub open spec fn push_spec(buf: Seq<char>, chunk: Seq<char>) -> (Seq<char>, Seq<Seq<char>>) {
    let c = trim(chunk);
    if c.len() == 0 {
        (buf, seq![])
    } else if c.len() >= MAX_SPEECH_CHARS {
        if buf.len() >= MIN_SPEECH_CHARS {
            (Seq::empty(), seq![trim(buf)] + split_long_speech_spec(c))
        } else {
            (buf, split_long_speech_spec(c))
        }
    } else if should_flush(merged(buf, c)) {
        (Seq::empty(), split_long_speech_spec(trim(merged(buf, c))))
    } else {
        (merged(buf, c), seq![])
    }
}

impl SpeechAggregator {
    pub fn new() -> (a: Self)
        ensures
            a.buf@.len() == 0,
    {
        SpeechAggregator { buf: String::new() }
    }

    /// Takes one fragment. Returns the turn texts that are ready, in order.
    pub fn push(&mut self, chunk: &str) -> (r: Vec<String>)
        ensures
            final(self).buf@ == push_spec(old(self).buf@, chunk@).0,
            views(r@) == push_spec(old(self).buf@, chunk@).1,
    {
        let cv = str_to_chars(chunk);
        let c = trim_chars(&cv);
        let mut out: Vec<String> = Vec::new();
        assert(views(out@) =~= Seq::<Seq<char>>::empty());
        if c.len() == 0 {
            return out;
        }
        let cs = chars_to_string(&c);
        if c.len() >= MAX_SPEECH_CHARS {
            if char_len(self.buf.as_str()) >= MIN_SPEECH_CHARS {
                let flushed = self.flush();
                out.push(flushed);
                assert(views(out@) =~= seq![trim(old(self).buf@)]);
            }
            let ghost before = views(out@);
            let mut pieces = split_long_speech(cs.as_str());
            proof {
                assert(trim(c@) == c@) by {
                    crate::text::lemma_trim_idempotent(chunk@);
                }
            }
            let ghost pv = views(pieces@);
            out.append(&mut pieces);
            assert(views(out@) =~= before + pv);
            return out;
        }
        if !self.buf.as_str().is_empty() {
            self.buf.push(' ');
        }
        self.buf.append(cs.as_str());
        let bv = str_to_chars(self.buf.as_str());
        let n = bv.len();
        let ends_with_punct = n > 0 && char_is_flush_punctuation(bv[n - 1]);
        let flush_now = (n >= MIN_SPEECH_CHARS && ends_with_punct) || n >= MAX_SPEECH_CHARS;
        if flush_now {
            let text = self.flush();
            proof {
                crate::text::lemma_trim_idempotent(merged(old(self).buf@, c@));
            }
            return split_long_speech(text.as_str());
        }
        out
    }

    /// Empties the buffer and returns what it held, trimmed.
    pub fn flush(&mut self) -> (t: String)
        ensures
            t@ == trim(old(self).buf@),
            final(self).buf@.len() == 0,
    {
        let t = crate::text::trim_str(self.buf.as_str());
        self.buf = String::new();
        t
    }
}

impl Default for SpeechAggregator {
    fn default() -> (a: Self)
        ensures
            a.buf@.len() == 0,
    {
        SpeechAggregator::new()
    }
}

} // verus!
