//! The reader of a model's streamed answer: server-sent events, whose lines
//! may come split over the chunks of the transport.

use crate::json::{nested_string, read_nested_string};
use crate::text::{
    chars_eq, chars_to_string, push_chars, starts_with, starts_with_chars, str_to_chars, subvec,
    trim_start, trim_start_chars,
};
use vstd::prelude::*;

verus! {

/// The text delta that a chat-completion chunk carries: the string at
/// `choices[0].delta.content` of the JSON text, if the text parses and holds
/// a string there.
pub open spec fn chunk_delta(data: Seq<char>) -> Option<Seq<char>> {
    nested_string(data, "choices"@, 0, "delta"@, "content"@)
}

/// The text that one line of the stream adds to the answer. Only a line
/// that begins with `data:` adds anything; the end mark `[DONE]` and data
/// that holds no text delta add nothing.
pub open spec fn line_delta(line: Seq<char>) -> Seq<char> {
    let bare = if line.len() > 0 && line.last() == '\r' {
        line.drop_last()
    } else {
        line
    };
    let l = trim_start(bare);
    if !starts_with(l, "data:"@) {
        Seq::empty()
    } else {
        let data = trim_start(l.skip("data:"@.len() as int));
        if data == "[DONE]"@ {
            Seq::empty()
        } else {
            match chunk_delta(data) {
                Some(c) => c,
                None => Seq::empty(),
            }
        }
    }
}

/// What the complete lines of `s` from `start` on add to the answer, and the
/// incomplete line that is left at the end; `i` is how far the scan for the
/// next newline has come.
pub open spec fn feed_scan(s: Seq<char>, start: int, i: int) -> (Seq<char>, Seq<char>)
    decreases s.len() - i,
{
    if i >= s.len() {
        (Seq::empty(), s.subrange(start, s.len() as int))
    } else if s[i] == '\n' {
        let (d, rest) = feed_scan(s, i + 1, i + 1);
        (line_delta(s.subrange(start, i)) + d, rest)
    } else {
        feed_scan(s, start, i + 1)
    }
}

/// What a chunk adds to the answer, and what the reader keeps for the next
/// chunk.
pub open spec fn fed(buffer: Seq<char>, chunk: Seq<char>) -> (Seq<char>, Seq<char>) {
    feed_scan(buffer + chunk, 0, 0)
}

/// The reader of a stream of server-sent events.
pub struct SseParser {
    buf: Vec<char>,
}

impl View for SseParser {
    type V = Seq<char>;

    closed spec fn view(&self) -> Seq<char> {
        self.buf@
    }
}

fn read_line(line: &Vec<char>) -> (r: Vec<char>)
    ensures
        r@ == line_delta(line@),
{
    let end = if line.len() > 0 && line[line.len() - 1] == '\r' {
        line.len() - 1
    } else {
        line.len()
    };
    let bare = subvec(line, 0, end);
    assert(bare@ == if line@.len() > 0 && line@.last() == '\r' {
        line@.drop_last()
    } else {
        line@
    });
    let l = trim_start_chars(&bare);
    let key = str_to_chars("data:");
    if !starts_with_chars(&l, &key) {
        return Vec::new();
    }
    let rest = subvec(&l, key.len(), l.len());
    let data = trim_start_chars(&rest);
    let done = str_to_chars("[DONE]");
    if chars_eq(&data, &done) {
        return Vec::new();
    }
    let text = chars_to_string(&data);
    match read_nested_string(text.as_str(), "choices", 0, "delta", "content") {
        Some(c) => str_to_chars(c.as_str()),
        None => Vec::new(),
    }
}

impl SseParser {
    pub fn new() -> (p: Self)
        ensures
            p@.len() == 0,
    {
        SseParser { buf: Vec::new() }
    }

    /// Takes one chunk of the stream, as text. Returns what its complete
    /// lines add to the answer; a line that the chunk leaves unfinished is
    /// kept for the next chunk.
    pub fn feed(&mut self, chunk: &str) -> (delta: String)
        ensures
            delta@ == fed(old(self)@, chunk@).0,
            final(self)@ == fed(old(self)@, chunk@).1,
    {
        let mut all: Vec<char> = Vec::new();
        push_chars(&mut all, &self.buf);
        crate::text::push_str_chars(&mut all, chunk);
        assert(all@ == old(self)@ + chunk@);
        let mut out: Vec<char> = Vec::new();
        let mut start: usize = 0;
        let mut i: usize = 0;
        assert(out@ + feed_scan(all@, 0, 0).0 == feed_scan(all@, 0, 0).0);
        while i < all.len()
            invariant
                start <= i <= all.len(),
                fed(old(self)@, chunk@).0 == out@ + feed_scan(all@, start as int, i as int).0,
                fed(old(self)@, chunk@).1 == feed_scan(all@, start as int, i as int).1,
            decreases all.len() - i,
        {
            if all[i] == '\n' {
                let line = subvec(&all, start, i);
                let d = read_line(&line);
                let ghost before = out@;
                push_chars(&mut out, &d);
                proof {
                    let tail = feed_scan(all@, i + 1, i + 1).0;
                    assert(before + (d@ + tail) == (before + d@) + tail);
                }
                start = i + 1;
            }
            i += 1;
        }
        self.buf = subvec(&all, start, all.len());
        proof {
            assert(out@ + Seq::<char>::empty() == out@);
        }
        chars_to_string(&out)
    }
}

} // verus!
