//! Cutting a text to a number of bytes without splitting a character.

use crate::bytes::{byte_len, char_utf8_width, char_width, lemma_byte_len_concat};
use crate::text::str_to_chars;

use vstd::prelude::*;
use vstd::utf8::{encode_scalar, encode_utf8};

verus! {

/// How many leading characters of `s` fit into `max` bytes of UTF-8.
pub open spec fn fitting_chars(s: Seq<char>, max: nat) -> nat
    decreases s.len(),
{
    if s.len() == 0 || char_width(s[0]) > max {
        0
    } else {
        1 + fitting_chars(s.drop_first(), (max - char_width(s[0])) as nat)
    }
}

/// The longest prefix of `s` whose UTF-8 encoding takes at most `max` bytes.
pub open spec fn truncated(s: Seq<char>, max: nat) -> Seq<char> {
    s.take(fitting_chars(s, max) as int)
}

/// What is kept fits, and the next character would not.
pub proof fn lemma_truncated(s: Seq<char>, max: nat)
    ensures
        fitting_chars(s, max) <= s.len(),
        byte_len(truncated(s, max)) <= max,
        fitting_chars(s, max) < s.len() ==> byte_len(truncated(s, max)) + char_width(
            s[fitting_chars(s, max) as int],
        ) > max,
        byte_len(s) <= max ==> truncated(s, max) == s,
    decreases s.len(),
{
    if s.len() == 0 {
        assert(s.take(0) == s);
    } else if char_width(s[0]) > max {
        assert(s.take(0) == Seq::<char>::empty());
        assert(encode_utf8(s) == encode_scalar(s[0] as u32) + encode_utf8(s.drop_first()));
    } else {
        let t = s.drop_first();
        let m = (max - char_width(s[0])) as nat;
        lemma_truncated(t, m);
        let k = fitting_chars(t, m) as int;
        assert(s.take(k + 1) == seq![s[0]] + t.take(k));
        lemma_byte_len_concat(seq![s[0]], t.take(k));
        assert(seq![s[0]].drop_first() == Seq::<char>::empty());
        assert(encode_utf8(seq![s[0]]) == encode_scalar(s[0] as u32) + encode_utf8(
            Seq::<char>::empty(),
        ));
        assert(byte_len(seq![s[0]]) == char_width(s[0]));
        if k < t.len() {
            assert(t[k] == s[k + 1]);
        }
        assert(s == seq![s[0]] + t);
        lemma_byte_len_concat(seq![s[0]], t);
        if byte_len(s) <= max {
            assert(t.take(k) == t);
        }
    }
}

/// Cuts `s` to at most `max_bytes` bytes of UTF-8, never inside a character.
pub fn safe_truncate<'a>(s: &'a str, max_bytes: usize) -> (r: &'a str)
    ensures
        r@ == truncated(s@, max_bytes as nat),
        byte_len(r@) <= max_bytes,
{
    let v = str_to_chars(s);
    let mut used: usize = 0;
    let mut i: usize = 0;
    proof {
        assert(s@.skip(0) == s@);
        lemma_truncated(s@, max_bytes as nat);
    }
    while i < v.len() && char_utf8_width(v[i]) <= max_bytes - used
        invariant
            i <= v.len(),
            v@ == s@,
            used <= max_bytes,
            fitting_chars(s@, max_bytes as nat) == i + fitting_chars(
                s@.skip(i as int),
                (max_bytes - used) as nat,
            ),
        decreases v.len() - i,
    {
        proof {
            let rest = s@.skip(i as int);
            assert(rest[0] == v@[i as int]);
            assert(rest.drop_first() == s@.skip(i + 1));
        }
        used = used + char_utf8_width(v[i]);
        i += 1;
    }
    proof {
        let rest = s@.skip(i as int);
        if i < v.len() {
            assert(rest[0] == v@[i as int]);
        }
    }
    s.substring_char(0, i)
}

} // verus!
