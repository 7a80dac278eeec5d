//! Taking the wrappers off a model's short answer.

use crate::diff::leading_run;
use crate::text::trailing_run;
use crate::lines::{lines, split_lines};
use crate::text::{
    chars_eq, chars_to_string, join_lines, push_chars, starts_with, starts_with_chars, str_to_chars,
    subvec, trim, trim_chars,
};
use vstd::prelude::*;

verus! {

/// The lines between the first and the last, joined again.
pub open spec fn inner_lines(ls: Seq<Seq<char>>) -> Seq<char> {
    join_lines(ls.subrange(1, ls.len() - 1))
}

/// Whether a trimmed answer is wrapped in markdown fences as a whole: it
/// begins with a fence, has two lines or more, and its last line is a fence.
pub open spec fn is_fenced(s: Seq<char>) -> bool {
    starts_with(s, "```"@) && lines(s).len() >= 2 && trim(lines(s).last()) == "```"@
}

/// The answer without white space around it and, where fences wrap the whole
/// of it, without its first and last line.
pub open spec fn concise(s: Seq<char>) -> Seq<char> {
    if is_fenced(trim(s)) {
        trim(inner_lines(lines(trim(s))))
    } else {
        trim(s)
    }
}

fn join_chars(ls: &Vec<Vec<char>>, from: usize, to: usize) -> (r: Vec<char>)
    requires
        from <= to <= ls.len(),
    ensures
        r@ == join_lines(Seq::new((to - from) as nat, |i: int| ls@[from + i]@)),
{
    let mut out: Vec<char> = Vec::new();
    let mut k: usize = from;
    let ghost all = Seq::new((to - from) as nat, |i: int| ls@[from + i]@);
    assert(all.take(0) == Seq::<Seq<char>>::empty());
    while k < to
        invariant
            from <= k <= to <= ls.len(),
            all == Seq::new((to - from) as nat, |i: int| ls@[from + i]@),
            out@ == join_lines(all.take(k - from)),
        decreases to - k,
    {
        proof {
            let next = all.take(k + 1 - from);
            assert(next.drop_last() == all.take(k - from));
            assert(next.last() == ls@[k as int]@);
            if k == from {
                assert(out@ + ls@[k as int]@ == ls@[k as int]@);
            }
        }
        if k > from {
            out.push('\n');
        }
        push_chars(&mut out, &ls[k]);
        k += 1;
    }
    assert(all.take(to - from) == all);
    out
}

/// Strips what models like to wrap a short answer in: white space, and
/// markdown fences around the whole answer.
pub fn clean_concise_output(s: &str) -> (r: String)
    ensures
        r@ == concise(s@),
{
    let v = str_to_chars(s);
    let t = trim_chars(&v);
    let fence = str_to_chars("```");
    if starts_with_chars(&t, &fence) {
        let ls = split_lines(&t);
        let n = ls.len();
        if n >= 2 {
            let last = trim_chars(&ls[n - 1]);
            if chars_eq(&last, &fence) {
                let inner = join_chars(&ls, 1, n - 1);
                proof {
                    assert(Seq::new((n - 2) as nat, |i: int| ls@[1 + i]@) =~= lines(t@).subrange(
                        1,
                        n - 1,
                    ));
                }
                let cleaned = trim_chars(&inner);
                return chars_to_string(&cleaned);
            }
        }
    }
    chars_to_string(&t)
}

/// `s` without the copies of `c` that it begins and ends with.
pub open spec fn trim_char(s: Seq<char>, c: char) -> Seq<char> {
    let rest = s.skip(leading_run(s, c) as int);
    rest.take(rest.len() - trailing_run(rest, c))
}

/// `v` without the copies of `c` that it begins and ends with.
pub fn trim_char_chars(v: &Vec<char>, c: char) -> (r: Vec<char>)
    ensures
        r@ == trim_char(v@, c),
{
    let mut start: usize = 0;
    assert(v@.skip(0) == v@);
    while start < v.len() && v[start] == c
        invariant
            start <= v.len(),
            leading_run(v@, c) == start + leading_run(v@.skip(start as int), c),
        decreases v.len() - start,
    {
        proof {
            let rest = v@.skip(start as int);
            assert(rest[0] == v@[start as int]);
            assert(rest.drop_first() == v@.skip(start + 1));
        }
        start += 1;
    }
    proof {
        let rest = v@.skip(start as int);
        if start < v.len() {
            assert(rest[0] == v@[start as int]);
        }
    }
    let ghost rest = v@.skip(start as int);
    let mut end: usize = v.len();
    assert(rest.take(rest.len() as int) == rest);
    while end > start && v[end - 1] == c
        invariant
            start <= end <= v.len(),
            rest == v@.skip(start as int),
            trailing_run(rest, c) == (v.len() - end) + trailing_run(rest.take(end - start), c),
        decreases end,
    {
        proof {
            let t = rest.take(end - start);
            assert(t.last() == v@[end - 1]);
            assert(t.drop_last() == rest.take(end - 1 - start));
        }
        end -= 1;
    }
    proof {
        let t = rest.take(end - start);
        if end > start {
            assert(t.last() == v@[end - 1]);
        }
        assert(v@.subrange(start as int, end as int) == rest.take(end - start));
    }
    subvec(v, start, end)
}

} // verus!
