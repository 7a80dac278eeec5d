//! Recordings: what the front end lists of them, and how they are named.

use crate::numfmt::{append_decimal, decimal, lemma_decimal_digits, lemma_decimal_injective};
use crate::text::{is_blank, is_blank_str, str_eq, str_to_chars, views};
use vstd::prelude::*;

verus! {

/// A recording as the front end lists it.
#[derive(Debug)]
pub struct RecordingInfo {
    pub id: String,
    pub name: String,
    pub path: String,
    pub content: String,
    pub has_git: bool,
    /// When the recording was made, in milliseconds since the epoch.
    pub created_at: u64,
}

/// What is kept beside a recording: its display name.
#[derive(Debug)]
pub struct RecordingMetadata {
    pub name: String,
}

/// The `k`-th name that is tried for `base`: `base` itself, then `base (1)`,
/// `base (2)` and so on.
pub open spec fn candidate(base: Seq<char>, k: nat) -> Seq<char> {
    if k == 0 {
        base
    } else {
        base + " ("@ + decimal(k) + ")"@
    }
}

/// `k` is the first try whose name is not taken.
pub open spec fn first_free(base: Seq<char>, taken: Seq<Seq<char>>, k: nat) -> bool {
    &&& !taken.contains(candidate(base, k))
    &&& forall|j: nat| j < k ==> taken.contains(#[trigger] candidate(base, j))
}

/// The display name of a new recording: the one asked for, or the default
/// where that is blank.
pub open spec fn display_name(requested: Seq<char>) -> Seq<char> {
    if is_blank(requested) {
        "New Recording"@
    } else {
        requested
    }
}

/// A directory whose name begins with a dot is no recording.
pub open spec fn is_hidden(name: Seq<char>) -> bool {
    name.len() > 0 && name[0] == '.'
}

/// No two tries give the same name.
pub proof fn lemma_candidates_differ(base: Seq<char>, a: nat, b: nat)
    requires
        candidate(base, a) == candidate(base, b),
    ensures
        a == b,
{
    lemma_decimal_digits(a);
    lemma_decimal_digits(b);
    let open = " ("@;
    let close = ")"@;
    if a == 0 && b == 0 {
    } else if a == 0 {
        assert(candidate(base, b).len() == base.len() + open.len() + decimal(b).len()
            + close.len());
    } else if b == 0 {
        assert(candidate(base, a).len() == base.len() + open.len() + decimal(a).len()
            + close.len());
    } else {
        let x = candidate(base, a);
        let y = candidate(base, b);
        let da = decimal(a);
        let db = decimal(b);
        assert(x.len() == base.len() + open.len() + da.len() + close.len());
        assert(y.len() == base.len() + open.len() + db.len() + close.len());
        assert(da.len() == db.len());
        assert forall|i: int| 0 <= i < da.len() implies da[i] == db[i] by {
            assert(x[base.len() + open.len() + i] == da[i]);
            assert(y[base.len() + open.len() + i] == db[i]);
        }
        assert(da =~= db);
        lemma_decimal_injective(a, b);
    }
}

/// Of the first `k` tries, all of whose names are taken, there are no more
/// than there are names.
pub proof fn lemma_tries_bounded(base: Seq<char>, taken: Seq<Seq<char>>, k: nat)
    requires
        forall|j: nat| j < k ==> taken.contains(#[trigger] candidate(base, j)),
    ensures
        k <= taken.len(),
    decreases k,
{
    if k > 0 {
        let last = candidate(base, (k - 1) as nat);
        assert(taken.contains(last));
        let p = choose|p: int| 0 <= p < taken.len() && taken[p] == last;
        let rest = taken.remove(p);
        assert forall|j: nat| j < k - 1 implies rest.contains(#[trigger] candidate(base, j)) by {
            let c = candidate(base, j);
            assert(taken.contains(c));
            let q = choose|q: int| 0 <= q < taken.len() && taken[q] == c;
            if q == p {
                lemma_candidates_differ(base, j, (k - 1) as nat);
            }
            if q < p {
                assert(rest[q] == c);
            } else {
                assert(rest[q - 1] == c);
            }
        }
        lemma_tries_bounded(base, rest, (k - 1) as nat);
    }
}

fn name_taken(existing: &[String], name: &str) -> (b: bool)
    ensures
        b == views(existing@).contains(name@),
{
    let mut i: usize = 0;
    while i < existing.len()
        invariant
            i <= existing.len(),
            forall|j: int| 0 <= j < i ==> existing@[j]@ != name@,
        decreases existing.len() - i,
    {
        if str_eq(existing[i].as_str(), name) {
            assert(views(existing@)[i as int] == name@);
            return true;
        }
        i += 1;
    }
    assert forall|j: int| 0 <= j < views(existing@).len() implies views(existing@)[j]
        != name@ by {
        assert(views(existing@)[j] == existing@[j]@);
    }
    false
}

fn make_candidate(base: &str, k: u64) -> (r: String)
    ensures
        r@ == candidate(base@, k as nat),
{
    let mut name = base.to_string();
    if k > 0 {
        name.append(" (");
        append_decimal(&mut name, k);
        name.append(")");
    }
    name
}

/// The first of `base`, `base (1)`, `base (2)`, ... that is not among the
/// names that exist.
pub fn ensure_unique_name(base_name: &str, existing_names: &[String]) -> (r: String)
    ensures
        exists|k: nat| #[trigger]
            first_free(base_name@, views(existing_names@), k) && r@ == candidate(base_name@, k),
        !views(existing_names@).contains(r@),
{
    let n = existing_names.len();
    let ghost taken = views(existing_names@);
    let mut k: usize = 0;
    let mut name = make_candidate(base_name, 0);
    while name_taken(existing_names, name.as_str())
        invariant
            k <= n,
            n == existing_names@.len(),
            taken == views(existing_names@),
            name@ == candidate(base_name@, k as nat),
            forall|j: nat| j < k ==> taken.contains(#[trigger] candidate(base_name@, j)),
        decreases n - k,
    {
        proof {
            assert forall|j: nat| j < k + 1 implies taken.contains(
                #[trigger] candidate(base_name@, j),
            ) by {}
            lemma_tries_bounded(base_name@, taken, (k + 1) as nat);
        }
        k += 1;
        name = make_candidate(base_name, k as u64);
    }
    assert(first_free(base_name@, taken, k as nat));
    name
}

/// The display name of a new recording.
pub fn recording_display_name(requested: &str) -> (r: String)
    ensures
        r@ == display_name(requested@),
{
    if is_blank_str(requested) {
        "New Recording".to_string()
    } else {
        requested.to_string()
    }
}

/// Whether a directory entry is hidden, and so no recording.
pub fn is_hidden_entry(name: &str) -> (b: bool)
    ensures
        b == is_hidden(name@),
{
    let v = str_to_chars(name);
    v.len() > 0 && v[0] == '.'
}

} // verus!
