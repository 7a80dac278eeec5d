//! The retrieval store, as far as it decides: how tables are named, how a
//! document is cut into chunks, and how what was found is ranked.

use crate::bytes::{byte_len, str_byte_len};
use crate::identity::{fresh_id, now_millis};
use crate::rewrite::{replace_all, replace_str};
use crate::text::{chars_to_string, str_to_chars, subvec, trim, trim_str};
use sha2::{Digest, Sha256};
use vstd::prelude::*;
use vstd::utf8::encode_utf8;

verus! {

/// How many characters a chunk of an ingested document holds at most.
pub const CHUNK_CHARS: usize = 500;

/// How many characters two chunks that follow each other share.
pub const CHUNK_OVERLAP: usize = 50;

/// How many results a retrieval hands to the agents.
pub const TOP_K: usize = 5;

/// How long the making of a query may take, in milliseconds.
pub const QUERY_TIMEOUT_MS: u64 = 3000;

/// How long a retrieval may take, in milliseconds.
pub const RETRIEVE_TIMEOUT_MS: u64 = 1000;

/// How long the maintenance of the task list may take, in milliseconds.
pub const TODO_TIMEOUT_MS: u64 = 15000;

/// A query longer than this many bytes is not used.
pub const MAX_QUERY_BYTES: usize = 100;

// ---------------------------------------------------------------------------
// Table names
// ---------------------------------------------------------------------------

/// What the SHA-256 hasher of the `sha2` crate returns for a byte string.
pub uninterp spec fn sha256(data: Seq<u8>) -> Seq<u8>;

/// Hashes `data` with `Sha256::new`, `update` and `finalize`. The digest is
/// named, not spelled out; it is 32 bytes long.
#[verifier::external_body]
pub(crate) fn sha256_digest(data: &[u8]) -> (r: Vec<u8>)
    ensures
        r@ == sha256(data@),
        r@.len() == 32,
{
    let mut hasher = Sha256::new();
    hasher.update(data);
    hasher.finalize().to_vec()
}

/// A character that may stand in a table name as it is.
pub open spec fn is_safe_char(c: char) -> bool {
    ('a' <= c <= 'z') || ('A' <= c <= 'Z') || ('0' <= c <= '9') || c == '_' || c == '-' || c
        == '.'
}

pub open spec fn is_safe_id(id: Seq<char>) -> bool {
    forall|i: int| 0 <= i < id.len() ==> is_safe_char(#[trigger] id[i])
}

/// The lower-case hexadecimal digit of `d`.
pub open spec fn hex_digit(d: int) -> char {
    if d == 0 {
        '0'
    } else if d == 1 {
        '1'
    } else if d == 2 {
        '2'
    } else if d == 3 {
        '3'
    } else if d == 4 {
        '4'
    } else if d == 5 {
        '5'
    } else if d == 6 {
        '6'
    } else if d == 7 {
        '7'
    } else if d == 8 {
        '8'
    } else if d == 9 {
        '9'
    } else if d == 10 {
        'a'
    } else if d == 11 {
        'b'
    } else if d == 12 {
        'c'
    } else if d == 13 {
        'd'
    } else if d == 14 {
        'e'
    } else {
        'f'
    }
}

/// The first `n` bytes in lower-case hexadecimal, two digits each.
pub open spec fn hex_upto(bytes: Seq<u8>, n: int) -> Seq<char>
    decreases n,
{
    if n <= 0 {
        Seq::empty()
    } else {
        hex_upto(bytes, n - 1).push(hex_digit(bytes[n - 1] as int / 16)).push(
            hex_digit(bytes[n - 1] as int % 16),
        )
    }
}

pub open spec fn hex(bytes: Seq<u8>) -> Seq<char> {
    hex_upto(bytes, bytes.len() as int)
}

/// The name of the table of kind `table_type` for a recording: the id with
/// `-` made `_` where that leaves only letters, digits, `_`, `-` and `.`,
/// and else the SHA-256 of the id in hexadecimal.
pub open spec fn table_name(recording_id: Seq<char>, table_type: Seq<char>) -> Seq<char> {
    if is_safe_id(replace_all(recording_id, "-"@, "_"@)) {
        table_type + "_"@ + replace_all(recording_id, "-"@, "_"@)
    } else {
        table_type + "_"@ + hex(sha256(encode_utf8(recording_id)))
    }
}

fn hex_char(d: u8) -> (c: char)
    requires
        d < 16,
    ensures
        c == hex_digit(d as int),
{
    if d == 0 {
        '0'
    } else if d == 1 {
        '1'
    } else if d == 2 {
        '2'
    } else if d == 3 {
        '3'
    } else if d == 4 {
        '4'
    } else if d == 5 {
        '5'
    } else if d == 6 {
        '6'
    } else if d == 7 {
        '7'
    } else if d == 8 {
        '8'
    } else if d == 9 {
        '9'
    } else if d == 10 {
        'a'
    } else if d == 11 {
        'b'
    } else if d == 12 {
        'c'
    } else if d == 13 {
        'd'
    } else if d == 14 {
        'e'
    } else {
        'f'
    }
}

/// The bytes in lower-case hexadecimal.
pub fn hex_string(bytes: &Vec<u8>) -> (r: String)
    ensures
        r@ == hex(bytes@),
{
    let mut out = String::new();
    let mut i: usize = 0;
    while i < bytes.len()
        invariant
            i <= bytes.len(),
            out@ == hex_upto(bytes@, i as int),
        decreases bytes.len() - i,
    {
        let b = bytes[i];
        out.push(hex_char(b / 16));
        out.push(hex_char(b % 16));
        i += 1;
    }
    out
}

fn char_is_safe(c: char) -> (b: bool)
    ensures
        b == is_safe_char(c),
{
    ('a' <= c && c <= 'z') || ('A' <= c && c <= 'Z') || ('0' <= c && c <= '9') || c == '_' || c
        == '-' || c == '.'
}

/// The name of the table of kind `table_type` for a recording.
pub fn get_table_name(recording_id: &str, table_type: &str) -> (r: String)
    ensures
        r@ == table_name(recording_id@, table_type@),
{
    let legacy = replace_str(recording_id, "-", "_");
    let lv = str_to_chars(legacy.as_str());
    let mut safe = true;
    let mut i: usize = 0;
    while i < lv.len() && safe
        invariant
            i <= lv.len(),
            safe ==> forall|j: int| 0 <= j < i ==> is_safe_char(#[trigger] lv@[j]),
            !safe ==> !is_safe_id(lv@),
        decreases lv.len() - i,
    {
        if !char_is_safe(lv[i]) {
            safe = false;
            i = lv.len();
        } else {
            i += 1;
        }
    }
    let mut name = table_type.to_string();
    name.append("_");
    if safe {
        name.append(legacy.as_str());
    } else {
        let digest = sha256_digest(recording_id.as_bytes());
        let h = hex_string(&digest);
        name.append(h.as_str());
    }
    name
}

// ---------------------------------------------------------------------------
// Chunks
// ---------------------------------------------------------------------------

/// The chunks of `chars` from `i` on: each `size` characters long, the last
/// perhaps shorter, each beginning `size - 50` characters after the one
/// before.
pub open spec fn chunks_from(chars: Seq<char>, i: int, size: int) -> Seq<Seq<char>>
    decreases
            if i < chars.len() {
                chars.len() - i
            } else {
                0
            },
{
    if i < 0 || i >= chars.len() || size <= CHUNK_OVERLAP {
        seq![]
    } else {
        seq![
            chars.subrange(
                i,
                if i + size < chars.len() {
                    i + size
                } else {
                    chars.len() as int
                },
            ),
        ] + chunks_from(chars, i + size - CHUNK_OVERLAP, size)
    }
}

/// Cuts a text into chunks of `chunk_size` characters that overlap by 50.
pub fn chunk_text(text: &str, chunk_size: usize) -> (r: Vec<String>)
    requires
        chunk_size > CHUNK_OVERLAP,
    ensures
        crate::text::views(r@) == chunks_from(text@, 0, chunk_size as int),
{
    let chars = str_to_chars(text);
    let n = chars.len();
    let step: usize = chunk_size - CHUNK_OVERLAP;
    let mut out: Vec<String> = Vec::new();
    let mut i: usize = 0;
    let ghost mut done: Seq<Seq<char>> = Seq::empty();
    assert(crate::text::views(out@) =~= done);
    assert(done + chunks_from(text@, 0, chunk_size as int) == chunks_from(
        text@,
        0,
        chunk_size as int,
    ));
    while i < n
        invariant
            i <= n,
            n == chars.len(),
            chars@ == text@,
            step == chunk_size - CHUNK_OVERLAP,
            chunk_size > CHUNK_OVERLAP,
            crate::text::views(out@) == done,
            chunks_from(text@, 0, chunk_size as int) == done + chunks_from(
                text@,
                i as int,
                chunk_size as int,
            ),
        decreases n - i,
    {
        let end: usize = if chunk_size < n - i {
            i + chunk_size
        } else {
            n
        };
        let piece = subvec(&chars, i, end);
        let s = chars_to_string(&piece);
        proof {
            crate::text::lemma_views_push(out@, s);
            let tail = chunks_from(text@, i + chunk_size - CHUNK_OVERLAP, chunk_size as int);
            assert(done + (seq![s@] + tail) == done.push(s@) + tail);
            done = done.push(s@);
        }
        out.push(s);
        if step >= n - i {
            proof {
                assert(chunks_from(text@, i + chunk_size - CHUNK_OVERLAP, chunk_size as int)
                    == Seq::<Seq<char>>::empty());
                assert(done + Seq::<Seq<char>>::empty() == done);
                assert(chunks_from(text@, n as int, chunk_size as int) == Seq::<
                    Seq<char>,
                >::empty());
            }
            i = n;
        } else {
            i += step;
        }
    }
    proof {
        assert(done + Seq::<Seq<char>>::empty() == done);
    }
    out
}

// ---------------------------------------------------------------------------
// Results and their ranking
// ---------------------------------------------------------------------------

/// One thing that a retrieval found.
#[derive(Debug, Clone)]
pub struct SearchResult {
    pub content: String,
    /// `"conversation"` for a stored turn, else the name of the file.
    pub source: String,
    pub timestamp: i64,
    /// The number that results are ranked by: a higher one is a better
    /// match.
    pub score_key: u32,
}

/// A result as plain values.
pub struct ResultModel {
    pub content: Seq<char>,
    pub source: Seq<char>,
    pub timestamp: i64,
    pub score_key: u32,
}

impl View for SearchResult {
    type V = ResultModel;

    open spec fn view(&self) -> ResultModel {
        ResultModel {
            content: self.content@,
            source: self.source@,
            timestamp: self.timestamp,
            score_key: self.score_key,
        }
    }
}

pub open spec fn result_views(results: Seq<SearchResult>) -> Seq<ResultModel> {
    Seq::new(results.len(), |i: int| results[i]@)
}

/// `sorted` with `x` put behind every result that ranks as high or higher.
pub open spec fn insert_ranked(sorted: Seq<ResultModel>, x: ResultModel) -> Seq<ResultModel>
    decreases sorted.len(),
{
    if sorted.len() == 0 {
        seq![x]
    } else if sorted[0].score_key >= x.score_key {
        seq![sorted[0]] + insert_ranked(sorted.drop_first(), x)
    } else {
        seq![x] + sorted
    }
}

/// The results by falling score; those that score alike keep their order.
pub open spec fn ranked(results: Seq<ResultModel>) -> Seq<ResultModel>
    decreases results.len(),
{
    if results.len() == 0 {
        seq![]
    } else {
        insert_ranked(ranked(results.drop_last()), results.last())
    }
}

/// The `k` best results, best first.
pub open spec fn top_ranked(results: Seq<ResultModel>, k: nat) -> Seq<ResultModel> {
    if ranked(results).len() > k {
        ranked(results).take(k as int)
    } else {
        ranked(results)
    }
}

pub open spec fn falling(s: Seq<ResultModel>) -> bool {
    forall|i: int, j: int| 0 <= i < j < s.len() ==> s[i].score_key >= s[j].score_key
}

pub proof fn lemma_insert_ranked(sorted: Seq<ResultModel>, x: ResultModel)
    requires
        falling(sorted),
    ensures
        falling(insert_ranked(sorted, x)),
        insert_ranked(sorted, x).len() == sorted.len() + 1,
        insert_ranked(sorted, x).to_multiset() == sorted.to_multiset().insert(x),
    decreases sorted.len(),
{
    let r = insert_ranked(sorted, x);
    broadcast use vstd::seq_lib::group_to_multiset_ensures;

    if sorted.len() == 0 {
        assert(seq![x] == Seq::<ResultModel>::empty().push(x));
        assert(sorted == Seq::<ResultModel>::empty());
    } else if sorted[0].score_key >= x.score_key {
        let t = sorted.drop_first();
        assert(falling(t)) by {
            assert forall|i: int, j: int| 0 <= i < j < t.len() implies t[i].score_key
                >= t[j].score_key by {
                assert(t[i] == sorted[i + 1]);
                assert(t[j] == sorted[j + 1]);
            }
        }
        lemma_insert_ranked(t, x);
        let rt = insert_ranked(t, x);
        assert(r == seq![sorted[0]] + rt);
        // Every result of `rt` is `x` or one of `t`, so none outranks the
        // first of `sorted`.
        assert forall|j: int| 0 <= j < rt.len() implies sorted[0].score_key
            >= rt[j].score_key by {
            assert(rt.to_multiset().count(rt[j]) > 0);
            if rt[j] != x {
                assert(t.to_multiset().count(rt[j]) > 0);
                let k = choose|k: int| 0 <= k < t.len() && t[k] == rt[j];
                assert(t[k] == sorted[k + 1]);
            }
        }
        assert forall|i: int, j: int| 0 <= i < j < r.len() implies r[i].score_key
            >= r[j].score_key by {
            if i == 0 {
                assert(r[j] == rt[j - 1]);
            } else {
                assert(r[i] == rt[i - 1]);
                assert(r[j] == rt[j - 1]);
            }
        }
        assert(seq![sorted[0]] + t == sorted);
        vstd::seq_lib::lemma_multiset_commutative(seq![sorted[0]], rt);
        vstd::seq_lib::lemma_multiset_commutative(seq![sorted[0]], t);
        assert(r.to_multiset() =~= sorted.to_multiset().insert(x));
    } else {
        assert forall|i: int, j: int| 0 <= i < j < r.len() implies r[i].score_key
            >= r[j].score_key by {
            if i == 0 {
                assert(r[j] == sorted[j - 1]);
            } else {
                assert(r[i] == sorted[i - 1]);
                assert(r[j] == sorted[j - 1]);
            }
        }
        vstd::seq_lib::lemma_multiset_commutative(seq![x], sorted);
        assert(seq![x] == Seq::<ResultModel>::empty().push(x));
        assert(r.to_multiset() =~= sorted.to_multiset().insert(x));
    }
}

/// Ranking orders the results by falling score and neither loses nor adds
/// one.
pub proof fn lemma_ranked(results: Seq<ResultModel>)
    ensures
        falling(ranked(results)),
        ranked(results).len() == results.len(),
        ranked(results).to_multiset() == results.to_multiset(),
    decreases results.len(),
{
    broadcast use vstd::seq_lib::group_to_multiset_ensures;

    if results.len() > 0 {
        lemma_ranked(results.drop_last());
        lemma_insert_ranked(ranked(results.drop_last()), results.last());
        assert(results.drop_last().push(results.last()) == results);
    }
}

fn copy_result(r: &SearchResult) -> (c: SearchResult)
    ensures
        c@ == r@,
{
    SearchResult {
        content: r.content.clone(),
        source: r.source.clone(),
        timestamp: r.timestamp,
        score_key: r.score_key,
    }
}

/// The `top_k` best of `results`, best first; results that score alike stay
/// in the order they came in.
pub fn rank_results(results: &Vec<SearchResult>, top_k: usize) -> (r: Vec<SearchResult>)
    ensures
        result_views(r@) == top_ranked(result_views(results@), top_k as nat),
        r@.len() <= top_k,
        r@.len() <= results@.len(),
        falling(result_views(r@)),
{
    let ghost all = result_views(results@);
    let mut sorted: Vec<SearchResult> = Vec::new();
    let mut i: usize = 0;
    assert(all.take(0) == Seq::<ResultModel>::empty());
    assert(result_views(sorted@) =~= ranked(all.take(0)));
    while i < results.len()
        invariant
            i <= results.len(),
            all == result_views(results@),
            sorted@.len() == i,
            result_views(sorted@) == ranked(all.take(i as int)),
        decreases results.len() - i,
    {
        let x = copy_result(&results[i]);
        let ghost before = result_views(sorted@);
        // Where `x` goes: behind every result that ranks as high or higher.
        let mut pos: usize = 0;
        assert(before.skip(0) == before);
        assert(before.take(0) + insert_ranked(before, x@) == insert_ranked(before, x@));
        while pos < sorted.len() && sorted[pos].score_key >= x.score_key
            invariant
                pos <= sorted.len(),
                before == result_views(sorted@),
                insert_ranked(before, x@) == before.take(pos as int) + insert_ranked(
                    before.skip(pos as int),
                    x@,
                ),
            decreases sorted.len() - pos,
        {
            proof {
                let rest = before.skip(pos as int);
                assert(rest[0] == sorted@[pos as int]@);
                assert(rest.drop_first() == before.skip(pos + 1));
                assert(before.take(pos as int) + (seq![rest[0]] + insert_ranked(
                    rest.drop_first(),
                    x@,
                )) == before.take(pos + 1) + insert_ranked(rest.drop_first(), x@));
            }
            pos += 1;
        }
        proof {
            let rest = before.skip(pos as int);
            if pos < sorted.len() {
                assert(rest[0] == sorted@[pos as int]@);
            }
            assert(insert_ranked(rest, x@) == seq![x@] + rest);
            let next = all.take(i + 1);
            assert(next.drop_last() == all.take(i as int));
            assert(next.last() == x@);
        }
        sorted.insert(pos, x);
        proof {
            assert(result_views(sorted@) =~= before.take(pos as int) + (seq![x@] + before.skip(
                pos as int,
            )));
        }
        i += 1;
    }
    proof {
        assert(all.take(results.len() as int) == all);
        lemma_ranked(all);
    }
    if sorted.len() > top_k {
        let ghost full = result_views(sorted@);
        sorted.truncate(top_k);
        assert(result_views(sorted@) =~= full.take(top_k as int));
    }
    sorted
}

/// The results of a unified retrieval: the stored turns and the chunks of
/// documents that were found, ranked together, the `top_k` best kept.
pub fn unify_results(turns: &Vec<SearchResult>, docs: &Vec<SearchResult>, top_k: usize) -> (r: Vec<
    SearchResult,
>)
    ensures
        result_views(r@) == top_ranked(
            result_views(turns@) + result_views(docs@),
            top_k as nat,
        ),
        r@.len() <= top_k,
{
    let mut all: Vec<SearchResult> = Vec::new();
    let mut i: usize = 0;
    while i < turns.len()
        invariant
            i <= turns.len(),
            all@.len() == i,
            forall|j: int| 0 <= j < i ==> (#[trigger] all@[j])@ == turns@[j]@,
        decreases turns.len() - i,
    {
        all.push(copy_result(&turns[i]));
        i += 1;
    }
    let mut k: usize = 0;
    while k < docs.len()
        invariant
            k <= docs.len(),
            all@.len() == turns@.len() + k,
            forall|j: int| 0 <= j < turns@.len() ==> (#[trigger] all@[j])@ == turns@[j]@,
            forall|j: int| 0 <= j < k ==> (#[trigger] all@[turns@.len() + j])@ == docs@[j]@,
        decreases docs.len() - k,
    {
        all.push(copy_result(&docs[k]));
        k += 1;
    }
    assert(result_views(all@) =~= result_views(turns@) + result_views(docs@)) by {
        assert forall|j: int| 0 <= j < all@.len() implies result_views(all@)[j] == (result_views(
            turns@,
        ) + result_views(docs@))[j] by {
            if j >= turns@.len() {
                assert(all@[turns@.len() + (j - turns@.len())]@ == docs@[j - turns@.len()]@);
            }
        }
    }
    rank_results(&all, top_k)
}

// ---------------------------------------------------------------------------
// Stored turns and queries
// ---------------------------------------------------------------------------

/// One turn of the user as the retrieval store keeps it.
#[derive(Debug, Clone)]
pub struct ConversationTurn {
    pub id: String,
    /// When the turn was stored, in milliseconds since the epoch.
    pub timestamp: i64,
    /// What the user said.
    pub asr_input: String,
}

impl ConversationTurn {
    /// A turn with a new id, stored now.
    pub fn new(asr_input: String) -> (t: Self)
        ensures
            t.asr_input@ == asr_input@,
    {
        ConversationTurn::with_identity(fresh_id(), now_millis(), asr_input)
    }

    /// A turn with this id and time.
    pub fn with_identity(id: String, timestamp: i64, asr_input: String) -> (t: Self)
        ensures
            t.id@ == id@,
            t.timestamp == timestamp,
            t.asr_input@ == asr_input@,
    {
        ConversationTurn { id, timestamp, asr_input }
    }
}

/// The agent that makes a search query out of a turn.
pub struct QueryAgent;

/// The query that a retrieval uses: the model's answer, trimmed, unless the
/// model failed or its answer is empty or longer than 100 bytes; then what
/// the user said.
pub open spec fn chosen_query(answer: Option<Seq<char>>, user_input: Seq<char>) -> Seq<char> {
    match answer {
        Some(a) => if trim(a).len() == 0 || byte_len(trim(a)) > MAX_QUERY_BYTES {
            user_input
        } else {
            trim(a)
        },
        None => user_input,
    }
}

impl QueryAgent {
    pub fn new() -> Self {
        QueryAgent
    }

    /// The query that a retrieval uses, given the model's answer (`None`
    /// where the model failed or took too long).
    pub fn choose_query(answer: Option<&str>, user_input: &str) -> (r: String)
        ensures
            r@ == chosen_query(
                match answer {
                    Some(a) => Some(a@),
                    None => None,
                },
                user_input@,
            ),
    {
        match answer {
            Some(a) => {
                let t = trim_str(a);
                if t.as_str().is_empty() || str_byte_len(t.as_str()) > MAX_QUERY_BYTES {
                    user_input.to_string()
                } else {
                    t
                }
            },
            None => user_input.to_string(),
        }
    }
}

impl Default for QueryAgent {
    fn default() -> Self {
        QueryAgent::new()
    }
}

} // verus!
