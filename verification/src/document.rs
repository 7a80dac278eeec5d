//! The document store: the markdown text in memory and its version counter.

use crate::diff::{parse_all_spec, DiffParser, PatchError, PendingPatch};
use crate::matcher::{apply_patch, patched};
use crate::rewrite::{normalize_tabs, normalize_tabs_str};
use crate::text::{count_trailing_newlines, str_to_chars, trailing_run};
use vstd::prelude::*;

verus! {

/// The document at one moment: its text and how often it has been changed.
#[derive(Debug, Clone)]
pub struct DocumentState {
    pub content: String,
    pub version: u64,
}

impl DocumentState {
    pub fn new(content: String) -> (s: Self)
        ensures
            s.content@ == content@,
            s.version == 0,
    {
        DocumentState { content, version: 0 }
    }
}

/// What a document store holds: the text and the version, a count that
/// every change raises by one.
pub struct DocumentModel {
    pub content: Seq<char>,
    pub version: nat,
}

/// The document store. Every change of the text raises the version by one.
pub struct DocumentService {
    state: DocumentState,
}

impl View for DocumentService {
    type V = DocumentModel;

    closed spec fn view(&self) -> DocumentModel {
        DocumentModel { content: self.state.content@, version: self.state.version as nat }
    }
}

pub open spec fn newlines(n: nat) -> Seq<char> {
    Seq::new(n, |i: int| '\n')
}

/// Whether a document with this text needs newlines added to end with
/// `count` of them. An empty document never does.
pub open spec fn lacks_newlines(s: Seq<char>, count: nat) -> bool {
    s.len() > 0 && trailing_run(s, '\n') < count
}

/// `s`, ended by at least `count` newlines if it is not empty.
pub open spec fn with_trailing_newlines(s: Seq<char>, count: nat) -> Seq<char> {
    if lacks_newlines(s, count) {
        s + newlines((count - trailing_run(s, '\n')) as nat)
    } else {
        s
    }
}

/// One operation on the document, as plain values.
pub enum DocumentChange {
    /// The whole text is replaced, as a load, a manual edit, a clearing or a
    /// rollback does.
    Reset(Seq<char>),
    /// A chunk is added at the end.
    Append(Seq<char>),
    /// The text is made to end with so many newlines.
    EnsureNewlines(nat),
    /// A search text is replaced by a replace text.
    Patch(Seq<char>, Seq<char>),
}

/// Whether an operation changes a document that holds `m`. A replacement
/// and an addition always do; newlines only where they are missing, and a
/// patch only where its search text is found.
pub open spec fn takes_effect(m: DocumentModel, c: DocumentChange) -> bool {
    match c {
        DocumentChange::Reset(_) => true,
        DocumentChange::Append(_) => true,
        DocumentChange::EnsureNewlines(count) => lacks_newlines(m.content, count),
        DocumentChange::Patch(search, replace) => patched(
            m.content,
            search,
            normalize_tabs(replace),
        ) is Some,
    }
}

/// The text that an operation leaves in a document that holds `m`.
pub open spec fn changed_content(m: DocumentModel, c: DocumentChange) -> Seq<char> {
    match c {
        DocumentChange::Reset(text) => text,
        DocumentChange::Append(chunk) => m.content + chunk,
        DocumentChange::EnsureNewlines(count) => with_trailing_newlines(m.content, count),
        DocumentChange::Patch(search, replace) => match patched(
            m.content,
            search,
            normalize_tabs(replace),
        ) {
            Some(text) => text,
            None => m.content,
        },
    }
}

/// The document after one operation: an operation that takes effect raises
/// the version by one, and one that does not leaves the document as it was.
pub open spec fn changed(m: DocumentModel, c: DocumentChange) -> DocumentModel {
    if takes_effect(m, c) {
        DocumentModel { content: changed_content(m, c), version: m.version + 1 }
    } else {
        m
    }
}

/// The document after the operations, one after the other.
pub open spec fn changed_by(m: DocumentModel, ops: Seq<DocumentChange>) -> DocumentModel
    decreases ops.len(),
{
    if ops.len() == 0 {
        m
    } else {
        changed(changed_by(m, ops.drop_last()), ops.last())
    }
}

/// How many of the operations take effect, each on what those before it
/// have left.
pub open spec fn effective(m: DocumentModel, ops: Seq<DocumentChange>) -> nat
    decreases ops.len(),
{
    if ops.len() == 0 {
        0
    } else {
        effective(m, ops.drop_last()) + if takes_effect(
            changed_by(m, ops.drop_last()),
            ops.last(),
        ) {
            1nat
        } else {
            0nat
        }
    }
}

/// The text after the patches were applied one after the other, each to what
/// the one before had left, and how many were applied before one was
/// refused. A replace text enters the document with its tabs made four
/// spaces; a search text is looked for as it stands.
pub open spec fn apply_patches(doc: Seq<char>, patches: Seq<(Seq<char>, Seq<char>)>) -> (
    Seq<char>,
    nat,
)
    decreases patches.len(),
{
    if patches.len() == 0 {
        (doc, 0)
    } else {
        match patched(doc, patches[0].0, normalize_tabs(patches[0].1)) {
            Some(next) => {
                let (last, n) = apply_patches(next, patches.drop_first());
                (last, n + 1)
            },
            None => (doc, 0),
        }
    }
}

pub proof fn lemma_apply_patches_count(doc: Seq<char>, patches: Seq<(Seq<char>, Seq<char>)>)
    ensures
        apply_patches(doc, patches).1 <= patches.len(),
    decreases patches.len(),
{
    if patches.len() > 0 {
        match patched(doc, patches[0].0, normalize_tabs(patches[0].1)) {
            Some(next) => {
                lemma_apply_patches_count(next, patches.drop_first());
            },
            None => {},
        }
    }
}

/// Applying `a` and then `b` is applying `a + b`, as long as all of `a` was
/// applied.
pub proof fn lemma_apply_patches_push(
    doc: Seq<char>,
    a: Seq<(Seq<char>, Seq<char>)>,
    p: (Seq<char>, Seq<char>),
)
    requires
        apply_patches(doc, a).1 == a.len(),
    ensures
        apply_patches(doc, a.push(p)) == match patched(apply_patches(doc, a).0, p.0, normalize_tabs(p.1)) {
            Some(next) => (next, a.len() + 1),
            None => (apply_patches(doc, a).0, a.len()),
        },
    decreases a.len(),
{
    if a.len() == 0 {
        assert(a.push(p).drop_first() == Seq::<(Seq<char>, Seq<char>)>::empty());
        assert(a.push(p)[0] == p);
        match patched(doc, p.0, normalize_tabs(p.1)) {
            Some(next) => {
                assert(apply_patches(next, Seq::<(Seq<char>, Seq<char>)>::empty()) == (
                    next,
                    0nat,
                ));
            },
            None => {},
        }
    } else {
        assert(a.push(p)[0] == a[0]);
        assert(a.push(p).drop_first() == a.drop_first().push(p));
        match patched(doc, a[0].0, normalize_tabs(a[0].1)) {
            Some(next) => {
                lemma_apply_patches_count(next, a.drop_first());
                lemma_apply_patches_push(next, a.drop_first(), p);
            },
            None => {},
        }
    }
}

impl DocumentService {
    pub fn new(initial_content: String) -> (s: Self)
        ensures
            s@.content == initial_content@,
            s@.version == 0,
    {
        DocumentService { state: DocumentState::new(initial_content) }
    }

    /// A copy of the document as it stands.
    pub fn get_snapshot(&self) -> (s: DocumentState)
        ensures
            s.content@ == self@.content,
            s.version == self@.version,
    {
        DocumentState { content: self.state.content.clone(), version: self.state.version }
    }

    /// The version of the document as it stands.
    pub fn version(&self) -> (v: u64)
        ensures
            v == self@.version,
    {
        self.state.version
    }

    /// Replaces the whole text.
    pub fn reset(&mut self, new_content: String)
        requires
            old(self)@.version < u64::MAX,
        ensures
            final(self)@ == changed(old(self)@, DocumentChange::Reset(new_content@)),
            final(self)@.content == new_content@,
            final(self)@.version == old(self)@.version + 1,
    {
        self.state.content = new_content;
        self.state.version = self.state.version + 1;
    }

    /// Adds `chunk` at the end of the text.
    pub fn append_content(&mut self, chunk: &str)
        requires
            old(self)@.version < u64::MAX,
        ensures
            final(self)@ == changed(old(self)@, DocumentChange::Append(chunk@)),
            final(self)@.content == old(self)@.content + chunk@,
            final(self)@.version == old(self)@.version + 1,
    {
        self.state.content.append(chunk);
        self.state.version = self.state.version + 1;
    }

    /// Makes a document that is not empty end with at least `count`
    /// newlines. Where none has to be added nothing changes, the version
    /// included.
    pub fn ensure_newlines(&mut self, count: usize)
        requires
            lacks_newlines(old(self)@.content, count as nat) ==> old(self)@.version < u64::MAX,
        ensures
            final(self)@ == changed(old(self)@, DocumentChange::EnsureNewlines(count as nat)),
            final(self)@.content == with_trailing_newlines(old(self)@.content, count as nat),
            final(self)@.version == if lacks_newlines(old(self)@.content, count as nat) {
                old(self)@.version + 1
            } else {
                old(self)@.version
            },
    {
        let v = str_to_chars(self.state.content.as_str());
        if v.len() == 0 {
            return ;
        }
        let existing = count_trailing_newlines(&v);
        if existing < count {
            let missing: usize = count - existing;
            let mut i: usize = 0;
            while i < missing
                invariant
                    i <= missing,
                    self.state.version == old(self).state.version,
                    self.state.content@ == old(self).state.content@ + newlines(i as nat),
                decreases missing - i,
            {
                self.state.content.push('\n');
                proof {
                    assert(newlines(i as nat).push('\n') == newlines((i + 1) as nat));
                }
                i += 1;
            }
            self.state.version = self.state.version + 1;
        }
    }

    /// Applies one patch to the document: the search text is looked for as
    /// it stands, and the replace text goes in with its tabs made four
    /// spaces. A patch that is refused leaves the text and the version as
    /// they were.
    pub fn apply_patch_to_state(&mut self, patch: PendingPatch) -> (r: Result<(), String>)
        requires
            patched(
                old(self)@.content,
                patch.search_block@,
                normalize_tabs(patch.replace_block@),
            ) is Some ==> old(self)@.version < u64::MAX,
        ensures
            final(self)@ == changed(
                old(self)@,
                DocumentChange::Patch(patch.search_block@, patch.replace_block@),
            ),
            match patched(
                old(self)@.content,
                patch.search_block@,
                normalize_tabs(patch.replace_block@),
            ) {
                Some(s) => r is Ok && final(self)@.content == s && final(self)@.version == old(self)@.version + 1,
                None => r is Err && r->Err_0@ == PatchError::NotFound.message_spec() && final(self)@ == old(self)@,
            },
    {
        let entering = PendingPatch {
            search_block: patch.search_block,
            replace_block: normalize_tabs_str(patch.replace_block.as_str()),
        };
        match apply_patch(self.state.content.as_str(), entering) {
            Ok(new_content) => {
                self.state.content = new_content;
                self.state.version = self.state.version + 1;
                Ok(())
            },
            Err(e) => Err(e.message()),
        }
    }

    /// Applies every complete block of `chunk`, in order, each to what the one
    /// before has left. Returns `Ok(true)` when all were applied and there
    /// was at least one, `Ok(false)` when `chunk` holds no block. The first
    /// block that is refused ends the call with its error; those before it
    /// stay applied.
    ///
    /// Only the blocks that are applied need room in the version counter: a
    /// chunk whose first block is refused is refused at any version.
    pub fn process_stream_chunk(&mut self, chunk: &str) -> (r: Result<bool, String>)
        requires
            old(self)@.version + apply_patches(old(self)@.content, parse_all_spec(chunk@)).1
                <= u64::MAX,
        ensures
            final(self)@.content == apply_patches(old(self)@.content, parse_all_spec(chunk@)).0,
            final(self)@.version == old(self)@.version + apply_patches(
                old(self)@.content,
                parse_all_spec(chunk@),
            ).1,
            apply_patches(old(self)@.content, parse_all_spec(chunk@)).1 == parse_all_spec(
                chunk@,
            ).len() ==> r == Ok::<bool, String>(parse_all_spec(chunk@).len() > 0),
            apply_patches(old(self)@.content, parse_all_spec(chunk@)).1 < parse_all_spec(
                chunk@,
            ).len() ==> r is Err && r->Err_0@ == PatchError::NotFound.message_spec(),
    {
        let patches = DiffParser::parse_all(chunk);
        let ghost all = parse_all_spec(chunk@);
        let n = patches.len();
        let mut updated = false;
        let mut patches = patches;
        let mut k: usize = 0;
        assert(all.take(0) == Seq::<(Seq<char>, Seq<char>)>::empty());
        while k < n
            invariant
                k <= n,
                n == all.len(),
                all == parse_all_spec(chunk@),
                patches@.len() == n - k,
                forall|j: int| 0 <= j < patches@.len() ==> (#[trigger] patches@[j])@ == all[k + j],
                old(self)@.version + apply_patches(old(self)@.content, all).1 <= u64::MAX,
                updated == (k > 0),
                apply_patches(old(self)@.content, all.take(k as int)) == (
                    self@.content,
                    k as nat,
                ),
                self@.version == old(self)@.version + k,
            decreases n - k,
        {
            let patch = patches.remove(0);
            proof {
                lemma_apply_patches_push(old(self)@.content, all.take(k as int), all[k as int]);
                assert(all.take(k as int).push(all[k as int]) == all.take(k + 1));
                if apply_patches(old(self)@.content, all.take(k + 1)).1 == k + 1 {
                    lemma_apply_prefix(old(self)@.content, all, k + 1);
                }
            }
            match self.apply_patch_to_state(patch) {
                Ok(()) => {},
                Err(e) => {
                    proof {
                        lemma_apply_stops(old(self)@.content, all, k as int);
                    }
                    return Err(e);
                },
            }
            updated = true;
            k += 1;
        }
        assert(all.take(n as int) == all);
        Ok(updated)
    }
}

/// Where the first `j` patches are all applied, at least `j` of the whole
/// list are.
pub proof fn lemma_apply_prefix(doc: Seq<char>, all: Seq<(Seq<char>, Seq<char>)>, j: int)
    requires
        0 <= j <= all.len(),
        apply_patches(doc, all.take(j)).1 == j,
    ensures
        apply_patches(doc, all).1 >= j,
    decreases j,
{
    if j > 0 {
        assert(all.take(j)[0] == all[0]);
        assert(all.take(j).drop_first() == all.drop_first().take(j - 1));
        match patched(doc, all[0].0, normalize_tabs(all[0].1)) {
            Some(next) => {
                lemma_apply_prefix(next, all.drop_first(), j - 1);
            },
            None => {},
        }
    }
}

/// Once a patch is refused, those after it are not tried.
pub proof fn lemma_apply_stops(doc: Seq<char>, all: Seq<(Seq<char>, Seq<char>)>, k: int)
    requires
        0 <= k < all.len(),
        apply_patches(doc, all.take(k)).1 == k,
        apply_patches(doc, all.take(k + 1)) == (apply_patches(doc, all.take(k)).0, k as nat),
    ensures
        apply_patches(doc, all) == (apply_patches(doc, all.take(k)).0, k as nat),
    decreases k,
{
    if k == 0 {
        assert(all.take(0) == Seq::<(Seq<char>, Seq<char>)>::empty());
        assert(all.take(1)[0] == all[0]);
        assert(all.take(1).drop_first() == Seq::<(Seq<char>, Seq<char>)>::empty());
        match patched(doc, all[0].0, normalize_tabs(all[0].1)) {
            Some(next) => {
                assert(apply_patches(next, Seq::<(Seq<char>, Seq<char>)>::empty()).1 == 0);
            },
            None => {},
        }
    } else {
        assert(all.take(k)[0] == all[0]);
        assert(all.take(k + 1)[0] == all[0]);
        assert(all.take(k).drop_first() == all.drop_first().take(k - 1));
        assert(all.take(k + 1).drop_first() == all.drop_first().take(k));
        match patched(doc, all[0].0, normalize_tabs(all[0].1)) {
            Some(next) => {
                lemma_apply_stops(next, all.drop_first(), k - 1);
            },
            None => {},
        }
    }
}

} // verus!
