//! The history store: the commit log of one recording. It only grows, and a
//! rollback reads the text of a commit from it.

use crate::document::{changed, DocumentChange, DocumentService};
use crate::text::str_eq;
use vstd::prelude::*;

verus! {

/// A commit as the front end lists it.
#[derive(Debug, Clone)]
pub struct CommitInfo {
    pub hash: String,
    pub message: String,
}

/// One commit: its hash, its message and the document as it was committed.
#[derive(Debug, Clone)]
pub struct Commit {
    pub hash: String,
    pub message: String,
    pub content: String,
}

/// A commit as plain values.
pub struct CommitModel {
    pub hash: Seq<char>,
    pub message: Seq<char>,
    pub content: Seq<char>,
}

impl View for Commit {
    type V = CommitModel;

    open spec fn view(&self) -> CommitModel {
        CommitModel { hash: self.hash@, message: self.message@, content: self.content@ }
    }
}

pub open spec fn commit_views(commits: Seq<Commit>) -> Seq<CommitModel> {
    Seq::new(commits.len(), |i: int| commits[i]@)
}

/// Why a rollback was refused.
#[derive(Debug)]
pub enum HistoryError {
    UnknownCommit(String),
}

impl HistoryError {
    pub open spec fn message_spec(self) -> Seq<char> {
        match self {
            HistoryError::UnknownCommit(hash) => "Commit not found: "@ + hash@,
        }
    }

    pub fn message(&self) -> (r: String)
        ensures
            r@ == self.message_spec(),
    {
        match self {
            HistoryError::UnknownCommit(hash) => {
                let mut out = "Commit not found: ".to_string();
                out.append(hash.as_str());
                out
            },
        }
    }
}

/// The commit log of a recording, oldest commit first.
pub struct HistoryLog {
    commits: Vec<Commit>,
}

impl View for HistoryLog {
    type V = Seq<CommitModel>;

    closed spec fn view(&self) -> Seq<CommitModel> {
        commit_views(self.commits@)
    }
}

/// `name` names the commit: it is the commit's hash, in full.
pub open spec fn names_commit(c: CommitModel, name: Seq<char>) -> bool {
    c.hash == name
}

/// The newest of the first `n` commits that `name` names.
pub open spec fn resolve_upto(log: Seq<CommitModel>, name: Seq<char>, n: int) -> Option<int>
    decreases n,
{
    if n <= 0 {
        None
    } else if names_commit(log[n - 1], name) {
        Some(n - 1)
    } else {
        resolve_upto(log, name, n - 1)
    }
}

/// The newest commit whose hash is `name`.
pub open spec fn resolve(log: Seq<CommitModel>, name: Seq<char>) -> Option<int> {
    resolve_upto(log, name, log.len() as int)
}

/// The text that a rollback to `name` restores.
pub open spec fn restored(log: Seq<CommitModel>, name: Seq<char>) -> Option<Seq<char>> {
    match resolve(log, name) {
        Some(i) => Some(log[i].content),
        None => None,
    }
}

pub proof fn lemma_resolve_upto(log: Seq<CommitModel>, name: Seq<char>, n: int)
    requires
        0 <= n <= log.len(),
    ensures
        match resolve_upto(log, name, n) {
            Some(i) => 0 <= i < n && names_commit(log[i], name) && forall|j: int|
                i < j < n ==> !names_commit(#[trigger] log[j], name),
            None => forall|j: int| 0 <= j < n ==> !names_commit(#[trigger] log[j], name),
        },
    decreases n,
{
    if n > 0 && !names_commit(log[n - 1], name) {
        lemma_resolve_upto(log, name, n - 1);
    }
}

/// The `limit` newest commits, newest first.
pub open spec fn newest_first(log: Seq<CommitModel>, limit: nat) -> Seq<CommitModel> {
    Seq::new(
        if log.len() < limit {
            log.len()
        } else {
            limit
        },
        |i: int| log[log.len() - 1 - i],
    )
}

/// The hash of the head is a name of the head.
pub proof fn lemma_head_resolves(log: Seq<CommitModel>)
    requires
        log.len() > 0,
    ensures
        resolve(log, log.last().hash) == Some(log.len() - 1),
        restored(log, log.last().hash) == Some(log.last().content),
{
}

impl HistoryLog {
    pub fn new() -> (h: Self)
        ensures
            h@.len() == 0,
    {
        HistoryLog { commits: Vec::new() }
    }

    pub fn len(&self) -> (n: usize)
        ensures
            n == self@.len(),
    {
        self.commits.len()
    }

    /// Adds a commit as the new head. Nothing that was in the log changes.
    pub fn commit(&mut self, hash: String, message: String, content: String)
        ensures
            final(self)@ == old(self)@.push(
                CommitModel { hash: hash@, message: message@, content: content@ },
            ),
    {
        let ghost before = commit_views(self.commits@);
        self.commits.push(Commit { hash, message, content });
        assert(commit_views(self.commits@) =~= before.push(
            CommitModel { hash: hash@, message: message@, content: content@ },
        ));
    }

    /// Empties the log, as a reset of the recording does.
    pub fn clear(&mut self)
        ensures
            final(self)@.len() == 0,
    {
        self.commits = Vec::new();
    }

    /// The newest commits, newest first, at most `limit` of them.
    pub fn get_history_with_hashes(&self, limit: usize) -> (r: Vec<CommitInfo>)
        ensures
            r@.len() == newest_first(self@, limit as nat).len(),
            forall|i: int|
                0 <= i < r@.len() ==> (#[trigger] r@[i]).hash@ == newest_first(
                    self@,
                    limit as nat,
                )[i].hash && r@[i].message@ == newest_first(self@, limit as nat)[i].message,
    {
        let n = self.commits.len();
        let count = if n < limit {
            n
        } else {
            limit
        };
        let mut out: Vec<CommitInfo> = Vec::new();
        let mut i: usize = 0;
        while i < count
            invariant
                i <= count <= n,
                n == self.commits@.len(),
                out@.len() == i,
                forall|j: int|
                    0 <= j < i ==> (#[trigger] out@[j]).hash@ == self.commits@[n - 1 - j].hash@
                        && out@[j].message@ == self.commits@[n - 1 - j].message@,
            decreases count - i,
        {
            let c = &self.commits[n - 1 - i];
            out.push(CommitInfo { hash: c.hash.clone(), message: c.message.clone() });
            i += 1;
        }
        out
    }

    /// The index of the newest commit whose hash is `name`.
    pub fn find(&self, name: &str) -> (r: Option<usize>)
        ensures
            match r {
                Some(i) => resolve(self@, name@) == Some(i as int) && i < self@.len(),
                None => resolve(self@, name@) is None,
            },
    {
        let mut n: usize = self.commits.len();
        while n > 0
            invariant
                n <= self.commits@.len(),
                resolve(self@, name@) == resolve_upto(self@, name@, n as int),
            decreases n,
        {
            assert(self@[n - 1].hash == self.commits@[n - 1].hash@);
            if str_eq(self.commits[n - 1].hash.as_str(), name) {
                return Some(n - 1);
            }
            n -= 1;
        }
        None
    }

    /// The text of the newest commit whose hash is `name`.
    pub fn content_at(&self, name: &str) -> (r: Option<String>)
        ensures
            match restored(self@, name@) {
                Some(s) => r is Some && r->0@ == s,
                None => r is None,
            },
    {
        match self.find(name) {
            Some(i) => {
                assert(self@[i as int] == self.commits@[i as int]@);
                Some(self.commits[i].content.clone())
            },
            None => None,
        }
    }

    /// The hash of the commit just before the head: where an undo goes.
    pub fn previous_hash(&self) -> (r: Option<String>)
        ensures
            match r {
                Some(h) => self@.len() >= 2 && h@ == self@[self@.len() - 2].hash,
                None => self@.len() < 2,
            },
    {
        let n = self.commits.len();
        if n >= 2 {
            assert(self@[n - 2] == self.commits@[n - 2]@);
            Some(self.commits[n - 2].hash.clone())
        } else {
            None
        }
    }

    /// Rolls the document back to the commit whose hash is `name`: the
    /// document takes the text of that commit, read from the log, and its
    /// version goes up by one. Where the log holds no such commit the
    /// document stays as it is.
    pub fn rollback(&self, doc: &mut DocumentService, name: &str) -> (r: Result<
        String,
        HistoryError,
    >)
        requires
            old(doc)@.version < u64::MAX,
        ensures
            match restored(self@, name@) {
                Some(s) => r is Ok && r->Ok_0@ == s && final(doc)@.content == s && final(doc)@.version == old(doc)@.version + 1
                    && final(doc)@ == changed(old(doc)@, DocumentChange::Reset(s)),
                None => r is Err && r->Err_0.message_spec() == "Commit not found: "@ + name@
                    && final(doc)@ == old(doc)@,
            },
    {
        match self.content_at(name) {
            Some(content) => {
                doc.reset(content.clone());
                Ok(content)
            },
            None => Err(HistoryError::UnknownCommit(name.to_string())),
        }
    }
}

} // verus!
