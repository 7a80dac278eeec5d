//! The agent that retrieves: it decides whether to look into the retrieval
//! store and turns what was found into context for the editing agents.

use crate::events::ToastPayload;
use crate::numfmt::{append_decimal, decimal};
use crate::rag::{result_views, ResultModel, SearchResult};
use crate::text::str_eq;
use vstd::prelude::*;

verus! {

/// The agent that gathers context from stored turns and ingested documents.
pub struct RagAgent;

/// How a retrieval went.
pub enum RetrievalEvent {
    /// The model could not make a query: why.
    QueryFailed(String),
    /// The model took too long to make a query.
    QueryTimedOut,
    /// The store answered with these results, best first.
    Retrieved(Vec<SearchResult>),
    /// The store failed: why.
    RetrievalFailed(String),
    /// The store took too long.
    RetrievalTimedOut,
}

/// Where a result comes from, as the agents are told: `History` for a
/// stored turn, else the name of the document.
pub open spec fn source_shown(source: Seq<char>) -> Seq<char> {
    if source == "conversation"@ {
        "History"@
    } else {
        "Doc: "@ + source
    }
}

/// The first `n` results as a numbered list, one to a line.
pub open spec fn context_upto(results: Seq<ResultModel>, n: int) -> Seq<char>
    decreases n,
{
    if n <= 0 {
        Seq::empty()
    } else {
        context_upto(results, n - 1) + decimal(n as nat) + ". ["@ + source_shown(
            results[n - 1].source,
        ) + "] "@ + results[n - 1].content + "\n"@
    }
}

/// The results as a numbered list, one to a line.
pub open spec fn context_text(results: Seq<ResultModel>) -> Seq<char> {
    context_upto(results, results.len() as int)
}

/// The recording to retrieve from: the active one, where the router asked
/// for retrieval.
pub open spec fn retrieval_target(need_rag: bool, recording_id: Option<Seq<char>>) -> Option<
    Seq<char>,
> {
    if need_rag {
        recording_id
    } else {
        None
    }
}

pub open spec fn retrieval_notice(event: RetrievalEvent) -> Option<Seq<char>> {
    match event {
        RetrievalEvent::QueryFailed(why) => Some("RAG query generation failed: "@ + why@),
        RetrievalEvent::QueryTimedOut => Some("RAG query generation timeout"@),
        RetrievalEvent::Retrieved(_) => None,
        RetrievalEvent::RetrievalFailed(why) => Some("RAG retrieval failed: "@ + why@),
        RetrievalEvent::RetrievalTimedOut => Some("RAG retrieval timeout"@),
    }
}

pub open spec fn retrieval_context(event: RetrievalEvent) -> Seq<char> {
    match event {
        RetrievalEvent::Retrieved(results) => context_text(result_views(results@)),
        _ => Seq::empty(),
    }
}

impl RagAgent {
    pub fn name(&self) -> (r: &'static str)
        ensures
            r@ == "RagAgent"@,
    {
        "RagAgent"
    }

    /// The recording to retrieve from, or `None` where the turn does without
    /// retrieval: the router did not ask for it, or no recording is active.
    pub fn target(need_rag: bool, recording_id: Option<&str>) -> (r: Option<String>)
        ensures
            match retrieval_target(
                need_rag,
                match recording_id {
                    Some(id) => Some(id@),
                    None => None,
                },
            ) {
                Some(id) => r is Some && r->0@ == id,
                None => r is None,
            },
    {
        if !need_rag {
            return None;
        }
        match recording_id {
            Some(id) => Some(id.to_string()),
            None => None,
        }
    }

    /// The results as the editing agents read them: a numbered list, each
    /// entry tagged with where it comes from.
    pub fn format_results(results: &Vec<SearchResult>) -> (r: String)
        ensures
            r@ == context_text(result_views(results@)),
    {
        let mut out = String::new();
        let mut i: usize = 0;
        while i < results.len()
            invariant
                i <= results.len(),
                out@ == context_upto(result_views(results@), i as int),
            decreases results.len() - i,
        {
            let ghost before = out@;
            append_decimal(&mut out, (i + 1) as u64);
            out.append(". [");
            let ghost mid = out@;
            if str_eq(results[i].source.as_str(), "conversation") {
                out.append("History");
            } else {
                out.append("Doc: ");
                out.append(results[i].source.as_str());
                assert(out@ == mid + ("Doc: "@ + results@[i as int].source@));
            }
            out.append("] ");
            out.append(results[i].content.as_str());
            out.append("\n");
            proof {
                assert(result_views(results@)[i as int] == results@[i as int]@);
            }
            i += 1;
        }
        out
    }

    /// What a retrieval leaves for the turn: the context for the agents, and
    /// the warning to show where it failed. A retrieval that fails, or
    /// finds nothing, leaves an empty context.
    pub fn conclude(event: RetrievalEvent) -> (r: (String, Option<ToastPayload>))
        ensures
            r.0@ == retrieval_context(event),
            match retrieval_notice(event) {
                Some(text) => r.1 matches Some(toast) && toast.message@ == text
                    && toast.toast_type@ == "warning"@,
                None => r.1 is None,
            },
    {
        match event {
            RetrievalEvent::QueryFailed(why) => {
                let mut msg = "RAG query generation failed: ".to_string();
                msg.append(why.as_str());
                (String::new(), Some(ToastPayload::warning(msg)))
            },
            RetrievalEvent::QueryTimedOut => (
                String::new(),
                Some(ToastPayload::warning("RAG query generation timeout".to_string())),
            ),
            RetrievalEvent::Retrieved(results) => (RagAgent::format_results(&results), None),
            RetrievalEvent::RetrievalFailed(why) => {
                let mut msg = "RAG retrieval failed: ".to_string();
                msg.append(why.as_str());
                (String::new(), Some(ToastPayload::warning(msg)))
            },
            RetrievalEvent::RetrievalTimedOut => (
                String::new(),
                Some(ToastPayload::warning("RAG retrieval timeout".to_string())),
            ),
        }
    }
}

} // verus!
