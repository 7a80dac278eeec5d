//! The agent that searches the web through a model that has the tool.

use crate::chat::{message_views, system_message_of, user_message, ChatMessage};
use crate::events::{SearchResultsPayload, ToastPayload};
use crate::intent::{tool_view, ToolIntent};
use vstd::prelude::*;

verus! {

/// The agent that asks a search-enabled model for facts.
pub struct SearchAgent;

pub const SEARCH_SYSTEM_PROMPT: &'static str =
    "You are a web search assistant. Search for the following query and return relevant, factual information. Be concise and cite sources when possible.";

impl SearchAgent {
    pub fn name(&self) -> (r: &'static str)
        ensures
            r@ == "SearchAgent"@,
    {
        "SearchAgent"
    }

    /// The request of a search: the rules and the query. `None` where the
    /// turn needs no search; its search results are then empty.
    pub fn build_messages(tool_intent: &ToolIntent) -> (r: Option<Vec<ChatMessage>>)
        ensures
            match tool_view(*tool_intent) {
                Some(query) => r is Some && message_views(r->0@) == seq![
                    system_message_of(SEARCH_SYSTEM_PROMPT@),
                    user_message(query),
                ],
                None => r is None,
            },
    {
        match tool_intent {
            ToolIntent::Search(query) => {
                let mut messages: Vec<ChatMessage> = Vec::new();
                messages.push(ChatMessage::system(SEARCH_SYSTEM_PROMPT.to_string()));
                messages.push(ChatMessage::user(query.clone()));
                assert(message_views(messages@) =~= seq![messages@[0]@, messages@[1]@]);
                Some(messages)
            },
            ToolIntent::NoTool => None,
        }
    }

    /// What a search leaves for the turn, given the model's answer (`None`
    /// where the call failed): the results, and the warning to show where
    /// the call failed. A search that fails leaves empty results.
    pub fn conclude(answer: Option<String>) -> (r: (String, Option<ToastPayload>))
        ensures
            match answer {
                Some(text) => r.0@ == text@ && r.1 is None,
                None => {
                    &&& r.0@.len() == 0
                    &&& r.1 matches Some(toast)
                    &&& toast.message@ == "Search failed"@
                    &&& toast.toast_type@ == "warning"@
                },
            },
    {
        match answer {
            Some(text) => (text, None),
            None => (String::new(), Some(ToastPayload::warning("Search failed".to_string()))),
        }
    }

    /// The event that shows the search results to the user: none where there
    /// are no results.
    pub fn results_event(tool_intent: &ToolIntent, results: &str) -> (r: Option<
        SearchResultsPayload,
    >)
        ensures
            match r {
                Some(p) => results@.len() > 0 && p.content@ == results@ && p.query@
                    == match tool_view(*tool_intent) {
                    Some(q) => q,
                    None => Seq::empty(),
                },
                None => results@.len() == 0,
            },
    {
        if results.is_empty() {
            return None;
        }
        let query = match tool_intent {
            ToolIntent::Search(q) => q.clone(),
            ToolIntent::NoTool => String::new(),
        };
        Some(SearchResultsPayload { query, content: results.to_string() })
    }
}

} // verus!
