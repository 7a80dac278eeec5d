//! The prompt of the query agent.

use crate::truncate::{safe_truncate, truncated};
use vstd::prelude::*;

verus! {

pub const QUERY_GENERATION_PROMPT_PART_1: &'static str = r#"You are a Query Agent in a RAG system.
CRITICAL CONTEXT: An upstream Intent Router has ALREADY determined that the user's request cannot be fulfilled with the Current Document Context alone. The information is missing.

## Current Document Context
```
"#;

pub const QUERY_GENERATION_PROMPT_PART_2: &'static str = r#"
```

## User Input
"#;

pub const QUERY_GENERATION_PROMPT_PART_3: &'static str = r#"

## Your Task
Generate a precise search query to find the MISSING information in the historical database (past conversations or ingested documents).
The user is likely referring to something mentioned previously that is not currently visible.

## Rules
1. Analyze what specific information is missing from the context to satisfy the user input.
2. Resolve pronouns (it, that, he, she) to their potential historical referents.
3. If the user refers to a past event ("what we discussed about X"), query for the content of that discussion.
4. The query should be keywords or a short phrase optimized for semantic search.

## Examples
- User: "Modify that previous part" (Context has no recent edits) → Query: "content of the most recent edit"
- User: "The feature mentioned 10 minutes ago" → Query: "description of feature requirements"
- User: "Add to the list mentioned before" (Context has no list) → Query: "content of the previously mentioned list"
- User: "Continue writing the introduction" (Context is empty or unrelated) → Query: "project introduction background goals"

## Output
Output ONLY the search query (no explanation, no preamble):
"#;

/// The prompt that asks for a search query: the first 300 bytes of the
/// document, cut back to a character boundary, and what the user said.
pub open spec fn query_generation_prompt(user_input: Seq<char>, current_doc: Seq<char>) -> Seq<char> {
    QUERY_GENERATION_PROMPT_PART_1@
        + truncated(current_doc, 300)
        + QUERY_GENERATION_PROMPT_PART_2@
        + user_input
        + QUERY_GENERATION_PROMPT_PART_3@
}

/// The prompt that asks for a search query: the first 300 bytes of the
/// document, cut back to a character boundary, and what the user said.
pub fn build_query_generation_prompt(user_input: &str, current_doc: &str) -> (r: String)
    ensures
        r@ == query_generation_prompt(user_input@, current_doc@),
{
    let preview = safe_truncate(current_doc, 300);
    let mut msg = QUERY_GENERATION_PROMPT_PART_1.to_string();
    msg.append(preview);
    msg.append(QUERY_GENERATION_PROMPT_PART_2);
    msg.append(user_input);
    msg.append(QUERY_GENERATION_PROMPT_PART_3);
    msg
}

} // verus!
