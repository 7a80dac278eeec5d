//! The prompts that ask for a focus sentence and for a commit message.

use crate::truncate::{safe_truncate, truncated};
use vstd::prelude::*;

verus! {

pub const FOCUS_PROMPT_PART_1: &'static str = r#"Given the current document content, generate a brief 1-sentence focus description that captures what the user is currently working on.
        Examples:
        - Currently writing the introduction, focusing on...
        - Implementation section finished, now writing the conclusion...
        - Arranging the schedule part...

Document:
"#;

pub const FOCUS_PROMPT_PART_2: &'static str = r#"

Output only the focus description (no preamble, no explanation). Keep it under 100 characters."#;

/// The prompt that asks for one sentence on what the user is working on,
/// from the first 500 bytes of the document.
pub open spec fn focus_prompt(content: Seq<char>) -> Seq<char> {
    FOCUS_PROMPT_PART_1@
        + truncated(content, 500)
        + FOCUS_PROMPT_PART_2@
}

/// The prompt that asks for one sentence on what the user is working on,
/// from the first 500 bytes of the document.
pub fn generate_focus_prompt(content: &str) -> (r: String)
    ensures
        r@ == focus_prompt(content@),
{
    let preview = safe_truncate(content, 500);
    let mut msg = FOCUS_PROMPT_PART_1.to_string();
    msg.append(preview);
    msg.append(FOCUS_PROMPT_PART_2);
    msg
}

pub const COMMIT_MESSAGE_PROMPT_PART_1: &'static str = r#"Generate a concise git commit message for the following document changes.
Use imperative mood, stay under 72 characters, focus on what changed.

Examples:
- "Add introduction section"
- "Update feature list"
- "Fix typo in conclusion"
- "Remove outdated references"

Diff:
"#;

pub const COMMIT_MESSAGE_PROMPT_PART_2: &'static str = r#"

Output only the commit message (no preamble, no explanation, no quotes)."#;

/// The prompt that asks for a commit message, from the first 1000 bytes of
/// the diff.
pub open spec fn commit_message_prompt(diff: Seq<char>) -> Seq<char> {
    COMMIT_MESSAGE_PROMPT_PART_1@
        + truncated(diff, 1000)
        + COMMIT_MESSAGE_PROMPT_PART_2@
}

/// The prompt that asks for a commit message, from the first 1000 bytes of
/// the diff.
pub fn generate_commit_message_prompt(diff: &str) -> (r: String)
    ensures
        r@ == commit_message_prompt(diff@),
{
    let preview = safe_truncate(diff, 1000);
    let mut msg = COMMIT_MESSAGE_PROMPT_PART_1.to_string();
    msg.append(preview);
    msg.append(COMMIT_MESSAGE_PROMPT_PART_2);
    msg
}

} // verus!
