//! The agent that edits: it applies the search/replace blocks of the model's
//! answer and asks again, at most three times, when one is refused.

use crate::agents::append_agent::{assemble_request, request_messages};
use crate::agents::{
    active_pairs, active_todo_pairs, assignment, build_assignment, focus_closing, AgentContext,
};
use crate::chat::{assistant_message, message_views, recorded, user_message, ChatMessage};
use crate::diff::{parse_all_spec, PatchError};
use crate::document::{apply_patches, DocumentService};
use crate::events::{DocumentUpdate, ToastPayload};
use crate::intent::plan_view;
use crate::prompts::document_editing::{
    build_edit_retry_prompt, build_system_message_with_state, edit_retry_prompt, system_message,
    EDIT_AGENT_PROMPT,
};
use crate::rewrite::{
    has_tab, lemma_normalize_tabs_adds_no_match, lemma_normalize_tabs_fixed,
    lemma_normalize_tabs_no_tab, lemma_replace_absent, normalize_tabs, replace_all, replace_str,
    spaces_stand_alone,
};
use crate::text::{contains, occurs_at};
use crate::speech::MAX_EDIT_RETRIES;
use crate::state::{todo_views, StateSnapshot};
use crate::text::views;
use vstd::prelude::*;

verus! {

/// The agent that changes text that is already in the document.
pub struct EditAgent;

/// What the edit agent adds to its system message: what was retrieved, or a
/// placeholder.
pub open spec fn edit_enrichment(retrieved: Seq<char>) -> Seq<char> {
    "\n### Relevant Context (RAG)\n"@ + (if retrieved.len() == 0 {
        "[None]\n"@
    } else {
        retrieved
    })
}

/// The model's answer with short markers made seven long, one replacement
/// after the other. Nothing else changes: a tab stays a tab.
pub open spec fn mended_markers(response: Seq<char>) -> Seq<char> {
    replace_all(
        replace_all(
            replace_all(
                replace_all(response, "<<<<< SEARCH"@, "<<<<<<< SEARCH"@),
                "<<<< SEARCH"@,
                "<<<<<<< SEARCH"@,
            ),
            ">>>>> REPLACE"@,
            ">>>>>>> REPLACE"@,
        ),
        ">>>>>> REPLACE"@,
        ">>>>>>> REPLACE"@,
    )
}

/// The model's answer with its markers mended and then its tabs made four
/// spaces: the form in which an answer is kept in the chat history.
pub open spec fn cleaned_tags(response: Seq<char>) -> Seq<char> {
    replace_all(mended_markers(response), "\t"@, "    "@)
}

/// An answer that holds neither of the two shortest markers that the
/// mending looks for, and so none of the longer ones.
pub open spec fn needs_no_mending(response: Seq<char>) -> bool {
    !contains(response, "<<<< SEARCH"@) && !contains(response, ">>>>> REPLACE"@)
}

/// An answer without a marker to mend is left as it is by the mending.
pub proof fn lemma_mending_fixed(response: Seq<char>)
    requires
        needs_no_mending(response),
    ensures
        mended_markers(response) == response,
{
    reveal_strlit("<<<<< SEARCH");
    reveal_strlit("<<<< SEARCH");
    reveal_strlit(">>>>> REPLACE");
    reveal_strlit(">>>>>> REPLACE");
    let s = response;
    assert forall|i: int| !occurs_at(s, "<<<<< SEARCH"@, i) by {
        if occurs_at(s, "<<<<< SEARCH"@, i) {
            assert(s.subrange(i + 1, i + 12) =~= s.subrange(i, i + 12).subrange(1, 12));
            assert("<<<<< SEARCH"@.subrange(1, 12) =~= "<<<< SEARCH"@);
            assert(occurs_at(s, "<<<< SEARCH"@, i + 1));
        }
    }
    assert forall|i: int| !occurs_at(s, ">>>>>> REPLACE"@, i) by {
        if occurs_at(s, ">>>>>> REPLACE"@, i) {
            assert(s.subrange(i + 1, i + 14) =~= s.subrange(i, i + 14).subrange(1, 14));
            assert(">>>>>> REPLACE"@.subrange(1, 14) =~= ">>>>> REPLACE"@);
            assert(occurs_at(s, ">>>>> REPLACE"@, i + 1));
        }
    }
    lemma_replace_absent(s, "<<<<< SEARCH"@, "<<<<<<< SEARCH"@);
    lemma_replace_absent(s, "<<<< SEARCH"@, "<<<<<<< SEARCH"@);
    lemma_replace_absent(s, ">>>>> REPLACE"@, ">>>>>>> REPLACE"@);
    lemma_replace_absent(s, ">>>>>> REPLACE"@, ">>>>>>> REPLACE"@);
}

/// Cleaning an answer that needs no mending is making its tabs four
/// spaces; what comes out holds no tab, and cleaning it once more changes
/// nothing.
pub proof fn law_cleanup_is_stable(response: Seq<char>)
    requires
        needs_no_mending(response),
    ensures
        cleaned_tags(response) == normalize_tabs(response),
        !has_tab(cleaned_tags(response)),
        needs_no_mending(cleaned_tags(response)),
        cleaned_tags(cleaned_tags(response)) == cleaned_tags(response),
{
    reveal_strlit("\t");
    reveal_strlit("    ");
    reveal_strlit("<<<< SEARCH");
    reveal_strlit(">>>>> REPLACE");
    assert("\t"@ =~= crate::rewrite::tab());
    assert("    "@ =~= crate::rewrite::four_spaces());
    lemma_mending_fixed(response);
    let once = normalize_tabs(response);
    lemma_normalize_tabs_no_tab(response);
    assert(spaces_stand_alone("<<<< SEARCH"@));
    assert(spaces_stand_alone(">>>>> REPLACE"@));
    if contains(once, "<<<< SEARCH"@) {
        lemma_normalize_tabs_adds_no_match(response, "<<<< SEARCH"@);
    }
    if contains(once, ">>>>> REPLACE"@) {
        lemma_normalize_tabs_adds_no_match(response, ">>>>> REPLACE"@);
    }
    lemma_mending_fixed(once);
    lemma_normalize_tabs_fixed(once);
}

/// The blocks that an answer asks to apply: those of the answer with its
/// markers mended. The search texts are the model's own, tabs included, so
/// that a search text with a tab does not match four spaces.
pub open spec fn edit_blocks(response: Seq<char>) -> Seq<(Seq<char>, Seq<char>)> {
    parse_all_spec(mended_markers(response))
}

/// The system message of the edit agent for a document, without what was
/// retrieved.
pub open spec fn edit_system(doc: Seq<char>, state: StateSnapshot) -> Seq<char> {
    system_message(
        EDIT_AGENT_PROMPT@,
        doc,
        state.focus@,
        views(state.git_history@),
        active_pairs(todo_views(state.todo_list@)),
    )
}

/// The assignment of the edit agent.
pub open spec fn edit_assignment(ctx: AgentContext) -> Seq<char> {
    assignment(
        ctx.transcript@,
        plan_view(ctx.plan@),
        ctx.current_step as int,
        "EDIT"@,
        focus_closing(),
    )
}

/// The request of a retry: the system message made anew for the document as
/// it stands, the chat history, the assignment, the answer that failed and
/// the hint.
pub open spec fn retry_messages(
    doc: Seq<char>,
    state: StateSnapshot,
    ctx: AgentContext,
    failed_answer: Seq<char>,
    error: Seq<char>,
) -> Seq<(Seq<char>, Seq<char>)> {
    request_messages(edit_system(doc, state), ctx.chat_history@, edit_assignment(ctx)).push(
        assistant_message(failed_answer),
    ).push(user_message(edit_retry_prompt(error)))
}

/// How an attempt to apply the model's answer ended.
pub enum EditStep {
    /// Every block was applied, and there was at least one: the event to
    /// emit. The state updater is due.
    Applied(DocumentUpdate),
    /// The answer held no block. Nothing changed.
    Unchanged,
    /// A block was refused and a retry is left: the request to send next.
    Retry(Vec<ChatMessage>),
    /// A block was refused and every retry is used up: the warning to show.
    GaveUp(ToastPayload),
}

pub open spec fn give_up_text() -> Seq<char> {
    "Failed to apply edits after retries"@
}

impl EditAgent {
    pub fn name(&self) -> (r: &'static str)
        ensures
            r@ == "EditAgent"@,
    {
        "EditAgent"
    }

    /// Adds the retrieved context to a system message.
    pub fn enrich_system_message(msg: &mut String, ctx: &AgentContext)
        ensures
            final(msg)@ == old(msg)@ + edit_enrichment(ctx.retrieved_context@),
    {
        let ghost start = msg@;
        msg.append("\n### Relevant Context (RAG)\n");
        if ctx.retrieved_context.as_str().is_empty() {
            msg.append("[None]\n");
        } else {
            msg.append(ctx.retrieved_context.as_str());
        }
        assert(msg@ == start + edit_enrichment(ctx.retrieved_context@));
    }

    /// Mends markers that the model wrote too short.
    pub fn mend_markers(response: &str) -> (r: String)
        ensures
            r@ == mended_markers(response@),
    {
        let a = replace_str(response, "<<<<< SEARCH", "<<<<<<< SEARCH");
        let b = replace_str(a.as_str(), "<<<< SEARCH", "<<<<<<< SEARCH");
        let c = replace_str(b.as_str(), ">>>>> REPLACE", ">>>>>>> REPLACE");
        replace_str(c.as_str(), ">>>>>> REPLACE", ">>>>>>> REPLACE")
    }

    /// Mends markers that the model wrote too short and turns tabs into four
    /// spaces.
    pub fn cleanup_tags(response: &str) -> (r: String)
        ensures
            r@ == cleaned_tags(response@),
    {
        let d = EditAgent::mend_markers(response);
        replace_str(d.as_str(), "\t", "    ")
    }

    /// The first request of an edit.
    pub fn build_messages(ctx: &AgentContext, initial_doc: &str, state: &StateSnapshot) -> (r: Vec<
        ChatMessage,
    >)
        requires
            ctx.current_step < usize::MAX,
        ensures
            message_views(r@) == request_messages(
                edit_system(initial_doc@, *state) + edit_enrichment(ctx.retrieved_context@),
                ctx.chat_history@,
                edit_assignment(*ctx),
            ),
    {
        let pairs = active_todo_pairs(&state.todo_list);
        let mut system = build_system_message_with_state(
            EDIT_AGENT_PROMPT,
            initial_doc,
            state.focus.as_str(),
            state.git_history.as_slice(),
            pairs.as_slice(),
        );
        EditAgent::enrich_system_message(&mut system, ctx);
        let user = build_assignment(
            ctx,
            "EDIT",
            "Focus ONLY on this assigned task. Ignore other parts of the request if they don't relate to this step.",
        );
        assemble_request(system, &ctx.chat_history, user)
    }

    /// The request of a retry after `failed_answer` was refused with `error`.
    pub fn build_retry_messages(
        ctx: &AgentContext,
        latest_doc: &str,
        state: &StateSnapshot,
        failed_answer: &str,
        error: &str,
    ) -> (r: Vec<ChatMessage>)
        requires
            ctx.current_step < usize::MAX,
        ensures
            message_views(r@) == retry_messages(
                latest_doc@,
                *state,
                *ctx,
                failed_answer@,
                error@,
            ),
    {
        let pairs = active_todo_pairs(&state.todo_list);
        let system = build_system_message_with_state(
            EDIT_AGENT_PROMPT,
            latest_doc,
            state.focus.as_str(),
            state.git_history.as_slice(),
            pairs.as_slice(),
        );
        let user = build_assignment(
            ctx,
            "EDIT",
            "Focus ONLY on this assigned task. Ignore other parts of the request if they don't relate to this step.",
        );
        let mut messages = assemble_request(system, &ctx.chat_history, user);
        let ghost base = message_views(messages@);
        let m1 = ChatMessage::assistant(failed_answer.to_string());
        let hint = build_edit_retry_prompt(error);
        let m2 = ChatMessage::user(hint);
        proof {
            crate::chat::lemma_message_views_push(messages@, m1);
            crate::chat::lemma_message_views_push(messages@.push(m1), m2);
        }
        messages.push(m1);
        messages.push(m2);
        messages
    }

    /// The warning shown when an edit is given up.
    pub fn give_up() -> (t: ToastPayload)
        ensures
            t.message@ == give_up_text(),
            t.toast_type@ == "warning"@,
            t.duration == Some(4000u32),
    {
        ToastPayload::warning("Failed to apply edits after retries".to_string())
    }

    /// Applies the model's answer number `attempt` to the document as it
    /// stands: the first answer is number 1, and the answer to retry `k` is
    /// number `k + 1`.
    ///
    /// The blocks of the answer are applied in order, each search text as
    /// the model wrote it and each replace text with its tabs made four
    /// spaces. When none is refused, the exchange is recorded in the chat
    /// history; the document has changed exactly when the answer held a
    /// block. When one is refused, the blocks before it stay applied, and
    /// the result is the request of the next retry, or the warning once the
    /// last retry is used up.
    pub fn apply_response(
        attempt: usize,
        doc: &mut DocumentService,
        ctx: &mut AgentContext,
        state: &StateSnapshot,
        response: &str,
    ) -> (step: EditStep)
        requires
            1 <= attempt <= MAX_EDIT_RETRIES + 1,
            old(ctx).current_step < usize::MAX,
            old(doc)@.version + apply_patches(old(doc)@.content, edit_blocks(response@)).1
                <= u64::MAX,
        ensures
            final(doc)@.content == apply_patches(old(doc)@.content, edit_blocks(response@)).0,
            final(doc)@.version == old(doc)@.version + apply_patches(
                old(doc)@.content,
                edit_blocks(response@),
            ).1,
            final(ctx).transcript == old(ctx).transcript,
            final(ctx).plan == old(ctx).plan,
            final(ctx).current_step == old(ctx).current_step,
            final(ctx).doc_intent == old(ctx).doc_intent,
            final(ctx).retrieved_context == old(ctx).retrieved_context,
            final(ctx).search_results == old(ctx).search_results,
            final(ctx).recording_id == old(ctx).recording_id,
            final(ctx).recording_path == old(ctx).recording_path,
            final(ctx).need_rag == old(ctx).need_rag,
            final(ctx).tool_intent == old(ctx).tool_intent,
            ({
                let blocks = edit_blocks(response@);
                let applied = apply_patches(old(doc)@.content, blocks).1;
                if applied == blocks.len() {
                    &&& final(ctx).chat_history@ == recorded(
                        old(ctx).chat_history@,
                        old(ctx).transcript@,
                        cleaned_tags(response@),
                    )
                    &&& if blocks.len() > 0 {
                        &&& step matches EditStep::Applied(update)
                        &&& update.content@ == final(doc)@.content
                        &&& update.version == final(doc)@.version
                        &&& final(doc)@.version > old(doc)@.version
                    } else {
                        step is Unchanged
                    }
                } else {
                    &&& final(ctx).chat_history@ == old(ctx).chat_history@
                    &&& if attempt > MAX_EDIT_RETRIES {
                        &&& step matches EditStep::GaveUp(toast)
                        &&& toast.message@ == give_up_text()
                        &&& toast.toast_type@ == "warning"@
                    } else {
                        &&& step matches EditStep::Retry(messages)
                        &&& message_views(messages@) == retry_messages(
                            final(doc)@.content,
                            *state,
                            *old(ctx),
                            response@,
                            PatchError::NotFound.message_spec(),
                        )
                    }
                }
            }),
    {
        let mended = EditAgent::mend_markers(response);
        proof {
            crate::document::lemma_apply_patches_count(doc@.content, edit_blocks(response@));
        }
        match doc.process_stream_chunk(mended.as_str()) {
            Ok(changed) => {
                let said = ctx.transcript.clone();
                let clean = EditAgent::cleanup_tags(response);
                ctx.chat_history.record_exchange(said, clean);
                if changed {
                    let snap = doc.get_snapshot();
                    EditStep::Applied(
                        DocumentUpdate { content: snap.content, version: snap.version },
                    )
                } else {
                    EditStep::Unchanged
                }
            },
            Err(e) => {
                if attempt > MAX_EDIT_RETRIES {
                    EditStep::GaveUp(EditAgent::give_up())
                } else {
                    let latest = doc.get_snapshot();
                    EditStep::Retry(
                        EditAgent::build_retry_messages(
                            ctx,
                            latest.content.as_str(),
                            state,
                            response,
                            e.as_str(),
                        ),
                    )
                }
            },
        }
    }
}

} // verus!
