//! The agent that appends: it streams the model's answer to the end of the
//! document.

use crate::agents::{
    active_pairs, active_todo_pairs, assignment, build_assignment, focus_closing, AgentContext,
};
use crate::chat::{
    message_views, recorded, system_message_of, user_message, ChatHistory, ChatMessage,
};
use crate::document::{lacks_newlines, with_trailing_newlines, DocumentService};
use crate::events::DocumentUpdate;
use crate::intent::plan_view;
use crate::prompts::document_editing::{
    build_system_message_with_state, system_message, APPEND_AGENT_PROMPT,
};
use crate::rewrite::{
    lemma_normalize_tabs_add, normalize_tabs, normalize_tabs_str, widen_indent, widen_line_indent,
};
use crate::state::{todo_views, StateSnapshot};
use crate::text::{joined, lemma_joined_add, lemma_joined_single, trim, trim_str, views};
use vstd::prelude::*;

verus! {

/// The agent that writes new text at the end of the document.
pub struct AppendAgent;

/// What the append agent adds to its system message: what was retrieved, or
/// a placeholder, and what a search found, if it found anything.
pub open spec fn append_enrichment(retrieved: Seq<char>, search: Seq<char>) -> Seq<char> {
    "\n### Relevant Context (RAG)\n"@ + (if retrieved.len() == 0 {
        "[None]\n"@
    } else {
        retrieved
    }) + (if search.len() == 0 {
        Seq::<char>::empty()
    } else {
        "\n### Search Results\n"@ + search + "\n"@
    })
}

/// The messages that make up a request: the system message, the chat
/// history, and the assignment.
pub open spec fn request_messages(
    system: Seq<char>,
    history: Seq<(Seq<char>, Seq<char>)>,
    user: Seq<char>,
) -> Seq<(Seq<char>, Seq<char>)> {
    seq![system_message_of(system)] + history + seq![user_message(user)]
}

/// Puts a request together from its three parts.
pub fn assemble_request(system: String, history: &ChatHistory, user: String) -> (r: Vec<
    ChatMessage,
>)
    ensures
        message_views(r@) == request_messages(system@, history@, user@),
{
    let mut messages: Vec<ChatMessage> = Vec::new();
    messages.push(ChatMessage::system(system));
    let past = history.to_vec();
    let mut i: usize = 0;
    while i < past.len()
        invariant
            i <= past.len(),
            message_views(past@) == history@,
            messages@.len() == 1 + i,
            messages@[0]@ == system_message_of(system@),
            forall|j: int| 0 <= j < i ==> (#[trigger] messages@[1 + j])@ == past@[j]@,
        decreases past.len() - i,
    {
        messages.push(past[i].duplicate());
        i += 1;
    }
    messages.push(ChatMessage::user(user));
    proof {
        let n = past@.len() as int;
        let want = request_messages(system@, history@, user@);
        assert(message_views(past@).len() == n);
        assert(want.len() == n + 2);
        assert forall|k: int| 0 <= k < n + 2 implies message_views(messages@)[k] == want[k] by {
            if 1 <= k <= n {
                assert(messages@[1 + (k - 1)]@ == past@[k - 1]@);
                assert(message_views(past@)[k - 1] == past@[k - 1]@);
            }
        }
        assert(message_views(messages@) =~= want);
    }
    messages
}

impl AppendAgent {
    pub fn name(&self) -> (r: &'static str)
        ensures
            r@ == "AppendAgent"@,
    {
        "AppendAgent"
    }

    /// Adds the retrieved context and the search results to a system message.
    pub fn enrich_system_message(msg: &mut String, ctx: &AgentContext)
        ensures
            final(msg)@ == old(msg)@ + append_enrichment(
                ctx.retrieved_context@,
                ctx.search_results@,
            ),
    {
        let ghost start = msg@;
        msg.append("\n### Relevant Context (RAG)\n");
        if ctx.retrieved_context.as_str().is_empty() {
            msg.append("[None]\n");
        } else {
            msg.append(ctx.retrieved_context.as_str());
        }
        let ghost mid = msg@;
        if !ctx.search_results.as_str().is_empty() {
            msg.append("\n### Search Results\n");
            msg.append(ctx.search_results.as_str());
            msg.append("\n");
            assert(msg@ == mid + ("\n### Search Results\n"@ + ctx.search_results@ + "\n"@));
        } else {
            assert(msg@ == mid + Seq::<char>::empty());
        }
        assert(msg@ == start + append_enrichment(ctx.retrieved_context@, ctx.search_results@));
    }

    /// The request that asks the model for the text to append.
    pub fn build_messages(ctx: &AgentContext, full_doc: &str, state: &StateSnapshot) -> (r: Vec<
        ChatMessage,
    >)
        requires
            ctx.current_step < usize::MAX,
        ensures
            message_views(r@) == request_messages(
                system_message(
                    APPEND_AGENT_PROMPT@,
                    full_doc@,
                    state.focus@,
                    views(state.git_history@),
                    active_pairs(todo_views(state.todo_list@)),
                ) + append_enrichment(ctx.retrieved_context@, ctx.search_results@),
                ctx.chat_history@,
                assignment(
                    ctx.transcript@,
                    plan_view(ctx.plan@),
                    ctx.current_step as int,
                    "APPEND"@,
                    focus_closing(),
                ),
            ),
    {
        let pairs = active_todo_pairs(&state.todo_list);
        let mut system = build_system_message_with_state(
            APPEND_AGENT_PROMPT,
            full_doc,
            state.focus.as_str(),
            state.git_history.as_slice(),
            pairs.as_slice(),
        );
        AppendAgent::enrich_system_message(&mut system, ctx);
        let user = build_assignment(
            ctx,
            "APPEND",
            "Focus ONLY on this assigned task. Ignore other parts of the request if they don't relate to this step.",
        );
        assemble_request(system, &ctx.chat_history, user)
    }
}

/// The answer of the model as it streams in.
pub struct AppendStream {
    buffer: String,
    first_chunk: bool,
}

/// What an append stream has taken so far.
pub struct AppendStreamModel {
    /// Every chunk so far, tabs made spaces.
    pub buffer: Seq<char>,
    /// No chunk has come yet.
    pub first_chunk: bool,
}

impl View for AppendStream {
    type V = AppendStreamModel;

    closed spec fn view(&self) -> AppendStreamModel {
        AppendStreamModel { buffer: self.buffer@, first_chunk: self.first_chunk }
    }
}

/// The document text after a chunk was streamed into it: before the first
/// chunk the document is made to end with two newlines.
pub open spec fn streamed_content(doc: Seq<char>, first: bool, chunk: Seq<char>) -> Seq<char> {
    (if first {
        with_trailing_newlines(doc, 2)
    } else {
        doc
    }) + normalize_tabs(chunk)
}

/// By how much a streamed chunk raises the version.
pub open spec fn streamed_changes(doc: Seq<char>, first: bool) -> int {
    if first && lacks_newlines(doc, 2) {
        2
    } else {
        1
    }
}

/// The document text after the chunks of one stream, in the order in which
/// they came.
pub open spec fn streamed_all(doc: Seq<char>, chunks: Seq<Seq<char>>) -> Seq<char>
    decreases chunks.len(),
{
    if chunks.len() == 0 {
        doc
    } else {
        streamed_content(
            streamed_all(doc, chunks.drop_last()),
            chunks.len() == 1,
            chunks.last(),
        )
    }
}

/// By how much the chunks of one stream raise the version.
pub open spec fn streamed_all_changes(doc: Seq<char>, chunks: Seq<Seq<char>>) -> int
    decreases chunks.len(),
{
    if chunks.len() == 0 {
        0
    } else {
        streamed_all_changes(doc, chunks.drop_last()) + streamed_changes(
            streamed_all(doc, chunks.drop_last()),
            chunks.len() == 1,
        )
    }
}

/// A stream writes its chunks in the order in which they come: after any
/// number of chunks the document holds what it held, ended by two newlines
/// if it was not empty, and then the whole answer with each tab made four
/// spaces. Into an empty document nothing is put in front. Each chunk
/// raises the version by one, and the newlines, where they were added, by
/// one more.
pub proof fn law_stream_keeps_order(doc: Seq<char>, chunks: Seq<Seq<char>>)
    requires
        chunks.len() > 0,
    ensures
        streamed_all(doc, chunks) == with_trailing_newlines(doc, 2) + normalize_tabs(
            joined(chunks),
        ),
        doc.len() == 0 ==> streamed_all(doc, chunks) == normalize_tabs(joined(chunks)),
        streamed_all_changes(doc, chunks) == chunks.len() + if lacks_newlines(doc, 2) {
            1int
        } else {
            0int
        },
    decreases chunks.len(),
{
    let head = chunks.drop_last();
    let last = chunks.last();
    assert(chunks =~= head + seq![last]);
    lemma_joined_add(head, seq![last]);
    lemma_joined_single(last);
    lemma_normalize_tabs_add(joined(head), last);
    if chunks.len() == 1 {
        assert(head.len() == 0);
        assert(streamed_all(doc, head) == doc);
        assert(joined(head) =~= Seq::<char>::empty());
        assert(normalize_tabs(joined(head)) =~= Seq::<char>::empty());
        assert(joined(chunks) =~= last);
        assert(streamed_all(doc, chunks) =~= with_trailing_newlines(doc, 2) + normalize_tabs(
            joined(chunks),
        ));
        assert(streamed_all_changes(doc, head) == 0);
    } else {
        law_stream_keeps_order(doc, head);
        assert(streamed_all(doc, chunks) =~= with_trailing_newlines(doc, 2) + normalize_tabs(
            joined(chunks),
        ));
    }
    if doc.len() == 0 {
        assert(with_trailing_newlines(doc, 2) =~= doc);
        assert(streamed_all(doc, chunks) =~= normalize_tabs(joined(chunks)));
    }
}

/// What the chat history records as the assistant's answer to an append: the
/// whole answer, its indentation widened, trimmed.
pub open spec fn append_response(buffer: Seq<char>) -> Seq<char> {
    trim(widen_indent(buffer))
}

impl AppendStream {
    pub fn new() -> (s: Self)
        ensures
            s@.buffer.len() == 0,
            s@.first_chunk,
    {
        AppendStream { buffer: String::new(), first_chunk: true }
    }

    /// Takes one chunk of the model's answer and writes it to the end of the
    /// document, tabs made spaces. Returns the event that tells of the
    /// document as it stands right after.
    pub fn on_chunk(&mut self, doc: &mut DocumentService, chunk: &str) -> (update: DocumentUpdate)
        requires
            old(doc)@.version + 2 <= u64::MAX,
        ensures
            final(self)@.buffer == old(self)@.buffer + normalize_tabs(chunk@),
            !final(self)@.first_chunk,
            final(doc)@.content == streamed_content(
                old(doc)@.content,
                old(self)@.first_chunk,
                chunk@,
            ),
            final(doc)@.version == old(doc)@.version + streamed_changes(
                old(doc)@.content,
                old(self)@.first_chunk,
            ),
            final(doc)@.version > old(doc)@.version,
            update.content@ == final(doc)@.content,
            update.version == final(doc)@.version,
    {
        let processed = normalize_tabs_str(chunk);
        self.buffer.append(processed.as_str());
        if self.first_chunk {
            doc.ensure_newlines(2);
            self.first_chunk = false;
        }
        doc.append_content(processed.as_str());
        let snap = doc.get_snapshot();
        DocumentUpdate { content: snap.content, version: snap.version }
    }

    /// Ends the stream. Where the answer, trimmed, is not empty the exchange
    /// is recorded in the chat history and the state updater is due.
    pub fn finish(self, ctx: &mut AgentContext) -> (finalize: bool)
        ensures
            finalize == (append_response(self@.buffer).len() > 0),
            finalize ==> final(ctx).chat_history@ == recorded(
                old(ctx).chat_history@,
                old(ctx).transcript@,
                append_response(self@.buffer),
            ),
            !finalize ==> final(ctx).chat_history@ == old(ctx).chat_history@,
            final(ctx).transcript == old(ctx).transcript,
            final(ctx).plan == old(ctx).plan,
            final(ctx).current_step == old(ctx).current_step,
            final(ctx).doc_intent == old(ctx).doc_intent,
            final(ctx).retrieved_context == old(ctx).retrieved_context,
            final(ctx).search_results == old(ctx).search_results,
            final(ctx).recording_id == old(ctx).recording_id,
            final(ctx).recording_path == old(ctx).recording_path,
            final(ctx).need_rag == old(ctx).need_rag,
            final(ctx).tool_intent == old(ctx).tool_intent,
    {
        let widened = widen_line_indent(self.buffer.as_str());
        let response = trim_str(widened.as_str());
        if !response.as_str().is_empty() {
            let said = ctx.transcript.clone();
            ctx.chat_history.record_exchange(said, response);
            true
        } else {
            false
        }
    }
}

} // verus!
