//! The agent that replaces a word or a pattern in the whole document.

use crate::agents::{
    assignment, build_assignment, extract_closing, extract_closing_text, AgentContext,
};
use crate::chat::{message_views, recorded, system_message_of, user_message, ChatMessage};
use crate::document::DocumentService;
use crate::events::{DocumentUpdate, ToastPayload};
use crate::intent::plan_view;
use crate::lines::{lines, split_lines};
use crate::patterns::{pattern_compiles, pattern_replaced, replace_pattern};
use crate::prompts::document_editing::{
    build_system_message_with_state, system_message, GREP_AGENT_PROMPT,
};
use crate::rewrite::{replace_all, replace_str};
use crate::state::StateSnapshot;
use crate::text::{
    chars_to_string, matches_at, starts_with, starts_with_chars, str_eq, str_to_chars, subvec, trim,
    trim_chars, views,
};
use vstd::prelude::*;

verus! {

/// The agent that replaces every match of a pattern.
pub struct GrepAgent;

/// `s` without every copy of `p` that it begins with.
pub open spec fn strip_prefixes(s: Seq<char>, p: Seq<char>) -> Seq<char>
    decreases s.len(),
{
    if p.len() > 0 && starts_with(s, p) {
        strip_prefixes(s.skip(p.len() as int), p)
    } else {
        s
    }
}

/// The value that a line gives for the keyword it begins with.
pub open spec fn directive_value(line: Seq<char>, keyword: Seq<char>) -> Seq<char> {
    trim(strip_prefixes(line, keyword))
}

/// What to find and what to put in its place, read line by line; the last
/// line of each kind counts.
pub open spec fn directive_scan(ls: Seq<Seq<char>>, find: Seq<char>, replace: Seq<char>) -> (
    Seq<char>,
    Seq<char>,
)
    decreases ls.len(),
{
    if ls.len() == 0 {
        (find, replace)
    } else if starts_with(ls[0], "FIND:"@) {
        directive_scan(ls.drop_first(), directive_value(ls[0], "FIND:"@), replace)
    } else if starts_with(ls[0], "REPLACE:"@) {
        directive_scan(ls.drop_first(), find, directive_value(ls[0], "REPLACE:"@))
    } else {
        directive_scan(ls.drop_first(), find, replace)
    }
}

/// What the model's answer says to find and what to put in its place. Both
/// are empty where the answer does not say.
pub open spec fn directive(response: Seq<char>) -> (Seq<char>, Seq<char>) {
    directive_scan(lines(response), Seq::empty(), Seq::empty())
}

/// The document after the replacement: `find` is taken as a regular
/// expression where it compiles as one, and else as it is written.
pub open spec fn grep_result(doc: Seq<char>, find: Seq<char>, replace: Seq<char>) -> Seq<char> {
    if pattern_compiles(find) {
        pattern_replaced(find, doc, replace)
    } else {
        replace_all(doc, find, replace)
    }
}

pub open spec fn not_found_text(find: Seq<char>) -> Seq<char> {
    "Grep: Pattern not found '"@ + find + "'"@
}

/// How a global replacement ended.
pub enum GrepStep {
    /// The document changed: the event to emit. The state updater is due.
    Replaced(DocumentUpdate),
    /// The replacement left the document as it was: the warning to show.
    NotFound(ToastPayload),
    /// The answer named nothing to find.
    NoPattern,
}

fn strip_prefixes_chars(line: &Vec<char>, keyword: &Vec<char>) -> (r: Vec<char>)
    ensures
        r@ == strip_prefixes(line@, keyword@),
{
    if keyword.len() == 0 {
        return subvec(line, 0, line.len());
    }
    let mut i: usize = 0;
    assert(line@.skip(0) == line@);
    while i <= line.len() && matches_at(line, keyword, i)
        invariant
            i <= line.len(),
            keyword.len() > 0,
            strip_prefixes(line@, keyword@) == strip_prefixes(line@.skip(i as int), keyword@),
        decreases line.len() - i,
    {
        proof {
            let rest = line@.skip(i as int);
            assert(rest.subrange(0, keyword.len() as int) == line@.subrange(
                i as int,
                i + keyword.len(),
            ));
            assert(rest.skip(keyword.len() as int) == line@.skip(i + keyword.len()));
        }
        i += keyword.len();
    }
    proof {
        let rest = line@.skip(i as int);
        if i + keyword.len() <= line.len() {
            assert(rest.subrange(0, keyword.len() as int) == line@.subrange(
                i as int,
                i + keyword.len(),
            ));
        }
    }
    subvec(line, i, line.len())
}

impl GrepAgent {
    pub fn name(&self) -> (r: &'static str)
        ensures
            r@ == "GrepAgent"@,
    {
        "GrepAgent"
    }

    /// The request of a global replacement: the rules with the document, the
    /// focus and the recent changes, and the assignment. Neither tasks nor
    /// chat history go with it.
    pub fn build_messages(ctx: &AgentContext, full_doc: &str, state: &StateSnapshot) -> (r: Vec<
        ChatMessage,
    >)
        requires
            ctx.current_step < usize::MAX,
        ensures
            message_views(r@) == seq![
                system_message_of(
                    system_message(
                        GREP_AGENT_PROMPT@,
                        full_doc@,
                        state.focus@,
                        views(state.git_history@),
                        Seq::empty(),
                    ),
                ),
                user_message(
                    assignment(
                        ctx.transcript@,
                        plan_view(ctx.plan@),
                        ctx.current_step as int,
                        "GREP"@,
                        extract_closing(),
                    ),
                ),
            ],
    {
        let no_todos: Vec<(String, String)> = Vec::new();
        assert(crate::prompts::document_editing::pair_views(no_todos@) =~= Seq::<
            (Seq<char>, Seq<char>),
        >::empty());
        let system = build_system_message_with_state(
            GREP_AGENT_PROMPT,
            full_doc,
            state.focus.as_str(),
            state.git_history.as_slice(),
            no_todos.as_slice(),
        );
        let closing = extract_closing_text();
        let user = build_assignment(ctx, "GREP", closing.as_str());
        let mut messages: Vec<ChatMessage> = Vec::new();
        messages.push(ChatMessage::system(system));
        messages.push(ChatMessage::user(user));
        assert(message_views(messages@) =~= seq![messages@[0]@, messages@[1]@]);
        messages
    }

    /// Reads what to find and what to put in its place from the model's
    /// answer: the lines that begin with `FIND:` and with `REPLACE:`.
    pub fn parse_directive(response: &str) -> (r: (String, String))
        ensures
            r.0@ == directive(response@).0,
            r.1@ == directive(response@).1,
    {
        let rv = str_to_chars(response);
        let ls = split_lines(&rv);
        let find_key = str_to_chars("FIND:");
        let replace_key = str_to_chars("REPLACE:");
        let mut find: Vec<char> = Vec::new();
        let mut replace: Vec<char> = Vec::new();
        let ghost all = lines(rv@);
        let mut i: usize = 0;
        assert(all.skip(0) == all);
        while i < ls.len()
            invariant
                i <= ls.len(),
                ls@.len() == all.len(),
                forall|j: int| 0 <= j < ls@.len() ==> (#[trigger] ls@[j])@ == all[j],
                find_key@ == "FIND:"@,
                replace_key@ == "REPLACE:"@,
                directive(response@) == directive_scan(all.skip(i as int), find@, replace@),
                all == lines(response@),
            decreases ls.len() - i,
        {
            proof {
                let rest = all.skip(i as int);
                assert(rest[0] == all[i as int]);
                assert(rest.drop_first() == all.skip(i + 1));
            }
            if starts_with_chars(&ls[i], &find_key) {
                let stripped = strip_prefixes_chars(&ls[i], &find_key);
                find = trim_chars(&stripped);
            } else if starts_with_chars(&ls[i], &replace_key) {
                let stripped = strip_prefixes_chars(&ls[i], &replace_key);
                replace = trim_chars(&stripped);
            }
            i += 1;
        }
        (chars_to_string(&find), chars_to_string(&replace))
    }

    /// The warning shown when the replacement changed nothing.
    pub fn not_found(find: &str) -> (t: ToastPayload)
        ensures
            t.message@ == not_found_text(find@),
            t.toast_type@ == "warning"@,
            t.duration == Some(4000u32),
    {
        let mut msg = "Grep: Pattern not found '".to_string();
        msg.append(find);
        msg.append("'");
        ToastPayload::warning(msg)
    }

    /// Puts `candidate`, the document after the replacement, in place of the
    /// document, if it differs from it. A changed document is told of and
    /// the exchange recorded; an unchanged one gives the warning.
    pub fn apply_candidate(
        doc: &mut DocumentService,
        ctx: &mut AgentContext,
        response: &str,
        find: &str,
        candidate: String,
    ) -> (step: GrepStep)
        requires
            old(doc)@.version < u64::MAX,
        ensures
            final(ctx).transcript == old(ctx).transcript,
            final(ctx).plan == old(ctx).plan,
            final(ctx).current_step == old(ctx).current_step,
            final(ctx).doc_intent == old(ctx).doc_intent,
            final(ctx).retrieved_context == old(ctx).retrieved_context,
            final(ctx).search_results == old(ctx).search_results,
            final(ctx).recording_id == old(ctx).recording_id,
            final(ctx).recording_path == old(ctx).recording_path,
            final(ctx).need_rag == old(ctx).need_rag,
            final(ctx).tool_intent == old(ctx).tool_intent,
            if candidate@ != old(doc)@.content {
                &&& step matches GrepStep::Replaced(update)
                &&& final(doc)@.content == candidate@
                &&& final(doc)@.version == old(doc)@.version + 1
                &&& update.content@ == candidate@
                &&& update.version == final(doc)@.version
                &&& final(ctx).chat_history@ == recorded(
                    old(ctx).chat_history@,
                    old(ctx).transcript@,
                    response@,
                )
            } else {
                &&& step matches GrepStep::NotFound(toast)
                &&& toast.message@ == not_found_text(find@)
                &&& toast.toast_type@ == "warning"@
                &&& final(doc)@ == old(doc)@
                &&& final(ctx).chat_history@ == old(ctx).chat_history@
            },
    {
        let latest = doc.get_snapshot();
        if !str_eq(candidate.as_str(), latest.content.as_str()) {
            doc.reset(candidate);
            let snap = doc.get_snapshot();
            let said = ctx.transcript.clone();
            ctx.chat_history.record_exchange(said, response.to_string());
            GrepStep::Replaced(DocumentUpdate { content: snap.content, version: snap.version })
        } else {
            GrepStep::NotFound(GrepAgent::not_found(find))
        }
    }

    /// Carries out the replacement that the model's answer asks for, on the
    /// document as it stands.
    pub fn apply_response(doc: &mut DocumentService, ctx: &mut AgentContext, response: &str) -> (step:
        GrepStep)
        requires
            old(doc)@.version < u64::MAX,
        ensures
            final(ctx).transcript == old(ctx).transcript,
            final(ctx).plan == old(ctx).plan,
            final(ctx).current_step == old(ctx).current_step,
            final(ctx).doc_intent == old(ctx).doc_intent,
            final(ctx).retrieved_context == old(ctx).retrieved_context,
            final(ctx).search_results == old(ctx).search_results,
            final(ctx).recording_id == old(ctx).recording_id,
            final(ctx).recording_path == old(ctx).recording_path,
            final(ctx).need_rag == old(ctx).need_rag,
            final(ctx).tool_intent == old(ctx).tool_intent,
            ({
                let find = directive(response@).0;
                let candidate = grep_result(old(doc)@.content, find, directive(response@).1);
                if find.len() == 0 {
                    &&& step is NoPattern
                    &&& final(doc)@ == old(doc)@
                    &&& final(ctx).chat_history@ == old(ctx).chat_history@
                } else if candidate != old(doc)@.content {
                    &&& step matches GrepStep::Replaced(update)
                    &&& final(doc)@.content == candidate
                    &&& final(doc)@.version == old(doc)@.version + 1
                    &&& update.content@ == candidate
                    &&& update.version == final(doc)@.version
                    &&& final(ctx).chat_history@ == recorded(
                        old(ctx).chat_history@,
                        old(ctx).transcript@,
                        response@,
                    )
                } else {
                    &&& step matches GrepStep::NotFound(toast)
                    &&& toast.message@ == not_found_text(find)
                    &&& toast.toast_type@ == "warning"@
                    &&& final(doc)@ == old(doc)@
                    &&& final(ctx).chat_history@ == old(ctx).chat_history@
                }
            }),
    {
        let latest = doc.get_snapshot();
        let (find, replace) = GrepAgent::parse_directive(response);
        if find.as_str().is_empty() {
            return GrepStep::NoPattern;
        }
        let candidate = match replace_pattern(
            find.as_str(),
            latest.content.as_str(),
            replace.as_str(),
        ) {
            Some(s) => s,
            None => replace_str(latest.content.as_str(), find.as_str(), replace.as_str()),
        };
        GrepAgent::apply_candidate(doc, ctx, response, find.as_str(), candidate)
    }
}

} // verus!
