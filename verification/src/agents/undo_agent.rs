//! The agent that undoes: it asks the model which commit the user wants back
//! and rolls the document back to it.

use crate::agents::{instruction_of, same_but_history, AgentContext};
use crate::chat::{message_views, recorded, user_message, ChatMessage};
use crate::document::DocumentService;
use crate::events::{DocumentUpdate, ToastPayload};
use crate::history::CommitInfo;
use crate::intent::plan_view;
use crate::numfmt::{append_decimal, decimal};
use crate::state::{StateModel, StateStore};
use crate::text::{
    char_is_white_space, chars_to_string, is_white_space, join_lines, join_strings, str_to_chars,
    subvec, trim, trim_chars, trim_start, trim_start_index, trim_str, views,
};
use vstd::prelude::*;

verus! {

/// The agent that takes the document back to an earlier commit.
pub struct UndoAgent;

/// How many commits the agent shows to the model.
pub const UNDO_HISTORY_LIMIT: usize = 10;

/// The first seven characters of a hash.
pub open spec fn short_hash(hash: Seq<char>) -> Seq<char> {
    if hash.len() > 7 {
        hash.take(7)
    } else {
        hash
    }
}

/// The line that shows commit `i`, counted from 0 at the head.
pub open spec fn history_line(i: int, hash: Seq<char>, message: Seq<char>) -> Seq<char> {
    decimal(i as nat) + ". ["@ + short_hash(hash) + "] "@ + trim(message)
}

pub open spec fn history_lines(commits: Seq<CommitInfo>) -> Seq<Seq<char>> {
    Seq::new(commits.len(), |i: int| history_line(i, commits[i].hash@, commits[i].message@))
}

/// The question put to the model: the commits, newest first, and what the
/// user asked for.
pub open spec fn undo_prompt(
    commits: Seq<CommitInfo>,
    instruction: Seq<char>,
    transcript: Seq<char>,
) -> Seq<char> {
    "User wants to undo/rollback.\n\nGit History (Latest first):\n"@ + join_lines(
        history_lines(commits),
    ) + "\n\nSpecific Instruction: \""@ + instruction + "\"\n(Original Input: \""@ + transcript
        + "\")\n\nTask: Return the COMMIT HASH that we should reset the document to.\nRules:\n- If user says 'undo', 'back', 'cancel', return the hash of commit #1 (the one before current HEAD).\n- If user identifies a specific version (e.g. 'go back to before X'), return that commit's hash.\n- Output ONLY the hash string."@
}

/// How many characters that are not white space `t` begins with.
pub open spec fn token_len(t: Seq<char>) -> nat
    decreases t.len(),
{
    if t.len() == 0 || is_white_space(t[0]) {
        0
    } else {
        1 + token_len(t.drop_first())
    }
}

/// The first word of `s`: its first run of characters that are not white
/// space, if it has one.
pub open spec fn first_token(s: Seq<char>) -> Option<Seq<char>> {
    if trim_start(s).len() == 0 {
        None
    } else {
        Some(trim_start(s).take(token_len(trim_start(s)) as int))
    }
}

/// The commit to roll back to: the first word of the model's answer, or of
/// the fallback where the model gave no answer; the fallback itself where
/// there is no such word.
pub open spec fn undo_target(answer: Option<Seq<char>>, fallback: Seq<char>) -> Seq<char> {
    let said = match answer {
        Some(a) => trim(a),
        None => fallback,
    };
    match first_token(said) {
        Some(t) => t,
        None => fallback,
    }
}

pub open spec fn undo_action_text(hash: Seq<char>) -> Seq<char> {
    "ACTION: UNDO (to "@ + hash + ")"@
}

/// How a rollback ended.
pub enum UndoStep {
    /// The document was rolled back: the event to emit and the notice to
    /// show. The state updater is due.
    Restored(DocumentUpdate, ToastPayload),
    /// The history could not give the commit: the notice to show.
    Failed(ToastPayload),
}

fn first_token_chars(v: &Vec<char>) -> (r: Option<Vec<char>>)
    ensures
        match first_token(v@) {
            Some(t) => r is Some && r->0@ == t,
            None => r is None,
        },
{
    let start = trim_start_index(v);
    if start == v.len() {
        return None;
    }
    let ghost t = trim_start(v@);
    let mut end: usize = start;
    assert(t.skip(0) == t);
    while end < v.len() && !char_is_white_space(v[end])
        invariant
            start <= end <= v.len(),
            t == v@.skip(start as int),
            token_len(t) == (end - start) + token_len(t.skip(end - start)),
        decreases v.len() - end,
    {
        proof {
            let rest = t.skip(end - start);
            assert(rest[0] == v@[end as int]);
            assert(rest.drop_first() == t.skip(end + 1 - start));
        }
        end += 1;
    }
    proof {
        let rest = t.skip(end - start);
        if end < v.len() {
            assert(rest[0] == v@[end as int]);
        }
        assert(t.take(end - start) == v@.subrange(start as int, end as int));
    }
    Some(subvec(v, start, end))
}

fn short_hash_string(hash: &str) -> (r: String)
    ensures
        r@ == short_hash(hash@),
{
    let v = str_to_chars(hash);
    if v.len() > 7 {
        let head = subvec(&v, 0, 7);
        chars_to_string(&head)
    } else {
        chars_to_string(&v)
    }
}

impl UndoAgent {
    pub fn name(&self) -> (r: &'static str)
        ensures
            r@ == "UndoAgent"@,
    {
        "UndoAgent"
    }

    /// Whether there is a commit to go back to: the head and one before it.
    pub fn can_undo(commits: &Vec<CommitInfo>) -> (b: bool)
        ensures
            b == (commits@.len() >= 2),
    {
        commits.len() >= 2
    }

    /// What the user asked for: the instruction of the step that is running,
    /// or the turn text where the plan has no such step.
    pub fn instruction(ctx: &AgentContext) -> (r: String)
        ensures
            r@ == instruction_of(
                plan_view(ctx.plan@),
                ctx.current_step as int,
                ctx.transcript@,
            ),
    {
        ctx.current_instruction(ctx.transcript.as_str())
    }

    /// The commits, newest first, one to a line.
    pub fn history_text(commits: &Vec<CommitInfo>) -> (r: String)
        ensures
            r@ == join_lines(history_lines(commits@)),
    {
        let mut items: Vec<String> = Vec::new();
        let mut i: usize = 0;
        while i < commits.len()
            invariant
                i <= commits.len(),
                items@.len() == i,
                forall|j: int|
                    0 <= j < i ==> (#[trigger] items@[j])@ == history_line(
                        j,
                        commits@[j].hash@,
                        commits@[j].message@,
                    ),
            decreases commits.len() - i,
        {
            let mut line = String::new();
            append_decimal(&mut line, i as u64);
            line.append(". [");
            let short = short_hash_string(commits[i].hash.as_str());
            line.append(short.as_str());
            line.append("] ");
            let message = trim_str(commits[i].message.as_str());
            line.append(message.as_str());
            proof {
                assert(Seq::<char>::empty() + decimal(i as nat) == decimal(i as nat));
            }
            items.push(line);
            i += 1;
        }
        assert(views(items@) =~= history_lines(commits@));
        join_strings(&items)
    }

    /// The request that asks the model for the commit to go back to.
    pub fn build_messages(ctx: &AgentContext, commits: &Vec<CommitInfo>) -> (r: Vec<ChatMessage>)
        ensures
            message_views(r@) == seq![
                user_message(
                    undo_prompt(
                        commits@,
                        instruction_of(
                            plan_view(ctx.plan@),
                            ctx.current_step as int,
                            ctx.transcript@,
                        ),
                        ctx.transcript@,
                    ),
                ),
            ],
    {
        let history = UndoAgent::history_text(commits);
        let instruction = UndoAgent::instruction(ctx);
        let mut prompt = "User wants to undo/rollback.\n\nGit History (Latest first):\n".to_string();
        prompt.append(history.as_str());
        prompt.append("\n\nSpecific Instruction: \"");
        prompt.append(instruction.as_str());
        prompt.append("\"\n(Original Input: \"");
        prompt.append(ctx.transcript.as_str());
        prompt.append(
            "\")\n\nTask: Return the COMMIT HASH that we should reset the document to.\nRules:\n- If user says 'undo', 'back', 'cancel', return the hash of commit #1 (the one before current HEAD).\n- If user identifies a specific version (e.g. 'go back to before X'), return that commit's hash.\n- Output ONLY the hash string.",
        );
        let mut messages: Vec<ChatMessage> = Vec::new();
        messages.push(ChatMessage::user(prompt));
        assert(message_views(messages@) =~= seq![messages@[0]@]);
        messages
    }

    /// The commit to roll back to, given the model's answer (`None` where the
    /// model failed) and the hash of the commit just before the head.
    pub fn choose_target(answer: Option<&str>, fallback: &str) -> (r: String)
        ensures
            r@ == undo_target(
                match answer {
                    Some(a) => Some(a@),
                    None => None,
                },
                fallback@,
            ),
    {
        let said: Vec<char> = match answer {
            Some(a) => {
                let v = str_to_chars(a);
                trim_chars(&v)
            },
            None => str_to_chars(fallback),
        };
        match first_token_chars(&said) {
            Some(t) => chars_to_string(&t),
            None => fallback.to_string(),
        }
    }

    /// Ends an undo, given what the history store returned for the commit:
    /// its text, or `None` where the rollback failed. A text that came back
    /// replaces the document and is noted in the state store, and the
    /// exchange is recorded.
    pub fn complete(
        doc: &mut DocumentService,
        state: &mut StateStore,
        ctx: &mut AgentContext,
        hash: &str,
        restored: Option<String>,
    ) -> (step: UndoStep)
        requires
            old(doc)@.version < u64::MAX,
        ensures
            same_but_history(*final(ctx), *old(ctx)),
            match restored {
                Some(text) => {
                    &&& step matches UndoStep::Restored(update, toast)
                    &&& final(doc)@.content == text@
                    &&& final(doc)@.version == old(doc)@.version + 1
                    &&& update.content@ == text@
                    &&& update.version == final(doc)@.version
                    &&& toast.message@ == "Rollback successful"@
                    &&& toast.toast_type@ == "success"@
                    &&& final(state)@ == (StateModel { current_doc: text@, ..old(state)@ })
                    &&& final(ctx).chat_history@ == recorded(
                        old(ctx).chat_history@,
                        old(ctx).transcript@,
                        undo_action_text(hash@),
                    )
                },
                None => {
                    &&& step matches UndoStep::Failed(toast)
                    &&& toast.message@ == "Rollback failed"@
                    &&& toast.toast_type@ == "error"@
                    &&& final(doc)@ == old(doc)@
                    &&& final(state)@ == old(state)@
                    &&& final(ctx).chat_history@ == old(ctx).chat_history@
                },
            },
    {
        match restored {
            Some(text) => {
                doc.reset(text.clone());
                let snap = doc.get_snapshot();
                state.update_document(text);
                let mut action = "ACTION: UNDO (to ".to_string();
                action.append(hash);
                action.append(")");
                let said = ctx.transcript.clone();
                ctx.chat_history.record_exchange(said, action);
                UndoStep::Restored(
                    DocumentUpdate { content: snap.content, version: snap.version },
                    ToastPayload::success("Rollback successful".to_string()),
                )
            },
            None => UndoStep::Failed(ToastPayload::error("Rollback failed".to_string())),
        }
    }
}

} // verus!
