//! What holds of the engine as a whole: statements that tie several of its
//! functions together.

use crate::chat::{assistant_message, recorded, user_message};
use crate::diff::{
    has_marker, initial_parser, lemma_parse_lines_marker_free, normalize_newlines, parse_all_spec,
    parse_lines, parser_step, ParserModel,
};
use crate::document::{
    apply_patches, changed, changed_by, effective, DocumentChange, DocumentModel,
};
use crate::history::{lemma_head_resolves, lemma_resolve_upto, restored, CommitModel};
use crate::lines::{split_inclusive, split_inclusive_scan};
use crate::matcher::{exact_span, normalized_span, patched};
use crate::rewrite::replace_all;
use crate::pipeline::{
    after_command, after_timer, command_directives, fired_turn, holdback_due, phase,
    timer_directives, turn_text, DirectiveModel, PipelineCommand, SchedulerModel, SessionPhase,
};
use crate::speech::MAX_HISTORY;
use crate::state::{
    active_count, active_upto, completed_todo, ring_of, ring_push, TodoModel, MAX_COMMIT_MESSAGES,
};
use crate::text::{is_blank, occurs_at};
use crate::todo::{maintained, OperationModel};
use vstd::prelude::*;

verus! {

/// The ring of commit messages never grows beyond ten, whatever is put on
/// it.
pub proof fn law_commit_ring_bounded(ring: Seq<Seq<char>>, message: Seq<char>)
    requires
        ring.len() <= MAX_COMMIT_MESSAGES,
    ensures
        ring_push(ring, message).len() <= MAX_COMMIT_MESSAGES,
        ring_push(ring, message).last() == message,
        ring_of(ring.push(message)) == ring_push(ring, message),
{
    assert(ring_of(ring.push(message)) =~= ring_push(ring, message));
}

/// No block that the parser hands out of a text holds a marker in its
/// replace part: such a block never reaches the document.
pub proof fn law_marker_blocks_rejected(text: Seq<char>)
    ensures
        forall|k: int|
            0 <= k < parse_all_spec(text).len() ==> !has_marker(
                (#[trigger] parse_all_spec(text)[k]).1,
            ),
{
    lemma_parse_lines_marker_free(
        initial_parser(),
        split_inclusive(normalize_newlines(text)),
    );
}

/// A text without a block changes nothing, and a patch whose search text is
/// found neither as it stands nor line by line is refused: the document is
/// what it was and no patch counts as applied.
pub proof fn law_refused_patch_changes_nothing(
    doc: Seq<char>,
    search: Seq<char>,
    replace: Seq<char>,
)
    requires
        exact_span(doc, search) is None,
        normalized_span(doc, search) is None,
    ensures
        patched(doc, search, replace) is None,
        apply_patches(doc, seq![(search, replace)]) == (doc, 0nat),
        apply_patches(doc, Seq::empty()) == (doc, 0nat),
{
}

/// After a maintenance that held an operation, no completed task is left on
/// the list.
pub proof fn law_maintenance_leaves_active(
    todos: Seq<TodoModel>,
    ops: Seq<OperationModel>,
    ids: Seq<Seq<char>>,
)
    requires
        ops.len() > 0,
    ensures
        forall|i: int|
            0 <= i < maintained(todos, ops, ids).len() ==> !(#[trigger] maintained(
                todos,
                ops,
                ids,
            )[i]).completed,
{
    let before = crate::todo::applied_operations(todos, ops, ids, ops.len() as int);
    let after = maintained(todos, ops, ids);
    assert forall|i: int| 0 <= i < after.len() implies !(#[trigger] after[i]).completed by {
        before.lemma_filter_pred(|t: TodoModel| !t.completed, i);
    }
}

/// The session is idle exactly when no recording is active, and the
/// commands move it as the diagram says: a start that succeeds leads to
/// recording, a pause from recording to paused, a resume from paused to
/// recording, and a stop from anywhere to idle.
pub proof fn law_session_phases(m: SchedulerModel, id: String, workspace: bool)
    ensures
        (phase(m) == SessionPhase::Idle) <==> m.recording is None,
        !m.asr_running && workspace ==> phase(
            after_command(m, PipelineCommand::StartRecording { recording_id: id }, workspace),
        ) == SessionPhase::Recording,
        phase(m) == SessionPhase::Recording ==> phase(
            after_command(m, PipelineCommand::PauseRecording, workspace),
        ) == SessionPhase::Paused,
        phase(m) == SessionPhase::Paused ==> phase(
            after_command(m, PipelineCommand::ResumeRecording, workspace),
        ) == SessionPhase::Recording,
        phase(after_command(m, PipelineCommand::StopRecording, workspace))
            == SessionPhase::Idle,
{
}

/// A pause, a stop, a reset, the loading and the deletion of a recording
/// each cancel the turn that runs, before anything else, and leave no
/// handle held.
pub proof fn law_commands_cancel_turn(m: SchedulerModel, id: String, workspace: bool)
    requires
        m.processing,
    ensures
        command_directives(m, PipelineCommand::PauseRecording, workspace)[0]
            == DirectiveModel::CancelProcessing,
        command_directives(m, PipelineCommand::ResetDocument, workspace)[0]
            == DirectiveModel::CancelProcessing,
        command_directives(m, PipelineCommand::LoadRecording { recording_id: id }, workspace)[0]
            == DirectiveModel::CancelProcessing,
        command_directives(
            m,
            PipelineCommand::DeleteRecording { recording_id: id },
            workspace,
        )[0] == DirectiveModel::CancelProcessing,
        command_directives(m, PipelineCommand::StopRecording, workspace).contains(
            DirectiveModel::CancelProcessing,
        ),
        !after_command(m, PipelineCommand::PauseRecording, workspace).processing,
        !after_command(m, PipelineCommand::StopRecording, workspace).processing,
        !after_command(m, PipelineCommand::ResetDocument, workspace).processing,
        !after_command(
            m,
            PipelineCommand::LoadRecording { recording_id: id },
            workspace,
        ).processing,
        !after_command(
            m,
            PipelineCommand::DeleteRecording { recording_id: id },
            workspace,
        ).processing,
{
    let stop = command_directives(m, PipelineCommand::StopRecording, workspace);
    let k = (if m.recording is Some && workspace {
        1int
    } else {
        0int
    }) + (if m.asr_running {
        1int
    } else {
        0int
    });
    assert(stop[k] == DirectiveModel::CancelProcessing);
}

/// A turn whose text is blank fires nothing: no task is started, so the
/// document is not touched.
pub proof fn law_blank_turn_fires_nothing(m: SchedulerModel, now: u64)
    requires
        holdback_due(m, now),
        is_blank(turn_text(m)),
    ensures
        fired_turn(m, now) is None,
        timer_directives(m, now).len() == 0,
        after_timer(m, now).processing == m.processing,
{
}

/// One for an active task, nothing for a completed one.
pub open spec fn active_weight(t: TodoModel) -> nat {
    if t.completed {
        0
    } else {
        1
    }
}

proof fn lemma_active_upto_remove(todos: Seq<TodoModel>, i: int, n: int)
    requires
        0 <= i < todos.len(),
        0 <= n < todos.len(),
    ensures
        n <= i ==> active_upto(todos.remove(i), n) == active_upto(todos, n),
        n > i ==> active_upto(todos.remove(i), n) + active_weight(todos[i]) == active_upto(
            todos,
            n + 1,
        ),
    decreases n,
{
    if n > 0 {
        lemma_active_upto_remove(todos, i, n - 1);
        if n - 1 < i {
            assert(todos.remove(i)[n - 1] == todos[n - 1]);
        } else {
            assert(todos.remove(i)[n - 1] == todos[n]);
            assert(active_upto(todos, n + 1) == active_upto(todos, n) + active_weight(todos[n]));
            assert(active_upto(todos, n) == active_upto(todos, n - 1) + active_weight(
                todos[n - 1],
            ));
        }
    }
}

proof fn lemma_active_upto_update(todos: Seq<TodoModel>, i: int, x: TodoModel, n: int)
    requires
        0 <= i < todos.len(),
        0 <= n <= todos.len(),
    ensures
        n <= i ==> active_upto(todos.update(i, x), n) == active_upto(todos, n),
        n > i ==> active_upto(todos.update(i, x), n) + active_weight(todos[i]) == active_upto(
            todos,
            n,
        ) + active_weight(x),
    decreases n,
{
    if n > 0 {
        lemma_active_upto_update(todos, i, x, n - 1);
        if n - 1 != i {
            assert(todos.update(i, x)[n - 1] == todos[n - 1]);
        } else {
            assert(todos.update(i, x)[n - 1] == x);
        }
    }
}

/// Every active task that a maintenance deletes or completes lowers the
/// number of active tasks by one, and nothing but an added task raises it:
/// a list that holds more than ten active tasks is back within the limit
/// once the model has deleted as many as are too many.
pub proof fn law_operations_lower_active_count(todos: Seq<TodoModel>, i: int, desc: Seq<char>)
    requires
        0 <= i < todos.len(),
    ensures
        active_count(todos.remove(i)) + active_weight(todos[i]) == active_count(todos),
        active_count(todos.update(i, completed_todo(todos[i]))) + active_weight(todos[i])
            == active_count(todos),
        active_count(todos.update(i, TodoModel { desc, ..todos[i] })) == active_count(todos),
{
    lemma_active_upto_remove(todos, i, todos.len() - 1);
    assert(active_upto(todos, i + 1) == active_upto(todos, i) + active_weight(todos[i]));
    lemma_active_upto_update(todos, i, completed_todo(todos[i]), todos.len() as int);
    lemma_active_upto_update(todos, i, TodoModel { desc, ..todos[i] }, todos.len() as int);
}

/// Replacing a pattern by something that is no longer never lengthens a
/// text.
pub proof fn lemma_replace_not_longer(h: Seq<char>, pat: Seq<char>, to: Seq<char>)
    requires
        to.len() <= pat.len(),
    ensures
        replace_all(h, pat, to).len() <= h.len(),
    decreases h.len(),
{
    if pat.len() == 0 || h.len() < pat.len() {
    } else if occurs_at(h, pat, 0) {
        lemma_replace_not_longer(h.skip(pat.len() as int), pat, to);
    } else {
        lemma_replace_not_longer(h.drop_first(), pat, to);
    }
}

proof fn lemma_pieces_bounded(s: Seq<char>, start: int, i: int)
    requires
        0 <= start <= i <= s.len(),
    ensures
        split_inclusive_scan(s, start, i).len() <= s.len() - start,
    decreases s.len() - i,
{
    if i < s.len() {
        if s[i] == '\n' {
            lemma_pieces_bounded(s, i + 1, i + 1);
        } else {
            lemma_pieces_bounded(s, start, i + 1);
        }
    }
}

proof fn lemma_blocks_bounded(m: ParserModel, ls: Seq<Seq<char>>)
    ensures
        parse_lines(m, ls).len() <= ls.len(),
    decreases ls.len(),
{
    if ls.len() > 0 {
        lemma_blocks_bounded(parser_step(m, ls[0]).0, ls.drop_first());
    }
}

/// A text holds no more blocks than it has characters: a document whose
/// version is that far from the largest number can take every block of the
/// text.
pub proof fn law_block_count_bounded(text: Seq<char>)
    ensures
        parse_all_spec(text).len() <= text.len(),
{
    reveal_strlit("\r\n");
    reveal_strlit("\r");
    reveal_strlit("\n");
    let a = replace_all(text, "\r\n"@, "\n"@);
    lemma_replace_not_longer(text, "\r\n"@, "\n"@);
    lemma_replace_not_longer(a, "\r"@, "\n"@);
    let normal = normalize_newlines(text);
    lemma_pieces_bounded(normal, 0, 0);
    lemma_blocks_bounded(initial_parser(), split_inclusive(normal));
}

/// The version counts the changes: after any operations on the document,
/// the version has gone up by the number of those that took effect. So the
/// version never goes down, and a turn in which at least one step changed
/// the document ends with a higher version than it began with.
pub proof fn law_version_counts_changes(m: DocumentModel, ops: Seq<DocumentChange>)
    ensures
        changed_by(m, ops).version == m.version + effective(m, ops),
        changed_by(m, ops).version >= m.version,
        effective(m, ops) > 0 ==> changed_by(m, ops).version > m.version,
        effective(m, ops) == 0 ==> changed_by(m, ops) == m,
    decreases ops.len(),
{
    if ops.len() > 0 {
        law_version_counts_changes(m, ops.drop_last());
    }
}

/// The versions that the front end is told of never go down: of two moments
/// in a sequence of operations, the later one has the version of the
/// earlier one or a higher one.
pub proof fn law_versions_never_go_down(
    m: DocumentModel,
    ops: Seq<DocumentChange>,
    earlier: int,
    later: int,
)
    requires
        0 <= earlier <= later <= ops.len(),
    ensures
        changed_by(m, ops.take(earlier)).version <= changed_by(m, ops.take(later)).version,
        changed_by(m, ops.take(earlier)).version <= changed_by(m, ops).version,
{
    lemma_effective_prefix(m, ops, later);
    lemma_effective_prefix(m, ops, earlier);
    lemma_effective_prefix(m, ops.take(later), earlier);
    assert(ops.take(later).take(earlier) == ops.take(earlier));
    law_version_counts_changes(m, ops.take(earlier));
    law_version_counts_changes(m, ops.take(later));
    law_version_counts_changes(m, ops);
}

/// The first operations of a list take effect no more often than the whole
/// list does.
pub proof fn lemma_effective_prefix(m: DocumentModel, ops: Seq<DocumentChange>, n: int)
    requires
        0 <= n <= ops.len(),
    ensures
        effective(m, ops.take(n)) <= effective(m, ops),
    decreases ops.len(),
{
    if n == ops.len() {
        assert(ops.take(n) == ops);
    } else {
        assert(ops.drop_last().take(n) == ops.take(n));
        lemma_effective_prefix(m, ops.drop_last(), n);
    }
}

/// A commit under a hash that the log does not hold yet adds that hash to
/// the log, with the text that was committed, and leaves every commit that
/// was there as it was.
pub proof fn law_commit_adds_a_new_hash(
    log: Seq<CommitModel>,
    hash: Seq<char>,
    message: Seq<char>,
    content: Seq<char>,
)
    requires
        forall|i: int| 0 <= i < log.len() ==> (#[trigger] log[i]).hash != hash,
    ensures
        ({
            let after = log.push(CommitModel { hash, message, content });
            &&& after.len() == log.len() + 1
            &&& forall|i: int| 0 <= i < log.len() ==> #[trigger] after[i] == log[i]
            &&& restored(after, hash) == Some(content)
            &&& restored(log, hash) is None
        }),
{
    let after = log.push(CommitModel { hash, message, content });
    lemma_resolve_upto(log, hash, log.len() as int);
    lemma_resolve_upto(after, hash, after.len() as int);
}

/// A rollback to any commit, followed by a rollback to the commit that was
/// the head before the first, leaves the document with the text that the
/// log holds for that head: the text of before the first rollback, read
/// from the history.
pub proof fn law_rollback_round_trip(log: Seq<CommitModel>, m: DocumentModel, name: Seq<char>)
    requires
        log.len() > 0,
        restored(log, name) is Some,
    ensures
        restored(log, log.last().hash) == Some(log.last().content),
        changed(
            changed(m, DocumentChange::Reset(restored(log, name)->0)),
            DocumentChange::Reset(restored(log, log.last().hash)->0),
        ).content == log.last().content,
{
    lemma_head_resolves(log);
}

/// The chat history never holds more than six messages: whatever it held,
/// after an exchange is recorded it holds at most six, and the last two are
/// what the user said and what the assistant answered.
pub proof fn law_chat_history_bounded(
    history: Seq<(Seq<char>, Seq<char>)>,
    user: Seq<char>,
    assistant: Seq<char>,
)
    ensures
        2 <= recorded(history, user, assistant).len() <= MAX_HISTORY,
        recorded(history, user, assistant).last() == assistant_message(assistant),
        recorded(history, user, assistant)[recorded(history, user, assistant).len() - 2]
            == user_message(user),
{
}

/// An undo goes to the commit just before the head: where that commit and
/// the head have different hashes, the log gives the text of that commit,
/// as it was committed, and the document that takes it has its version
/// raised by one.
pub proof fn law_undo_restores_previous(log: Seq<CommitModel>, m: DocumentModel)
    requires
        log.len() >= 2,
        log[log.len() - 2].hash != log.last().hash,
    ensures
        restored(log, log[log.len() - 2].hash) == Some(log[log.len() - 2].content),
        changed(m, DocumentChange::Reset(log[log.len() - 2].content)) == (DocumentModel {
            content: log[log.len() - 2].content,
            version: m.version + 1,
        }),
{
    let n = log.len() as int;
    lemma_resolve_upto(log, log[n - 2].hash, n);
    reveal_with_fuel(crate::history::resolve_upto, 3);
}

} // verus!
