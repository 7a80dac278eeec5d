//! The pipeline scheduler: one loop that takes the commands of the user,
//! the fragments of recognised speech and the ticks of the timer, and says
//! what is to be done next. It holds at most one handle of a running turn.

use crate::events::ToastPayload;
use crate::speech::{push_spec, SpeechAggregator, FLUSH_TIMEOUT_MS};
use crate::text::{is_blank, is_blank_str, trim, views};
use vstd::prelude::*;

verus! {

/// How long the scheduler waits after a fragment for the next one, in
/// milliseconds, before the turn fires.
pub const HOLDBACK_MS: u64 = 450;

/// What the user, through the front end, asks of the pipeline.
#[derive(Debug)]
pub enum PipelineCommand {
    StartRecording { recording_id: String },
    PauseRecording,
    ResumeRecording,
    StopRecording,
    ResetDocument,
    UpdateDocument(String),
    IngestDocument { filename: String, content: String },
    RollbackToCommit(String),
    UndoLastChange,
    LoadRecording { recording_id: String },
    DeleteRecording { recording_id: String },
    AddTodo(String),
    UpdateTodo { id: String, description: String },
    ToggleTodo(String),
    DeleteTodo(String),
}

/// Where the recording session stands.
#[derive(Debug, Clone, Copy, PartialEq, Eq, Structural)]
pub enum SessionPhase {
    Idle,
    Recording,
    Paused,
}

/// One thing that the loop around the scheduler is to do. The loop does them
/// in the order in which they are given.
#[derive(Debug)]
pub enum Directive {
    /// Cancel the turn that is running.
    CancelProcessing,
    /// Stop the speech recogniser.
    CancelAsr,
    /// Start the speech recogniser.
    StartAsr,
    /// Empty the chat history.
    ClearChatHistory,
    /// Make the recording the active one in the state store.
    ActivateRecording { recording_id: String },
    /// Note in the state store that no recording is active.
    DeactivateRecording,
    /// Read the document of the recording from disk and, if it is there,
    /// take it as the document.
    LoadDocumentIfPresent { recording_id: String },
    /// Read the document of the recording from disk and take it as the
    /// document; take an empty document where there is none.
    LoadDocument { recording_id: String },
    /// Open the retrieval tables of the recording.
    InitRetrieval { recording_id: String },
    /// Drop the retrieval tables of the recording.
    DeleteRetrieval { recording_id: String },
    /// Make the directory of the recording and its version history.
    PrepareHistory { recording_id: String },
    /// Write the document to the file of the recording.
    SaveDocument { recording_id: String },
    /// Write the state store to disk.
    PersistState,
    /// Reset the document.
    ResetDocument,
    /// Forget what is kept of the recording: its retrieval tables and its
    /// stored state, and, where `files` is set, its file and its version
    /// history.
    ClearRecordingData { recording_id: String, files: bool },
    /// Empty the document without telling the front end.
    ClearDocument,
    /// Take an edit made by hand, and save and commit it for the recording
    /// named, if one is.
    ApplyManualEdit { content: String, recording_id: Option<String> },
    /// Put a document into the retrieval store of the recording.
    Ingest { recording_id: String, filename: String, content: String },
    /// Roll the document back to a commit.
    Rollback { recording_id: String, hash: String },
    /// Roll the document back to the commit before the head.
    UndoLast { recording_id: String },
    AddTodo { desc: String },
    UpdateTodo { id: String, desc: String },
    ToggleTodo { id: String },
    DeleteTodo { id: String },
    /// Tell the front end that a recording was loaded.
    EmitRecordingStarted { recording_id: String },
    /// Show a notice.
    Toast(ToastPayload),
    /// Start the task of a turn, under a new handle.
    SpawnTurn { text: String, recording_id: Option<String> },
}

/// A notice as plain values.
pub struct ToastModel {
    pub message: Seq<char>,
    pub toast_type: Seq<char>,
    pub duration: Option<u32>,
}

/// A directive as plain values.
pub enum DirectiveModel {
    CancelProcessing,
    CancelAsr,
    StartAsr,
    ClearChatHistory,
    ActivateRecording { recording_id: Seq<char> },
    DeactivateRecording,
    LoadDocumentIfPresent { recording_id: Seq<char> },
    LoadDocument { recording_id: Seq<char> },
    InitRetrieval { recording_id: Seq<char> },
    DeleteRetrieval { recording_id: Seq<char> },
    PrepareHistory { recording_id: Seq<char> },
    SaveDocument { recording_id: Seq<char> },
    PersistState,
    ResetDocument,
    ClearRecordingData { recording_id: Seq<char>, files: bool },
    ClearDocument,
    ApplyManualEdit { content: Seq<char>, recording_id: Option<Seq<char>> },
    Ingest { recording_id: Seq<char>, filename: Seq<char>, content: Seq<char> },
    Rollback { recording_id: Seq<char>, hash: Seq<char> },
    UndoLast { recording_id: Seq<char> },
    AddTodo { desc: Seq<char> },
    UpdateTodo { id: Seq<char>, desc: Seq<char> },
    ToggleTodo { id: Seq<char> },
    DeleteTodo { id: Seq<char> },
    EmitRecordingStarted { recording_id: Seq<char> },
    Toast(ToastModel),
    SpawnTurn { text: Seq<char>, recording_id: Option<Seq<char>> },
}

pub open spec fn id_view(o: Option<String>) -> Option<Seq<char>> {
    match o {
        Some(s) => Some(s@),
        None => None,
    }
}

impl View for Directive {
    type V = DirectiveModel;

    open spec fn view(&self) -> DirectiveModel {
        match self {
            Directive::CancelProcessing => DirectiveModel::CancelProcessing,
            Directive::CancelAsr => DirectiveModel::CancelAsr,
            Directive::StartAsr => DirectiveModel::StartAsr,
            Directive::ClearChatHistory => DirectiveModel::ClearChatHistory,
            Directive::ActivateRecording { recording_id } => DirectiveModel::ActivateRecording {
                recording_id: recording_id@,
            },
            Directive::DeactivateRecording => DirectiveModel::DeactivateRecording,
            Directive::LoadDocumentIfPresent {
                recording_id,
            } => DirectiveModel::LoadDocumentIfPresent { recording_id: recording_id@ },
            Directive::LoadDocument { recording_id } => DirectiveModel::LoadDocument {
                recording_id: recording_id@,
            },
            Directive::InitRetrieval { recording_id } => DirectiveModel::InitRetrieval {
                recording_id: recording_id@,
            },
            Directive::DeleteRetrieval { recording_id } => DirectiveModel::DeleteRetrieval {
                recording_id: recording_id@,
            },
            Directive::PrepareHistory { recording_id } => DirectiveModel::PrepareHistory {
                recording_id: recording_id@,
            },
            Directive::SaveDocument { recording_id } => DirectiveModel::SaveDocument {
                recording_id: recording_id@,
            },
            Directive::PersistState => DirectiveModel::PersistState,
            Directive::ResetDocument => DirectiveModel::ResetDocument,
            Directive::ClearRecordingData {
                recording_id,
                files,
            } => DirectiveModel::ClearRecordingData { recording_id: recording_id@, files: *files },
            Directive::ClearDocument => DirectiveModel::ClearDocument,
            Directive::ApplyManualEdit {
                content,
                recording_id,
            } => DirectiveModel::ApplyManualEdit {
                content: content@,
                recording_id: id_view(*recording_id),
            },
            Directive::Ingest { recording_id, filename, content } => DirectiveModel::Ingest {
                recording_id: recording_id@,
                filename: filename@,
                content: content@,
            },
            Directive::Rollback { recording_id, hash } => DirectiveModel::Rollback {
                recording_id: recording_id@,
                hash: hash@,
            },
            Directive::UndoLast { recording_id } => DirectiveModel::UndoLast {
                recording_id: recording_id@,
            },
            Directive::AddTodo { desc } => DirectiveModel::AddTodo { desc: desc@ },
            Directive::UpdateTodo { id, desc } => DirectiveModel::UpdateTodo {
                id: id@,
                desc: desc@,
            },
            Directive::ToggleTodo { id } => DirectiveModel::ToggleTodo { id: id@ },
            Directive::DeleteTodo { id } => DirectiveModel::DeleteTodo { id: id@ },
            Directive::EmitRecordingStarted {
                recording_id,
            } => DirectiveModel::EmitRecordingStarted { recording_id: recording_id@ },
            Directive::Toast(t) => DirectiveModel::Toast(
                ToastModel { message: t.message@, toast_type: t.toast_type@, duration: t.duration },
            ),
            Directive::SpawnTurn { text, recording_id } => DirectiveModel::SpawnTurn {
                text: text@,
                recording_id: id_view(*recording_id),
            },
        }
    }
}

pub open spec fn directive_views(ds: Seq<Directive>) -> Seq<DirectiveModel> {
    Seq::new(ds.len(), |i: int| ds[i]@)
}

pub proof fn lemma_directive_views_push(ds: Seq<Directive>, d: Directive)
    ensures
        directive_views(ds.push(d)) == directive_views(ds).push(d@),
{
    assert(directive_views(ds.push(d)) =~= directive_views(ds).push(d@));
}

/// What the scheduler holds.
pub struct SchedulerModel {
    /// The speech recogniser runs.
    pub asr_running: bool,
    /// The handle of a turn is held.
    pub processing: bool,
    pub paused: bool,
    /// The recording that is active.
    pub recording: Option<Seq<char>>,
    pub flush_deadline: Option<u64>,
    pub holdback_deadline: Option<u64>,
    /// The fragments that wait for the holdback to fire.
    pub pending: Seq<char>,
    /// What the slow aggregator holds.
    pub buffer: Seq<char>,
}

/// The scheduler of the pipeline.
pub struct Scheduler {
    asr_running: bool,
    processing: bool,
    is_paused: bool,
    current_recording_id: Option<String>,
    flush_deadline: Option<u64>,
    holdback_deadline: Option<u64>,
    pending_transcript: String,
    speech_agg: SpeechAggregator,
}

impl View for Scheduler {
    type V = SchedulerModel;

    closed spec fn view(&self) -> SchedulerModel {
        SchedulerModel {
            asr_running: self.asr_running,
            processing: self.processing,
            paused: self.is_paused,
            recording: id_view(self.current_recording_id),
            flush_deadline: self.flush_deadline,
            holdback_deadline: self.holdback_deadline,
            pending: self.pending_transcript@,
            buffer: self.speech_agg.buf@,
        }
    }
}

/// The phase of the session: idle without an active recording; with one,
/// paused or recording.
pub open spec fn phase(m: SchedulerModel) -> SessionPhase {
    if m.recording is None {
        SessionPhase::Idle
    } else if m.paused {
        SessionPhase::Paused
    } else {
        SessionPhase::Recording
    }
}

pub open spec fn initial_scheduler() -> SchedulerModel {
    SchedulerModel {
        asr_running: false,
        processing: false,
        paused: false,
        recording: None,
        flush_deadline: None,
        holdback_deadline: None,
        pending: Seq::empty(),
        buffer: Seq::empty(),
    }
}

pub open spec fn toast_model(message: Seq<char>, kind: Seq<char>, duration: u32) -> DirectiveModel {
    DirectiveModel::Toast(ToastModel { message, toast_type: kind, duration: Some(duration) })
}

/// The cancellation of the turn that runs, if one does.
pub open spec fn cancel_turn(m: SchedulerModel) -> Seq<DirectiveModel> {
    if m.processing {
        seq![DirectiveModel::CancelProcessing]
    } else {
        seq![]
    }
}

/// The scheduler after a command.
pub open spec fn after_command(m: SchedulerModel, cmd: PipelineCommand, workspace: bool) -> SchedulerModel {
    match cmd {
        PipelineCommand::StartRecording { recording_id } => if !m.asr_running && workspace {
            SchedulerModel {
                asr_running: true,
                processing: false,
                paused: false,
                recording: Some(recording_id@),
                flush_deadline: None,
                ..m
            }
        } else {
            SchedulerModel { paused: false, flush_deadline: None, ..m }
        },
        PipelineCommand::PauseRecording => SchedulerModel {
            paused: true,
            processing: false,
            flush_deadline: None,
            ..m
        },
        PipelineCommand::ResumeRecording => SchedulerModel { paused: false, ..m },
        PipelineCommand::StopRecording => SchedulerModel {
            asr_running: false,
            processing: false,
            paused: false,
            recording: None,
            flush_deadline: None,
            ..m
        },
        PipelineCommand::ResetDocument => SchedulerModel {
            processing: false,
            flush_deadline: None,
            ..m
        },
        PipelineCommand::LoadRecording { recording_id } => SchedulerModel {
            processing: false,
            paused: false,
            recording: Some(recording_id@),
            flush_deadline: None,
            ..m
        },
        PipelineCommand::DeleteRecording { recording_id } => SchedulerModel {
            processing: false,
            recording: if m.recording == Some(recording_id@) {
                None
            } else {
                m.recording
            },
            ..m
        },
        _ => m,
    }
}

/// What a command asks the loop to do, in order.
pub open spec fn command_directives(
    m: SchedulerModel,
    cmd: PipelineCommand,
    workspace: bool,
) -> Seq<DirectiveModel> {
    match cmd {
        PipelineCommand::StartRecording { recording_id } => if m.asr_running {
            seq![]
        } else if workspace {
            cancel_turn(m) + seq![
                DirectiveModel::ClearChatHistory,
                DirectiveModel::LoadDocumentIfPresent { recording_id: recording_id@ },
                DirectiveModel::ActivateRecording { recording_id: recording_id@ },
                DirectiveModel::InitRetrieval { recording_id: recording_id@ },
                DirectiveModel::PrepareHistory { recording_id: recording_id@ },
                DirectiveModel::StartAsr,
            ]
        } else {
            seq![
                toast_model("Cannot start recording: No active workspace found"@, "error"@, 5000),
            ]
        },
        PipelineCommand::PauseRecording => cancel_turn(m),
        PipelineCommand::ResumeRecording => seq![],
        PipelineCommand::StopRecording => (if m.recording is Some && workspace {
            seq![DirectiveModel::SaveDocument { recording_id: m.recording->0 }]
        } else {
            seq![]
        }) + (if m.asr_running {
            seq![DirectiveModel::CancelAsr]
        } else {
            seq![]
        }) + cancel_turn(m) + seq![
            DirectiveModel::PersistState,
            DirectiveModel::DeactivateRecording,
        ],
        PipelineCommand::ResetDocument => cancel_turn(m) + seq![DirectiveModel::ResetDocument] + (
        if m.recording is Some {
            seq![
                DirectiveModel::ClearRecordingData {
                    recording_id: m.recording->0,
                    files: workspace,
                },
                toast_model("Document and memory cleared"@, "success"@, 3000),
            ]
        } else {
            seq![]
        }),
        PipelineCommand::UpdateDocument(content) => seq![
            DirectiveModel::ApplyManualEdit {
                content: content@,
                recording_id: if workspace {
                    m.recording
                } else {
                    None
                },
            },
        ],
        PipelineCommand::IngestDocument { filename, content } => if m.recording is Some {
            seq![
                DirectiveModel::Ingest {
                    recording_id: m.recording->0,
                    filename: filename@,
                    content: content@,
                },
            ]
        } else {
            seq![
                toast_model(
                    "Cannot ingest document: No active recording session"@,
                    "warning"@,
                    4000,
                ),
            ]
        },
        PipelineCommand::RollbackToCommit(hash) => if m.recording is Some && workspace {
            seq![DirectiveModel::Rollback { recording_id: m.recording->0, hash: hash@ }]
        } else {
            seq![]
        },
        PipelineCommand::UndoLastChange => if m.recording is Some && workspace {
            seq![DirectiveModel::UndoLast { recording_id: m.recording->0 }]
        } else {
            seq![]
        },
        PipelineCommand::LoadRecording { recording_id } => cancel_turn(m) + seq![
            DirectiveModel::ClearChatHistory,
            DirectiveModel::ActivateRecording { recording_id: recording_id@ },
            DirectiveModel::LoadDocument { recording_id: recording_id@ },
            DirectiveModel::EmitRecordingStarted { recording_id: recording_id@ },
            DirectiveModel::InitRetrieval { recording_id: recording_id@ },
        ],
        PipelineCommand::DeleteRecording { recording_id } => cancel_turn(m) + seq![
            DirectiveModel::DeleteRetrieval { recording_id: recording_id@ },
        ] + (if m.recording == Some(recording_id@) {
            seq![DirectiveModel::ClearDocument]
        } else {
            seq![]
        }),
        PipelineCommand::AddTodo(desc) => if m.recording is Some {
            seq![DirectiveModel::AddTodo { desc: desc@ }]
        } else {
            seq![toast_model("No active recording to add todo to"@, "warning"@, 4000)]
        },
        PipelineCommand::UpdateTodo { id, description } => seq![
            DirectiveModel::UpdateTodo { id: id@, desc: description@ },
        ],
        PipelineCommand::ToggleTodo(id) => seq![DirectiveModel::ToggleTodo { id: id@ }],
        PipelineCommand::DeleteTodo(id) => seq![DirectiveModel::DeleteTodo { id: id@ }],
    }
}

/// Whether a fragment of speech is taken: only while the recogniser runs and
/// the session is not paused.
pub open spec fn admits(m: SchedulerModel) -> bool {
    m.asr_running && !m.paused
}

/// The scheduler after a fragment of speech that came at `now`.
pub open spec fn after_fragment(m: SchedulerModel, fragment: Seq<char>, now: u64) -> SchedulerModel {
    if admits(m) {
        SchedulerModel {
            pending: m.pending + fragment,
            holdback_deadline: Some((now + HOLDBACK_MS) as u64),
            ..m
        }
    } else {
        m
    }
}

/// `a` and `b` with a space between them, or the one that is not empty.
pub open spec fn spaced(a: Seq<char>, b: Seq<char>) -> Seq<char> {
    if b.len() == 0 {
        a
    } else if a.len() == 0 {
        b
    } else {
        a.push(' ') + b
    }
}

/// The text of the turn that fires when the holdback is over: what the slow
/// buffer holds, trimmed, and the fragments that wait.
pub open spec fn turn_text(m: SchedulerModel) -> Seq<char> {
    spaced(trim(m.buffer), m.pending)
}

pub open spec fn holdback_due(m: SchedulerModel, now: u64) -> bool {
    m.holdback_deadline is Some && now >= m.holdback_deadline->0
}

pub open spec fn flush_due(m: SchedulerModel, now: u64) -> bool {
    m.flush_deadline is Some && now >= m.flush_deadline->0
}

/// The scheduler after a tick of the timer at `now`.
pub open spec fn after_timer(m: SchedulerModel, now: u64) -> SchedulerModel {
    if holdback_due(m, now) {
        if is_blank(turn_text(m)) {
            SchedulerModel {
                holdback_deadline: None,
                pending: Seq::empty(),
                buffer: Seq::empty(),
                ..m
            }
        } else {
            SchedulerModel {
                holdback_deadline: None,
                flush_deadline: None,
                pending: Seq::empty(),
                buffer: Seq::empty(),
                processing: true,
                ..m
            }
        }
    } else if flush_due(m, now) {
        SchedulerModel {
            flush_deadline: None,
            buffer: Seq::empty(),
            processing: m.processing || !is_blank(m.buffer),
            ..m
        }
    } else {
        m
    }
}

/// The turn that a tick of the timer fires, if it fires one: the text that
/// has gathered. A text that is blank fires nothing.
pub open spec fn fired_turn(m: SchedulerModel, now: u64) -> Option<Seq<char>> {
    if holdback_due(m, now) {
        if is_blank(turn_text(m)) {
            None
        } else {
            Some(turn_text(m))
        }
    } else if flush_due(m, now) {
        if is_blank(m.buffer) {
            None
        } else {
            Some(trim(m.buffer))
        }
    } else {
        None
    }
}

/// What a tick of the timer asks the loop to do: where a turn fires, the
/// turn that runs is cancelled and the new one is started.
pub open spec fn timer_directives(m: SchedulerModel, now: u64) -> Seq<DirectiveModel> {
    match fired_turn(m, now) {
        Some(text) => cancel_turn(m) + seq![
            DirectiveModel::SpawnTurn { text, recording_id: m.recording },
        ],
        None => seq![],
    }
}

/// The deadline that the loop sleeps until: the earlier of the two, or none.
pub open spec fn next_deadline_of(m: SchedulerModel) -> Option<u64> {
    match (m.flush_deadline, m.holdback_deadline) {
        (Some(f), Some(h)) => Some(
            if f <= h {
                f
            } else {
                h
            },
        ),
        (Some(f), None) => Some(f),
        (None, h) => h,
    }
}

fn copy_id(id: &Option<String>) -> (r: Option<String>)
    ensures
        id_view(r) == id_view(*id),
{
    match id {
        Some(s) => Some(s.clone()),
        None => None,
    }
}

fn toast(d: ToastPayload) -> (r: Directive)
    ensures
        r@ == DirectiveModel::Toast(
            ToastModel { message: d.message@, toast_type: d.toast_type@, duration: d.duration },
        ),
{
    Directive::Toast(d)
}

impl Scheduler {
    pub fn new() -> (s: Self)
        ensures
            s@ == initial_scheduler(),
            phase(s@) == SessionPhase::Idle,
    {
        let s = Scheduler {
            asr_running: false,
            processing: false,
            is_paused: false,
            current_recording_id: None,
            flush_deadline: None,
            holdback_deadline: None,
            pending_transcript: String::new(),
            speech_agg: SpeechAggregator::new(),
        };
        assert(s@.buffer =~= Seq::<char>::empty());
        s
    }

    /// The phase of the session.
    pub fn session_phase(&self) -> (p: SessionPhase)
        ensures
            p == phase(self@),
    {
        if self.current_recording_id.is_none() {
            SessionPhase::Idle
        } else if self.is_paused {
            SessionPhase::Paused
        } else {
            SessionPhase::Recording
        }
    }

    /// The recording that is active.
    pub fn active_recording(&self) -> (r: Option<String>)
        ensures
            id_view(r) == self@.recording,
            r is Some <==> phase(self@) != SessionPhase::Idle,
    {
        copy_id(&self.current_recording_id)
    }

    /// Whether the handle of a turn is held.
    pub fn is_processing(&self) -> (b: bool)
        ensures
            b == self@.processing,
    {
        self.processing
    }

    /// The time that the loop sleeps until, if a deadline is set.
    pub fn next_deadline(&self) -> (d: Option<u64>)
        ensures
            d == next_deadline_of(self@),
    {
        match (self.flush_deadline, self.holdback_deadline) {
            (Some(f), Some(h)) => Some(
                if f <= h {
                    f
                } else {
                    h
                },
            ),
            (Some(f), None) => Some(f),
            (None, h) => h,
        }
    }

    fn push_cancel(&mut self, out: &mut Vec<Directive>)
        ensures
            directive_views(final(out)@) == directive_views(old(out)@) + cancel_turn(old(self)@),
            final(self)@ == (SchedulerModel { processing: false, ..old(self)@ }),
    {
        if self.processing {
            proof {
                lemma_directive_views_push(out@, Directive::CancelProcessing);
            }
            out.push(Directive::CancelProcessing);
            self.processing = false;
        } else {
            assert(directive_views(out@) + Seq::<DirectiveModel>::empty() == directive_views(
                out@,
            ));
        }
    }

    /// Takes a command. `workspace` says whether a workspace is active, so
    /// that the files of a recording can be reached. Returns what the loop
    /// is to do, in order.
    ///
    /// A pause, a stop, a reset and every change or deletion of the
    /// recording cancel the turn that runs before anything else is done.
    pub fn on_command(&mut self, cmd: PipelineCommand, workspace: bool) -> (r: Vec<Directive>)
        ensures
            final(self)@ == after_command(old(self)@, cmd, workspace),
            directive_views(r@) == command_directives(old(self)@, cmd, workspace),
    {
        let mut out: Vec<Directive> = Vec::new();
        let ghost m = self@;
        assert(directive_views(out@) =~= Seq::<DirectiveModel>::empty());
        match cmd {
            PipelineCommand::StartRecording { recording_id } => {
                self.flush_deadline = None;
                self.is_paused = false;
                if !self.asr_running {
                    if workspace {
                        self.push_cancel(&mut out);
                        let ghost head = directive_views(out@);
                        out.push(Directive::ClearChatHistory);
                        out.push(
                            Directive::LoadDocumentIfPresent { recording_id: recording_id.clone() },
                        );
                        out.push(
                            Directive::ActivateRecording { recording_id: recording_id.clone() },
                        );
                        out.push(Directive::InitRetrieval { recording_id: recording_id.clone() });
                        out.push(Directive::PrepareHistory { recording_id: recording_id.clone() });
                        out.push(Directive::StartAsr);
                        self.current_recording_id = Some(recording_id);
                        self.asr_running = true;
                        assert(directive_views(out@) =~= head + seq![
                            DirectiveModel::ClearChatHistory,
                            DirectiveModel::LoadDocumentIfPresent { recording_id: recording_id@ },
                            DirectiveModel::ActivateRecording { recording_id: recording_id@ },
                            DirectiveModel::InitRetrieval { recording_id: recording_id@ },
                            DirectiveModel::PrepareHistory { recording_id: recording_id@ },
                            DirectiveModel::StartAsr,
                        ]);
                    } else {
                        out.push(
                            toast(
                                ToastPayload::error(
                                    "Cannot start recording: No active workspace found".to_string(),
                                ),
                            ),
                        );
                        assert(directive_views(out@) =~= seq![
                            toast_model(
                                "Cannot start recording: No active workspace found"@,
                                "error"@,
                                5000,
                            ),
                        ]);
                    }
                }
            },
            PipelineCommand::PauseRecording => {
                self.is_paused = true;
                self.push_cancel(&mut out);
                self.flush_deadline = None;
            },
            PipelineCommand::ResumeRecording => {
                self.is_paused = false;
            },
            PipelineCommand::StopRecording => {
                if workspace {
                    match &self.current_recording_id {
                        Some(id) => {
                            out.push(Directive::SaveDocument { recording_id: id.clone() });
                        },
                        None => {},
                    }
                }
                let ghost first = directive_views(out@);
                assert(first =~= (if m.recording is Some && workspace {
                    seq![DirectiveModel::SaveDocument { recording_id: m.recording->0 }]
                } else {
                    seq![]
                }));
                if self.asr_running {
                    proof {
                        lemma_directive_views_push(out@, Directive::CancelAsr);
                    }
                    out.push(Directive::CancelAsr);
                    self.asr_running = false;
                } else {
                    assert(first + Seq::<DirectiveModel>::empty() == first);
                }
                self.push_cancel(&mut out);
                let ghost head = directive_views(out@);
                out.push(Directive::PersistState);
                out.push(Directive::DeactivateRecording);
                assert(directive_views(out@) =~= head + seq![
                    DirectiveModel::PersistState,
                    DirectiveModel::DeactivateRecording,
                ]);
                self.flush_deadline = None;
                self.is_paused = false;
                self.current_recording_id = None;
            },
            PipelineCommand::ResetDocument => {
                self.flush_deadline = None;
                self.push_cancel(&mut out);
                let ghost head = directive_views(out@);
                out.push(Directive::ResetDocument);
                assert(directive_views(out@) =~= head + seq![DirectiveModel::ResetDocument]);
                let ghost head2 = directive_views(out@);
                match &self.current_recording_id {
                    Some(id) => {
                        out.push(
                            Directive::ClearRecordingData {
                                recording_id: id.clone(),
                                files: workspace,
                            },
                        );
                        out.push(
                            toast(
                                ToastPayload::success("Document and memory cleared".to_string()),
                            ),
                        );
                        assert(directive_views(out@) =~= head2 + seq![
                            DirectiveModel::ClearRecordingData {
                                recording_id: m.recording->0,
                                files: workspace,
                            },
                            toast_model("Document and memory cleared"@, "success"@, 3000),
                        ]);
                    },
                    None => {
                        assert(head2 + Seq::<DirectiveModel>::empty() == head2);
                    },
                }
            },
            PipelineCommand::UpdateDocument(content) => {
                let target = if workspace {
                    copy_id(&self.current_recording_id)
                } else {
                    None
                };
                out.push(Directive::ApplyManualEdit { content, recording_id: target });
                assert(directive_views(out@) =~= seq![
                    DirectiveModel::ApplyManualEdit {
                        content: content@,
                        recording_id: if workspace {
                            m.recording
                        } else {
                            None
                        },
                    },
                ]);
            },
            PipelineCommand::IngestDocument { filename, content } => {
                match &self.current_recording_id {
                    Some(id) => {
                        out.push(Directive::Ingest { recording_id: id.clone(), filename, content });
                        assert(directive_views(out@) =~= seq![
                            DirectiveModel::Ingest {
                                recording_id: m.recording->0,
                                filename: filename@,
                                content: content@,
                            },
                        ]);
                    },
                    None => {
                        out.push(
                            toast(
                                ToastPayload::warning(
                                    "Cannot ingest document: No active recording session".to_string(),
                                ),
                            ),
                        );
                        assert(directive_views(out@) =~= seq![
                            toast_model(
                                "Cannot ingest document: No active recording session"@,
                                "warning"@,
                                4000,
                            ),
                        ]);
                    },
                }
            },
            PipelineCommand::RollbackToCommit(hash) => {
                if workspace {
                    match &self.current_recording_id {
                        Some(id) => {
                            out.push(Directive::Rollback { recording_id: id.clone(), hash });
                            assert(directive_views(out@) =~= seq![
                                DirectiveModel::Rollback {
                                    recording_id: m.recording->0,
                                    hash: hash@,
                                },
                            ]);
                        },
                        None => {},
                    }
                }
            },
            PipelineCommand::UndoLastChange => {
                if workspace {
                    match &self.current_recording_id {
                        Some(id) => {
                            out.push(Directive::UndoLast { recording_id: id.clone() });
                            assert(directive_views(out@) =~= seq![
                                DirectiveModel::UndoLast { recording_id: m.recording->0 },
                            ]);
                        },
                        None => {},
                    }
                }
            },
            PipelineCommand::LoadRecording { recording_id } => {
                self.flush_deadline = None;
                self.is_paused = false;
                self.push_cancel(&mut out);
                let ghost head = directive_views(out@);
                out.push(Directive::ClearChatHistory);
                out.push(Directive::ActivateRecording { recording_id: recording_id.clone() });
                out.push(Directive::LoadDocument { recording_id: recording_id.clone() });
                out.push(Directive::EmitRecordingStarted { recording_id: recording_id.clone() });
                out.push(Directive::InitRetrieval { recording_id: recording_id.clone() });
                self.current_recording_id = Some(recording_id);
                assert(directive_views(out@) =~= head + seq![
                    DirectiveModel::ClearChatHistory,
                    DirectiveModel::ActivateRecording { recording_id: recording_id@ },
                    DirectiveModel::LoadDocument { recording_id: recording_id@ },
                    DirectiveModel::EmitRecordingStarted { recording_id: recording_id@ },
                    DirectiveModel::InitRetrieval { recording_id: recording_id@ },
                ]);
            },
            PipelineCommand::DeleteRecording { recording_id } => {
                self.push_cancel(&mut out);
                let ghost head = directive_views(out@);
                out.push(Directive::DeleteRetrieval { recording_id: recording_id.clone() });
                assert(directive_views(out@) =~= head + seq![
                    DirectiveModel::DeleteRetrieval { recording_id: recording_id@ },
                ]);
                let ghost head2 = directive_views(out@);
                let is_current = match &self.current_recording_id {
                    Some(id) => crate::text::str_eq(id.as_str(), recording_id.as_str()),
                    None => false,
                };
                if is_current {
                    proof {
                        lemma_directive_views_push(out@, Directive::ClearDocument);
                    }
                    out.push(Directive::ClearDocument);
                    self.current_recording_id = None;
                } else {
                    assert(head2 + Seq::<DirectiveModel>::empty() == head2);
                }
            },
            PipelineCommand::AddTodo(desc) => {
                if self.current_recording_id.is_some() {
                    out.push(Directive::AddTodo { desc });
                    assert(directive_views(out@) =~= seq![DirectiveModel::AddTodo { desc: desc@ }]);
                } else {
                    out.push(
                        toast(
                            ToastPayload::warning(
                                "No active recording to add todo to".to_string(),
                            ),
                        ),
                    );
                    assert(directive_views(out@) =~= seq![
                        toast_model("No active recording to add todo to"@, "warning"@, 4000),
                    ]);
                }
            },
            PipelineCommand::UpdateTodo { id, description } => {
                out.push(Directive::UpdateTodo { id, desc: description });
                assert(directive_views(out@) =~= seq![
                    DirectiveModel::UpdateTodo { id: id@, desc: description@ },
                ]);
            },
            PipelineCommand::ToggleTodo(id) => {
                out.push(Directive::ToggleTodo { id });
                assert(directive_views(out@) =~= seq![DirectiveModel::ToggleTodo { id: id@ }]);
            },
            PipelineCommand::DeleteTodo(id) => {
                out.push(Directive::DeleteTodo { id });
                assert(directive_views(out@) =~= seq![DirectiveModel::DeleteTodo { id: id@ }]);
            },
        }
        out
    }

    /// Takes a fragment of recognised speech that came at the time `now`, in
    /// milliseconds. A fragment that is taken is added to those that wait,
    /// and the holdback starts anew. Returns whether it was taken.
    pub fn on_fragment(&mut self, fragment: &str, now: u64) -> (taken: bool)
        requires
            now <= u64::MAX - HOLDBACK_MS,
        ensures
            taken == admits(old(self)@),
            final(self)@ == after_fragment(old(self)@, fragment@, now),
    {
        if self.asr_running && !self.is_paused {
            self.pending_transcript.append(fragment);
            self.holdback_deadline = Some(now + HOLDBACK_MS);
            true
        } else {
            false
        }
    }

    /// Takes a fragment of less than a phrase into the slow buffer, at the
    /// time `now`. The turn texts that the buffer hands out join those that
    /// wait for the holdback; what stays in the buffer is flushed when two
    /// seconds have passed.
    pub fn on_partial(&mut self, fragment: &str, now: u64) -> (taken: bool)
        requires
            now <= u64::MAX - FLUSH_TIMEOUT_MS,
        ensures
            taken == admits(old(self)@),
            !taken ==> final(self)@ == old(self)@,
            taken ==> final(self)@.buffer == push_spec(old(self)@.buffer, fragment@).0,
            taken ==> final(self)@.flush_deadline == (if final(self)@.buffer.len() > 0 {
                Some((now + FLUSH_TIMEOUT_MS) as u64)
            } else {
                None::<u64>
            }),
            taken ==> final(self)@.holdback_deadline == (if push_spec(
                old(self)@.buffer,
                fragment@,
            ).1.len() > 0 {
                Some((now + HOLDBACK_MS) as u64)
            } else {
                old(self)@.holdback_deadline
            }),
            taken ==> final(self)@.pending == joined_ready(
                old(self)@.pending,
                push_spec(old(self)@.buffer, fragment@).1,
                push_spec(old(self)@.buffer, fragment@).1.len() as int,
            ),
            final(self)@.asr_running == old(self)@.asr_running,
            final(self)@.processing == old(self)@.processing,
            final(self)@.paused == old(self)@.paused,
            final(self)@.recording == old(self)@.recording,
    {
        if !(self.asr_running && !self.is_paused) {
            return false;
        }
        let ready = self.speech_agg.push(fragment);
        let ghost texts = views(ready@);
        let mut i: usize = 0;
        while i < ready.len()
            invariant
                i <= ready.len(),
                texts == views(ready@),
                self.pending_transcript@ == joined_ready(old(self)@.pending, texts, i as int),
                self.asr_running == old(self).asr_running,
                self.processing == old(self).processing,
                self.is_paused == old(self).is_paused,
                self.current_recording_id == old(self).current_recording_id,
                self.flush_deadline == old(self).flush_deadline,
                self.holdback_deadline == old(self).holdback_deadline,
                self.speech_agg.buf@ == push_spec(old(self)@.buffer, fragment@).0,
            decreases ready.len() - i,
        {
            if !self.pending_transcript.as_str().is_empty() {
                self.pending_transcript.push(' ');
            }
            self.pending_transcript.append(ready[i].as_str());
            proof {
                assert(texts[i as int] == ready@[i as int]@);
            }
            i += 1;
        }
        if ready.len() > 0 {
            self.holdback_deadline = Some(now + HOLDBACK_MS);
        }
        if self.speech_agg.buf.as_str().is_empty() {
            self.flush_deadline = None;
        } else {
            self.flush_deadline = Some(now + FLUSH_TIMEOUT_MS);
        }
        true
    }

    /// Takes a tick of the timer at the time `now`. When the holdback is
    /// over, the text that has gathered fires as one turn; when the slow
    /// buffer is due, it fires what it holds. A blank text fires nothing.
    /// Where a turn fires, the turn that runs is cancelled first.
    pub fn on_timer(&mut self, now: u64) -> (r: Vec<Directive>)
        ensures
            final(self)@ == after_timer(old(self)@, now),
            directive_views(r@) == timer_directives(old(self)@, now),
    {
        let mut out: Vec<Directive> = Vec::new();
        let ghost m = self@;
        assert(directive_views(out@) =~= Seq::<DirectiveModel>::empty());
        let holdback_over = match self.holdback_deadline {
            Some(d) => now >= d,
            None => false,
        };
        let flush_over = match self.flush_deadline {
            Some(d) => now >= d,
            None => false,
        };
        if holdback_over {
            let mut text = self.speech_agg.flush();
            if !self.pending_transcript.as_str().is_empty() {
                if !text.as_str().is_empty() {
                    text.push(' ');
                }
                text.append(self.pending_transcript.as_str());
            }
            self.pending_transcript = String::new();
            self.holdback_deadline = None;
            assert(text@ == turn_text(m));
            assert(self@.buffer =~= Seq::<char>::empty());
            if !is_blank_str(text.as_str()) {
                self.push_cancel(&mut out);
                let ghost head = directive_views(out@);
                out.push(
                    Directive::SpawnTurn {
                        text,
                        recording_id: copy_id(&self.current_recording_id),
                    },
                );
                assert(directive_views(out@) =~= head + seq![
                    DirectiveModel::SpawnTurn { text: text@, recording_id: m.recording },
                ]);
                self.processing = true;
                self.flush_deadline = None;
            }
        } else if flush_over {
            proof {
                crate::text::lemma_trim_empty_iff_blank(m.buffer);
            }
            let text = self.speech_agg.flush();
            self.flush_deadline = None;
            assert(self@.buffer =~= Seq::<char>::empty());
            if !text.as_str().is_empty() {
                self.push_cancel(&mut out);
                let ghost head = directive_views(out@);
                out.push(
                    Directive::SpawnTurn {
                        text,
                        recording_id: copy_id(&self.current_recording_id),
                    },
                );
                assert(directive_views(out@) =~= head + seq![
                    DirectiveModel::SpawnTurn { text: text@, recording_id: m.recording },
                ]);
                self.processing = true;
            }
        }
        out
    }
}

/// The fragments that wait, with the first `n` turn texts that the slow
/// buffer handed out added, a space between each two.
pub open spec fn joined_ready(pending: Seq<char>, ready: Seq<Seq<char>>, n: int) -> Seq<char>
    decreases n,
{
    if n <= 0 {
        pending
    } else {
        let before = joined_ready(pending, ready, n - 1);
        (if before.len() > 0 {
            before.push(' ')
        } else {
            before
        }) + ready[n - 1]
    }
}

} // verus!
